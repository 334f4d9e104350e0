//! Streaming line pipeline: a closed set of line sources, a tail
//! orchestrator that drains a source into an append-only sink while
//! signalling completion exactly once, and the small decision functions
//! around it (argument parsing, source selection, error taxonomy,
//! backing-store naming).

pub mod cli;
pub mod error;
pub mod orchestrator;
pub mod sink;
pub mod source;
pub mod store_name;
