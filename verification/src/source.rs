//! The closed set of line sources (file, standard input, spawned
//! command), the rules that pick one from the parsed arguments, the
//! follow-mode rule, and the per-source decisions the driving loop
//! consults: how a child's exit is classified and whether an interrupt
//! may reach the child.

use vstd::prelude::*;

use crate::cli::Cli;

verus! {

/// One of the three origins of lines. A `Command` source owns the spawned
/// child for its lifetime and is always in follow mode.
pub enum SourceKind {
    File { path: String, follow: bool },
    Stdin { follow: bool },
    Command { command_line: String },
}

/// The model of a source: the same variants over mathematical strings.
pub enum SourceModel {
    File { path: Seq<char>, follow: bool },
    Stdin { follow: bool },
    Command { command_line: Seq<char> },
}

impl View for SourceKind {
    type V = SourceModel;

    open spec fn view(&self) -> SourceModel {
        match self {
            SourceKind::File { path, follow } => SourceModel::File { path: path@, follow: *follow },
            SourceKind::Stdin { follow } => SourceModel::Stdin { follow: *follow },
            SourceKind::Command { command_line } => SourceModel::Command { command_line: command_line@ },
        }
    }
}

/// Whether a source keeps delivering newly arriving data after the
/// initially available content is exhausted.
pub open spec fn follows_spec(s: SourceModel) -> bool {
    match s {
        SourceModel::File { follow, .. } => follow,
        SourceModel::Stdin { follow } => follow,
        SourceModel::Command { .. } => true,
    }
}

impl SourceKind {
    /// A command source follows regardless of any flag; the others follow
    /// exactly when asked to.
    pub fn follows(&self) -> (r: bool)
        ensures
            r == follows_spec(self@),
    {
        match self {
            SourceKind::File { follow, .. } => *follow,
            SourceKind::Stdin { follow } => *follow,
            SourceKind::Command { .. } => true,
        }
    }
}

/// The effective follow mode of the run: an explicit external command
/// forces following, otherwise the flag decides.
pub fn should_follow(follow: bool, has_follow_command: bool) -> (r: bool)
    ensures
        r == (follow || has_follow_command),
{
    if has_follow_command {
        return true;
    }
    follow
}

/// Which source the run uses, given the parsed arguments and whether the
/// inherited input channel is a terminal. A non-terminal input channel
/// wins, then an explicit command, then an explicit file path; `None`
/// means no input applies and the run must stop with a "missing input"
/// message before any pipeline is started.
pub open spec fn select_source_spec(
    file_path: Option<Seq<char>>,
    stdin_is_terminal: bool,
    listen_command: Option<Seq<char>>,
    follow: bool,
) -> Option<SourceModel> {
    if !stdin_is_terminal {
        Some(SourceModel::Stdin { follow })
    } else if listen_command is Some {
        Some(SourceModel::Command { command_line: listen_command->0 })
    } else if file_path is Some {
        Some(SourceModel::File { path: file_path->0, follow })
    } else {
        None
    }
}

/// Builds the source for the parsed arguments, with `follow` already
/// resolved by `should_follow`.
pub fn select_source(args: &Cli, stdin_is_terminal: bool, follow: bool) -> (r: Option<SourceKind>)
    ensures
        (match r {
            Some(s) => Some(s@),
            None => None,
        }) == select_source_spec(
            args.file_path.deep_view(),
            stdin_is_terminal,
            args.listen_command.deep_view(),
            follow,
        ),
{
    if !stdin_is_terminal {
        Some(SourceKind::Stdin { follow })
    } else if let Some(cmd) = &args.listen_command {
        Some(SourceKind::Command { command_line: cmd.clone() })
    } else if let Some(path) = &args.file_path {
        Some(SourceKind::File { path: path.clone(), follow })
    } else {
        None
    }
}

/// How the end of a spawned child is classified once its output stream
/// has closed: a zero status is a normal end of data, a non-zero status
/// surfaces as a fault carrying that status.
#[derive(Clone, Copy, Debug, PartialEq, Eq, Structural)]
pub enum ChildEnd {
    NormalEnd,
    Fault(i32),
}

pub fn classify_child_exit(exit_code: i32) -> (r: ChildEnd)
    ensures
        r == (if exit_code == 0 {
            ChildEnd::NormalEnd
        } else {
            ChildEnd::Fault(exit_code)
        }),
{
    if exit_code == 0 {
        ChildEnd::NormalEnd
    } else {
        ChildEnd::Fault(exit_code)
    }
}

/// What an interrupt delivered to the run may do to a source's process:
/// for a command source the child is shielded — an interrupt aimed at the
/// run is never forwarded to it by itself; ending the child is always an
/// explicit, separate decision. The other sources own no child.
#[derive(Clone, Copy, Debug, PartialEq, Eq, Structural)]
pub enum InterruptDisposition {
    ShieldChild,
    NoChild,
}

pub fn child_interrupt_policy(source: &SourceKind) -> (r: InterruptDisposition)
    ensures
        r == (match source@ {
            SourceModel::Command { .. } => InterruptDisposition::ShieldChild,
            _ => InterruptDisposition::NoChild,
        }),
{
    match source {
        SourceKind::Command { .. } => InterruptDisposition::ShieldChild,
        _ => InterruptDisposition::NoChild,
    }
}

/// What the run does for a parsed command line, in the order the flags
/// are honoured: a completion request wins, then the two configuration
/// actions, then the pipeline over the selected source; with no source
/// to select, the run reports missing input and starts no pipeline.
pub enum StartupAction {
    PrintCompletions,
    CreateDefaultConfig,
    ShowDefaultConfig,
    MissingInput,
    Run { source: SourceKind, follow: bool, to_stdout: bool },
}

/// The model of a startup decision.
pub enum StartupModel {
    PrintCompletions,
    CreateDefaultConfig,
    ShowDefaultConfig,
    MissingInput,
    Run { source: SourceModel, follow: bool, to_stdout: bool },
}

impl View for StartupAction {
    type V = StartupModel;

    open spec fn view(&self) -> StartupModel {
        match self {
            StartupAction::PrintCompletions => StartupModel::PrintCompletions,
            StartupAction::CreateDefaultConfig => StartupModel::CreateDefaultConfig,
            StartupAction::ShowDefaultConfig => StartupModel::ShowDefaultConfig,
            StartupAction::MissingInput => StartupModel::MissingInput,
            StartupAction::Run { source, follow, to_stdout } => StartupModel::Run {
                source: source@,
                follow: *follow,
                to_stdout: *to_stdout,
            },
        }
    }
}

/// The startup decision for a parsed command line.
pub open spec fn startup_spec(c: crate::cli::CliModel, stdin_is_terminal: bool) -> StartupModel {
    if c.generate_shell_completions is Some {
        StartupModel::PrintCompletions
    } else if c.create_default_config {
        StartupModel::CreateDefaultConfig
    } else if c.show_default_config {
        StartupModel::ShowDefaultConfig
    } else {
        let follow = c.follow || c.listen_command is Some;
        match select_source_spec(c.file_path, stdin_is_terminal, c.listen_command, follow) {
            Some(source) => StartupModel::Run { source, follow, to_stdout: c.to_stdout },
            None => StartupModel::MissingInput,
        }
    }
}

/// Decides what the run does, exactly as `startup_spec` says of the
/// parsed arguments and the input channel.
pub fn startup_plan(args: &Cli, stdin_is_terminal: bool) -> (r: StartupAction)
    ensures
        r@ == startup_spec(args@, stdin_is_terminal),
{
    if args.generate_shell_completions.is_some() {
        StartupAction::PrintCompletions
    } else if args.create_default_config {
        StartupAction::CreateDefaultConfig
    } else if args.show_default_config {
        StartupAction::ShowDefaultConfig
    } else {
        let follow = should_follow(args.follow, args.listen_command.is_some());
        match select_source(args, stdin_is_terminal, follow) {
            Some(source) => StartupAction::Run { source, follow, to_stdout: args.to_stdout },
            None => StartupAction::MissingInput,
        }
    }
}

} // verus!
