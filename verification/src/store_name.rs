//! Naming of the backing store: a uniquely named temporary file per run.
//! The name is built by a verified decimal formatter from an identifier;
//! the identifier itself comes from process-wide randomness, isolated
//! here so callers and tests can also supply a deterministic one.

use vstd::prelude::*;

verus! {

/// The view of one decimal digit.
pub open spec fn digit_seq(d: nat) -> Seq<char> {
    if d == 0 {
        "0"@
    } else if d == 1 {
        "1"@
    } else if d == 2 {
        "2"@
    } else if d == 3 {
        "3"@
    } else if d == 4 {
        "4"@
    } else if d == 5 {
        "5"@
    } else if d == 6 {
        "6"@
    } else if d == 7 {
        "7"@
    } else if d == 8 {
        "8"@
    } else {
        "9"@
    }
}

/// The usual decimal representation of a number, most significant digit
/// first, with no leading zeros (zero itself reads "0").
pub open spec fn dec_rep(n: nat) -> Seq<char>
    decreases n,
{
    if n < 10 {
        digit_seq(n)
    } else {
        dec_rep(n / 10) + digit_seq(n % 10)
    }
}

fn digit_str(d: u32) -> (r: &'static str)
    requires
        d < 10,
    ensures
        r@ == digit_seq(d as nat),
{
    if d == 0 {
        "0"
    } else if d == 1 {
        "1"
    } else if d == 2 {
        "2"
    } else if d == 3 {
        "3"
    } else if d == 4 {
        "4"
    } else if d == 5 {
        "5"
    } else if d == 6 {
        "6"
    } else if d == 7 {
        "7"
    } else if d == 8 {
        "8"
    } else {
        "9"
    }
}

/// Formats a number in decimal.
pub fn u32_to_decimal(n: u32) -> (r: String)
    ensures
        r@ == dec_rep(n as nat),
    decreases n,
{
    if n < 10 {
        String::from_str(digit_str(n))
    } else {
        let prefix = u32_to_decimal(n / 10);
        prefix.concat(digit_str(n % 10))
    }
}

/// The name of the backing store for a run identifier.
pub open spec fn temp_name_spec(id: nat) -> Seq<char> {
    "tailspin.temp."@ + dec_rep(id)
}

/// Builds the backing store's file name from a run identifier, so a test
/// can supply a deterministic one.
pub fn temp_file_name(id: u32) -> (r: String)
    ensures
        r@ == temp_name_spec(id as nat),
{
    let mut s = String::from_str("tailspin.temp.");
    let digits = u32_to_decimal(id);
    s.append(digits.as_str());
    s
}

/// Relies on rand::random: draws a value of the asked-for type from the
/// thread-local generator; nothing is promised of which value comes back.
pub assume_specification<T>[ rand::random::<T> ]() -> (r: T)
    where rand::distributions::Standard: rand::distributions::Distribution<T>
;

/// A backing store name for a fresh run: the fixed stem with a random
/// run identifier.
pub fn fresh_temp_file_name() -> (r: String)
    ensures
        exists|id: u32| r@ == temp_name_spec(id as nat),
{
    let id: u32 = rand::random();
    let r = temp_file_name(id);
    proof {
        assert(r@ == temp_name_spec(id as nat));
    }
    r
}

} // verus!
