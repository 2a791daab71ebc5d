//! The records that listing and summarising produce, and the lines that
//! report them.

use crate::location::Location;
use vstd::prelude::*;
use vstd::string::*;

verus! {

/// What a listing says of one object.
#[derive(Clone, Debug, PartialEq, Eq)]
pub struct ObjectMetadata {
    pub location: Location,
    pub size: u64,
    /// Seconds since the Unix epoch, where the backend reports a time.
    pub last_modified: Option<i64>,
}

/// The summary of one object: its key and the number of zero bytes in it.
#[derive(Clone, Debug, PartialEq, Eq)]
pub struct ZeroSummary {
    pub location: Location,
    pub zeros: usize,
}

/// The text of one decimal digit; empty for a number that is none.
pub open spec fn digit_text(d: nat) -> Seq<char> {
    if d == 0 {
        "0"@
    } else if d == 1 {
        "1"@
    } else if d == 2 {
        "2"@
    } else if d == 3 {
        "3"@
    } else if d == 4 {
        "4"@
    } else if d == 5 {
        "5"@
    } else if d == 6 {
        "6"@
    } else if d == 7 {
        "7"@
    } else if d == 8 {
        "8"@
    } else if d == 9 {
        "9"@
    } else {
        Seq::empty()
    }
}

/// A number in decimal notation, without leading zeros.
pub open spec fn decimal_text(n: nat) -> Seq<char>
    decreases n,
{
    if n < 10 {
        digit_text(n)
    } else {
        decimal_text(n / 10) + digit_text(n % 10)
    }
}

/// The line that reports one listed object.
pub open spec fn listing_line_text(location: Seq<char>, size: nat) -> Seq<char> {
    "File name: "@ + location + ", size: "@ + decimal_text(size)
}

/// The line that reports the zero bytes of one object.
pub open spec fn zeros_line_text(location: Seq<char>, zeros: nat) -> Seq<char> {
    location + " has "@ + decimal_text(zeros) + " zeros"@
}

/// The line that announces a listing.
pub open spec fn listing_header_text(prefix: Seq<char>) -> Seq<char> {
    "Listing files in '"@ + prefix + "'..."@
}

fn digit(d: u64) -> (s: &'static str)
    requires
        d < 10,
    ensures
        s@ == digit_text(d as nat),
{
    if d == 0 {
        "0"
    } else if d == 1 {
        "1"
    } else if d == 2 {
        "2"
    } else if d == 3 {
        "3"
    } else if d == 4 {
        "4"
    } else if d == 5 {
        "5"
    } else if d == 6 {
        "6"
    } else if d == 7 {
        "7"
    } else if d == 8 {
        "8"
    } else {
        "9"
    }
}

/// Writes a number in decimal notation.
pub fn decimal(n: u64) -> (text: String)
    ensures
        text@ == decimal_text(n as nat),
    decreases n,
{
    if n < 10 {
        String::from_str(digit(n))
    } else {
        decimal(n / 10).concat(digit(n % 10))
    }
}

/// The line `File name: <location>, size: <size>`.
pub fn listing_line(meta: &ObjectMetadata) -> (line: String)
    ensures
        line@ == listing_line_text(meta.location@, meta.size as nat),
{
    let size = decimal(meta.size);
    String::from_str("File name: ").concat(meta.location.as_str()).concat(", size: ").concat(
        size.as_str(),
    )
}

/// The line `<location> has <n> zeros`.
pub fn zeros_line(summary: &ZeroSummary) -> (line: String)
    ensures
        line@ == zeros_line_text(summary.location@, summary.zeros as nat),
{
    let zeros = decimal(summary.zeros as u64);
    String::from_str(summary.location.as_str()).concat(" has ").concat(zeros.as_str()).concat(
        " zeros",
    )
}

/// The line `Listing files in '<prefix>'...`.
pub fn listing_header(prefix: &Location) -> (line: String)
    ensures
        line@ == listing_header_text(prefix@),
{
    String::from_str("Listing files in '").concat(prefix.as_str()).concat("'...")
}

} // verus!
