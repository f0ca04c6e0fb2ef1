//! Commit ids as git writes them: forty hexadecimal digits, or an abbreviation of at
//! least four.

use vstd::prelude::*;
use crate::hmm::haxelib::opt_text;

verus! {

pub open spec fn is_hex_digit(c: char) -> bool {
    ('0' <= c && c <= '9') || ('a' <= c && c <= 'f') || ('A' <= c && c <= 'F')
}

/// A hexadecimal digit in lower case; any other character as it is.
pub open spec fn lower_hex(c: char) -> char {
    if c == 'A' {
        'a'
    } else if c == 'B' {
        'b'
    } else if c == 'C' {
        'c'
    } else if c == 'D' {
        'd'
    } else if c == 'E' {
        'e'
    } else if c == 'F' {
        'f'
    } else {
        c
    }
}

pub open spec fn all_hex(s: Seq<char>) -> bool {
    forall|i: int| 0 <= i < s.len() ==> is_hex_digit(#[trigger] s[i])
}

pub open spec fn lowered(s: Seq<char>) -> Seq<char> {
    Seq::new(s.len(), |i: int| lower_hex(s[i]))
}

/// The shortest abbreviation of a commit id that is accepted.
pub const MIN_HEX_LEN: usize = 4;

/// The length of a full commit id.
pub const FULL_HEX_LEN: usize = 40;

/// What an abbreviated commit id reads as: its digits in lower case, where it has
/// between four and forty of them and nothing else.
pub open spec fn abbreviation(value: Seq<char>) -> Option<Seq<char>> {
    if MIN_HEX_LEN <= value.len() <= FULL_HEX_LEN && all_hex(value) {
        Some(lowered(value))
    } else {
        None
    }
}

/// What a full commit id reads as: its forty digits in lower case.
pub open spec fn full_id(value: Seq<char>) -> Option<Seq<char>> {
    if value.len() == FULL_HEX_LEN && all_hex(value) {
        Some(lowered(value))
    } else {
        None
    }
}

/// Reads `value` with `gix::hash::Prefix::from_hex` and writes the prefix out again
/// through its `Display`.
///
/// Trusted: gix accepts exactly the texts of four to forty hexadecimal digits, in either
/// case (forty being the longest id of the SHA-1 object format, the only one built
/// here), and displays the digits it read in lower case.
#[verifier::external_body]
pub(crate) fn abbreviated_id(value: &str) -> (r: Option<String>)
    ensures
        opt_text(r) == abbreviation(value@),
{
    match gix::hash::Prefix::from_hex(value) {
        Ok(prefix) => Some(prefix.to_string()),
        Err(_) => None,
    }
}

/// Reads `value` with `gix::ObjectId::from_hex` and writes the id out again through
/// its `Display`.
///
/// Trusted: gix accepts exactly the texts of forty hexadecimal digits, in either case,
/// and displays them in lower case.
#[verifier::external_body]
pub(crate) fn full_object_id(value: &str) -> (r: Option<String>)
    ensures
        opt_text(r) == full_id(value@),
{
    match gix::ObjectId::from_hex(value.as_bytes()) {
        Ok(id) => Some(id.to_string()),
        Err(_) => None,
    }
}

/// Whether a text is made of the digits `0` to `9` and `a` to `f` alone.
pub open spec fn lower_case_hex(s: Seq<char>) -> bool {
    forall|i: int|
        0 <= i < s.len() ==> ('0' <= #[trigger] s[i] && s[i] <= '9') || ('a' <= s[i] && s[i]
            <= 'f')
}

/// An id that is already written in lower case reads as itself.
pub proof fn lemma_lower_case_reads_as_itself(value: Seq<char>)
    requires
        lower_case_hex(value),
    ensures
        lowered(value) == value,
        all_hex(value),
{
    assert(lowered(value) =~= value);
}

} // verus!
