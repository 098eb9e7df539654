//! The keystroke allow-set and the encoding of a forwarded key.
//!
//! The input relay reads one keystroke at a time from the terminal and
//! forwards only the five game commands, each as its own newline-terminated
//! line on the child's input stream. Every other key is discarded silently.

use vstd::prelude::*;

verus! {

use crate::protocol::NEWLINE_BYTE;
use crate::protocol::is_command_line;

/// The fixed allow-set: exactly the five case-sensitive game keys.
pub open spec fn is_allowed_key(c: char) -> bool {
    c == 'w' || c == 'a' || c == 's' || c == 'd' || c == 'q'
}

/// The ASCII byte an allowed key is encoded as.
pub open spec fn key_byte_spec(c: char) -> u8 {
    if c == 'w' {
        119
    } else if c == 'a' {
        97
    } else if c == 's' {
        115
    } else if c == 'd' {
        100
    } else {
        113
    }
}

/// The line forwarded for an allowed key: its byte plus the line terminator.
pub open spec fn key_line_spec(c: char) -> Seq<u8> {
    seq![key_byte_spec(c), NEWLINE_BYTE]
}

/// Membership test against the allow-set.
pub fn key_allowed(c: char) -> (r: bool)
    ensures
        r == is_allowed_key(c),
{
    c == 'w' || c == 'a' || c == 's' || c == 'd' || c == 'q'
}

/// Encodes an allowed key as the command line forwarded to the child.
pub fn key_line(c: char) -> (r: Vec<u8>)
    requires
        is_allowed_key(c),
    ensures
        r@ == key_line_spec(c),
{
    let mut out: Vec<u8> = Vec::new();
    if c == 'w' {
        out.push(119);
    } else if c == 'a' {
        out.push(97);
    } else if c == 's' {
        out.push(115);
    } else if c == 'd' {
        out.push(100);
    } else {
        out.push(113);
    }
    out.push(NEWLINE_BYTE);
    assert(out@ =~= key_line_spec(c));
    out
}

/// A forwarded key line is a well-formed command line: a key's byte is a
/// lowercase letter, never the line terminator.
pub proof fn lemma_key_line_is_command(c: char)
    ensures
        is_command_line(key_line_spec(c)),
{
}

} // verus!
