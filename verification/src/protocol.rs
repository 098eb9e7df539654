//! The one-line-per-command protocol spoken on the child's input stream.
//!
//! Everything the driver ever writes to the child is a command line: a
//! non-empty run of bytes none of which is the line terminator, closed by
//! exactly one terminator. The first such line of a session carries the seed
//! in decimal text; every later one carries a single-character command.

use vstd::prelude::*;

verus! {

/// Byte value of the line terminator that ends every command line.
pub const NEWLINE_BYTE: u8 = 10;

/// A well-formed command line: at least one byte, terminated by the line
/// terminator, with no terminator anywhere in the interior. This is the
/// unit of atomicity on the shared input stream.
pub open spec fn is_command_line(l: Seq<u8>) -> bool {
    &&& l.len() > 0
    &&& l[l.len() - 1] == NEWLINE_BYTE
    &&& forall|i: int| 0 <= i < l.len() - 1 ==> l[i] != NEWLINE_BYTE
}

/// Decimal digits of `n`, most significant first, as ASCII bytes.
pub open spec fn dec_digits(n: nat) -> Seq<u8>
    decreases n,
{
    if n < 10 {
        seq![(48 + n) as u8]
    } else {
        dec_digits(n / 10).push((48 + n % 10) as u8)
    }
}

/// Decimal text of a signed value: an ASCII minus sign, when negative, then
/// the digits of the magnitude.
pub open spec fn dec_bytes(v: int) -> Seq<u8> {
    if v < 0 {
        seq![45u8] + dec_digits((-v) as nat)
    } else {
        dec_digits(v as nat)
    }
}

/// The handshake line: the seed in decimal text plus the line terminator.
pub open spec fn seed_line_spec(seed: int) -> Seq<u8> {
    dec_bytes(seed).push(NEWLINE_BYTE)
}

/// Every byte of a digit run is an ASCII digit; in particular none is the
/// line terminator, so decimal text can stand in a command line's interior.
pub proof fn lemma_dec_digits_ascii(n: nat)
    ensures
        dec_digits(n).len() >= 1,
        forall|i: int| 0 <= i < dec_digits(n).len() ==> 48 <= #[trigger] dec_digits(n)[i] <= 57,
    decreases n,
{
    if n >= 10 {
        lemma_dec_digits_ascii(n / 10);
        assert forall|i: int| 0 <= i < dec_digits(n).len() implies 48 <= #[trigger] dec_digits(
            n,
        )[i] <= 57 by {
            if i < dec_digits(n / 10).len() {
                assert(dec_digits(n)[i] == dec_digits(n / 10)[i]);
            }
        }
    }
}

/// The seed line is a well-formed command line, whatever the seed.
pub proof fn lemma_seed_line_is_command(seed: int)
    ensures
        is_command_line(seed_line_spec(seed)),
{
    let b = dec_bytes(seed);
    if seed < 0 {
        lemma_dec_digits_ascii((-seed) as nat);
        assert forall|i: int| 0 <= i < b.len() implies b[i] != NEWLINE_BYTE by {
            if i > 0 {
                assert(b[i] == dec_digits((-seed) as nat)[i - 1]);
            }
        }
    } else {
        lemma_dec_digits_ascii(seed as nat);
        assert forall|i: int| 0 <= i < b.len() implies b[i] != NEWLINE_BYTE by {
            assert(48 <= b[i] <= 57);
        }
    }
}

/// Appends the decimal digits of `n` to `out`.
fn push_digits(out: &mut Vec<u8>, n: u32)
    ensures
        final(out)@ == old(out)@ + dec_digits(n as nat),
    decreases n,
{
    if n >= 10 {
        push_digits(out, n / 10);
    }
    out.push(48 + (n % 10) as u8);
    assert(out@ =~= old(out)@ + dec_digits(n as nat));
}

/// Encodes the handshake line the coordinator writes before anything else:
/// the seed in decimal text, newline-terminated.
pub fn seed_line(seed: i32) -> (r: Vec<u8>)
    ensures
        r@ == seed_line_spec(seed as int),
        is_command_line(r@),
{
    let mut out: Vec<u8> = Vec::new();
    if seed < 0 {
        out.push(45);
        let mag: u32 = (-(seed as i64)) as u32;
        assert(mag as nat == (-(seed as int)) as nat);
        push_digits(&mut out, mag);
    } else {
        push_digits(&mut out, seed as u32);
    }
    out.push(NEWLINE_BYTE);
    proof {
        lemma_seed_line_is_command(seed as int);
        assert(out@ =~= seed_line_spec(seed as int));
    }
    out
}

} // verus!
