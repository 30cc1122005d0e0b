//! Hexadecimal text as input to the walker.

use vstd::prelude::*;

use crate::insn::{DecodeError, Insn};
use crate::walk::{disass_stream, walk_spec, walk_view};

verus! {

pub open spec fn is_hex_digit(c: char) -> bool {
    ('0' <= c && c <= '9') || ('a' <= c && c <= 'f') || ('A' <= c && c <= 'F')
}

/// The value of a hex digit, either case.
pub open spec fn hex_value(c: char) -> int {
    if c <= '9' {
        c as int - '0' as int
    } else if c >= 'a' {
        c as int - 'a' as int + 10
    } else {
        c as int - 'A' as int + 10
    }
}

/// Text that is an even number of hex digits.
pub open spec fn valid_hex(t: Seq<char>) -> bool {
    &&& t.len() % 2 == 0
    &&& forall|i: int| 0 <= i < t.len() ==> is_hex_digit(#[trigger] t[i])
}

/// The bytes that hex text stands for, two digits each, high digit first.
pub open spec fn hex_bytes(t: Seq<char>) -> Seq<u8> {
    Seq::new((t.len() / 2) as nat, |i: int| (16 * hex_value(t[2 * i]) + hex_value(t[2 * i + 1])) as u8)
}

/// Relies on hex::decode: it accepts exactly an even number of hex digits
/// (either case) and turns each pair into one byte, high digit first.
#[verifier::external_body]
fn hex_decode(text: &str) -> (r: Option<Vec<u8>>)
    ensures
        r is Some <==> valid_hex(text@),
        r matches Some(v) ==> v@ == hex_bytes(text@),
{
    hex::decode(text).ok()
}

/// Decodes hex text into bytes and disassembles them from load address
/// `address` on. Fails with `InvalidHex` when the text is not an even number
/// of hex digits, else as the stream walk does.
pub fn disass_hex_string(hex_string: &str, address: usize) -> (r: Result<Vec<Insn>, DecodeError>)
    ensures
        !valid_hex(hex_string@) ==> r == Err::<Vec<Insn>, DecodeError>(DecodeError::InvalidHex),
        valid_hex(hex_string@) ==> walk_view(r) == walk_spec(hex_bytes(hex_string@), 0, address),
{
    match hex_decode(hex_string) {
        None => Err(DecodeError::InvalidHex),
        Some(stream) => disass_stream(&stream, address),
    }
}

} // verus!
