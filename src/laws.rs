//! General properties of decoding and walking.

use vstd::prelude::*;

use crate::decode::{decode_spec, is_prefix, resolve, Table};
use crate::insn::{DecodeError, InsnView};
use crate::tables::{spec_ddcb, spec_fdcb, spec_main};
use crate::walk::{lemma_decode_advances, walk_spec};

verus! {

/// The bytes of a sequence of instructions, one after another.
pub open spec fn concat_bytes(v: Seq<InsnView>) -> Seq<u8>
    decreases v.len(),
{
    if v.len() == 0 {
        seq![]
    } else {
        v[0].bytes + concat_bytes(v.subrange(1, v.len() as int))
    }
}

/// The sum of the sizes of a sequence of instructions.
pub open spec fn total_size(v: Seq<InsnView>) -> int
    decreases v.len(),
{
    if v.len() == 0 {
        0
    } else {
        v[0].bytes.len() + total_size(v.subrange(1, v.len() as int))
    }
}

proof fn lemma_walk_tiles(s: Seq<u8>, off: int, address: usize)
    requires
        0 <= off <= s.len(),
    ensures
        walk_spec(s, off, address) matches Ok(v) ==> concat_bytes(v) == s.subrange(off, s.len() as int)
            && total_size(v) == s.len() - off,
    decreases s.len() - off,
{
    if off == s.len() {
        assert(s.subrange(off, s.len() as int) =~= seq![]);
    } else {
        lemma_decode_advances(s, off, address);
        if let Ok(i) = decode_spec(s, off, address) {
            let n = i.bytes.len();
            let next = address.wrapping_add(n as usize);
            lemma_walk_tiles(s, off + n, next);
            if let Ok(w) = walk_spec(s, off + n, next) {
                let v = seq![i] + w;
                assert(v.subrange(1, v.len() as int) =~= w);
                assert(s.subrange(off, s.len() as int) =~= i.bytes + s.subrange(off + n, s.len() as int));
            }
        }
    }
}

/// A successful walk of a stream tiles it: the instructions' bytes, one
/// after another, are the stream, and their sizes add up to its length.
pub proof fn lemma_walk_covers_stream(s: Seq<u8>, address: usize)
    ensures
        walk_spec(s, 0, address) matches Ok(v) ==> concat_bytes(v) == s && total_size(v) == s.len(),
{
    lemma_walk_tiles(s, 0, address);
    assert(s.subrange(0, s.len() as int) =~= s);
}

/// A stream whose byte at `off` is no prefix is decoded there with the
/// unprefixed table, at the index of that byte; it can then only fail for
/// want of operand bytes.
pub proof fn lemma_plain_byte_selects_main(s: Seq<u8>, off: int, address: usize)
    requires
        0 <= off < s.len(),
        !is_prefix(s[off]),
    ensures
        resolve(s, off) == (Table::Main, 0int),
        decode_spec(s, off, address) is Ok <==> off + spec_main(s[off]).spec_size() <= s.len(),
        decode_spec(s, off, address) matches Ok(i) ==> i.opcode == spec_main(s[off]),
        decode_spec(s, off, address) matches Err(e) ==> e == DecodeError::TruncatedOperand,
{
}

/// `0xDD 0xCB d op` (and `0xFD 0xCB d op`) is decoded with the compound
/// table at index `op`, takes `d` as its operand and occupies four bytes.
pub proof fn lemma_compound_prefix(s: Seq<u8>, off: int, address: usize)
    requires
        0 <= off,
        off + 3 < s.len(),
        s[off] == 0xDD || s[off] == 0xFD,
        s[off + 1] == 0xCB,
    ensures
        decode_spec(s, off, address) matches Ok(i) && i.bytes.len() == 4 && i.arg == s[off + 2]
            && i.opcode == (if s[off] == 0xDD {
            spec_ddcb(s[off + 3])
        } else {
            spec_fdcb(s[off + 3])
        }),
{
    let b = s[off + 3];
    assert(spec_ddcb(b).spec_size() == 4 && spec_ddcb(b).arg_len == 1);
    assert(spec_fdcb(b).spec_size() == 4 && spec_fdcb(b).arg_len == 1);
}

/// Decoding at a last byte that is a prefix fails with `TruncatedPrefix`.
pub proof fn lemma_trailing_prefix_truncated(s: Seq<u8>, address: usize)
    requires
        s.len() > 0,
        is_prefix(s.last()),
    ensures
        decode_spec(s, s.len() - 1, address) == Err::<InsnView, DecodeError>(DecodeError::TruncatedPrefix),
{
}

/// The load address given to the decoder shows only in the record's
/// address: whether decoding succeeds, the error, the text, the bytes, the
/// operand and the entry are the same for any two addresses.
pub proof fn lemma_address_independent(s: Seq<u8>, off: int, a1: usize, a2: usize)
    requires
        0 <= off < s.len(),
    ensures
        decode_spec(s, off, a1) is Ok <==> decode_spec(s, off, a2) is Ok,
        decode_spec(s, off, a1) matches Err(e) ==> decode_spec(s, off, a2) == Err::<InsnView, DecodeError>(e),
        decode_spec(s, off, a1) matches Ok(i1) ==> decode_spec(s, off, a2) matches Ok(i2) && i1.address == a1
            && i2.address == a2 && i1.mnemonic == i2.mnemonic && i1.bytes == i2.bytes && i1.arg == i2.arg
            && i1.opcode == i2.opcode,
{
}

} // verus!
