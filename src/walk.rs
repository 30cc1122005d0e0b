//! The stream walker: instructions decoded one after another.

use vstd::prelude::*;

use crate::decode::{decode_spec, disass_insn, lemma_entry_fits, resolve, table_entry};
use crate::insn::{DecodeError, Insn, InsnView};

verus! {

/// Decoding at `off` either fails or consumes at least one byte.
pub proof fn lemma_decode_advances(s: Seq<u8>, off: int, address: usize)
    requires
        0 <= off < s.len(),
    ensures
        decode_spec(s, off, address) matches Ok(i) ==> i.bytes.len() >= 1,
{
    let (t, op_pos) = resolve(s, off);
    if off + op_pos < s.len() {
        lemma_entry_fits(t, s[off + op_pos]);
    }
}

/// The instructions decoded one after another from offset `off` to the end
/// of `s`, the first at load address `address`; or the first decode error.
pub open spec fn walk_spec(s: Seq<u8>, off: int, address: usize) -> Result<Seq<InsnView>, DecodeError>
    decreases s.len() - off,
    via walk_spec_decreases
{
    if off < 0 || off >= s.len() {
        Ok(seq![])
    } else {
        match decode_spec(s, off, address) {
            Err(e) => Err(e),
            Ok(i) => {
                let n = i.bytes.len();
                prepend(seq![i], walk_spec(s, off + n, address.wrapping_add(n as usize)))
            },
        }
    }
}

#[via_fn]
proof fn walk_spec_decreases(s: Seq<u8>, off: int, address: usize) {
    if 0 <= off < s.len() {
        lemma_decode_advances(s, off, address);
    }
}

/// `acc` followed by what `r` holds, or the error of `r`.
pub open spec fn prepend(acc: Seq<InsnView>, r: Result<Seq<InsnView>, DecodeError>) -> Result<
    Seq<InsnView>,
    DecodeError,
> {
    match r {
        Ok(v) => Ok(acc + v),
        Err(e) => Err(e),
    }
}

pub open spec fn views(v: Seq<Insn>) -> Seq<InsnView> {
    v.map_values(|i: Insn| i@)
}

pub open spec fn walk_view(r: Result<Vec<Insn>, DecodeError>) -> Result<Seq<InsnView>, DecodeError> {
    match r {
        Ok(v) => Ok(views(v@)),
        Err(e) => Err(e),
    }
}

/// Decodes the whole of `stream`, the first instruction at load address
/// `address` and each next one after the bytes of the one before. Stops at
/// the first decode error and returns it.
pub fn disass_stream(stream: &Vec<u8>, address: usize) -> (r: Result<Vec<Insn>, DecodeError>)
    ensures
        walk_view(r) == walk_spec(stream@, 0, address),
{
    let mut insns: Vec<Insn> = Vec::new();
    let mut offset: usize = 0;
    let mut addr: usize = address;
    while offset < stream.len()
        invariant
            offset <= stream.len(),
            walk_spec(stream@, 0, address) == prepend(views(insns@), walk_spec(stream@, offset as int, addr)),
        decreases stream.len() - offset,
    {
        let insn = match disass_insn(stream, offset, addr) {
            Ok(i) => i,
            Err(e) => return Err(e),
        };
        let n = insn.bytes.len();
        let ghost acc = views(insns@);
        let ghost rest = walk_spec(stream@, offset + n, addr.wrapping_add(n));
        proof {
            lemma_decode_advances(stream@, offset as int, addr);
            assert(walk_spec(stream@, offset as int, addr) == prepend(seq![insn@], rest));
            assert(views(insns@.push(insn)) =~= acc + seq![insn@]);
            if let Ok(v) = rest {
                assert(acc + (seq![insn@] + v) =~= (acc + seq![insn@]) + v);
            }
        }
        offset = offset + n;
        addr = addr.wrapping_add(n);
        insns.push(insn);
    }
    assert(views(insns@) + seq![] =~= views(insns@));
    Ok(insns)
}

} // verus!
