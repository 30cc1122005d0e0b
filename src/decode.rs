//! Decoding of one instruction: prefix resolution, table lookup, operand
//! extraction and the record that results.

use vstd::prelude::*;

use crate::insn::{DecodeError, Insn, InsnView, Opcode};
use crate::tables::{
    lookup_cb, lookup_dd, lookup_ddcb, lookup_ed, lookup_fd, lookup_fdcb, lookup_main, spec_cb,
    spec_dd, spec_ddcb, spec_ed, spec_fd, spec_fdcb, spec_main,
};
use crate::text::{format_mnemonic, render};

verus! {

/// Bytes that redirect decoding to another table.
pub open spec fn is_prefix(b: u8) -> bool {
    b == 0xCB || b == 0xDD || b == 0xED || b == 0xFD
}

/// The seven opcode tables, one per prefix context.
#[derive(Debug, Clone, Copy, PartialEq, Eq, Structural)]
pub enum Table {
    Main,
    Cb,
    Dd,
    Ed,
    Fd,
    DdCb,
    FdCb,
}

pub open spec fn table_entry(t: Table, b: u8) -> Opcode {
    match t {
        Table::Main => spec_main(b),
        Table::Cb => spec_cb(b),
        Table::Dd => spec_dd(b),
        Table::Ed => spec_ed(b),
        Table::Fd => spec_fd(b),
        Table::DdCb => spec_ddcb(b),
        Table::FdCb => spec_fdcb(b),
    }
}

/// Where the operand stands, relative to the instruction's first byte.
pub open spec fn operand_pos(t: Table) -> int {
    match t {
        Table::Main => 1,
        _ => 2,
    }
}

/// An entry occupies at least one byte, and its operand (at most two bytes)
/// lies within the bytes it occupies.
pub open spec fn entry_fits(o: Opcode, arg_pos: int) -> bool {
    &&& o.spec_size() >= 1
    &&& o.arg_len <= 2
    &&& o.arg_len > 0 ==> arg_pos + o.arg_len <= o.spec_size()
}

/// Every entry of every table fits the operand position of its table.
pub proof fn lemma_entry_fits(t: Table, b: u8)
    ensures
        entry_fits(table_entry(t, b), operand_pos(t)),
{
    match t {
        Table::Main => assert(entry_fits(spec_main(b), 1)),
        Table::Cb => assert(entry_fits(spec_cb(b), 2)),
        Table::Dd => assert(entry_fits(spec_dd(b), 2)),
        Table::Ed => assert(entry_fits(spec_ed(b), 2)),
        Table::Fd => assert(entry_fits(spec_fd(b), 2)),
        Table::DdCb => assert(entry_fits(spec_ddcb(b), 2)),
        Table::FdCb => assert(entry_fits(spec_fdcb(b), 2)),
    }
}

/// Looks up entry `b` of table `t`.
pub fn lookup(t: Table, b: u8) -> (r: Opcode)
    ensures
        r == table_entry(t, b),
        entry_fits(r, operand_pos(t)),
{
    proof {
        lemma_entry_fits(t, b);
    }
    match t {
        Table::Main => lookup_main(b),
        Table::Cb => lookup_cb(b),
        Table::Dd => lookup_dd(b),
        Table::Ed => lookup_ed(b),
        Table::Fd => lookup_fd(b),
        Table::DdCb => lookup_ddcb(b),
        Table::FdCb => lookup_fdcb(b),
    }
}

/// The table that the bytes at `off` select, with the positions of the
/// opcode byte and of the operand relative to `off`.
pub open spec fn resolve(s: Seq<u8>, off: int) -> (Table, int) {
    let b = s[off];
    let second_is_cb = off + 1 < s.len() && s[off + 1] == 0xCB;
    if b == 0xDD && second_is_cb {
        (Table::DdCb, 3)
    } else if b == 0xFD && second_is_cb {
        (Table::FdCb, 3)
    } else if b == 0xCB {
        (Table::Cb, 1)
    } else if b == 0xDD {
        (Table::Dd, 1)
    } else if b == 0xED {
        (Table::Ed, 1)
    } else if b == 0xFD {
        (Table::Fd, 1)
    } else {
        (Table::Main, 0)
    }
}

/// The little-endian operand of `len` bytes at `pos` (0 when `len` is 0).
pub open spec fn operand(s: Seq<u8>, pos: int, len: u8) -> u16 {
    if len == 0 {
        0
    } else if len == 1 {
        s[pos] as u16
    } else {
        (s[pos] + 256 * s[pos + 1]) as u16
    }
}

/// The result of decoding the instruction at offset `off` of `s`, said to
/// stand at load address `address`.
pub open spec fn decode_spec(s: Seq<u8>, off: int, address: usize) -> Result<InsnView, DecodeError> {
    let (t, op_pos) = resolve(s, off);
    if off + op_pos >= s.len() {
        Err(DecodeError::TruncatedPrefix)
    } else {
        let o = table_entry(t, s[off + op_pos]);
        if off + o.spec_size() > s.len() {
            Err(DecodeError::TruncatedOperand)
        } else {
            let arg = operand(s, off + operand_pos(t), o.arg_len);
            Ok(
                InsnView {
                    address,
                    mnemonic: render(o, arg),
                    bytes: s.subrange(off, off + o.spec_size()),
                    arg,
                    opcode: o,
                },
            )
        }
    }
}

/// The view of a decode result.
pub open spec fn result_view(r: Result<Insn, DecodeError>) -> Result<InsnView, DecodeError> {
    match r {
        Ok(i) => Ok(i@),
        Err(e) => Err(e),
    }
}

/// Picks the table for the instruction at `stream[offset]` and the position
/// of its opcode byte relative to `offset`: a compound prefix
/// (`0xDD 0xCB`, `0xFD 0xCB`), a single prefix, or none.
pub fn resolve_prefix(stream: &Vec<u8>, offset: usize) -> (r: (Table, usize))
    requires
        offset < stream.len(),
    ensures
        (r.0, r.1 as int) == resolve(stream@, offset as int),
        r.1 == 0 <==> operand_pos(r.0) == 1,
{
    let b = stream[offset];
    let second_is_cb = offset + 1 < stream.len() && stream[offset + 1] == 0xCB;
    if b == 0xDD && second_is_cb {
        (Table::DdCb, 3)
    } else if b == 0xFD && second_is_cb {
        (Table::FdCb, 3)
    } else if b == 0xCB {
        (Table::Cb, 1)
    } else if b == 0xDD {
        (Table::Dd, 1)
    } else if b == 0xED {
        (Table::Ed, 1)
    } else if b == 0xFD {
        (Table::Fd, 1)
    } else {
        (Table::Main, 0)
    }
}

/// Reads the little-endian operand of `len` bytes at `stream[pos]`.
pub fn read_operand(stream: &Vec<u8>, pos: usize, len: u8) -> (r: u16)
    requires
        len <= 2,
        len > 0 ==> pos + len <= stream.len(),
    ensures
        r == operand(stream@, pos as int, len),
{
    if len == 0 {
        0
    } else if len == 1 {
        stream[pos] as u16
    } else {
        stream[pos] as u16 + stream[pos + 1] as u16 * 256
    }
}

/// Copies `s[from..to]`.
fn copy_range(s: &Vec<u8>, from: usize, to: usize) -> (r: Vec<u8>)
    requires
        from <= to <= s.len(),
    ensures
        r@ == s@.subrange(from as int, to as int),
{
    let mut r: Vec<u8> = Vec::new();
    let mut i: usize = from;
    while i < to
        invariant
            from <= i <= to <= s.len(),
            r@ == s@.subrange(from as int, i as int),
        decreases to - i,
    {
        r.push(s[i]);
        i += 1;
        assert(r@ =~= s@.subrange(from as int, i as int));
    }
    r
}

/// Decodes the instruction that starts at `stream[offset]` and records it at
/// load address `address`.
///
/// Fails with `TruncatedPrefix` when the stream ends before the opcode byte
/// that a prefix announces, and with `TruncatedOperand` when it ends before
/// the last byte that the selected entry occupies. A byte with no documented
/// meaning decodes to an `Invalid` entry of size 1.
pub fn disass_insn(stream: &Vec<u8>, offset: usize, address: usize) -> (r: Result<Insn, DecodeError>)
    requires
        offset < stream.len(),
    ensures
        result_view(r) == decode_spec(stream@, offset as int, address),
{
    let len = stream.len();
    let (t, op_pos) = resolve_prefix(stream, offset);
    if op_pos >= len - offset {
        return Err(DecodeError::TruncatedPrefix);
    }
    let op = lookup(t, stream[offset + op_pos]);
    let size = op.size();
    if size > len - offset {
        return Err(DecodeError::TruncatedOperand);
    }
    let arg = read_operand(stream, offset + if op_pos == 0 { 1 } else { 2 }, op.arg_len);
    let mnemonic = format_mnemonic(&op, arg);
    let bytes = copy_range(stream, offset, offset + size);
    let insn = Insn { address, mnemonic, bytes, arg, opcode: op };
    assert(insn@ == decode_spec(stream@, offset as int, address).unwrap());
    Ok(insn)
}

} // verus!
