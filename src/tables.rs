//! The seven opcode tables, one per prefix context, each indexed by an
//! opcode byte. Each table is stated once as a spec function, which the
//! contracts speak of, and once as an executable lookup proved to return the
//! same entry. Bytes with no documented meaning map to an `Invalid` entry of
//! size 1, so that a walk always moves forward.
use vstd::prelude::*;

use crate::insn::{InsnGroup, Opcode};

verus! {

/// The table of unprefixed opcodes, indexed by opcode byte.
pub open spec fn spec_main(b: u8) -> Opcode {
    match b {
        0x00 => Opcode { mnemonic_fmt: "nop", mnemonic_tail: "", cycles: (4, 0), pre_len: 0, op_len: 1, arg_len: 0, group: InsnGroup::Regular },
        0x01 => Opcode { mnemonic_fmt: "ld bc, $", mnemonic_tail: "", cycles: (10, 0), pre_len: 0, op_len: 1, arg_len: 2, group: InsnGroup::Regular },
        0x02 => Opcode { mnemonic_fmt: "ld (bc), a", mnemonic_tail: "", cycles: (7, 0), pre_len: 0, op_len: 1, arg_len: 0, group: InsnGroup::Regular },
        0x03 => Opcode { mnemonic_fmt: "inc bc", mnemonic_tail: "", cycles: (6, 0), pre_len: 0, op_len: 1, arg_len: 0, group: InsnGroup::Regular },
        0x04 => Opcode { mnemonic_fmt: "inc b", mnemonic_tail: "", cycles: (4, 0), pre_len: 0, op_len: 1, arg_len: 0, group: InsnGroup::Regular },
        0x05 => Opcode { mnemonic_fmt: "dec b", mnemonic_tail: "", cycles: (4, 0), pre_len: 0, op_len: 1, arg_len: 0, group: InsnGroup::Regular },
        0x06 => Opcode { mnemonic_fmt: "ld b, $", mnemonic_tail: "", cycles: (7, 0), pre_len: 0, op_len: 1, arg_len: 1, group: InsnGroup::Regular },
        0x07 => Opcode { mnemonic_fmt: "rlca", mnemonic_tail: "", cycles: (4, 0), pre_len: 0, op_len: 1, arg_len: 0, group: InsnGroup::Regular },
        0x08 => Opcode { mnemonic_fmt: "ex af, af'", mnemonic_tail: "", cycles: (4, 0), pre_len: 0, op_len: 1, arg_len: 0, group: InsnGroup::Regular },
        0x09 => Opcode { mnemonic_fmt: "add hl, bc", mnemonic_tail: "", cycles: (11, 0), pre_len: 0, op_len: 1, arg_len: 0, group: InsnGroup::Regular },
        0x0A => Opcode { mnemonic_fmt: "ld a, (bc)", mnemonic_tail: "", cycles: (7, 0), pre_len: 0, op_len: 1, arg_len: 0, group: InsnGroup::Regular },
        0x0B => Opcode { mnemonic_fmt: "dec bc", mnemonic_tail: "", cycles: (6, 0), pre_len: 0, op_len: 1, arg_len: 0, group: InsnGroup::Regular },
        0x0C => Opcode { mnemonic_fmt: "inc c", mnemonic_tail: "", cycles: (4, 0), pre_len: 0, op_len: 1, arg_len: 0, group: InsnGroup::Regular },
        0x0D => Opcode { mnemonic_fmt: "dec c", mnemonic_tail: "", cycles: (4, 0), pre_len: 0, op_len: 1, arg_len: 0, group: InsnGroup::Regular },
        0x0E => Opcode { mnemonic_fmt: "ld c, $", mnemonic_tail: "", cycles: (7, 0), pre_len: 0, op_len: 1, arg_len: 1, group: InsnGroup::Regular },
        0x0F => Opcode { mnemonic_fmt: "rrca", mnemonic_tail: "", cycles: (4, 0), pre_len: 0, op_len: 1, arg_len: 0, group: InsnGroup::Regular },
        0x10 => Opcode { mnemonic_fmt: "djnz $", mnemonic_tail: "", cycles: (8, 5), pre_len: 0, op_len: 1, arg_len: 1, group: InsnGroup::BranchRelCond },
        0x11 => Opcode { mnemonic_fmt: "ld de, $", mnemonic_tail: "", cycles: (10, 0), pre_len: 0, op_len: 1, arg_len: 2, group: InsnGroup::Regular },
        0x12 => Opcode { mnemonic_fmt: "ld (de), a", mnemonic_tail: "", cycles: (7, 0), pre_len: 0, op_len: 1, arg_len: 0, group: InsnGroup::Regular },
        0x13 => Opcode { mnemonic_fmt: "inc de", mnemonic_tail: "", cycles: (6, 0), pre_len: 0, op_len: 1, arg_len: 0, group: InsnGroup::Regular },
        0x14 => Opcode { mnemonic_fmt: "inc d", mnemonic_tail: "", cycles: (4, 0), pre_len: 0, op_len: 1, arg_len: 0, group: InsnGroup::Regular },
        0x15 => Opcode { mnemonic_fmt: "dec d", mnemonic_tail: "", cycles: (4, 0), pre_len: 0, op_len: 1, arg_len: 0, group: InsnGroup::Regular },
        0x16 => Opcode { mnemonic_fmt: "ld d, $", mnemonic_tail: "", cycles: (7, 0), pre_len: 0, op_len: 1, arg_len: 1, group: InsnGroup::Regular },
        0x17 => Opcode { mnemonic_fmt: "rla", mnemonic_tail: "", cycles: (4, 0), pre_len: 0, op_len: 1, arg_len: 0, group: InsnGroup::Regular },
        0x18 => Opcode { mnemonic_fmt: "jr $", mnemonic_tail: "", cycles: (12, 0), pre_len: 0, op_len: 1, arg_len: 1, group: InsnGroup::BranchRel },
        0x19 => Opcode { mnemonic_fmt: "add hl, de", mnemonic_tail: "", cycles: (11, 0), pre_len: 0, op_len: 1, arg_len: 0, group: InsnGroup::Regular },
        0x1A => Opcode { mnemonic_fmt: "ld a, (de)", mnemonic_tail: "", cycles: (7, 0), pre_len: 0, op_len: 1, arg_len: 0, group: InsnGroup::Regular },
        0x1B => Opcode { mnemonic_fmt: "dec de", mnemonic_tail: "", cycles: (6, 0), pre_len: 0, op_len: 1, arg_len: 0, group: InsnGroup::Regular },
        0x1C => Opcode { mnemonic_fmt: "inc e", mnemonic_tail: "", cycles: (4, 0), pre_len: 0, op_len: 1, arg_len: 0, group: InsnGroup::Regular },
        0x1D => Opcode { mnemonic_fmt: "dec e", mnemonic_tail: "", cycles: (4, 0), pre_len: 0, op_len: 1, arg_len: 0, group: InsnGroup::Regular },
        0x1E => Opcode { mnemonic_fmt: "ld e, $", mnemonic_tail: "", cycles: (7, 0), pre_len: 0, op_len: 1, arg_len: 1, group: InsnGroup::Regular },
        0x1F => Opcode { mnemonic_fmt: "rra", mnemonic_tail: "", cycles: (4, 0), pre_len: 0, op_len: 1, arg_len: 0, group: InsnGroup::Regular },
        0x20 => Opcode { mnemonic_fmt: "jr nz, $", mnemonic_tail: "", cycles: (7, 5), pre_len: 0, op_len: 1, arg_len: 1, group: InsnGroup::BranchRelCond },
        0x21 => Opcode { mnemonic_fmt: "ld hl, $", mnemonic_tail: "", cycles: (10, 0), pre_len: 0, op_len: 1, arg_len: 2, group: InsnGroup::Regular },
        0x22 => Opcode { mnemonic_fmt: "ld ($", mnemonic_tail: "), hl", cycles: (16, 0), pre_len: 0, op_len: 1, arg_len: 2, group: InsnGroup::Regular },
        0x23 => Opcode { mnemonic_fmt: "inc hl", mnemonic_tail: "", cycles: (6, 0), pre_len: 0, op_len: 1, arg_len: 0, group: InsnGroup::Regular },
        0x24 => Opcode { mnemonic_fmt: "inc h", mnemonic_tail: "", cycles: (4, 0), pre_len: 0, op_len: 1, arg_len: 0, group: InsnGroup::Regular },
        0x25 => Opcode { mnemonic_fmt: "dec h", mnemonic_tail: "", cycles: (4, 0), pre_len: 0, op_len: 1, arg_len: 0, group: InsnGroup::Regular },
        0x26 => Opcode { mnemonic_fmt: "ld h, $", mnemonic_tail: "", cycles: (7, 0), pre_len: 0, op_len: 1, arg_len: 1, group: InsnGroup::Regular },
        0x27 => Opcode { mnemonic_fmt: "daa", mnemonic_tail: "", cycles: (4, 0), pre_len: 0, op_len: 1, arg_len: 0, group: InsnGroup::Regular },
        0x28 => Opcode { mnemonic_fmt: "jr z, $", mnemonic_tail: "", cycles: (7, 5), pre_len: 0, op_len: 1, arg_len: 1, group: InsnGroup::BranchRelCond },
        0x29 => Opcode { mnemonic_fmt: "add hl, hl", mnemonic_tail: "", cycles: (11, 0), pre_len: 0, op_len: 1, arg_len: 0, group: InsnGroup::Regular },
        0x2A => Opcode { mnemonic_fmt: "ld hl, ($", mnemonic_tail: ")", cycles: (16, 0), pre_len: 0, op_len: 1, arg_len: 2, group: InsnGroup::Regular },
        0x2B => Opcode { mnemonic_fmt: "dec hl", mnemonic_tail: "", cycles: (6, 0), pre_len: 0, op_len: 1, arg_len: 0, group: InsnGroup::Regular },
        0x2C => Opcode { mnemonic_fmt: "inc l", mnemonic_tail: "", cycles: (4, 0), pre_len: 0, op_len: 1, arg_len: 0, group: InsnGroup::Regular },
        0x2D => Opcode { mnemonic_fmt: "dec l", mnemonic_tail: "", cycles: (4, 0), pre_len: 0, op_len: 1, arg_len: 0, group: InsnGroup::Regular },
        0x2E => Opcode { mnemonic_fmt: "ld l, $", mnemonic_tail: "", cycles: (7, 0), pre_len: 0, op_len: 1, arg_len: 1, group: InsnGroup::Regular },
        0x2F => Opcode { mnemonic_fmt: "cpl", mnemonic_tail: "", cycles: (4, 0), pre_len: 0, op_len: 1, arg_len: 0, group: InsnGroup::Regular },
        0x30 => Opcode { mnemonic_fmt: "jr nc, $", mnemonic_tail: "", cycles: (7, 5), pre_len: 0, op_len: 1, arg_len: 1, group: InsnGroup::BranchRelCond },
        0x31 => Opcode { mnemonic_fmt: "ld sp, $", mnemonic_tail: "", cycles: (10, 0), pre_len: 0, op_len: 1, arg_len: 2, group: InsnGroup::Regular },
        0x32 => Opcode { mnemonic_fmt: "ld ($", mnemonic_tail: "), a", cycles: (13, 0), pre_len: 0, op_len: 1, arg_len: 2, group: InsnGroup::Regular },
        0x33 => Opcode { mnemonic_fmt: "inc sp", mnemonic_tail: "", cycles: (6, 0), pre_len: 0, op_len: 1, arg_len: 0, group: InsnGroup::Regular },
        0x34 => Opcode { mnemonic_fmt: "inc (hl)", mnemonic_tail: "", cycles: (11, 0), pre_len: 0, op_len: 1, arg_len: 0, group: InsnGroup::Regular },
        0x35 => Opcode { mnemonic_fmt: "dec (hl)", mnemonic_tail: "", cycles: (11, 0), pre_len: 0, op_len: 1, arg_len: 0, group: InsnGroup::Regular },
        0x36 => Opcode { mnemonic_fmt: "ld (hl), $", mnemonic_tail: "", cycles: (10, 0), pre_len: 0, op_len: 1, arg_len: 1, group: InsnGroup::Regular },
        0x37 => Opcode { mnemonic_fmt: "scf", mnemonic_tail: "", cycles: (4, 0), pre_len: 0, op_len: 1, arg_len: 0, group: InsnGroup::Regular },
        0x38 => Opcode { mnemonic_fmt: "jr c, $", mnemonic_tail: "", cycles: (7, 5), pre_len: 0, op_len: 1, arg_len: 1, group: InsnGroup::BranchRelCond },
        0x39 => Opcode { mnemonic_fmt: "add hl, sp", mnemonic_tail: "", cycles: (11, 0), pre_len: 0, op_len: 1, arg_len: 0, group: InsnGroup::Regular },
        0x3A => Opcode { mnemonic_fmt: "ld a, ($", mnemonic_tail: ")", cycles: (13, 0), pre_len: 0, op_len: 1, arg_len: 2, group: InsnGroup::Regular },
        0x3B => Opcode { mnemonic_fmt: "dec sp", mnemonic_tail: "", cycles: (6, 0), pre_len: 0, op_len: 1, arg_len: 0, group: InsnGroup::Regular },
        0x3C => Opcode { mnemonic_fmt: "inc a", mnemonic_tail: "", cycles: (4, 0), pre_len: 0, op_len: 1, arg_len: 0, group: InsnGroup::Regular },
        0x3D => Opcode { mnemonic_fmt: "dec a", mnemonic_tail: "", cycles: (4, 0), pre_len: 0, op_len: 1, arg_len: 0, group: InsnGroup::Regular },
        0x3E => Opcode { mnemonic_fmt: "ld a, $", mnemonic_tail: "", cycles: (7, 0), pre_len: 0, op_len: 1, arg_len: 1, group: InsnGroup::Regular },
        0x3F => Opcode { mnemonic_fmt: "ccf", mnemonic_tail: "", cycles: (4, 0), pre_len: 0, op_len: 1, arg_len: 0, group: InsnGroup::Regular },
        0x40 => Opcode { mnemonic_fmt: "ld b, b", mnemonic_tail: "", cycles: (4, 0), pre_len: 0, op_len: 1, arg_len: 0, group: InsnGroup::Regular },
        0x41 => Opcode { mnemonic_fmt: "ld b, c", mnemonic_tail: "", cycles: (4, 0), pre_len: 0, op_len: 1, arg_len: 0, group: InsnGroup::Regular },
        0x42 => Opcode { mnemonic_fmt: "ld b, d", mnemonic_tail: "", cycles: (4, 0), pre_len: 0, op_len: 1, arg_len: 0, group: InsnGroup::Regular },
        0x43 => Opcode { mnemonic_fmt: "ld b, e", mnemonic_tail: "", cycles: (4, 0), pre_len: 0, op_len: 1, arg_len: 0, group: InsnGroup::Regular },
        0x44 => Opcode { mnemonic_fmt: "ld b, h", mnemonic_tail: "", cycles: (4, 0), pre_len: 0, op_len: 1, arg_len: 0, group: InsnGroup::Regular },
        0x45 => Opcode { mnemonic_fmt: "ld b, l", mnemonic_tail: "", cycles: (4, 0), pre_len: 0, op_len: 1, arg_len: 0, group: InsnGroup::Regular },
        0x46 => Opcode { mnemonic_fmt: "ld b, (hl)", mnemonic_tail: "", cycles: (7, 0), pre_len: 0, op_len: 1, arg_len: 0, group: InsnGroup::Regular },
        0x47 => Opcode { mnemonic_fmt: "ld b, a", mnemonic_tail: "", cycles: (4, 0), pre_len: 0, op_len: 1, arg_len: 0, group: InsnGroup::Regular },
        0x48 => Opcode { mnemonic_fmt: "ld c, b", mnemonic_tail: "", cycles: (4, 0), pre_len: 0, op_len: 1, arg_len: 0, group: InsnGroup::Regular },
        0x49 => Opcode { mnemonic_fmt: "ld c, c", mnemonic_tail: "", cycles: (4, 0), pre_len: 0, op_len: 1, arg_len: 0, group: InsnGroup::Regular },
        0x4A => Opcode { mnemonic_fmt: "ld c, d", mnemonic_tail: "", cycles: (4, 0), pre_len: 0, op_len: 1, arg_len: 0, group: InsnGroup::Regular },
        0x4B => Opcode { mnemonic_fmt: "ld c, e", mnemonic_tail: "", cycles: (4, 0), pre_len: 0, op_len: 1, arg_len: 0, group: InsnGroup::Regular },
        0x4C => Opcode { mnemonic_fmt: "ld c, h", mnemonic_tail: "", cycles: (4, 0), pre_len: 0, op_len: 1, arg_len: 0, group: InsnGroup::Regular },
        0x4D => Opcode { mnemonic_fmt: "ld c, l", mnemonic_tail: "", cycles: (4, 0), pre_len: 0, op_len: 1, arg_len: 0, group: InsnGroup::Regular },
        0x4E => Opcode { mnemonic_fmt: "ld c, (hl)", mnemonic_tail: "", cycles: (7, 0), pre_len: 0, op_len: 1, arg_len: 0, group: InsnGroup::Regular },
        0x4F => Opcode { mnemonic_fmt: "ld c, a", mnemonic_tail: "", cycles: (4, 0), pre_len: 0, op_len: 1, arg_len: 0, group: InsnGroup::Regular },
        0x50 => Opcode { mnemonic_fmt: "ld d, b", mnemonic_tail: "", cycles: (4, 0), pre_len: 0, op_len: 1, arg_len: 0, group: InsnGroup::Regular },
        0x51 => Opcode { mnemonic_fmt: "ld d, c", mnemonic_tail: "", cycles: (4, 0), pre_len: 0, op_len: 1, arg_len: 0, group: InsnGroup::Regular },
        0x52 => Opcode { mnemonic_fmt: "ld d, d", mnemonic_tail: "", cycles: (4, 0), pre_len: 0, op_len: 1, arg_len: 0, group: InsnGroup::Regular },
        0x53 => Opcode { mnemonic_fmt: "ld d, e", mnemonic_tail: "", cycles: (4, 0), pre_len: 0, op_len: 1, arg_len: 0, group: InsnGroup::Regular },
        0x54 => Opcode { mnemonic_fmt: "ld d, h", mnemonic_tail: "", cycles: (4, 0), pre_len: 0, op_len: 1, arg_len: 0, group: InsnGroup::Regular },
        0x55 => Opcode { mnemonic_fmt: "ld d, l", mnemonic_tail: "", cycles: (4, 0), pre_len: 0, op_len: 1, arg_len: 0, group: InsnGroup::Regular },
        0x56 => Opcode { mnemonic_fmt: "ld d, (hl)", mnemonic_tail: "", cycles: (7, 0), pre_len: 0, op_len: 1, arg_len: 0, group: InsnGroup::Regular },
        0x57 => Opcode { mnemonic_fmt: "ld d, a", mnemonic_tail: "", cycles: (4, 0), pre_len: 0, op_len: 1, arg_len: 0, group: InsnGroup::Regular },
        0x58 => Opcode { mnemonic_fmt: "ld e, b", mnemonic_tail: "", cycles: (4, 0), pre_len: 0, op_len: 1, arg_len: 0, group: InsnGroup::Regular },
        0x59 => Opcode { mnemonic_fmt: "ld e, c", mnemonic_tail: "", cycles: (4, 0), pre_len: 0, op_len: 1, arg_len: 0, group: InsnGroup::Regular },
        0x5A => Opcode { mnemonic_fmt: "ld e, d", mnemonic_tail: "", cycles: (4, 0), pre_len: 0, op_len: 1, arg_len: 0, group: InsnGroup::Regular },
        0x5B => Opcode { mnemonic_fmt: "ld e, e", mnemonic_tail: "", cycles: (4, 0), pre_len: 0, op_len: 1, arg_len: 0, group: InsnGroup::Regular },
        0x5C => Opcode { mnemonic_fmt: "ld e, h", mnemonic_tail: "", cycles: (4, 0), pre_len: 0, op_len: 1, arg_len: 0, group: InsnGroup::Regular },
        0x5D => Opcode { mnemonic_fmt: "ld e, l", mnemonic_tail: "", cycles: (4, 0), pre_len: 0, op_len: 1, arg_len: 0, group: InsnGroup::Regular },
        0x5E => Opcode { mnemonic_fmt: "ld e, (hl)", mnemonic_tail: "", cycles: (7, 0), pre_len: 0, op_len: 1, arg_len: 0, group: InsnGroup::Regular },
        0x5F => Opcode { mnemonic_fmt: "ld e, a", mnemonic_tail: "", cycles: (4, 0), pre_len: 0, op_len: 1, arg_len: 0, group: InsnGroup::Regular },
        0x60 => Opcode { mnemonic_fmt: "ld h, b", mnemonic_tail: "", cycles: (4, 0), pre_len: 0, op_len: 1, arg_len: 0, group: InsnGroup::Regular },
        0x61 => Opcode { mnemonic_fmt: "ld h, c", mnemonic_tail: "", cycles: (4, 0), pre_len: 0, op_len: 1, arg_len: 0, group: InsnGroup::Regular },
        0x62 => Opcode { mnemonic_fmt: "ld h, d", mnemonic_tail: "", cycles: (4, 0), pre_len: 0, op_len: 1, arg_len: 0, group: InsnGroup::Regular },
        0x63 => Opcode { mnemonic_fmt: "ld h, e", mnemonic_tail: "", cycles: (4, 0), pre_len: 0, op_len: 1, arg_len: 0, group: InsnGroup::Regular },
        0x64 => Opcode { mnemonic_fmt: "ld h, h", mnemonic_tail: "", cycles: (4, 0), pre_len: 0, op_len: 1, arg_len: 0, group: InsnGroup::Regular },
        0x65 => Opcode { mnemonic_fmt: "ld h, l", mnemonic_tail: "", cycles: (4, 0), pre_len: 0, op_len: 1, arg_len: 0, group: InsnGroup::Regular },
        0x66 => Opcode { mnemonic_fmt: "ld h, (hl)", mnemonic_tail: "", cycles: (7, 0), pre_len: 0, op_len: 1, arg_len: 0, group: InsnGroup::Regular },
        0x67 => Opcode { mnemonic_fmt: "ld h, a", mnemonic_tail: "", cycles: (4, 0), pre_len: 0, op_len: 1, arg_len: 0, group: InsnGroup::Regular },
        0x68 => Opcode { mnemonic_fmt: "ld l, b", mnemonic_tail: "", cycles: (4, 0), pre_len: 0, op_len: 1, arg_len: 0, group: InsnGroup::Regular },
        0x69 => Opcode { mnemonic_fmt: "ld l, c", mnemonic_tail: "", cycles: (4, 0), pre_len: 0, op_len: 1, arg_len: 0, group: InsnGroup::Regular },
        0x6A => Opcode { mnemonic_fmt: "ld l, d", mnemonic_tail: "", cycles: (4, 0), pre_len: 0, op_len: 1, arg_len: 0, group: InsnGroup::Regular },
        0x6B => Opcode { mnemonic_fmt: "ld l, e", mnemonic_tail: "", cycles: (4, 0), pre_len: 0, op_len: 1, arg_len: 0, group: InsnGroup::Regular },
        0x6C => Opcode { mnemonic_fmt: "ld l, h", mnemonic_tail: "", cycles: (4, 0), pre_len: 0, op_len: 1, arg_len: 0, group: InsnGroup::Regular },
        0x6D => Opcode { mnemonic_fmt: "ld l, l", mnemonic_tail: "", cycles: (4, 0), pre_len: 0, op_len: 1, arg_len: 0, group: InsnGroup::Regular },
        0x6E => Opcode { mnemonic_fmt: "ld l, (hl)", mnemonic_tail: "", cycles: (7, 0), pre_len: 0, op_len: 1, arg_len: 0, group: InsnGroup::Regular },
        0x6F => Opcode { mnemonic_fmt: "ld l, a", mnemonic_tail: "", cycles: (4, 0), pre_len: 0, op_len: 1, arg_len: 0, group: InsnGroup::Regular },
        0x70 => Opcode { mnemonic_fmt: "ld (hl), b", mnemonic_tail: "", cycles: (7, 0), pre_len: 0, op_len: 1, arg_len: 0, group: InsnGroup::Regular },
        0x71 => Opcode { mnemonic_fmt: "ld (hl), c", mnemonic_tail: "", cycles: (7, 0), pre_len: 0, op_len: 1, arg_len: 0, group: InsnGroup::Regular },
        0x72 => Opcode { mnemonic_fmt: "ld (hl), d", mnemonic_tail: "", cycles: (7, 0), pre_len: 0, op_len: 1, arg_len: 0, group: InsnGroup::Regular },
        0x73 => Opcode { mnemonic_fmt: "ld (hl), e", mnemonic_tail: "", cycles: (7, 0), pre_len: 0, op_len: 1, arg_len: 0, group: InsnGroup::Regular },
        0x74 => Opcode { mnemonic_fmt: "ld (hl), h", mnemonic_tail: "", cycles: (7, 0), pre_len: 0, op_len: 1, arg_len: 0, group: InsnGroup::Regular },
        0x75 => Opcode { mnemonic_fmt: "ld (hl), l", mnemonic_tail: "", cycles: (7, 0), pre_len: 0, op_len: 1, arg_len: 0, group: InsnGroup::Regular },
        0x76 => Opcode { mnemonic_fmt: "halt", mnemonic_tail: "", cycles: (4, 0), pre_len: 0, op_len: 1, arg_len: 0, group: InsnGroup::Regular },
        0x77 => Opcode { mnemonic_fmt: "ld (hl), a", mnemonic_tail: "", cycles: (7, 0), pre_len: 0, op_len: 1, arg_len: 0, group: InsnGroup::Regular },
        0x78 => Opcode { mnemonic_fmt: "ld a, b", mnemonic_tail: "", cycles: (4, 0), pre_len: 0, op_len: 1, arg_len: 0, group: InsnGroup::Regular },
        0x79 => Opcode { mnemonic_fmt: "ld a, c", mnemonic_tail: "", cycles: (4, 0), pre_len: 0, op_len: 1, arg_len: 0, group: InsnGroup::Regular },
        0x7A => Opcode { mnemonic_fmt: "ld a, d", mnemonic_tail: "", cycles: (4, 0), pre_len: 0, op_len: 1, arg_len: 0, group: InsnGroup::Regular },
        0x7B => Opcode { mnemonic_fmt: "ld a, e", mnemonic_tail: "", cycles: (4, 0), pre_len: 0, op_len: 1, arg_len: 0, group: InsnGroup::Regular },
        0x7C => Opcode { mnemonic_fmt: "ld a, h", mnemonic_tail: "", cycles: (4, 0), pre_len: 0, op_len: 1, arg_len: 0, group: InsnGroup::Regular },
        0x7D => Opcode { mnemonic_fmt: "ld a, l", mnemonic_tail: "", cycles: (4, 0), pre_len: 0, op_len: 1, arg_len: 0, group: InsnGroup::Regular },
        0x7E => Opcode { mnemonic_fmt: "ld a, (hl)", mnemonic_tail: "", cycles: (7, 0), pre_len: 0, op_len: 1, arg_len: 0, group: InsnGroup::Regular },
        0x7F => Opcode { mnemonic_fmt: "ld a, a", mnemonic_tail: "", cycles: (4, 0), pre_len: 0, op_len: 1, arg_len: 0, group: InsnGroup::Regular },
        0x80 => Opcode { mnemonic_fmt: "add a, b", mnemonic_tail: "", cycles: (4, 0), pre_len: 0, op_len: 1, arg_len: 0, group: InsnGroup::Regular },
        0x81 => Opcode { mnemonic_fmt: "add a, c", mnemonic_tail: "", cycles: (4, 0), pre_len: 0, op_len: 1, arg_len: 0, group: InsnGroup::Regular },
        0x82 => Opcode { mnemonic_fmt: "add a, d", mnemonic_tail: "", cycles: (4, 0), pre_len: 0, op_len: 1, arg_len: 0, group: InsnGroup::Regular },
        0x83 => Opcode { mnemonic_fmt: "add a, e", mnemonic_tail: "", cycles: (4, 0), pre_len: 0, op_len: 1, arg_len: 0, group: InsnGroup::Regular },
        0x84 => Opcode { mnemonic_fmt: "add a, h", mnemonic_tail: "", cycles: (4, 0), pre_len: 0, op_len: 1, arg_len: 0, group: InsnGroup::Regular },
        0x85 => Opcode { mnemonic_fmt: "add a, l", mnemonic_tail: "", cycles: (4, 0), pre_len: 0, op_len: 1, arg_len: 0, group: InsnGroup::Regular },
        0x86 => Opcode { mnemonic_fmt: "add a, (hl)", mnemonic_tail: "", cycles: (7, 0), pre_len: 0, op_len: 1, arg_len: 0, group: InsnGroup::Regular },
        0x87 => Opcode { mnemonic_fmt: "add a, a", mnemonic_tail: "", cycles: (4, 0), pre_len: 0, op_len: 1, arg_len: 0, group: InsnGroup::Regular },
        0x88 => Opcode { mnemonic_fmt: "adc a, b", mnemonic_tail: "", cycles: (4, 0), pre_len: 0, op_len: 1, arg_len: 0, group: InsnGroup::Regular },
        0x89 => Opcode { mnemonic_fmt: "adc a, c", mnemonic_tail: "", cycles: (4, 0), pre_len: 0, op_len: 1, arg_len: 0, group: InsnGroup::Regular },
        0x8A => Opcode { mnemonic_fmt: "adc a, d", mnemonic_tail: "", cycles: (4, 0), pre_len: 0, op_len: 1, arg_len: 0, group: InsnGroup::Regular },
        0x8B => Opcode { mnemonic_fmt: "adc a, e", mnemonic_tail: "", cycles: (4, 0), pre_len: 0, op_len: 1, arg_len: 0, group: InsnGroup::Regular },
        0x8C => Opcode { mnemonic_fmt: "adc a, h", mnemonic_tail: "", cycles: (4, 0), pre_len: 0, op_len: 1, arg_len: 0, group: InsnGroup::Regular },
        0x8D => Opcode { mnemonic_fmt: "adc a, l", mnemonic_tail: "", cycles: (4, 0), pre_len: 0, op_len: 1, arg_len: 0, group: InsnGroup::Regular },
        0x8E => Opcode { mnemonic_fmt: "adc a, (hl)", mnemonic_tail: "", cycles: (7, 0), pre_len: 0, op_len: 1, arg_len: 0, group: InsnGroup::Regular },
        0x8F => Opcode { mnemonic_fmt: "adc a, a", mnemonic_tail: "", cycles: (4, 0), pre_len: 0, op_len: 1, arg_len: 0, group: InsnGroup::Regular },
        0x90 => Opcode { mnemonic_fmt: "sub b", mnemonic_tail: "", cycles: (4, 0), pre_len: 0, op_len: 1, arg_len: 0, group: InsnGroup::Regular },
        0x91 => Opcode { mnemonic_fmt: "sub c", mnemonic_tail: "", cycles: (4, 0), pre_len: 0, op_len: 1, arg_len: 0, group: InsnGroup::Regular },
        0x92 => Opcode { mnemonic_fmt: "sub d", mnemonic_tail: "", cycles: (4, 0), pre_len: 0, op_len: 1, arg_len: 0, group: InsnGroup::Regular },
        0x93 => Opcode { mnemonic_fmt: "sub e", mnemonic_tail: "", cycles: (4, 0), pre_len: 0, op_len: 1, arg_len: 0, group: InsnGroup::Regular },
        0x94 => Opcode { mnemonic_fmt: "sub h", mnemonic_tail: "", cycles: (4, 0), pre_len: 0, op_len: 1, arg_len: 0, group: InsnGroup::Regular },
        0x95 => Opcode { mnemonic_fmt: "sub l", mnemonic_tail: "", cycles: (4, 0), pre_len: 0, op_len: 1, arg_len: 0, group: InsnGroup::Regular },
        0x96 => Opcode { mnemonic_fmt: "sub (hl)", mnemonic_tail: "", cycles: (7, 0), pre_len: 0, op_len: 1, arg_len: 0, group: InsnGroup::Regular },
        0x97 => Opcode { mnemonic_fmt: "sub a", mnemonic_tail: "", cycles: (4, 0), pre_len: 0, op_len: 1, arg_len: 0, group: InsnGroup::Regular },
        0x98 => Opcode { mnemonic_fmt: "sbc a, b", mnemonic_tail: "", cycles: (4, 0), pre_len: 0, op_len: 1, arg_len: 0, group: InsnGroup::Regular },
        0x99 => Opcode { mnemonic_fmt: "sbc a, c", mnemonic_tail: "", cycles: (4, 0), pre_len: 0, op_len: 1, arg_len: 0, group: InsnGroup::Regular },
        0x9A => Opcode { mnemonic_fmt: "sbc a, d", mnemonic_tail: "", cycles: (4, 0), pre_len: 0, op_len: 1, arg_len: 0, group: InsnGroup::Regular },
        0x9B => Opcode { mnemonic_fmt: "sbc a, e", mnemonic_tail: "", cycles: (4, 0), pre_len: 0, op_len: 1, arg_len: 0, group: InsnGroup::Regular },
        0x9C => Opcode { mnemonic_fmt: "sbc a, h", mnemonic_tail: "", cycles: (4, 0), pre_len: 0, op_len: 1, arg_len: 0, group: InsnGroup::Regular },
        0x9D => Opcode { mnemonic_fmt: "sbc a, l", mnemonic_tail: "", cycles: (4, 0), pre_len: 0, op_len: 1, arg_len: 0, group: InsnGroup::Regular },
        0x9E => Opcode { mnemonic_fmt: "sbc a, (hl)", mnemonic_tail: "", cycles: (7, 0), pre_len: 0, op_len: 1, arg_len: 0, group: InsnGroup::Regular },
        0x9F => Opcode { mnemonic_fmt: "sbc a, a", mnemonic_tail: "", cycles: (4, 0), pre_len: 0, op_len: 1, arg_len: 0, group: InsnGroup::Regular },
        0xA0 => Opcode { mnemonic_fmt: "and b", mnemonic_tail: "", cycles: (4, 0), pre_len: 0, op_len: 1, arg_len: 0, group: InsnGroup::Regular },
        0xA1 => Opcode { mnemonic_fmt: "and c", mnemonic_tail: "", cycles: (4, 0), pre_len: 0, op_len: 1, arg_len: 0, group: InsnGroup::Regular },
        0xA2 => Opcode { mnemonic_fmt: "and d", mnemonic_tail: "", cycles: (4, 0), pre_len: 0, op_len: 1, arg_len: 0, group: InsnGroup::Regular },
        0xA3 => Opcode { mnemonic_fmt: "and e", mnemonic_tail: "", cycles: (4, 0), pre_len: 0, op_len: 1, arg_len: 0, group: InsnGroup::Regular },
        0xA4 => Opcode { mnemonic_fmt: "and h", mnemonic_tail: "", cycles: (4, 0), pre_len: 0, op_len: 1, arg_len: 0, group: InsnGroup::Regular },
        0xA5 => Opcode { mnemonic_fmt: "and l", mnemonic_tail: "", cycles: (4, 0), pre_len: 0, op_len: 1, arg_len: 0, group: InsnGroup::Regular },
        0xA6 => Opcode { mnemonic_fmt: "and (hl)", mnemonic_tail: "", cycles: (7, 0), pre_len: 0, op_len: 1, arg_len: 0, group: InsnGroup::Regular },
        0xA7 => Opcode { mnemonic_fmt: "and a", mnemonic_tail: "", cycles: (4, 0), pre_len: 0, op_len: 1, arg_len: 0, group: InsnGroup::Regular },
        0xA8 => Opcode { mnemonic_fmt: "xor b", mnemonic_tail: "", cycles: (4, 0), pre_len: 0, op_len: 1, arg_len: 0, group: InsnGroup::Regular },
        0xA9 => Opcode { mnemonic_fmt: "xor c", mnemonic_tail: "", cycles: (4, 0), pre_len: 0, op_len: 1, arg_len: 0, group: InsnGroup::Regular },
        0xAA => Opcode { mnemonic_fmt: "xor d", mnemonic_tail: "", cycles: (4, 0), pre_len: 0, op_len: 1, arg_len: 0, group: InsnGroup::Regular },
        0xAB => Opcode { mnemonic_fmt: "xor e", mnemonic_tail: "", cycles: (4, 0), pre_len: 0, op_len: 1, arg_len: 0, group: InsnGroup::Regular },
        0xAC => Opcode { mnemonic_fmt: "xor h", mnemonic_tail: "", cycles: (4, 0), pre_len: 0, op_len: 1, arg_len: 0, group: InsnGroup::Regular },
        0xAD => Opcode { mnemonic_fmt: "xor l", mnemonic_tail: "", cycles: (4, 0), pre_len: 0, op_len: 1, arg_len: 0, group: InsnGroup::Regular },
        0xAE => Opcode { mnemonic_fmt: "xor (hl)", mnemonic_tail: "", cycles: (7, 0), pre_len: 0, op_len: 1, arg_len: 0, group: InsnGroup::Regular },
        0xAF => Opcode { mnemonic_fmt: "xor a", mnemonic_tail: "", cycles: (4, 0), pre_len: 0, op_len: 1, arg_len: 0, group: InsnGroup::Regular },
        0xB0 => Opcode { mnemonic_fmt: "or b", mnemonic_tail: "", cycles: (4, 0), pre_len: 0, op_len: 1, arg_len: 0, group: InsnGroup::Regular },
        0xB1 => Opcode { mnemonic_fmt: "or c", mnemonic_tail: "", cycles: (4, 0), pre_len: 0, op_len: 1, arg_len: 0, group: InsnGroup::Regular },
        0xB2 => Opcode { mnemonic_fmt: "or d", mnemonic_tail: "", cycles: (4, 0), pre_len: 0, op_len: 1, arg_len: 0, group: InsnGroup::Regular },
        0xB3 => Opcode { mnemonic_fmt: "or e", mnemonic_tail: "", cycles: (4, 0), pre_len: 0, op_len: 1, arg_len: 0, group: InsnGroup::Regular },
        0xB4 => Opcode { mnemonic_fmt: "or h", mnemonic_tail: "", cycles: (4, 0), pre_len: 0, op_len: 1, arg_len: 0, group: InsnGroup::Regular },
        0xB5 => Opcode { mnemonic_fmt: "or l", mnemonic_tail: "", cycles: (4, 0), pre_len: 0, op_len: 1, arg_len: 0, group: InsnGroup::Regular },
        0xB6 => Opcode { mnemonic_fmt: "or (hl)", mnemonic_tail: "", cycles: (7, 0), pre_len: 0, op_len: 1, arg_len: 0, group: InsnGroup::Regular },
        0xB7 => Opcode { mnemonic_fmt: "or a", mnemonic_tail: "", cycles: (4, 0), pre_len: 0, op_len: 1, arg_len: 0, group: InsnGroup::Regular },
        0xB8 => Opcode { mnemonic_fmt: "cp b", mnemonic_tail: "", cycles: (4, 0), pre_len: 0, op_len: 1, arg_len: 0, group: InsnGroup::Regular },
        0xB9 => Opcode { mnemonic_fmt: "cp c", mnemonic_tail: "", cycles: (4, 0), pre_len: 0, op_len: 1, arg_len: 0, group: InsnGroup::Regular },
        0xBA => Opcode { mnemonic_fmt: "cp d", mnemonic_tail: "", cycles: (4, 0), pre_len: 0, op_len: 1, arg_len: 0, group: InsnGroup::Regular },
        0xBB => Opcode { mnemonic_fmt: "cp e", mnemonic_tail: "", cycles: (4, 0), pre_len: 0, op_len: 1, arg_len: 0, group: InsnGroup::Regular },
        0xBC => Opcode { mnemonic_fmt: "cp h", mnemonic_tail: "", cycles: (4, 0), pre_len: 0, op_len: 1, arg_len: 0, group: InsnGroup::Regular },
        0xBD => Opcode { mnemonic_fmt: "cp l", mnemonic_tail: "", cycles: (4, 0), pre_len: 0, op_len: 1, arg_len: 0, group: InsnGroup::Regular },
        0xBE => Opcode { mnemonic_fmt: "cp (hl)", mnemonic_tail: "", cycles: (7, 0), pre_len: 0, op_len: 1, arg_len: 0, group: InsnGroup::Regular },
        0xBF => Opcode { mnemonic_fmt: "cp a", mnemonic_tail: "", cycles: (4, 0), pre_len: 0, op_len: 1, arg_len: 0, group: InsnGroup::Regular },
        0xC0 => Opcode { mnemonic_fmt: "ret nz", mnemonic_tail: "", cycles: (5, 6), pre_len: 0, op_len: 1, arg_len: 0, group: InsnGroup::RetCond },
        0xC1 => Opcode { mnemonic_fmt: "pop bc", mnemonic_tail: "", cycles: (10, 0), pre_len: 0, op_len: 1, arg_len: 0, group: InsnGroup::Regular },
        0xC2 => Opcode { mnemonic_fmt: "jp nz, $", mnemonic_tail: "", cycles: (10, 0), pre_len: 0, op_len: 1, arg_len: 2, group: InsnGroup::JumpCond },
        0xC3 => Opcode { mnemonic_fmt: "jp $", mnemonic_tail: "", cycles: (10, 0), pre_len: 0, op_len: 1, arg_len: 2, group: InsnGroup::Jump },
        0xC4 => Opcode { mnemonic_fmt: "call nz, $", mnemonic_tail: "", cycles: (10, 7), pre_len: 0, op_len: 1, arg_len: 2, group: InsnGroup::CallCond },
        0xC5 => Opcode { mnemonic_fmt: "push bc", mnemonic_tail: "", cycles: (11, 0), pre_len: 0, op_len: 1, arg_len: 0, group: InsnGroup::Regular },
        0xC6 => Opcode { mnemonic_fmt: "add a, $", mnemonic_tail: "", cycles: (7, 0), pre_len: 0, op_len: 1, arg_len: 1, group: InsnGroup::Regular },
        0xC7 => Opcode { mnemonic_fmt: "rst $00", mnemonic_tail: "", cycles: (11, 0), pre_len: 0, op_len: 1, arg_len: 0, group: InsnGroup::Int },
        0xC8 => Opcode { mnemonic_fmt: "ret z", mnemonic_tail: "", cycles: (5, 6), pre_len: 0, op_len: 1, arg_len: 0, group: InsnGroup::RetCond },
        0xC9 => Opcode { mnemonic_fmt: "ret", mnemonic_tail: "", cycles: (10, 0), pre_len: 0, op_len: 1, arg_len: 0, group: InsnGroup::Ret },
        0xCA => Opcode { mnemonic_fmt: "jp z, $", mnemonic_tail: "", cycles: (10, 0), pre_len: 0, op_len: 1, arg_len: 2, group: InsnGroup::JumpCond },
        0xCB => Opcode { mnemonic_fmt: "invalid", mnemonic_tail: "", cycles: (4, 0), pre_len: 0, op_len: 1, arg_len: 0, group: InsnGroup::Invalid },
        0xCC => Opcode { mnemonic_fmt: "call z, $", mnemonic_tail: "", cycles: (10, 7), pre_len: 0, op_len: 1, arg_len: 2, group: InsnGroup::CallCond },
        0xCD => Opcode { mnemonic_fmt: "call $", mnemonic_tail: "", cycles: (17, 0), pre_len: 0, op_len: 1, arg_len: 2, group: InsnGroup::Call },
        0xCE => Opcode { mnemonic_fmt: "adc a, $", mnemonic_tail: "", cycles: (7, 0), pre_len: 0, op_len: 1, arg_len: 1, group: InsnGroup::Regular },
        0xCF => Opcode { mnemonic_fmt: "rst $08", mnemonic_tail: "", cycles: (11, 0), pre_len: 0, op_len: 1, arg_len: 0, group: InsnGroup::Int },
        0xD0 => Opcode { mnemonic_fmt: "ret nc", mnemonic_tail: "", cycles: (5, 6), pre_len: 0, op_len: 1, arg_len: 0, group: InsnGroup::RetCond },
        0xD1 => Opcode { mnemonic_fmt: "pop de", mnemonic_tail: "", cycles: (10, 0), pre_len: 0, op_len: 1, arg_len: 0, group: InsnGroup::Regular },
        0xD2 => Opcode { mnemonic_fmt: "jp nc, $", mnemonic_tail: "", cycles: (10, 0), pre_len: 0, op_len: 1, arg_len: 2, group: InsnGroup::JumpCond },
        0xD3 => Opcode { mnemonic_fmt: "out ($", mnemonic_tail: "), a", cycles: (11, 0), pre_len: 0, op_len: 1, arg_len: 1, group: InsnGroup::Regular },
        0xD4 => Opcode { mnemonic_fmt: "call nc, $", mnemonic_tail: "", cycles: (10, 7), pre_len: 0, op_len: 1, arg_len: 2, group: InsnGroup::CallCond },
        0xD5 => Opcode { mnemonic_fmt: "push de", mnemonic_tail: "", cycles: (11, 0), pre_len: 0, op_len: 1, arg_len: 0, group: InsnGroup::Regular },
        0xD6 => Opcode { mnemonic_fmt: "sub $", mnemonic_tail: "", cycles: (7, 0), pre_len: 0, op_len: 1, arg_len: 1, group: InsnGroup::Regular },
        0xD7 => Opcode { mnemonic_fmt: "rst $10", mnemonic_tail: "", cycles: (11, 0), pre_len: 0, op_len: 1, arg_len: 0, group: InsnGroup::Int },
        0xD8 => Opcode { mnemonic_fmt: "ret c", mnemonic_tail: "", cycles: (5, 6), pre_len: 0, op_len: 1, arg_len: 0, group: InsnGroup::RetCond },
        0xD9 => Opcode { mnemonic_fmt: "exx", mnemonic_tail: "", cycles: (4, 0), pre_len: 0, op_len: 1, arg_len: 0, group: InsnGroup::Regular },
        0xDA => Opcode { mnemonic_fmt: "jp c, $", mnemonic_tail: "", cycles: (10, 0), pre_len: 0, op_len: 1, arg_len: 2, group: InsnGroup::JumpCond },
        0xDB => Opcode { mnemonic_fmt: "in a, ($", mnemonic_tail: ")", cycles: (11, 0), pre_len: 0, op_len: 1, arg_len: 1, group: InsnGroup::Regular },
        0xDC => Opcode { mnemonic_fmt: "call c, $", mnemonic_tail: "", cycles: (10, 7), pre_len: 0, op_len: 1, arg_len: 2, group: InsnGroup::CallCond },
        0xDD => Opcode { mnemonic_fmt: "invalid", mnemonic_tail: "", cycles: (4, 0), pre_len: 0, op_len: 1, arg_len: 0, group: InsnGroup::Invalid },
        0xDE => Opcode { mnemonic_fmt: "sbc a, $", mnemonic_tail: "", cycles: (7, 0), pre_len: 0, op_len: 1, arg_len: 1, group: InsnGroup::Regular },
        0xDF => Opcode { mnemonic_fmt: "rst $18", mnemonic_tail: "", cycles: (11, 0), pre_len: 0, op_len: 1, arg_len: 0, group: InsnGroup::Int },
        0xE0 => Opcode { mnemonic_fmt: "ret po", mnemonic_tail: "", cycles: (5, 6), pre_len: 0, op_len: 1, arg_len: 0, group: InsnGroup::RetCond },
        0xE1 => Opcode { mnemonic_fmt: "pop hl", mnemonic_tail: "", cycles: (10, 0), pre_len: 0, op_len: 1, arg_len: 0, group: InsnGroup::Regular },
        0xE2 => Opcode { mnemonic_fmt: "jp po, $", mnemonic_tail: "", cycles: (10, 0), pre_len: 0, op_len: 1, arg_len: 2, group: InsnGroup::JumpCond },
        0xE3 => Opcode { mnemonic_fmt: "ex (sp), hl", mnemonic_tail: "", cycles: (19, 0), pre_len: 0, op_len: 1, arg_len: 0, group: InsnGroup::Regular },
        0xE4 => Opcode { mnemonic_fmt: "call po, $", mnemonic_tail: "", cycles: (10, 7), pre_len: 0, op_len: 1, arg_len: 2, group: InsnGroup::CallCond },
        0xE5 => Opcode { mnemonic_fmt: "push hl", mnemonic_tail: "", cycles: (11, 0), pre_len: 0, op_len: 1, arg_len: 0, group: InsnGroup::Regular },
        0xE6 => Opcode { mnemonic_fmt: "and $", mnemonic_tail: "", cycles: (7, 0), pre_len: 0, op_len: 1, arg_len: 1, group: InsnGroup::Regular },
        0xE7 => Opcode { mnemonic_fmt: "rst $20", mnemonic_tail: "", cycles: (11, 0), pre_len: 0, op_len: 1, arg_len: 0, group: InsnGroup::Int },
        0xE8 => Opcode { mnemonic_fmt: "ret pe", mnemonic_tail: "", cycles: (5, 6), pre_len: 0, op_len: 1, arg_len: 0, group: InsnGroup::RetCond },
        0xE9 => Opcode { mnemonic_fmt: "jp (hl)", mnemonic_tail: "", cycles: (4, 0), pre_len: 0, op_len: 1, arg_len: 0, group: InsnGroup::Jump },
        0xEA => Opcode { mnemonic_fmt: "jp pe, $", mnemonic_tail: "", cycles: (10, 0), pre_len: 0, op_len: 1, arg_len: 2, group: InsnGroup::JumpCond },
        0xEB => Opcode { mnemonic_fmt: "ex de, hl", mnemonic_tail: "", cycles: (4, 0), pre_len: 0, op_len: 1, arg_len: 0, group: InsnGroup::Regular },
        0xEC => Opcode { mnemonic_fmt: "call pe, $", mnemonic_tail: "", cycles: (10, 7), pre_len: 0, op_len: 1, arg_len: 2, group: InsnGroup::CallCond },
        0xED => Opcode { mnemonic_fmt: "invalid", mnemonic_tail: "", cycles: (4, 0), pre_len: 0, op_len: 1, arg_len: 0, group: InsnGroup::Invalid },
        0xEE => Opcode { mnemonic_fmt: "xor $", mnemonic_tail: "", cycles: (7, 0), pre_len: 0, op_len: 1, arg_len: 1, group: InsnGroup::Regular },
        0xEF => Opcode { mnemonic_fmt: "rst $28", mnemonic_tail: "", cycles: (11, 0), pre_len: 0, op_len: 1, arg_len: 0, group: InsnGroup::Int },
        0xF0 => Opcode { mnemonic_fmt: "ret p", mnemonic_tail: "", cycles: (5, 6), pre_len: 0, op_len: 1, arg_len: 0, group: InsnGroup::RetCond },
        0xF1 => Opcode { mnemonic_fmt: "pop af", mnemonic_tail: "", cycles: (10, 0), pre_len: 0, op_len: 1, arg_len: 0, group: InsnGroup::Regular },
        0xF2 => Opcode { mnemonic_fmt: "jp p, $", mnemonic_tail: "", cycles: (10, 0), pre_len: 0, op_len: 1, arg_len: 2, group: InsnGroup::JumpCond },
        0xF3 => Opcode { mnemonic_fmt: "di", mnemonic_tail: "", cycles: (4, 0), pre_len: 0, op_len: 1, arg_len: 0, group: InsnGroup::Regular },
        0xF4 => Opcode { mnemonic_fmt: "call p, $", mnemonic_tail: "", cycles: (10, 7), pre_len: 0, op_len: 1, arg_len: 2, group: InsnGroup::CallCond },
        0xF5 => Opcode { mnemonic_fmt: "push af", mnemonic_tail: "", cycles: (11, 0), pre_len: 0, op_len: 1, arg_len: 0, group: InsnGroup::Regular },
        0xF6 => Opcode { mnemonic_fmt: "or $", mnemonic_tail: "", cycles: (7, 0), pre_len: 0, op_len: 1, arg_len: 1, group: InsnGroup::Regular },
        0xF7 => Opcode { mnemonic_fmt: "rst $30", mnemonic_tail: "", cycles: (11, 0), pre_len: 0, op_len: 1, arg_len: 0, group: InsnGroup::Int },
        0xF8 => Opcode { mnemonic_fmt: "ret m", mnemonic_tail: "", cycles: (5, 6), pre_len: 0, op_len: 1, arg_len: 0, group: InsnGroup::RetCond },
        0xF9 => Opcode { mnemonic_fmt: "ld sp, hl", mnemonic_tail: "", cycles: (6, 0), pre_len: 0, op_len: 1, arg_len: 0, group: InsnGroup::Regular },
        0xFA => Opcode { mnemonic_fmt: "jp m, $", mnemonic_tail: "", cycles: (10, 0), pre_len: 0, op_len: 1, arg_len: 2, group: InsnGroup::JumpCond },
        0xFB => Opcode { mnemonic_fmt: "ei", mnemonic_tail: "", cycles: (4, 0), pre_len: 0, op_len: 1, arg_len: 0, group: InsnGroup::Regular },
        0xFC => Opcode { mnemonic_fmt: "call m, $", mnemonic_tail: "", cycles: (10, 7), pre_len: 0, op_len: 1, arg_len: 2, group: InsnGroup::CallCond },
        0xFD => Opcode { mnemonic_fmt: "invalid", mnemonic_tail: "", cycles: (4, 0), pre_len: 0, op_len: 1, arg_len: 0, group: InsnGroup::Invalid },
        0xFE => Opcode { mnemonic_fmt: "cp $", mnemonic_tail: "", cycles: (7, 0), pre_len: 0, op_len: 1, arg_len: 1, group: InsnGroup::Regular },
        _ => Opcode { mnemonic_fmt: "rst $38", mnemonic_tail: "", cycles: (11, 0), pre_len: 0, op_len: 1, arg_len: 0, group: InsnGroup::Int },
    }
}

/// Looks up an entry of the table of unprefixed opcodes.
pub fn lookup_main(b: u8) -> (r: Opcode)
    ensures
        r == spec_main(b),
{
    match b {
        0x00 => Opcode { mnemonic_fmt: "nop", mnemonic_tail: "", cycles: (4, 0), pre_len: 0, op_len: 1, arg_len: 0, group: InsnGroup::Regular },
        0x01 => Opcode { mnemonic_fmt: "ld bc, $", mnemonic_tail: "", cycles: (10, 0), pre_len: 0, op_len: 1, arg_len: 2, group: InsnGroup::Regular },
        0x02 => Opcode { mnemonic_fmt: "ld (bc), a", mnemonic_tail: "", cycles: (7, 0), pre_len: 0, op_len: 1, arg_len: 0, group: InsnGroup::Regular },
        0x03 => Opcode { mnemonic_fmt: "inc bc", mnemonic_tail: "", cycles: (6, 0), pre_len: 0, op_len: 1, arg_len: 0, group: InsnGroup::Regular },
        0x04 => Opcode { mnemonic_fmt: "inc b", mnemonic_tail: "", cycles: (4, 0), pre_len: 0, op_len: 1, arg_len: 0, group: InsnGroup::Regular },
        0x05 => Opcode { mnemonic_fmt: "dec b", mnemonic_tail: "", cycles: (4, 0), pre_len: 0, op_len: 1, arg_len: 0, group: InsnGroup::Regular },
        0x06 => Opcode { mnemonic_fmt: "ld b, $", mnemonic_tail: "", cycles: (7, 0), pre_len: 0, op_len: 1, arg_len: 1, group: InsnGroup::Regular },
        0x07 => Opcode { mnemonic_fmt: "rlca", mnemonic_tail: "", cycles: (4, 0), pre_len: 0, op_len: 1, arg_len: 0, group: InsnGroup::Regular },
        0x08 => Opcode { mnemonic_fmt: "ex af, af'", mnemonic_tail: "", cycles: (4, 0), pre_len: 0, op_len: 1, arg_len: 0, group: InsnGroup::Regular },
        0x09 => Opcode { mnemonic_fmt: "add hl, bc", mnemonic_tail: "", cycles: (11, 0), pre_len: 0, op_len: 1, arg_len: 0, group: InsnGroup::Regular },
        0x0A => Opcode { mnemonic_fmt: "ld a, (bc)", mnemonic_tail: "", cycles: (7, 0), pre_len: 0, op_len: 1, arg_len: 0, group: InsnGroup::Regular },
        0x0B => Opcode { mnemonic_fmt: "dec bc", mnemonic_tail: "", cycles: (6, 0), pre_len: 0, op_len: 1, arg_len: 0, group: InsnGroup::Regular },
        0x0C => Opcode { mnemonic_fmt: "inc c", mnemonic_tail: "", cycles: (4, 0), pre_len: 0, op_len: 1, arg_len: 0, group: InsnGroup::Regular },
        0x0D => Opcode { mnemonic_fmt: "dec c", mnemonic_tail: "", cycles: (4, 0), pre_len: 0, op_len: 1, arg_len: 0, group: InsnGroup::Regular },
        0x0E => Opcode { mnemonic_fmt: "ld c, $", mnemonic_tail: "", cycles: (7, 0), pre_len: 0, op_len: 1, arg_len: 1, group: InsnGroup::Regular },
        0x0F => Opcode { mnemonic_fmt: "rrca", mnemonic_tail: "", cycles: (4, 0), pre_len: 0, op_len: 1, arg_len: 0, group: InsnGroup::Regular },
        0x10 => Opcode { mnemonic_fmt: "djnz $", mnemonic_tail: "", cycles: (8, 5), pre_len: 0, op_len: 1, arg_len: 1, group: InsnGroup::BranchRelCond },
        0x11 => Opcode { mnemonic_fmt: "ld de, $", mnemonic_tail: "", cycles: (10, 0), pre_len: 0, op_len: 1, arg_len: 2, group: InsnGroup::Regular },
        0x12 => Opcode { mnemonic_fmt: "ld (de), a", mnemonic_tail: "", cycles: (7, 0), pre_len: 0, op_len: 1, arg_len: 0, group: InsnGroup::Regular },
        0x13 => Opcode { mnemonic_fmt: "inc de", mnemonic_tail: "", cycles: (6, 0), pre_len: 0, op_len: 1, arg_len: 0, group: InsnGroup::Regular },
        0x14 => Opcode { mnemonic_fmt: "inc d", mnemonic_tail: "", cycles: (4, 0), pre_len: 0, op_len: 1, arg_len: 0, group: InsnGroup::Regular },
        0x15 => Opcode { mnemonic_fmt: "dec d", mnemonic_tail: "", cycles: (4, 0), pre_len: 0, op_len: 1, arg_len: 0, group: InsnGroup::Regular },
        0x16 => Opcode { mnemonic_fmt: "ld d, $", mnemonic_tail: "", cycles: (7, 0), pre_len: 0, op_len: 1, arg_len: 1, group: InsnGroup::Regular },
        0x17 => Opcode { mnemonic_fmt: "rla", mnemonic_tail: "", cycles: (4, 0), pre_len: 0, op_len: 1, arg_len: 0, group: InsnGroup::Regular },
        0x18 => Opcode { mnemonic_fmt: "jr $", mnemonic_tail: "", cycles: (12, 0), pre_len: 0, op_len: 1, arg_len: 1, group: InsnGroup::BranchRel },
        0x19 => Opcode { mnemonic_fmt: "add hl, de", mnemonic_tail: "", cycles: (11, 0), pre_len: 0, op_len: 1, arg_len: 0, group: InsnGroup::Regular },
        0x1A => Opcode { mnemonic_fmt: "ld a, (de)", mnemonic_tail: "", cycles: (7, 0), pre_len: 0, op_len: 1, arg_len: 0, group: InsnGroup::Regular },
        0x1B => Opcode { mnemonic_fmt: "dec de", mnemonic_tail: "", cycles: (6, 0), pre_len: 0, op_len: 1, arg_len: 0, group: InsnGroup::Regular },
        0x1C => Opcode { mnemonic_fmt: "inc e", mnemonic_tail: "", cycles: (4, 0), pre_len: 0, op_len: 1, arg_len: 0, group: InsnGroup::Regular },
        0x1D => Opcode { mnemonic_fmt: "dec e", mnemonic_tail: "", cycles: (4, 0), pre_len: 0, op_len: 1, arg_len: 0, group: InsnGroup::Regular },
        0x1E => Opcode { mnemonic_fmt: "ld e, $", mnemonic_tail: "", cycles: (7, 0), pre_len: 0, op_len: 1, arg_len: 1, group: InsnGroup::Regular },
        0x1F => Opcode { mnemonic_fmt: "rra", mnemonic_tail: "", cycles: (4, 0), pre_len: 0, op_len: 1, arg_len: 0, group: InsnGroup::Regular },
        0x20 => Opcode { mnemonic_fmt: "jr nz, $", mnemonic_tail: "", cycles: (7, 5), pre_len: 0, op_len: 1, arg_len: 1, group: InsnGroup::BranchRelCond },
        0x21 => Opcode { mnemonic_fmt: "ld hl, $", mnemonic_tail: "", cycles: (10, 0), pre_len: 0, op_len: 1, arg_len: 2, group: InsnGroup::Regular },
        0x22 => Opcode { mnemonic_fmt: "ld ($", mnemonic_tail: "), hl", cycles: (16, 0), pre_len: 0, op_len: 1, arg_len: 2, group: InsnGroup::Regular },
        0x23 => Opcode { mnemonic_fmt: "inc hl", mnemonic_tail: "", cycles: (6, 0), pre_len: 0, op_len: 1, arg_len: 0, group: InsnGroup::Regular },
        0x24 => Opcode { mnemonic_fmt: "inc h", mnemonic_tail: "", cycles: (4, 0), pre_len: 0, op_len: 1, arg_len: 0, group: InsnGroup::Regular },
        0x25 => Opcode { mnemonic_fmt: "dec h", mnemonic_tail: "", cycles: (4, 0), pre_len: 0, op_len: 1, arg_len: 0, group: InsnGroup::Regular },
        0x26 => Opcode { mnemonic_fmt: "ld h, $", mnemonic_tail: "", cycles: (7, 0), pre_len: 0, op_len: 1, arg_len: 1, group: InsnGroup::Regular },
        0x27 => Opcode { mnemonic_fmt: "daa", mnemonic_tail: "", cycles: (4, 0), pre_len: 0, op_len: 1, arg_len: 0, group: InsnGroup::Regular },
        0x28 => Opcode { mnemonic_fmt: "jr z, $", mnemonic_tail: "", cycles: (7, 5), pre_len: 0, op_len: 1, arg_len: 1, group: InsnGroup::BranchRelCond },
        0x29 => Opcode { mnemonic_fmt: "add hl, hl", mnemonic_tail: "", cycles: (11, 0), pre_len: 0, op_len: 1, arg_len: 0, group: InsnGroup::Regular },
        0x2A => Opcode { mnemonic_fmt: "ld hl, ($", mnemonic_tail: ")", cycles: (16, 0), pre_len: 0, op_len: 1, arg_len: 2, group: InsnGroup::Regular },
        0x2B => Opcode { mnemonic_fmt: "dec hl", mnemonic_tail: "", cycles: (6, 0), pre_len: 0, op_len: 1, arg_len: 0, group: InsnGroup::Regular },
        0x2C => Opcode { mnemonic_fmt: "inc l", mnemonic_tail: "", cycles: (4, 0), pre_len: 0, op_len: 1, arg_len: 0, group: InsnGroup::Regular },
        0x2D => Opcode { mnemonic_fmt: "dec l", mnemonic_tail: "", cycles: (4, 0), pre_len: 0, op_len: 1, arg_len: 0, group: InsnGroup::Regular },
        0x2E => Opcode { mnemonic_fmt: "ld l, $", mnemonic_tail: "", cycles: (7, 0), pre_len: 0, op_len: 1, arg_len: 1, group: InsnGroup::Regular },
        0x2F => Opcode { mnemonic_fmt: "cpl", mnemonic_tail: "", cycles: (4, 0), pre_len: 0, op_len: 1, arg_len: 0, group: InsnGroup::Regular },
        0x30 => Opcode { mnemonic_fmt: "jr nc, $", mnemonic_tail: "", cycles: (7, 5), pre_len: 0, op_len: 1, arg_len: 1, group: InsnGroup::BranchRelCond },
        0x31 => Opcode { mnemonic_fmt: "ld sp, $", mnemonic_tail: "", cycles: (10, 0), pre_len: 0, op_len: 1, arg_len: 2, group: InsnGroup::Regular },
        0x32 => Opcode { mnemonic_fmt: "ld ($", mnemonic_tail: "), a", cycles: (13, 0), pre_len: 0, op_len: 1, arg_len: 2, group: InsnGroup::Regular },
        0x33 => Opcode { mnemonic_fmt: "inc sp", mnemonic_tail: "", cycles: (6, 0), pre_len: 0, op_len: 1, arg_len: 0, group: InsnGroup::Regular },
        0x34 => Opcode { mnemonic_fmt: "inc (hl)", mnemonic_tail: "", cycles: (11, 0), pre_len: 0, op_len: 1, arg_len: 0, group: InsnGroup::Regular },
        0x35 => Opcode { mnemonic_fmt: "dec (hl)", mnemonic_tail: "", cycles: (11, 0), pre_len: 0, op_len: 1, arg_len: 0, group: InsnGroup::Regular },
        0x36 => Opcode { mnemonic_fmt: "ld (hl), $", mnemonic_tail: "", cycles: (10, 0), pre_len: 0, op_len: 1, arg_len: 1, group: InsnGroup::Regular },
        0x37 => Opcode { mnemonic_fmt: "scf", mnemonic_tail: "", cycles: (4, 0), pre_len: 0, op_len: 1, arg_len: 0, group: InsnGroup::Regular },
        0x38 => Opcode { mnemonic_fmt: "jr c, $", mnemonic_tail: "", cycles: (7, 5), pre_len: 0, op_len: 1, arg_len: 1, group: InsnGroup::BranchRelCond },
        0x39 => Opcode { mnemonic_fmt: "add hl, sp", mnemonic_tail: "", cycles: (11, 0), pre_len: 0, op_len: 1, arg_len: 0, group: InsnGroup::Regular },
        0x3A => Opcode { mnemonic_fmt: "ld a, ($", mnemonic_tail: ")", cycles: (13, 0), pre_len: 0, op_len: 1, arg_len: 2, group: InsnGroup::Regular },
        0x3B => Opcode { mnemonic_fmt: "dec sp", mnemonic_tail: "", cycles: (6, 0), pre_len: 0, op_len: 1, arg_len: 0, group: InsnGroup::Regular },
        0x3C => Opcode { mnemonic_fmt: "inc a", mnemonic_tail: "", cycles: (4, 0), pre_len: 0, op_len: 1, arg_len: 0, group: InsnGroup::Regular },
        0x3D => Opcode { mnemonic_fmt: "dec a", mnemonic_tail: "", cycles: (4, 0), pre_len: 0, op_len: 1, arg_len: 0, group: InsnGroup::Regular },
        0x3E => Opcode { mnemonic_fmt: "ld a, $", mnemonic_tail: "", cycles: (7, 0), pre_len: 0, op_len: 1, arg_len: 1, group: InsnGroup::Regular },
        0x3F => Opcode { mnemonic_fmt: "ccf", mnemonic_tail: "", cycles: (4, 0), pre_len: 0, op_len: 1, arg_len: 0, group: InsnGroup::Regular },
        0x40 => Opcode { mnemonic_fmt: "ld b, b", mnemonic_tail: "", cycles: (4, 0), pre_len: 0, op_len: 1, arg_len: 0, group: InsnGroup::Regular },
        0x41 => Opcode { mnemonic_fmt: "ld b, c", mnemonic_tail: "", cycles: (4, 0), pre_len: 0, op_len: 1, arg_len: 0, group: InsnGroup::Regular },
        0x42 => Opcode { mnemonic_fmt: "ld b, d", mnemonic_tail: "", cycles: (4, 0), pre_len: 0, op_len: 1, arg_len: 0, group: InsnGroup::Regular },
        0x43 => Opcode { mnemonic_fmt: "ld b, e", mnemonic_tail: "", cycles: (4, 0), pre_len: 0, op_len: 1, arg_len: 0, group: InsnGroup::Regular },
        0x44 => Opcode { mnemonic_fmt: "ld b, h", mnemonic_tail: "", cycles: (4, 0), pre_len: 0, op_len: 1, arg_len: 0, group: InsnGroup::Regular },
        0x45 => Opcode { mnemonic_fmt: "ld b, l", mnemonic_tail: "", cycles: (4, 0), pre_len: 0, op_len: 1, arg_len: 0, group: InsnGroup::Regular },
        0x46 => Opcode { mnemonic_fmt: "ld b, (hl)", mnemonic_tail: "", cycles: (7, 0), pre_len: 0, op_len: 1, arg_len: 0, group: InsnGroup::Regular },
        0x47 => Opcode { mnemonic_fmt: "ld b, a", mnemonic_tail: "", cycles: (4, 0), pre_len: 0, op_len: 1, arg_len: 0, group: InsnGroup::Regular },
        0x48 => Opcode { mnemonic_fmt: "ld c, b", mnemonic_tail: "", cycles: (4, 0), pre_len: 0, op_len: 1, arg_len: 0, group: InsnGroup::Regular },
        0x49 => Opcode { mnemonic_fmt: "ld c, c", mnemonic_tail: "", cycles: (4, 0), pre_len: 0, op_len: 1, arg_len: 0, group: InsnGroup::Regular },
        0x4A => Opcode { mnemonic_fmt: "ld c, d", mnemonic_tail: "", cycles: (4, 0), pre_len: 0, op_len: 1, arg_len: 0, group: InsnGroup::Regular },
        0x4B => Opcode { mnemonic_fmt: "ld c, e", mnemonic_tail: "", cycles: (4, 0), pre_len: 0, op_len: 1, arg_len: 0, group: InsnGroup::Regular },
        0x4C => Opcode { mnemonic_fmt: "ld c, h", mnemonic_tail: "", cycles: (4, 0), pre_len: 0, op_len: 1, arg_len: 0, group: InsnGroup::Regular },
        0x4D => Opcode { mnemonic_fmt: "ld c, l", mnemonic_tail: "", cycles: (4, 0), pre_len: 0, op_len: 1, arg_len: 0, group: InsnGroup::Regular },
        0x4E => Opcode { mnemonic_fmt: "ld c, (hl)", mnemonic_tail: "", cycles: (7, 0), pre_len: 0, op_len: 1, arg_len: 0, group: InsnGroup::Regular },
        0x4F => Opcode { mnemonic_fmt: "ld c, a", mnemonic_tail: "", cycles: (4, 0), pre_len: 0, op_len: 1, arg_len: 0, group: InsnGroup::Regular },
        0x50 => Opcode { mnemonic_fmt: "ld d, b", mnemonic_tail: "", cycles: (4, 0), pre_len: 0, op_len: 1, arg_len: 0, group: InsnGroup::Regular },
        0x51 => Opcode { mnemonic_fmt: "ld d, c", mnemonic_tail: "", cycles: (4, 0), pre_len: 0, op_len: 1, arg_len: 0, group: InsnGroup::Regular },
        0x52 => Opcode { mnemonic_fmt: "ld d, d", mnemonic_tail: "", cycles: (4, 0), pre_len: 0, op_len: 1, arg_len: 0, group: InsnGroup::Regular },
        0x53 => Opcode { mnemonic_fmt: "ld d, e", mnemonic_tail: "", cycles: (4, 0), pre_len: 0, op_len: 1, arg_len: 0, group: InsnGroup::Regular },
        0x54 => Opcode { mnemonic_fmt: "ld d, h", mnemonic_tail: "", cycles: (4, 0), pre_len: 0, op_len: 1, arg_len: 0, group: InsnGroup::Regular },
        0x55 => Opcode { mnemonic_fmt: "ld d, l", mnemonic_tail: "", cycles: (4, 0), pre_len: 0, op_len: 1, arg_len: 0, group: InsnGroup::Regular },
        0x56 => Opcode { mnemonic_fmt: "ld d, (hl)", mnemonic_tail: "", cycles: (7, 0), pre_len: 0, op_len: 1, arg_len: 0, group: InsnGroup::Regular },
        0x57 => Opcode { mnemonic_fmt: "ld d, a", mnemonic_tail: "", cycles: (4, 0), pre_len: 0, op_len: 1, arg_len: 0, group: InsnGroup::Regular },
        0x58 => Opcode { mnemonic_fmt: "ld e, b", mnemonic_tail: "", cycles: (4, 0), pre_len: 0, op_len: 1, arg_len: 0, group: InsnGroup::Regular },
        0x59 => Opcode { mnemonic_fmt: "ld e, c", mnemonic_tail: "", cycles: (4, 0), pre_len: 0, op_len: 1, arg_len: 0, group: InsnGroup::Regular },
        0x5A => Opcode { mnemonic_fmt: "ld e, d", mnemonic_tail: "", cycles: (4, 0), pre_len: 0, op_len: 1, arg_len: 0, group: InsnGroup::Regular },
        0x5B => Opcode { mnemonic_fmt: "ld e, e", mnemonic_tail: "", cycles: (4, 0), pre_len: 0, op_len: 1, arg_len: 0, group: InsnGroup::Regular },
        0x5C => Opcode { mnemonic_fmt: "ld e, h", mnemonic_tail: "", cycles: (4, 0), pre_len: 0, op_len: 1, arg_len: 0, group: InsnGroup::Regular },
        0x5D => Opcode { mnemonic_fmt: "ld e, l", mnemonic_tail: "", cycles: (4, 0), pre_len: 0, op_len: 1, arg_len: 0, group: InsnGroup::Regular },
        0x5E => Opcode { mnemonic_fmt: "ld e, (hl)", mnemonic_tail: "", cycles: (7, 0), pre_len: 0, op_len: 1, arg_len: 0, group: InsnGroup::Regular },
        0x5F => Opcode { mnemonic_fmt: "ld e, a", mnemonic_tail: "", cycles: (4, 0), pre_len: 0, op_len: 1, arg_len: 0, group: InsnGroup::Regular },
        0x60 => Opcode { mnemonic_fmt: "ld h, b", mnemonic_tail: "", cycles: (4, 0), pre_len: 0, op_len: 1, arg_len: 0, group: InsnGroup::Regular },
        0x61 => Opcode { mnemonic_fmt: "ld h, c", mnemonic_tail: "", cycles: (4, 0), pre_len: 0, op_len: 1, arg_len: 0, group: InsnGroup::Regular },
        0x62 => Opcode { mnemonic_fmt: "ld h, d", mnemonic_tail: "", cycles: (4, 0), pre_len: 0, op_len: 1, arg_len: 0, group: InsnGroup::Regular },
        0x63 => Opcode { mnemonic_fmt: "ld h, e", mnemonic_tail: "", cycles: (4, 0), pre_len: 0, op_len: 1, arg_len: 0, group: InsnGroup::Regular },
        0x64 => Opcode { mnemonic_fmt: "ld h, h", mnemonic_tail: "", cycles: (4, 0), pre_len: 0, op_len: 1, arg_len: 0, group: InsnGroup::Regular },
        0x65 => Opcode { mnemonic_fmt: "ld h, l", mnemonic_tail: "", cycles: (4, 0), pre_len: 0, op_len: 1, arg_len: 0, group: InsnGroup::Regular },
        0x66 => Opcode { mnemonic_fmt: "ld h, (hl)", mnemonic_tail: "", cycles: (7, 0), pre_len: 0, op_len: 1, arg_len: 0, group: InsnGroup::Regular },
        0x67 => Opcode { mnemonic_fmt: "ld h, a", mnemonic_tail: "", cycles: (4, 0), pre_len: 0, op_len: 1, arg_len: 0, group: InsnGroup::Regular },
        0x68 => Opcode { mnemonic_fmt: "ld l, b", mnemonic_tail: "", cycles: (4, 0), pre_len: 0, op_len: 1, arg_len: 0, group: InsnGroup::Regular },
        0x69 => Opcode { mnemonic_fmt: "ld l, c", mnemonic_tail: "", cycles: (4, 0), pre_len: 0, op_len: 1, arg_len: 0, group: InsnGroup::Regular },
        0x6A => Opcode { mnemonic_fmt: "ld l, d", mnemonic_tail: "", cycles: (4, 0), pre_len: 0, op_len: 1, arg_len: 0, group: InsnGroup::Regular },
        0x6B => Opcode { mnemonic_fmt: "ld l, e", mnemonic_tail: "", cycles: (4, 0), pre_len: 0, op_len: 1, arg_len: 0, group: InsnGroup::Regular },
        0x6C => Opcode { mnemonic_fmt: "ld l, h", mnemonic_tail: "", cycles: (4, 0), pre_len: 0, op_len: 1, arg_len: 0, group: InsnGroup::Regular },
        0x6D => Opcode { mnemonic_fmt: "ld l, l", mnemonic_tail: "", cycles: (4, 0), pre_len: 0, op_len: 1, arg_len: 0, group: InsnGroup::Regular },
        0x6E => Opcode { mnemonic_fmt: "ld l, (hl)", mnemonic_tail: "", cycles: (7, 0), pre_len: 0, op_len: 1, arg_len: 0, group: InsnGroup::Regular },
        0x6F => Opcode { mnemonic_fmt: "ld l, a", mnemonic_tail: "", cycles: (4, 0), pre_len: 0, op_len: 1, arg_len: 0, group: InsnGroup::Regular },
        0x70 => Opcode { mnemonic_fmt: "ld (hl), b", mnemonic_tail: "", cycles: (7, 0), pre_len: 0, op_len: 1, arg_len: 0, group: InsnGroup::Regular },
        0x71 => Opcode { mnemonic_fmt: "ld (hl), c", mnemonic_tail: "", cycles: (7, 0), pre_len: 0, op_len: 1, arg_len: 0, group: InsnGroup::Regular },
        0x72 => Opcode { mnemonic_fmt: "ld (hl), d", mnemonic_tail: "", cycles: (7, 0), pre_len: 0, op_len: 1, arg_len: 0, group: InsnGroup::Regular },
        0x73 => Opcode { mnemonic_fmt: "ld (hl), e", mnemonic_tail: "", cycles: (7, 0), pre_len: 0, op_len: 1, arg_len: 0, group: InsnGroup::Regular },
        0x74 => Opcode { mnemonic_fmt: "ld (hl), h", mnemonic_tail: "", cycles: (7, 0), pre_len: 0, op_len: 1, arg_len: 0, group: InsnGroup::Regular },
        0x75 => Opcode { mnemonic_fmt: "ld (hl), l", mnemonic_tail: "", cycles: (7, 0), pre_len: 0, op_len: 1, arg_len: 0, group: InsnGroup::Regular },
        0x76 => Opcode { mnemonic_fmt: "halt", mnemonic_tail: "", cycles: (4, 0), pre_len: 0, op_len: 1, arg_len: 0, group: InsnGroup::Regular },
        0x77 => Opcode { mnemonic_fmt: "ld (hl), a", mnemonic_tail: "", cycles: (7, 0), pre_len: 0, op_len: 1, arg_len: 0, group: InsnGroup::Regular },
        0x78 => Opcode { mnemonic_fmt: "ld a, b", mnemonic_tail: "", cycles: (4, 0), pre_len: 0, op_len: 1, arg_len: 0, group: InsnGroup::Regular },
        0x79 => Opcode { mnemonic_fmt: "ld a, c", mnemonic_tail: "", cycles: (4, 0), pre_len: 0, op_len: 1, arg_len: 0, group: InsnGroup::Regular },
        0x7A => Opcode { mnemonic_fmt: "ld a, d", mnemonic_tail: "", cycles: (4, 0), pre_len: 0, op_len: 1, arg_len: 0, group: InsnGroup::Regular },
        0x7B => Opcode { mnemonic_fmt: "ld a, e", mnemonic_tail: "", cycles: (4, 0), pre_len: 0, op_len: 1, arg_len: 0, group: InsnGroup::Regular },
        0x7C => Opcode { mnemonic_fmt: "ld a, h", mnemonic_tail: "", cycles: (4, 0), pre_len: 0, op_len: 1, arg_len: 0, group: InsnGroup::Regular },
        0x7D => Opcode { mnemonic_fmt: "ld a, l", mnemonic_tail: "", cycles: (4, 0), pre_len: 0, op_len: 1, arg_len: 0, group: InsnGroup::Regular },
        0x7E => Opcode { mnemonic_fmt: "ld a, (hl)", mnemonic_tail: "", cycles: (7, 0), pre_len: 0, op_len: 1, arg_len: 0, group: InsnGroup::Regular },
        0x7F => Opcode { mnemonic_fmt: "ld a, a", mnemonic_tail: "", cycles: (4, 0), pre_len: 0, op_len: 1, arg_len: 0, group: InsnGroup::Regular },
        0x80 => Opcode { mnemonic_fmt: "add a, b", mnemonic_tail: "", cycles: (4, 0), pre_len: 0, op_len: 1, arg_len: 0, group: InsnGroup::Regular },
        0x81 => Opcode { mnemonic_fmt: "add a, c", mnemonic_tail: "", cycles: (4, 0), pre_len: 0, op_len: 1, arg_len: 0, group: InsnGroup::Regular },
        0x82 => Opcode { mnemonic_fmt: "add a, d", mnemonic_tail: "", cycles: (4, 0), pre_len: 0, op_len: 1, arg_len: 0, group: InsnGroup::Regular },
        0x83 => Opcode { mnemonic_fmt: "add a, e", mnemonic_tail: "", cycles: (4, 0), pre_len: 0, op_len: 1, arg_len: 0, group: InsnGroup::Regular },
        0x84 => Opcode { mnemonic_fmt: "add a, h", mnemonic_tail: "", cycles: (4, 0), pre_len: 0, op_len: 1, arg_len: 0, group: InsnGroup::Regular },
        0x85 => Opcode { mnemonic_fmt: "add a, l", mnemonic_tail: "", cycles: (4, 0), pre_len: 0, op_len: 1, arg_len: 0, group: InsnGroup::Regular },
        0x86 => Opcode { mnemonic_fmt: "add a, (hl)", mnemonic_tail: "", cycles: (7, 0), pre_len: 0, op_len: 1, arg_len: 0, group: InsnGroup::Regular },
        0x87 => Opcode { mnemonic_fmt: "add a, a", mnemonic_tail: "", cycles: (4, 0), pre_len: 0, op_len: 1, arg_len: 0, group: InsnGroup::Regular },
        0x88 => Opcode { mnemonic_fmt: "adc a, b", mnemonic_tail: "", cycles: (4, 0), pre_len: 0, op_len: 1, arg_len: 0, group: InsnGroup::Regular },
        0x89 => Opcode { mnemonic_fmt: "adc a, c", mnemonic_tail: "", cycles: (4, 0), pre_len: 0, op_len: 1, arg_len: 0, group: InsnGroup::Regular },
        0x8A => Opcode { mnemonic_fmt: "adc a, d", mnemonic_tail: "", cycles: (4, 0), pre_len: 0, op_len: 1, arg_len: 0, group: InsnGroup::Regular },
        0x8B => Opcode { mnemonic_fmt: "adc a, e", mnemonic_tail: "", cycles: (4, 0), pre_len: 0, op_len: 1, arg_len: 0, group: InsnGroup::Regular },
        0x8C => Opcode { mnemonic_fmt: "adc a, h", mnemonic_tail: "", cycles: (4, 0), pre_len: 0, op_len: 1, arg_len: 0, group: InsnGroup::Regular },
        0x8D => Opcode { mnemonic_fmt: "adc a, l", mnemonic_tail: "", cycles: (4, 0), pre_len: 0, op_len: 1, arg_len: 0, group: InsnGroup::Regular },
        0x8E => Opcode { mnemonic_fmt: "adc a, (hl)", mnemonic_tail: "", cycles: (7, 0), pre_len: 0, op_len: 1, arg_len: 0, group: InsnGroup::Regular },
        0x8F => Opcode { mnemonic_fmt: "adc a, a", mnemonic_tail: "", cycles: (4, 0), pre_len: 0, op_len: 1, arg_len: 0, group: InsnGroup::Regular },
        0x90 => Opcode { mnemonic_fmt: "sub b", mnemonic_tail: "", cycles: (4, 0), pre_len: 0, op_len: 1, arg_len: 0, group: InsnGroup::Regular },
        0x91 => Opcode { mnemonic_fmt: "sub c", mnemonic_tail: "", cycles: (4, 0), pre_len: 0, op_len: 1, arg_len: 0, group: InsnGroup::Regular },
        0x92 => Opcode { mnemonic_fmt: "sub d", mnemonic_tail: "", cycles: (4, 0), pre_len: 0, op_len: 1, arg_len: 0, group: InsnGroup::Regular },
        0x93 => Opcode { mnemonic_fmt: "sub e", mnemonic_tail: "", cycles: (4, 0), pre_len: 0, op_len: 1, arg_len: 0, group: InsnGroup::Regular },
        0x94 => Opcode { mnemonic_fmt: "sub h", mnemonic_tail: "", cycles: (4, 0), pre_len: 0, op_len: 1, arg_len: 0, group: InsnGroup::Regular },
        0x95 => Opcode { mnemonic_fmt: "sub l", mnemonic_tail: "", cycles: (4, 0), pre_len: 0, op_len: 1, arg_len: 0, group: InsnGroup::Regular },
        0x96 => Opcode { mnemonic_fmt: "sub (hl)", mnemonic_tail: "", cycles: (7, 0), pre_len: 0, op_len: 1, arg_len: 0, group: InsnGroup::Regular },
        0x97 => Opcode { mnemonic_fmt: "sub a", mnemonic_tail: "", cycles: (4, 0), pre_len: 0, op_len: 1, arg_len: 0, group: InsnGroup::Regular },
        0x98 => Opcode { mnemonic_fmt: "sbc a, b", mnemonic_tail: "", cycles: (4, 0), pre_len: 0, op_len: 1, arg_len: 0, group: InsnGroup::Regular },
        0x99 => Opcode { mnemonic_fmt: "sbc a, c", mnemonic_tail: "", cycles: (4, 0), pre_len: 0, op_len: 1, arg_len: 0, group: InsnGroup::Regular },
        0x9A => Opcode { mnemonic_fmt: "sbc a, d", mnemonic_tail: "", cycles: (4, 0), pre_len: 0, op_len: 1, arg_len: 0, group: InsnGroup::Regular },
        0x9B => Opcode { mnemonic_fmt: "sbc a, e", mnemonic_tail: "", cycles: (4, 0), pre_len: 0, op_len: 1, arg_len: 0, group: InsnGroup::Regular },
        0x9C => Opcode { mnemonic_fmt: "sbc a, h", mnemonic_tail: "", cycles: (4, 0), pre_len: 0, op_len: 1, arg_len: 0, group: InsnGroup::Regular },
        0x9D => Opcode { mnemonic_fmt: "sbc a, l", mnemonic_tail: "", cycles: (4, 0), pre_len: 0, op_len: 1, arg_len: 0, group: InsnGroup::Regular },
        0x9E => Opcode { mnemonic_fmt: "sbc a, (hl)", mnemonic_tail: "", cycles: (7, 0), pre_len: 0, op_len: 1, arg_len: 0, group: InsnGroup::Regular },
        0x9F => Opcode { mnemonic_fmt: "sbc a, a", mnemonic_tail: "", cycles: (4, 0), pre_len: 0, op_len: 1, arg_len: 0, group: InsnGroup::Regular },
        0xA0 => Opcode { mnemonic_fmt: "and b", mnemonic_tail: "", cycles: (4, 0), pre_len: 0, op_len: 1, arg_len: 0, group: InsnGroup::Regular },
        0xA1 => Opcode { mnemonic_fmt: "and c", mnemonic_tail: "", cycles: (4, 0), pre_len: 0, op_len: 1, arg_len: 0, group: InsnGroup::Regular },
        0xA2 => Opcode { mnemonic_fmt: "and d", mnemonic_tail: "", cycles: (4, 0), pre_len: 0, op_len: 1, arg_len: 0, group: InsnGroup::Regular },
        0xA3 => Opcode { mnemonic_fmt: "and e", mnemonic_tail: "", cycles: (4, 0), pre_len: 0, op_len: 1, arg_len: 0, group: InsnGroup::Regular },
        0xA4 => Opcode { mnemonic_fmt: "and h", mnemonic_tail: "", cycles: (4, 0), pre_len: 0, op_len: 1, arg_len: 0, group: InsnGroup::Regular },
        0xA5 => Opcode { mnemonic_fmt: "and l", mnemonic_tail: "", cycles: (4, 0), pre_len: 0, op_len: 1, arg_len: 0, group: InsnGroup::Regular },
        0xA6 => Opcode { mnemonic_fmt: "and (hl)", mnemonic_tail: "", cycles: (7, 0), pre_len: 0, op_len: 1, arg_len: 0, group: InsnGroup::Regular },
        0xA7 => Opcode { mnemonic_fmt: "and a", mnemonic_tail: "", cycles: (4, 0), pre_len: 0, op_len: 1, arg_len: 0, group: InsnGroup::Regular },
        0xA8 => Opcode { mnemonic_fmt: "xor b", mnemonic_tail: "", cycles: (4, 0), pre_len: 0, op_len: 1, arg_len: 0, group: InsnGroup::Regular },
        0xA9 => Opcode { mnemonic_fmt: "xor c", mnemonic_tail: "", cycles: (4, 0), pre_len: 0, op_len: 1, arg_len: 0, group: InsnGroup::Regular },
        0xAA => Opcode { mnemonic_fmt: "xor d", mnemonic_tail: "", cycles: (4, 0), pre_len: 0, op_len: 1, arg_len: 0, group: InsnGroup::Regular },
        0xAB => Opcode { mnemonic_fmt: "xor e", mnemonic_tail: "", cycles: (4, 0), pre_len: 0, op_len: 1, arg_len: 0, group: InsnGroup::Regular },
        0xAC => Opcode { mnemonic_fmt: "xor h", mnemonic_tail: "", cycles: (4, 0), pre_len: 0, op_len: 1, arg_len: 0, group: InsnGroup::Regular },
        0xAD => Opcode { mnemonic_fmt: "xor l", mnemonic_tail: "", cycles: (4, 0), pre_len: 0, op_len: 1, arg_len: 0, group: InsnGroup::Regular },
        0xAE => Opcode { mnemonic_fmt: "xor (hl)", mnemonic_tail: "", cycles: (7, 0), pre_len: 0, op_len: 1, arg_len: 0, group: InsnGroup::Regular },
        0xAF => Opcode { mnemonic_fmt: "xor a", mnemonic_tail: "", cycles: (4, 0), pre_len: 0, op_len: 1, arg_len: 0, group: InsnGroup::Regular },
        0xB0 => Opcode { mnemonic_fmt: "or b", mnemonic_tail: "", cycles: (4, 0), pre_len: 0, op_len: 1, arg_len: 0, group: InsnGroup::Regular },
        0xB1 => Opcode { mnemonic_fmt: "or c", mnemonic_tail: "", cycles: (4, 0), pre_len: 0, op_len: 1, arg_len: 0, group: InsnGroup::Regular },
        0xB2 => Opcode { mnemonic_fmt: "or d", mnemonic_tail: "", cycles: (4, 0), pre_len: 0, op_len: 1, arg_len: 0, group: InsnGroup::Regular },
        0xB3 => Opcode { mnemonic_fmt: "or e", mnemonic_tail: "", cycles: (4, 0), pre_len: 0, op_len: 1, arg_len: 0, group: InsnGroup::Regular },
        0xB4 => Opcode { mnemonic_fmt: "or h", mnemonic_tail: "", cycles: (4, 0), pre_len: 0, op_len: 1, arg_len: 0, group: InsnGroup::Regular },
        0xB5 => Opcode { mnemonic_fmt: "or l", mnemonic_tail: "", cycles: (4, 0), pre_len: 0, op_len: 1, arg_len: 0, group: InsnGroup::Regular },
        0xB6 => Opcode { mnemonic_fmt: "or (hl)", mnemonic_tail: "", cycles: (7, 0), pre_len: 0, op_len: 1, arg_len: 0, group: InsnGroup::Regular },
        0xB7 => Opcode { mnemonic_fmt: "or a", mnemonic_tail: "", cycles: (4, 0), pre_len: 0, op_len: 1, arg_len: 0, group: InsnGroup::Regular },
        0xB8 => Opcode { mnemonic_fmt: "cp b", mnemonic_tail: "", cycles: (4, 0), pre_len: 0, op_len: 1, arg_len: 0, group: InsnGroup::Regular },
        0xB9 => Opcode { mnemonic_fmt: "cp c", mnemonic_tail: "", cycles: (4, 0), pre_len: 0, op_len: 1, arg_len: 0, group: InsnGroup::Regular },
        0xBA => Opcode { mnemonic_fmt: "cp d", mnemonic_tail: "", cycles: (4, 0), pre_len: 0, op_len: 1, arg_len: 0, group: InsnGroup::Regular },
        0xBB => Opcode { mnemonic_fmt: "cp e", mnemonic_tail: "", cycles: (4, 0), pre_len: 0, op_len: 1, arg_len: 0, group: InsnGroup::Regular },
        0xBC => Opcode { mnemonic_fmt: "cp h", mnemonic_tail: "", cycles: (4, 0), pre_len: 0, op_len: 1, arg_len: 0, group: InsnGroup::Regular },
        0xBD => Opcode { mnemonic_fmt: "cp l", mnemonic_tail: "", cycles: (4, 0), pre_len: 0, op_len: 1, arg_len: 0, group: InsnGroup::Regular },
        0xBE => Opcode { mnemonic_fmt: "cp (hl)", mnemonic_tail: "", cycles: (7, 0), pre_len: 0, op_len: 1, arg_len: 0, group: InsnGroup::Regular },
        0xBF => Opcode { mnemonic_fmt: "cp a", mnemonic_tail: "", cycles: (4, 0), pre_len: 0, op_len: 1, arg_len: 0, group: InsnGroup::Regular },
        0xC0 => Opcode { mnemonic_fmt: "ret nz", mnemonic_tail: "", cycles: (5, 6), pre_len: 0, op_len: 1, arg_len: 0, group: InsnGroup::RetCond },
        0xC1 => Opcode { mnemonic_fmt: "pop bc", mnemonic_tail: "", cycles: (10, 0), pre_len: 0, op_len: 1, arg_len: 0, group: InsnGroup::Regular },
        0xC2 => Opcode { mnemonic_fmt: "jp nz, $", mnemonic_tail: "", cycles: (10, 0), pre_len: 0, op_len: 1, arg_len: 2, group: InsnGroup::JumpCond },
        0xC3 => Opcode { mnemonic_fmt: "jp $", mnemonic_tail: "", cycles: (10, 0), pre_len: 0, op_len: 1, arg_len: 2, group: InsnGroup::Jump },
        0xC4 => Opcode { mnemonic_fmt: "call nz, $", mnemonic_tail: "", cycles: (10, 7), pre_len: 0, op_len: 1, arg_len: 2, group: InsnGroup::CallCond },
        0xC5 => Opcode { mnemonic_fmt: "push bc", mnemonic_tail: "", cycles: (11, 0), pre_len: 0, op_len: 1, arg_len: 0, group: InsnGroup::Regular },
        0xC6 => Opcode { mnemonic_fmt: "add a, $", mnemonic_tail: "", cycles: (7, 0), pre_len: 0, op_len: 1, arg_len: 1, group: InsnGroup::Regular },
        0xC7 => Opcode { mnemonic_fmt: "rst $00", mnemonic_tail: "", cycles: (11, 0), pre_len: 0, op_len: 1, arg_len: 0, group: InsnGroup::Int },
        0xC8 => Opcode { mnemonic_fmt: "ret z", mnemonic_tail: "", cycles: (5, 6), pre_len: 0, op_len: 1, arg_len: 0, group: InsnGroup::RetCond },
        0xC9 => Opcode { mnemonic_fmt: "ret", mnemonic_tail: "", cycles: (10, 0), pre_len: 0, op_len: 1, arg_len: 0, group: InsnGroup::Ret },
        0xCA => Opcode { mnemonic_fmt: "jp z, $", mnemonic_tail: "", cycles: (10, 0), pre_len: 0, op_len: 1, arg_len: 2, group: InsnGroup::JumpCond },
        0xCB => Opcode { mnemonic_fmt: "invalid", mnemonic_tail: "", cycles: (4, 0), pre_len: 0, op_len: 1, arg_len: 0, group: InsnGroup::Invalid },
        0xCC => Opcode { mnemonic_fmt: "call z, $", mnemonic_tail: "", cycles: (10, 7), pre_len: 0, op_len: 1, arg_len: 2, group: InsnGroup::CallCond },
        0xCD => Opcode { mnemonic_fmt: "call $", mnemonic_tail: "", cycles: (17, 0), pre_len: 0, op_len: 1, arg_len: 2, group: InsnGroup::Call },
        0xCE => Opcode { mnemonic_fmt: "adc a, $", mnemonic_tail: "", cycles: (7, 0), pre_len: 0, op_len: 1, arg_len: 1, group: InsnGroup::Regular },
        0xCF => Opcode { mnemonic_fmt: "rst $08", mnemonic_tail: "", cycles: (11, 0), pre_len: 0, op_len: 1, arg_len: 0, group: InsnGroup::Int },
        0xD0 => Opcode { mnemonic_fmt: "ret nc", mnemonic_tail: "", cycles: (5, 6), pre_len: 0, op_len: 1, arg_len: 0, group: InsnGroup::RetCond },
        0xD1 => Opcode { mnemonic_fmt: "pop de", mnemonic_tail: "", cycles: (10, 0), pre_len: 0, op_len: 1, arg_len: 0, group: InsnGroup::Regular },
        0xD2 => Opcode { mnemonic_fmt: "jp nc, $", mnemonic_tail: "", cycles: (10, 0), pre_len: 0, op_len: 1, arg_len: 2, group: InsnGroup::JumpCond },
        0xD3 => Opcode { mnemonic_fmt: "out ($", mnemonic_tail: "), a", cycles: (11, 0), pre_len: 0, op_len: 1, arg_len: 1, group: InsnGroup::Regular },
        0xD4 => Opcode { mnemonic_fmt: "call nc, $", mnemonic_tail: "", cycles: (10, 7), pre_len: 0, op_len: 1, arg_len: 2, group: InsnGroup::CallCond },
        0xD5 => Opcode { mnemonic_fmt: "push de", mnemonic_tail: "", cycles: (11, 0), pre_len: 0, op_len: 1, arg_len: 0, group: InsnGroup::Regular },
        0xD6 => Opcode { mnemonic_fmt: "sub $", mnemonic_tail: "", cycles: (7, 0), pre_len: 0, op_len: 1, arg_len: 1, group: InsnGroup::Regular },
        0xD7 => Opcode { mnemonic_fmt: "rst $10", mnemonic_tail: "", cycles: (11, 0), pre_len: 0, op_len: 1, arg_len: 0, group: InsnGroup::Int },
        0xD8 => Opcode { mnemonic_fmt: "ret c", mnemonic_tail: "", cycles: (5, 6), pre_len: 0, op_len: 1, arg_len: 0, group: InsnGroup::RetCond },
        0xD9 => Opcode { mnemonic_fmt: "exx", mnemonic_tail: "", cycles: (4, 0), pre_len: 0, op_len: 1, arg_len: 0, group: InsnGroup::Regular },
        0xDA => Opcode { mnemonic_fmt: "jp c, $", mnemonic_tail: "", cycles: (10, 0), pre_len: 0, op_len: 1, arg_len: 2, group: InsnGroup::JumpCond },
        0xDB => Opcode { mnemonic_fmt: "in a, ($", mnemonic_tail: ")", cycles: (11, 0), pre_len: 0, op_len: 1, arg_len: 1, group: InsnGroup::Regular },
        0xDC => Opcode { mnemonic_fmt: "call c, $", mnemonic_tail: "", cycles: (10, 7), pre_len: 0, op_len: 1, arg_len: 2, group: InsnGroup::CallCond },
        0xDD => Opcode { mnemonic_fmt: "invalid", mnemonic_tail: "", cycles: (4, 0), pre_len: 0, op_len: 1, arg_len: 0, group: InsnGroup::Invalid },
        0xDE => Opcode { mnemonic_fmt: "sbc a, $", mnemonic_tail: "", cycles: (7, 0), pre_len: 0, op_len: 1, arg_len: 1, group: InsnGroup::Regular },
        0xDF => Opcode { mnemonic_fmt: "rst $18", mnemonic_tail: "", cycles: (11, 0), pre_len: 0, op_len: 1, arg_len: 0, group: InsnGroup::Int },
        0xE0 => Opcode { mnemonic_fmt: "ret po", mnemonic_tail: "", cycles: (5, 6), pre_len: 0, op_len: 1, arg_len: 0, group: InsnGroup::RetCond },
        0xE1 => Opcode { mnemonic_fmt: "pop hl", mnemonic_tail: "", cycles: (10, 0), pre_len: 0, op_len: 1, arg_len: 0, group: InsnGroup::Regular },
        0xE2 => Opcode { mnemonic_fmt: "jp po, $", mnemonic_tail: "", cycles: (10, 0), pre_len: 0, op_len: 1, arg_len: 2, group: InsnGroup::JumpCond },
        0xE3 => Opcode { mnemonic_fmt: "ex (sp), hl", mnemonic_tail: "", cycles: (19, 0), pre_len: 0, op_len: 1, arg_len: 0, group: InsnGroup::Regular },
        0xE4 => Opcode { mnemonic_fmt: "call po, $", mnemonic_tail: "", cycles: (10, 7), pre_len: 0, op_len: 1, arg_len: 2, group: InsnGroup::CallCond },
        0xE5 => Opcode { mnemonic_fmt: "push hl", mnemonic_tail: "", cycles: (11, 0), pre_len: 0, op_len: 1, arg_len: 0, group: InsnGroup::Regular },
        0xE6 => Opcode { mnemonic_fmt: "and $", mnemonic_tail: "", cycles: (7, 0), pre_len: 0, op_len: 1, arg_len: 1, group: InsnGroup::Regular },
        0xE7 => Opcode { mnemonic_fmt: "rst $20", mnemonic_tail: "", cycles: (11, 0), pre_len: 0, op_len: 1, arg_len: 0, group: InsnGroup::Int },
        0xE8 => Opcode { mnemonic_fmt: "ret pe", mnemonic_tail: "", cycles: (5, 6), pre_len: 0, op_len: 1, arg_len: 0, group: InsnGroup::RetCond },
        0xE9 => Opcode { mnemonic_fmt: "jp (hl)", mnemonic_tail: "", cycles: (4, 0), pre_len: 0, op_len: 1, arg_len: 0, group: InsnGroup::Jump },
        0xEA => Opcode { mnemonic_fmt: "jp pe, $", mnemonic_tail: "", cycles: (10, 0), pre_len: 0, op_len: 1, arg_len: 2, group: InsnGroup::JumpCond },
        0xEB => Opcode { mnemonic_fmt: "ex de, hl", mnemonic_tail: "", cycles: (4, 0), pre_len: 0, op_len: 1, arg_len: 0, group: InsnGroup::Regular },
        0xEC => Opcode { mnemonic_fmt: "call pe, $", mnemonic_tail: "", cycles: (10, 7), pre_len: 0, op_len: 1, arg_len: 2, group: InsnGroup::CallCond },
        0xED => Opcode { mnemonic_fmt: "invalid", mnemonic_tail: "", cycles: (4, 0), pre_len: 0, op_len: 1, arg_len: 0, group: InsnGroup::Invalid },
        0xEE => Opcode { mnemonic_fmt: "xor $", mnemonic_tail: "", cycles: (7, 0), pre_len: 0, op_len: 1, arg_len: 1, group: InsnGroup::Regular },
        0xEF => Opcode { mnemonic_fmt: "rst $28", mnemonic_tail: "", cycles: (11, 0), pre_len: 0, op_len: 1, arg_len: 0, group: InsnGroup::Int },
        0xF0 => Opcode { mnemonic_fmt: "ret p", mnemonic_tail: "", cycles: (5, 6), pre_len: 0, op_len: 1, arg_len: 0, group: InsnGroup::RetCond },
        0xF1 => Opcode { mnemonic_fmt: "pop af", mnemonic_tail: "", cycles: (10, 0), pre_len: 0, op_len: 1, arg_len: 0, group: InsnGroup::Regular },
        0xF2 => Opcode { mnemonic_fmt: "jp p, $", mnemonic_tail: "", cycles: (10, 0), pre_len: 0, op_len: 1, arg_len: 2, group: InsnGroup::JumpCond },
        0xF3 => Opcode { mnemonic_fmt: "di", mnemonic_tail: "", cycles: (4, 0), pre_len: 0, op_len: 1, arg_len: 0, group: InsnGroup::Regular },
        0xF4 => Opcode { mnemonic_fmt: "call p, $", mnemonic_tail: "", cycles: (10, 7), pre_len: 0, op_len: 1, arg_len: 2, group: InsnGroup::CallCond },
        0xF5 => Opcode { mnemonic_fmt: "push af", mnemonic_tail: "", cycles: (11, 0), pre_len: 0, op_len: 1, arg_len: 0, group: InsnGroup::Regular },
        0xF6 => Opcode { mnemonic_fmt: "or $", mnemonic_tail: "", cycles: (7, 0), pre_len: 0, op_len: 1, arg_len: 1, group: InsnGroup::Regular },
        0xF7 => Opcode { mnemonic_fmt: "rst $30", mnemonic_tail: "", cycles: (11, 0), pre_len: 0, op_len: 1, arg_len: 0, group: InsnGroup::Int },
        0xF8 => Opcode { mnemonic_fmt: "ret m", mnemonic_tail: "", cycles: (5, 6), pre_len: 0, op_len: 1, arg_len: 0, group: InsnGroup::RetCond },
        0xF9 => Opcode { mnemonic_fmt: "ld sp, hl", mnemonic_tail: "", cycles: (6, 0), pre_len: 0, op_len: 1, arg_len: 0, group: InsnGroup::Regular },
        0xFA => Opcode { mnemonic_fmt: "jp m, $", mnemonic_tail: "", cycles: (10, 0), pre_len: 0, op_len: 1, arg_len: 2, group: InsnGroup::JumpCond },
        0xFB => Opcode { mnemonic_fmt: "ei", mnemonic_tail: "", cycles: (4, 0), pre_len: 0, op_len: 1, arg_len: 0, group: InsnGroup::Regular },
        0xFC => Opcode { mnemonic_fmt: "call m, $", mnemonic_tail: "", cycles: (10, 7), pre_len: 0, op_len: 1, arg_len: 2, group: InsnGroup::CallCond },
        0xFD => Opcode { mnemonic_fmt: "invalid", mnemonic_tail: "", cycles: (4, 0), pre_len: 0, op_len: 1, arg_len: 0, group: InsnGroup::Invalid },
        0xFE => Opcode { mnemonic_fmt: "cp $", mnemonic_tail: "", cycles: (7, 0), pre_len: 0, op_len: 1, arg_len: 1, group: InsnGroup::Regular },
        _ => Opcode { mnemonic_fmt: "rst $38", mnemonic_tail: "", cycles: (11, 0), pre_len: 0, op_len: 1, arg_len: 0, group: InsnGroup::Int },
    }
}

/// The table of opcodes after the `0xCB` prefix, indexed by opcode byte.
pub open spec fn spec_cb(b: u8) -> Opcode {
    match b {
        0x00 => Opcode { mnemonic_fmt: "rlc b", mnemonic_tail: "", cycles: (8, 0), pre_len: 1, op_len: 1, arg_len: 0, group: InsnGroup::Regular },
        0x01 => Opcode { mnemonic_fmt: "rlc c", mnemonic_tail: "", cycles: (8, 0), pre_len: 1, op_len: 1, arg_len: 0, group: InsnGroup::Regular },
        0x02 => Opcode { mnemonic_fmt: "rlc d", mnemonic_tail: "", cycles: (8, 0), pre_len: 1, op_len: 1, arg_len: 0, group: InsnGroup::Regular },
        0x03 => Opcode { mnemonic_fmt: "rlc e", mnemonic_tail: "", cycles: (8, 0), pre_len: 1, op_len: 1, arg_len: 0, group: InsnGroup::Regular },
        0x04 => Opcode { mnemonic_fmt: "rlc h", mnemonic_tail: "", cycles: (8, 0), pre_len: 1, op_len: 1, arg_len: 0, group: InsnGroup::Regular },
        0x05 => Opcode { mnemonic_fmt: "rlc l", mnemonic_tail: "", cycles: (8, 0), pre_len: 1, op_len: 1, arg_len: 0, group: InsnGroup::Regular },
        0x06 => Opcode { mnemonic_fmt: "rlc (hl)", mnemonic_tail: "", cycles: (15, 0), pre_len: 1, op_len: 1, arg_len: 0, group: InsnGroup::Regular },
        0x07 => Opcode { mnemonic_fmt: "rlc a", mnemonic_tail: "", cycles: (8, 0), pre_len: 1, op_len: 1, arg_len: 0, group: InsnGroup::Regular },
        0x08 => Opcode { mnemonic_fmt: "rrc b", mnemonic_tail: "", cycles: (8, 0), pre_len: 1, op_len: 1, arg_len: 0, group: InsnGroup::Regular },
        0x09 => Opcode { mnemonic_fmt: "rrc c", mnemonic_tail: "", cycles: (8, 0), pre_len: 1, op_len: 1, arg_len: 0, group: InsnGroup::Regular },
        0x0A => Opcode { mnemonic_fmt: "rrc d", mnemonic_tail: "", cycles: (8, 0), pre_len: 1, op_len: 1, arg_len: 0, group: InsnGroup::Regular },
        0x0B => Opcode { mnemonic_fmt: "rrc e", mnemonic_tail: "", cycles: (8, 0), pre_len: 1, op_len: 1, arg_len: 0, group: InsnGroup::Regular },
        0x0C => Opcode { mnemonic_fmt: "rrc h", mnemonic_tail: "", cycles: (8, 0), pre_len: 1, op_len: 1, arg_len: 0, group: InsnGroup::Regular },
        0x0D => Opcode { mnemonic_fmt: "rrc l", mnemonic_tail: "", cycles: (8, 0), pre_len: 1, op_len: 1, arg_len: 0, group: InsnGroup::Regular },
        0x0E => Opcode { mnemonic_fmt: "rrc (hl)", mnemonic_tail: "", cycles: (15, 0), pre_len: 1, op_len: 1, arg_len: 0, group: InsnGroup::Regular },
        0x0F => Opcode { mnemonic_fmt: "rrc a", mnemonic_tail: "", cycles: (8, 0), pre_len: 1, op_len: 1, arg_len: 0, group: InsnGroup::Regular },
        0x10 => Opcode { mnemonic_fmt: "rl b", mnemonic_tail: "", cycles: (8, 0), pre_len: 1, op_len: 1, arg_len: 0, group: InsnGroup::Regular },
        0x11 => Opcode { mnemonic_fmt: "rl c", mnemonic_tail: "", cycles: (8, 0), pre_len: 1, op_len: 1, arg_len: 0, group: InsnGroup::Regular },
        0x12 => Opcode { mnemonic_fmt: "rl d", mnemonic_tail: "", cycles: (8, 0), pre_len: 1, op_len: 1, arg_len: 0, group: InsnGroup::Regular },
        0x13 => Opcode { mnemonic_fmt: "rl e", mnemonic_tail: "", cycles: (8, 0), pre_len: 1, op_len: 1, arg_len: 0, group: InsnGroup::Regular },
        0x14 => Opcode { mnemonic_fmt: "rl h", mnemonic_tail: "", cycles: (8, 0), pre_len: 1, op_len: 1, arg_len: 0, group: InsnGroup::Regular },
        0x15 => Opcode { mnemonic_fmt: "rl l", mnemonic_tail: "", cycles: (8, 0), pre_len: 1, op_len: 1, arg_len: 0, group: InsnGroup::Regular },
        0x16 => Opcode { mnemonic_fmt: "rl (hl)", mnemonic_tail: "", cycles: (15, 0), pre_len: 1, op_len: 1, arg_len: 0, group: InsnGroup::Regular },
        0x17 => Opcode { mnemonic_fmt: "rl a", mnemonic_tail: "", cycles: (8, 0), pre_len: 1, op_len: 1, arg_len: 0, group: InsnGroup::Regular },
        0x18 => Opcode { mnemonic_fmt: "rr b", mnemonic_tail: "", cycles: (8, 0), pre_len: 1, op_len: 1, arg_len: 0, group: InsnGroup::Regular },
        0x19 => Opcode { mnemonic_fmt: "rr c", mnemonic_tail: "", cycles: (8, 0), pre_len: 1, op_len: 1, arg_len: 0, group: InsnGroup::Regular },
        0x1A => Opcode { mnemonic_fmt: "rr d", mnemonic_tail: "", cycles: (8, 0), pre_len: 1, op_len: 1, arg_len: 0, group: InsnGroup::Regular },
        0x1B => Opcode { mnemonic_fmt: "rr e", mnemonic_tail: "", cycles: (8, 0), pre_len: 1, op_len: 1, arg_len: 0, group: InsnGroup::Regular },
        0x1C => Opcode { mnemonic_fmt: "rr h", mnemonic_tail: "", cycles: (8, 0), pre_len: 1, op_len: 1, arg_len: 0, group: InsnGroup::Regular },
        0x1D => Opcode { mnemonic_fmt: "rr l", mnemonic_tail: "", cycles: (8, 0), pre_len: 1, op_len: 1, arg_len: 0, group: InsnGroup::Regular },
        0x1E => Opcode { mnemonic_fmt: "rr (hl)", mnemonic_tail: "", cycles: (15, 0), pre_len: 1, op_len: 1, arg_len: 0, group: InsnGroup::Regular },
        0x1F => Opcode { mnemonic_fmt: "rr a", mnemonic_tail: "", cycles: (8, 0), pre_len: 1, op_len: 1, arg_len: 0, group: InsnGroup::Regular },
        0x20 => Opcode { mnemonic_fmt: "sla b", mnemonic_tail: "", cycles: (8, 0), pre_len: 1, op_len: 1, arg_len: 0, group: InsnGroup::Regular },
        0x21 => Opcode { mnemonic_fmt: "sla c", mnemonic_tail: "", cycles: (8, 0), pre_len: 1, op_len: 1, arg_len: 0, group: InsnGroup::Regular },
        0x22 => Opcode { mnemonic_fmt: "sla d", mnemonic_tail: "", cycles: (8, 0), pre_len: 1, op_len: 1, arg_len: 0, group: InsnGroup::Regular },
        0x23 => Opcode { mnemonic_fmt: "sla e", mnemonic_tail: "", cycles: (8, 0), pre_len: 1, op_len: 1, arg_len: 0, group: InsnGroup::Regular },
        0x24 => Opcode { mnemonic_fmt: "sla h", mnemonic_tail: "", cycles: (8, 0), pre_len: 1, op_len: 1, arg_len: 0, group: InsnGroup::Regular },
        0x25 => Opcode { mnemonic_fmt: "sla l", mnemonic_tail: "", cycles: (8, 0), pre_len: 1, op_len: 1, arg_len: 0, group: InsnGroup::Regular },
        0x26 => Opcode { mnemonic_fmt: "sla (hl)", mnemonic_tail: "", cycles: (15, 0), pre_len: 1, op_len: 1, arg_len: 0, group: InsnGroup::Regular },
        0x27 => Opcode { mnemonic_fmt: "sla a", mnemonic_tail: "", cycles: (8, 0), pre_len: 1, op_len: 1, arg_len: 0, group: InsnGroup::Regular },
        0x28 => Opcode { mnemonic_fmt: "sra b", mnemonic_tail: "", cycles: (8, 0), pre_len: 1, op_len: 1, arg_len: 0, group: InsnGroup::Regular },
        0x29 => Opcode { mnemonic_fmt: "sra c", mnemonic_tail: "", cycles: (8, 0), pre_len: 1, op_len: 1, arg_len: 0, group: InsnGroup::Regular },
        0x2A => Opcode { mnemonic_fmt: "sra d", mnemonic_tail: "", cycles: (8, 0), pre_len: 1, op_len: 1, arg_len: 0, group: InsnGroup::Regular },
        0x2B => Opcode { mnemonic_fmt: "sra e", mnemonic_tail: "", cycles: (8, 0), pre_len: 1, op_len: 1, arg_len: 0, group: InsnGroup::Regular },
        0x2C => Opcode { mnemonic_fmt: "sra h", mnemonic_tail: "", cycles: (8, 0), pre_len: 1, op_len: 1, arg_len: 0, group: InsnGroup::Regular },
        0x2D => Opcode { mnemonic_fmt: "sra l", mnemonic_tail: "", cycles: (8, 0), pre_len: 1, op_len: 1, arg_len: 0, group: InsnGroup::Regular },
        0x2E => Opcode { mnemonic_fmt: "sra (hl)", mnemonic_tail: "", cycles: (15, 0), pre_len: 1, op_len: 1, arg_len: 0, group: InsnGroup::Regular },
        0x2F => Opcode { mnemonic_fmt: "sra a", mnemonic_tail: "", cycles: (8, 0), pre_len: 1, op_len: 1, arg_len: 0, group: InsnGroup::Regular },
        0x30 => Opcode { mnemonic_fmt: "sll b", mnemonic_tail: "", cycles: (8, 0), pre_len: 1, op_len: 1, arg_len: 0, group: InsnGroup::Regular },
        0x31 => Opcode { mnemonic_fmt: "sll c", mnemonic_tail: "", cycles: (8, 0), pre_len: 1, op_len: 1, arg_len: 0, group: InsnGroup::Regular },
        0x32 => Opcode { mnemonic_fmt: "sll d", mnemonic_tail: "", cycles: (8, 0), pre_len: 1, op_len: 1, arg_len: 0, group: InsnGroup::Regular },
        0x33 => Opcode { mnemonic_fmt: "sll e", mnemonic_tail: "", cycles: (8, 0), pre_len: 1, op_len: 1, arg_len: 0, group: InsnGroup::Regular },
        0x34 => Opcode { mnemonic_fmt: "sll h", mnemonic_tail: "", cycles: (8, 0), pre_len: 1, op_len: 1, arg_len: 0, group: InsnGroup::Regular },
        0x35 => Opcode { mnemonic_fmt: "sll l", mnemonic_tail: "", cycles: (8, 0), pre_len: 1, op_len: 1, arg_len: 0, group: InsnGroup::Regular },
        0x36 => Opcode { mnemonic_fmt: "sll (hl)", mnemonic_tail: "", cycles: (15, 0), pre_len: 1, op_len: 1, arg_len: 0, group: InsnGroup::Regular },
        0x37 => Opcode { mnemonic_fmt: "sll a", mnemonic_tail: "", cycles: (8, 0), pre_len: 1, op_len: 1, arg_len: 0, group: InsnGroup::Regular },
        0x38 => Opcode { mnemonic_fmt: "srl b", mnemonic_tail: "", cycles: (8, 0), pre_len: 1, op_len: 1, arg_len: 0, group: InsnGroup::Regular },
        0x39 => Opcode { mnemonic_fmt: "srl c", mnemonic_tail: "", cycles: (8, 0), pre_len: 1, op_len: 1, arg_len: 0, group: InsnGroup::Regular },
        0x3A => Opcode { mnemonic_fmt: "srl d", mnemonic_tail: "", cycles: (8, 0), pre_len: 1, op_len: 1, arg_len: 0, group: InsnGroup::Regular },
        0x3B => Opcode { mnemonic_fmt: "srl e", mnemonic_tail: "", cycles: (8, 0), pre_len: 1, op_len: 1, arg_len: 0, group: InsnGroup::Regular },
        0x3C => Opcode { mnemonic_fmt: "srl h", mnemonic_tail: "", cycles: (8, 0), pre_len: 1, op_len: 1, arg_len: 0, group: InsnGroup::Regular },
        0x3D => Opcode { mnemonic_fmt: "srl l", mnemonic_tail: "", cycles: (8, 0), pre_len: 1, op_len: 1, arg_len: 0, group: InsnGroup::Regular },
        0x3E => Opcode { mnemonic_fmt: "srl (hl)", mnemonic_tail: "", cycles: (15, 0), pre_len: 1, op_len: 1, arg_len: 0, group: InsnGroup::Regular },
        0x3F => Opcode { mnemonic_fmt: "srl a", mnemonic_tail: "", cycles: (8, 0), pre_len: 1, op_len: 1, arg_len: 0, group: InsnGroup::Regular },
        0x40 => Opcode { mnemonic_fmt: "bit 0, b", mnemonic_tail: "", cycles: (8, 0), pre_len: 1, op_len: 1, arg_len: 0, group: InsnGroup::Regular },
        0x41 => Opcode { mnemonic_fmt: "bit 0, c", mnemonic_tail: "", cycles: (8, 0), pre_len: 1, op_len: 1, arg_len: 0, group: InsnGroup::Regular },
        0x42 => Opcode { mnemonic_fmt: "bit 0, d", mnemonic_tail: "", cycles: (8, 0), pre_len: 1, op_len: 1, arg_len: 0, group: InsnGroup::Regular },
        0x43 => Opcode { mnemonic_fmt: "bit 0, e", mnemonic_tail: "", cycles: (8, 0), pre_len: 1, op_len: 1, arg_len: 0, group: InsnGroup::Regular },
        0x44 => Opcode { mnemonic_fmt: "bit 0, h", mnemonic_tail: "", cycles: (8, 0), pre_len: 1, op_len: 1, arg_len: 0, group: InsnGroup::Regular },
        0x45 => Opcode { mnemonic_fmt: "bit 0, l", mnemonic_tail: "", cycles: (8, 0), pre_len: 1, op_len: 1, arg_len: 0, group: InsnGroup::Regular },
        0x46 => Opcode { mnemonic_fmt: "bit 0, (hl)", mnemonic_tail: "", cycles: (12, 0), pre_len: 1, op_len: 1, arg_len: 0, group: InsnGroup::Regular },
        0x47 => Opcode { mnemonic_fmt: "bit 0, a", mnemonic_tail: "", cycles: (8, 0), pre_len: 1, op_len: 1, arg_len: 0, group: InsnGroup::Regular },
        0x48 => Opcode { mnemonic_fmt: "bit 1, b", mnemonic_tail: "", cycles: (8, 0), pre_len: 1, op_len: 1, arg_len: 0, group: InsnGroup::Regular },
        0x49 => Opcode { mnemonic_fmt: "bit 1, c", mnemonic_tail: "", cycles: (8, 0), pre_len: 1, op_len: 1, arg_len: 0, group: InsnGroup::Regular },
        0x4A => Opcode { mnemonic_fmt: "bit 1, d", mnemonic_tail: "", cycles: (8, 0), pre_len: 1, op_len: 1, arg_len: 0, group: InsnGroup::Regular },
        0x4B => Opcode { mnemonic_fmt: "bit 1, e", mnemonic_tail: "", cycles: (8, 0), pre_len: 1, op_len: 1, arg_len: 0, group: InsnGroup::Regular },
        0x4C => Opcode { mnemonic_fmt: "bit 1, h", mnemonic_tail: "", cycles: (8, 0), pre_len: 1, op_len: 1, arg_len: 0, group: InsnGroup::Regular },
        0x4D => Opcode { mnemonic_fmt: "bit 1, l", mnemonic_tail: "", cycles: (8, 0), pre_len: 1, op_len: 1, arg_len: 0, group: InsnGroup::Regular },
        0x4E => Opcode { mnemonic_fmt: "bit 1, (hl)", mnemonic_tail: "", cycles: (12, 0), pre_len: 1, op_len: 1, arg_len: 0, group: InsnGroup::Regular },
        0x4F => Opcode { mnemonic_fmt: "bit 1, a", mnemonic_tail: "", cycles: (8, 0), pre_len: 1, op_len: 1, arg_len: 0, group: InsnGroup::Regular },
        0x50 => Opcode { mnemonic_fmt: "bit 2, b", mnemonic_tail: "", cycles: (8, 0), pre_len: 1, op_len: 1, arg_len: 0, group: InsnGroup::Regular },
        0x51 => Opcode { mnemonic_fmt: "bit 2, c", mnemonic_tail: "", cycles: (8, 0), pre_len: 1, op_len: 1, arg_len: 0, group: InsnGroup::Regular },
        0x52 => Opcode { mnemonic_fmt: "bit 2, d", mnemonic_tail: "", cycles: (8, 0), pre_len: 1, op_len: 1, arg_len: 0, group: InsnGroup::Regular },
        0x53 => Opcode { mnemonic_fmt: "bit 2, e", mnemonic_tail: "", cycles: (8, 0), pre_len: 1, op_len: 1, arg_len: 0, group: InsnGroup::Regular },
        0x54 => Opcode { mnemonic_fmt: "bit 2, h", mnemonic_tail: "", cycles: (8, 0), pre_len: 1, op_len: 1, arg_len: 0, group: InsnGroup::Regular },
        0x55 => Opcode { mnemonic_fmt: "bit 2, l", mnemonic_tail: "", cycles: (8, 0), pre_len: 1, op_len: 1, arg_len: 0, group: InsnGroup::Regular },
        0x56 => Opcode { mnemonic_fmt: "bit 2, (hl)", mnemonic_tail: "", cycles: (12, 0), pre_len: 1, op_len: 1, arg_len: 0, group: InsnGroup::Regular },
        0x57 => Opcode { mnemonic_fmt: "bit 2, a", mnemonic_tail: "", cycles: (8, 0), pre_len: 1, op_len: 1, arg_len: 0, group: InsnGroup::Regular },
        0x58 => Opcode { mnemonic_fmt: "bit 3, b", mnemonic_tail: "", cycles: (8, 0), pre_len: 1, op_len: 1, arg_len: 0, group: InsnGroup::Regular },
        0x59 => Opcode { mnemonic_fmt: "bit 3, c", mnemonic_tail: "", cycles: (8, 0), pre_len: 1, op_len: 1, arg_len: 0, group: InsnGroup::Regular },
        0x5A => Opcode { mnemonic_fmt: "bit 3, d", mnemonic_tail: "", cycles: (8, 0), pre_len: 1, op_len: 1, arg_len: 0, group: InsnGroup::Regular },
        0x5B => Opcode { mnemonic_fmt: "bit 3, e", mnemonic_tail: "", cycles: (8, 0), pre_len: 1, op_len: 1, arg_len: 0, group: InsnGroup::Regular },
        0x5C => Opcode { mnemonic_fmt: "bit 3, h", mnemonic_tail: "", cycles: (8, 0), pre_len: 1, op_len: 1, arg_len: 0, group: InsnGroup::Regular },
        0x5D => Opcode { mnemonic_fmt: "bit 3, l", mnemonic_tail: "", cycles: (8, 0), pre_len: 1, op_len: 1, arg_len: 0, group: InsnGroup::Regular },
        0x5E => Opcode { mnemonic_fmt: "bit 3, (hl)", mnemonic_tail: "", cycles: (12, 0), pre_len: 1, op_len: 1, arg_len: 0, group: InsnGroup::Regular },
        0x5F => Opcode { mnemonic_fmt: "bit 3, a", mnemonic_tail: "", cycles: (8, 0), pre_len: 1, op_len: 1, arg_len: 0, group: InsnGroup::Regular },
        0x60 => Opcode { mnemonic_fmt: "bit 4, b", mnemonic_tail: "", cycles: (8, 0), pre_len: 1, op_len: 1, arg_len: 0, group: InsnGroup::Regular },
        0x61 => Opcode { mnemonic_fmt: "bit 4, c", mnemonic_tail: "", cycles: (8, 0), pre_len: 1, op_len: 1, arg_len: 0, group: InsnGroup::Regular },
        0x62 => Opcode { mnemonic_fmt: "bit 4, d", mnemonic_tail: "", cycles: (8, 0), pre_len: 1, op_len: 1, arg_len: 0, group: InsnGroup::Regular },
        0x63 => Opcode { mnemonic_fmt: "bit 4, e", mnemonic_tail: "", cycles: (8, 0), pre_len: 1, op_len: 1, arg_len: 0, group: InsnGroup::Regular },
        0x64 => Opcode { mnemonic_fmt: "bit 4, h", mnemonic_tail: "", cycles: (8, 0), pre_len: 1, op_len: 1, arg_len: 0, group: InsnGroup::Regular },
        0x65 => Opcode { mnemonic_fmt: "bit 4, l", mnemonic_tail: "", cycles: (8, 0), pre_len: 1, op_len: 1, arg_len: 0, group: InsnGroup::Regular },
        0x66 => Opcode { mnemonic_fmt: "bit 4, (hl)", mnemonic_tail: "", cycles: (12, 0), pre_len: 1, op_len: 1, arg_len: 0, group: InsnGroup::Regular },
        0x67 => Opcode { mnemonic_fmt: "bit 4, a", mnemonic_tail: "", cycles: (8, 0), pre_len: 1, op_len: 1, arg_len: 0, group: InsnGroup::Regular },
        0x68 => Opcode { mnemonic_fmt: "bit 5, b", mnemonic_tail: "", cycles: (8, 0), pre_len: 1, op_len: 1, arg_len: 0, group: InsnGroup::Regular },
        0x69 => Opcode { mnemonic_fmt: "bit 5, c", mnemonic_tail: "", cycles: (8, 0), pre_len: 1, op_len: 1, arg_len: 0, group: InsnGroup::Regular },
        0x6A => Opcode { mnemonic_fmt: "bit 5, d", mnemonic_tail: "", cycles: (8, 0), pre_len: 1, op_len: 1, arg_len: 0, group: InsnGroup::Regular },
        0x6B => Opcode { mnemonic_fmt: "bit 5, e", mnemonic_tail: "", cycles: (8, 0), pre_len: 1, op_len: 1, arg_len: 0, group: InsnGroup::Regular },
        0x6C => Opcode { mnemonic_fmt: "bit 5, h", mnemonic_tail: "", cycles: (8, 0), pre_len: 1, op_len: 1, arg_len: 0, group: InsnGroup::Regular },
        0x6D => Opcode { mnemonic_fmt: "bit 5, l", mnemonic_tail: "", cycles: (8, 0), pre_len: 1, op_len: 1, arg_len: 0, group: InsnGroup::Regular },
        0x6E => Opcode { mnemonic_fmt: "bit 5, (hl)", mnemonic_tail: "", cycles: (12, 0), pre_len: 1, op_len: 1, arg_len: 0, group: InsnGroup::Regular },
        0x6F => Opcode { mnemonic_fmt: "bit 5, a", mnemonic_tail: "", cycles: (8, 0), pre_len: 1, op_len: 1, arg_len: 0, group: InsnGroup::Regular },
        0x70 => Opcode { mnemonic_fmt: "bit 6, b", mnemonic_tail: "", cycles: (8, 0), pre_len: 1, op_len: 1, arg_len: 0, group: InsnGroup::Regular },
        0x71 => Opcode { mnemonic_fmt: "bit 6, c", mnemonic_tail: "", cycles: (8, 0), pre_len: 1, op_len: 1, arg_len: 0, group: InsnGroup::Regular },
        0x72 => Opcode { mnemonic_fmt: "bit 6, d", mnemonic_tail: "", cycles: (8, 0), pre_len: 1, op_len: 1, arg_len: 0, group: InsnGroup::Regular },
        0x73 => Opcode { mnemonic_fmt: "bit 6, e", mnemonic_tail: "", cycles: (8, 0), pre_len: 1, op_len: 1, arg_len: 0, group: InsnGroup::Regular },
        0x74 => Opcode { mnemonic_fmt: "bit 6, h", mnemonic_tail: "", cycles: (8, 0), pre_len: 1, op_len: 1, arg_len: 0, group: InsnGroup::Regular },
        0x75 => Opcode { mnemonic_fmt: "bit 6, l", mnemonic_tail: "", cycles: (8, 0), pre_len: 1, op_len: 1, arg_len: 0, group: InsnGroup::Regular },
        0x76 => Opcode { mnemonic_fmt: "bit 6, (hl)", mnemonic_tail: "", cycles: (12, 0), pre_len: 1, op_len: 1, arg_len: 0, group: InsnGroup::Regular },
        0x77 => Opcode { mnemonic_fmt: "bit 6, a", mnemonic_tail: "", cycles: (8, 0), pre_len: 1, op_len: 1, arg_len: 0, group: InsnGroup::Regular },
        0x78 => Opcode { mnemonic_fmt: "bit 7, b", mnemonic_tail: "", cycles: (8, 0), pre_len: 1, op_len: 1, arg_len: 0, group: InsnGroup::Regular },
        0x79 => Opcode { mnemonic_fmt: "bit 7, c", mnemonic_tail: "", cycles: (8, 0), pre_len: 1, op_len: 1, arg_len: 0, group: InsnGroup::Regular },
        0x7A => Opcode { mnemonic_fmt: "bit 7, d", mnemonic_tail: "", cycles: (8, 0), pre_len: 1, op_len: 1, arg_len: 0, group: InsnGroup::Regular },
        0x7B => Opcode { mnemonic_fmt: "bit 7, e", mnemonic_tail: "", cycles: (8, 0), pre_len: 1, op_len: 1, arg_len: 0, group: InsnGroup::Regular },
        0x7C => Opcode { mnemonic_fmt: "bit 7, h", mnemonic_tail: "", cycles: (8, 0), pre_len: 1, op_len: 1, arg_len: 0, group: InsnGroup::Regular },
        0x7D => Opcode { mnemonic_fmt: "bit 7, l", mnemonic_tail: "", cycles: (8, 0), pre_len: 1, op_len: 1, arg_len: 0, group: InsnGroup::Regular },
        0x7E => Opcode { mnemonic_fmt: "bit 7, (hl)", mnemonic_tail: "", cycles: (12, 0), pre_len: 1, op_len: 1, arg_len: 0, group: InsnGroup::Regular },
        0x7F => Opcode { mnemonic_fmt: "bit 7, a", mnemonic_tail: "", cycles: (8, 0), pre_len: 1, op_len: 1, arg_len: 0, group: InsnGroup::Regular },
        0x80 => Opcode { mnemonic_fmt: "res 0, b", mnemonic_tail: "", cycles: (8, 0), pre_len: 1, op_len: 1, arg_len: 0, group: InsnGroup::Regular },
        0x81 => Opcode { mnemonic_fmt: "res 0, c", mnemonic_tail: "", cycles: (8, 0), pre_len: 1, op_len: 1, arg_len: 0, group: InsnGroup::Regular },
        0x82 => Opcode { mnemonic_fmt: "res 0, d", mnemonic_tail: "", cycles: (8, 0), pre_len: 1, op_len: 1, arg_len: 0, group: InsnGroup::Regular },
        0x83 => Opcode { mnemonic_fmt: "res 0, e", mnemonic_tail: "", cycles: (8, 0), pre_len: 1, op_len: 1, arg_len: 0, group: InsnGroup::Regular },
        0x84 => Opcode { mnemonic_fmt: "res 0, h", mnemonic_tail: "", cycles: (8, 0), pre_len: 1, op_len: 1, arg_len: 0, group: InsnGroup::Regular },
        0x85 => Opcode { mnemonic_fmt: "res 0, l", mnemonic_tail: "", cycles: (8, 0), pre_len: 1, op_len: 1, arg_len: 0, group: InsnGroup::Regular },
        0x86 => Opcode { mnemonic_fmt: "res 0, (hl)", mnemonic_tail: "", cycles: (15, 0), pre_len: 1, op_len: 1, arg_len: 0, group: InsnGroup::Regular },
        0x87 => Opcode { mnemonic_fmt: "res 0, a", mnemonic_tail: "", cycles: (8, 0), pre_len: 1, op_len: 1, arg_len: 0, group: InsnGroup::Regular },
        0x88 => Opcode { mnemonic_fmt: "res 1, b", mnemonic_tail: "", cycles: (8, 0), pre_len: 1, op_len: 1, arg_len: 0, group: InsnGroup::Regular },
        0x89 => Opcode { mnemonic_fmt: "res 1, c", mnemonic_tail: "", cycles: (8, 0), pre_len: 1, op_len: 1, arg_len: 0, group: InsnGroup::Regular },
        0x8A => Opcode { mnemonic_fmt: "res 1, d", mnemonic_tail: "", cycles: (8, 0), pre_len: 1, op_len: 1, arg_len: 0, group: InsnGroup::Regular },
        0x8B => Opcode { mnemonic_fmt: "res 1, e", mnemonic_tail: "", cycles: (8, 0), pre_len: 1, op_len: 1, arg_len: 0, group: InsnGroup::Regular },
        0x8C => Opcode { mnemonic_fmt: "res 1, h", mnemonic_tail: "", cycles: (8, 0), pre_len: 1, op_len: 1, arg_len: 0, group: InsnGroup::Regular },
        0x8D => Opcode { mnemonic_fmt: "res 1, l", mnemonic_tail: "", cycles: (8, 0), pre_len: 1, op_len: 1, arg_len: 0, group: InsnGroup::Regular },
        0x8E => Opcode { mnemonic_fmt: "res 1, (hl)", mnemonic_tail: "", cycles: (15, 0), pre_len: 1, op_len: 1, arg_len: 0, group: InsnGroup::Regular },
        0x8F => Opcode { mnemonic_fmt: "res 1, a", mnemonic_tail: "", cycles: (8, 0), pre_len: 1, op_len: 1, arg_len: 0, group: InsnGroup::Regular },
        0x90 => Opcode { mnemonic_fmt: "res 2, b", mnemonic_tail: "", cycles: (8, 0), pre_len: 1, op_len: 1, arg_len: 0, group: InsnGroup::Regular },
        0x91 => Opcode { mnemonic_fmt: "res 2, c", mnemonic_tail: "", cycles: (8, 0), pre_len: 1, op_len: 1, arg_len: 0, group: InsnGroup::Regular },
        0x92 => Opcode { mnemonic_fmt: "res 2, d", mnemonic_tail: "", cycles: (8, 0), pre_len: 1, op_len: 1, arg_len: 0, group: InsnGroup::Regular },
        0x93 => Opcode { mnemonic_fmt: "res 2, e", mnemonic_tail: "", cycles: (8, 0), pre_len: 1, op_len: 1, arg_len: 0, group: InsnGroup::Regular },
        0x94 => Opcode { mnemonic_fmt: "res 2, h", mnemonic_tail: "", cycles: (8, 0), pre_len: 1, op_len: 1, arg_len: 0, group: InsnGroup::Regular },
        0x95 => Opcode { mnemonic_fmt: "res 2, l", mnemonic_tail: "", cycles: (8, 0), pre_len: 1, op_len: 1, arg_len: 0, group: InsnGroup::Regular },
        0x96 => Opcode { mnemonic_fmt: "res 2, (hl)", mnemonic_tail: "", cycles: (15, 0), pre_len: 1, op_len: 1, arg_len: 0, group: InsnGroup::Regular },
        0x97 => Opcode { mnemonic_fmt: "res 2, a", mnemonic_tail: "", cycles: (8, 0), pre_len: 1, op_len: 1, arg_len: 0, group: InsnGroup::Regular },
        0x98 => Opcode { mnemonic_fmt: "res 3, b", mnemonic_tail: "", cycles: (8, 0), pre_len: 1, op_len: 1, arg_len: 0, group: InsnGroup::Regular },
        0x99 => Opcode { mnemonic_fmt: "res 3, c", mnemonic_tail: "", cycles: (8, 0), pre_len: 1, op_len: 1, arg_len: 0, group: InsnGroup::Regular },
        0x9A => Opcode { mnemonic_fmt: "res 3, d", mnemonic_tail: "", cycles: (8, 0), pre_len: 1, op_len: 1, arg_len: 0, group: InsnGroup::Regular },
        0x9B => Opcode { mnemonic_fmt: "res 3, e", mnemonic_tail: "", cycles: (8, 0), pre_len: 1, op_len: 1, arg_len: 0, group: InsnGroup::Regular },
        0x9C => Opcode { mnemonic_fmt: "res 3, h", mnemonic_tail: "", cycles: (8, 0), pre_len: 1, op_len: 1, arg_len: 0, group: InsnGroup::Regular },
        0x9D => Opcode { mnemonic_fmt: "res 3, l", mnemonic_tail: "", cycles: (8, 0), pre_len: 1, op_len: 1, arg_len: 0, group: InsnGroup::Regular },
        0x9E => Opcode { mnemonic_fmt: "res 3, (hl)", mnemonic_tail: "", cycles: (15, 0), pre_len: 1, op_len: 1, arg_len: 0, group: InsnGroup::Regular },
        0x9F => Opcode { mnemonic_fmt: "res 3, a", mnemonic_tail: "", cycles: (8, 0), pre_len: 1, op_len: 1, arg_len: 0, group: InsnGroup::Regular },
        0xA0 => Opcode { mnemonic_fmt: "res 4, b", mnemonic_tail: "", cycles: (8, 0), pre_len: 1, op_len: 1, arg_len: 0, group: InsnGroup::Regular },
        0xA1 => Opcode { mnemonic_fmt: "res 4, c", mnemonic_tail: "", cycles: (8, 0), pre_len: 1, op_len: 1, arg_len: 0, group: InsnGroup::Regular },
        0xA2 => Opcode { mnemonic_fmt: "res 4, d", mnemonic_tail: "", cycles: (8, 0), pre_len: 1, op_len: 1, arg_len: 0, group: InsnGroup::Regular },
        0xA3 => Opcode { mnemonic_fmt: "res 4, e", mnemonic_tail: "", cycles: (8, 0), pre_len: 1, op_len: 1, arg_len: 0, group: InsnGroup::Regular },
        0xA4 => Opcode { mnemonic_fmt: "res 4, h", mnemonic_tail: "", cycles: (8, 0), pre_len: 1, op_len: 1, arg_len: 0, group: InsnGroup::Regular },
        0xA5 => Opcode { mnemonic_fmt: "res 4, l", mnemonic_tail: "", cycles: (8, 0), pre_len: 1, op_len: 1, arg_len: 0, group: InsnGroup::Regular },
        0xA6 => Opcode { mnemonic_fmt: "res 4, (hl)", mnemonic_tail: "", cycles: (15, 0), pre_len: 1, op_len: 1, arg_len: 0, group: InsnGroup::Regular },
        0xA7 => Opcode { mnemonic_fmt: "res 4, a", mnemonic_tail: "", cycles: (8, 0), pre_len: 1, op_len: 1, arg_len: 0, group: InsnGroup::Regular },
        0xA8 => Opcode { mnemonic_fmt: "res 5, b", mnemonic_tail: "", cycles: (8, 0), pre_len: 1, op_len: 1, arg_len: 0, group: InsnGroup::Regular },
        0xA9 => Opcode { mnemonic_fmt: "res 5, c", mnemonic_tail: "", cycles: (8, 0), pre_len: 1, op_len: 1, arg_len: 0, group: InsnGroup::Regular },
        0xAA => Opcode { mnemonic_fmt: "res 5, d", mnemonic_tail: "", cycles: (8, 0), pre_len: 1, op_len: 1, arg_len: 0, group: InsnGroup::Regular },
        0xAB => Opcode { mnemonic_fmt: "res 5, e", mnemonic_tail: "", cycles: (8, 0), pre_len: 1, op_len: 1, arg_len: 0, group: InsnGroup::Regular },
        0xAC => Opcode { mnemonic_fmt: "res 5, h", mnemonic_tail: "", cycles: (8, 0), pre_len: 1, op_len: 1, arg_len: 0, group: InsnGroup::Regular },
        0xAD => Opcode { mnemonic_fmt: "res 5, l", mnemonic_tail: "", cycles: (8, 0), pre_len: 1, op_len: 1, arg_len: 0, group: InsnGroup::Regular },
        0xAE => Opcode { mnemonic_fmt: "res 5, (hl)", mnemonic_tail: "", cycles: (15, 0), pre_len: 1, op_len: 1, arg_len: 0, group: InsnGroup::Regular },
        0xAF => Opcode { mnemonic_fmt: "res 5, a", mnemonic_tail: "", cycles: (8, 0), pre_len: 1, op_len: 1, arg_len: 0, group: InsnGroup::Regular },
        0xB0 => Opcode { mnemonic_fmt: "res 6, b", mnemonic_tail: "", cycles: (8, 0), pre_len: 1, op_len: 1, arg_len: 0, group: InsnGroup::Regular },
        0xB1 => Opcode { mnemonic_fmt: "res 6, c", mnemonic_tail: "", cycles: (8, 0), pre_len: 1, op_len: 1, arg_len: 0, group: InsnGroup::Regular },
        0xB2 => Opcode { mnemonic_fmt: "res 6, d", mnemonic_tail: "", cycles: (8, 0), pre_len: 1, op_len: 1, arg_len: 0, group: InsnGroup::Regular },
        0xB3 => Opcode { mnemonic_fmt: "res 6, e", mnemonic_tail: "", cycles: (8, 0), pre_len: 1, op_len: 1, arg_len: 0, group: InsnGroup::Regular },
        0xB4 => Opcode { mnemonic_fmt: "res 6, h", mnemonic_tail: "", cycles: (8, 0), pre_len: 1, op_len: 1, arg_len: 0, group: InsnGroup::Regular },
        0xB5 => Opcode { mnemonic_fmt: "res 6, l", mnemonic_tail: "", cycles: (8, 0), pre_len: 1, op_len: 1, arg_len: 0, group: InsnGroup::Regular },
        0xB6 => Opcode { mnemonic_fmt: "res 6, (hl)", mnemonic_tail: "", cycles: (15, 0), pre_len: 1, op_len: 1, arg_len: 0, group: InsnGroup::Regular },
        0xB7 => Opcode { mnemonic_fmt: "res 6, a", mnemonic_tail: "", cycles: (8, 0), pre_len: 1, op_len: 1, arg_len: 0, group: InsnGroup::Regular },
        0xB8 => Opcode { mnemonic_fmt: "res 7, b", mnemonic_tail: "", cycles: (8, 0), pre_len: 1, op_len: 1, arg_len: 0, group: InsnGroup::Regular },
        0xB9 => Opcode { mnemonic_fmt: "res 7, c", mnemonic_tail: "", cycles: (8, 0), pre_len: 1, op_len: 1, arg_len: 0, group: InsnGroup::Regular },
        0xBA => Opcode { mnemonic_fmt: "res 7, d", mnemonic_tail: "", cycles: (8, 0), pre_len: 1, op_len: 1, arg_len: 0, group: InsnGroup::Regular },
        0xBB => Opcode { mnemonic_fmt: "res 7, e", mnemonic_tail: "", cycles: (8, 0), pre_len: 1, op_len: 1, arg_len: 0, group: InsnGroup::Regular },
        0xBC => Opcode { mnemonic_fmt: "res 7, h", mnemonic_tail: "", cycles: (8, 0), pre_len: 1, op_len: 1, arg_len: 0, group: InsnGroup::Regular },
        0xBD => Opcode { mnemonic_fmt: "res 7, l", mnemonic_tail: "", cycles: (8, 0), pre_len: 1, op_len: 1, arg_len: 0, group: InsnGroup::Regular },
        0xBE => Opcode { mnemonic_fmt: "res 7, (hl)", mnemonic_tail: "", cycles: (15, 0), pre_len: 1, op_len: 1, arg_len: 0, group: InsnGroup::Regular },
        0xBF => Opcode { mnemonic_fmt: "res 7, a", mnemonic_tail: "", cycles: (8, 0), pre_len: 1, op_len: 1, arg_len: 0, group: InsnGroup::Regular },
        0xC0 => Opcode { mnemonic_fmt: "set 0, b", mnemonic_tail: "", cycles: (8, 0), pre_len: 1, op_len: 1, arg_len: 0, group: InsnGroup::Regular },
        0xC1 => Opcode { mnemonic_fmt: "set 0, c", mnemonic_tail: "", cycles: (8, 0), pre_len: 1, op_len: 1, arg_len: 0, group: InsnGroup::Regular },
        0xC2 => Opcode { mnemonic_fmt: "set 0, d", mnemonic_tail: "", cycles: (8, 0), pre_len: 1, op_len: 1, arg_len: 0, group: InsnGroup::Regular },
        0xC3 => Opcode { mnemonic_fmt: "set 0, e", mnemonic_tail: "", cycles: (8, 0), pre_len: 1, op_len: 1, arg_len: 0, group: InsnGroup::Regular },
        0xC4 => Opcode { mnemonic_fmt: "set 0, h", mnemonic_tail: "", cycles: (8, 0), pre_len: 1, op_len: 1, arg_len: 0, group: InsnGroup::Regular },
        0xC5 => Opcode { mnemonic_fmt: "set 0, l", mnemonic_tail: "", cycles: (8, 0), pre_len: 1, op_len: 1, arg_len: 0, group: InsnGroup::Regular },
        0xC6 => Opcode { mnemonic_fmt: "set 0, (hl)", mnemonic_tail: "", cycles: (15, 0), pre_len: 1, op_len: 1, arg_len: 0, group: InsnGroup::Regular },
        0xC7 => Opcode { mnemonic_fmt: "set 0, a", mnemonic_tail: "", cycles: (8, 0), pre_len: 1, op_len: 1, arg_len: 0, group: InsnGroup::Regular },
        0xC8 => Opcode { mnemonic_fmt: "set 1, b", mnemonic_tail: "", cycles: (8, 0), pre_len: 1, op_len: 1, arg_len: 0, group: InsnGroup::Regular },
        0xC9 => Opcode { mnemonic_fmt: "set 1, c", mnemonic_tail: "", cycles: (8, 0), pre_len: 1, op_len: 1, arg_len: 0, group: InsnGroup::Regular },
        0xCA => Opcode { mnemonic_fmt: "set 1, d", mnemonic_tail: "", cycles: (8, 0), pre_len: 1, op_len: 1, arg_len: 0, group: InsnGroup::Regular },
        0xCB => Opcode { mnemonic_fmt: "set 1, e", mnemonic_tail: "", cycles: (8, 0), pre_len: 1, op_len: 1, arg_len: 0, group: InsnGroup::Regular },
        0xCC => Opcode { mnemonic_fmt: "set 1, h", mnemonic_tail: "", cycles: (8, 0), pre_len: 1, op_len: 1, arg_len: 0, group: InsnGroup::Regular },
        0xCD => Opcode { mnemonic_fmt: "set 1, l", mnemonic_tail: "", cycles: (8, 0), pre_len: 1, op_len: 1, arg_len: 0, group: InsnGroup::Regular },
        0xCE => Opcode { mnemonic_fmt: "set 1, (hl)", mnemonic_tail: "", cycles: (15, 0), pre_len: 1, op_len: 1, arg_len: 0, group: InsnGroup::Regular },
        0xCF => Opcode { mnemonic_fmt: "set 1, a", mnemonic_tail: "", cycles: (8, 0), pre_len: 1, op_len: 1, arg_len: 0, group: InsnGroup::Regular },
        0xD0 => Opcode { mnemonic_fmt: "set 2, b", mnemonic_tail: "", cycles: (8, 0), pre_len: 1, op_len: 1, arg_len: 0, group: InsnGroup::Regular },
        0xD1 => Opcode { mnemonic_fmt: "set 2, c", mnemonic_tail: "", cycles: (8, 0), pre_len: 1, op_len: 1, arg_len: 0, group: InsnGroup::Regular },
        0xD2 => Opcode { mnemonic_fmt: "set 2, d", mnemonic_tail: "", cycles: (8, 0), pre_len: 1, op_len: 1, arg_len: 0, group: InsnGroup::Regular },
        0xD3 => Opcode { mnemonic_fmt: "set 2, e", mnemonic_tail: "", cycles: (8, 0), pre_len: 1, op_len: 1, arg_len: 0, group: InsnGroup::Regular },
        0xD4 => Opcode { mnemonic_fmt: "set 2, h", mnemonic_tail: "", cycles: (8, 0), pre_len: 1, op_len: 1, arg_len: 0, group: InsnGroup::Regular },
        0xD5 => Opcode { mnemonic_fmt: "set 2, l", mnemonic_tail: "", cycles: (8, 0), pre_len: 1, op_len: 1, arg_len: 0, group: InsnGroup::Regular },
        0xD6 => Opcode { mnemonic_fmt: "set 2, (hl)", mnemonic_tail: "", cycles: (15, 0), pre_len: 1, op_len: 1, arg_len: 0, group: InsnGroup::Regular },
        0xD7 => Opcode { mnemonic_fmt: "set 2, a", mnemonic_tail: "", cycles: (8, 0), pre_len: 1, op_len: 1, arg_len: 0, group: InsnGroup::Regular },
        0xD8 => Opcode { mnemonic_fmt: "set 3, b", mnemonic_tail: "", cycles: (8, 0), pre_len: 1, op_len: 1, arg_len: 0, group: InsnGroup::Regular },
        0xD9 => Opcode { mnemonic_fmt: "set 3, c", mnemonic_tail: "", cycles: (8, 0), pre_len: 1, op_len: 1, arg_len: 0, group: InsnGroup::Regular },
        0xDA => Opcode { mnemonic_fmt: "set 3, d", mnemonic_tail: "", cycles: (8, 0), pre_len: 1, op_len: 1, arg_len: 0, group: InsnGroup::Regular },
        0xDB => Opcode { mnemonic_fmt: "set 3, e", mnemonic_tail: "", cycles: (8, 0), pre_len: 1, op_len: 1, arg_len: 0, group: InsnGroup::Regular },
        0xDC => Opcode { mnemonic_fmt: "set 3, h", mnemonic_tail: "", cycles: (8, 0), pre_len: 1, op_len: 1, arg_len: 0, group: InsnGroup::Regular },
        0xDD => Opcode { mnemonic_fmt: "set 3, l", mnemonic_tail: "", cycles: (8, 0), pre_len: 1, op_len: 1, arg_len: 0, group: InsnGroup::Regular },
        0xDE => Opcode { mnemonic_fmt: "set 3, (hl)", mnemonic_tail: "", cycles: (15, 0), pre_len: 1, op_len: 1, arg_len: 0, group: InsnGroup::Regular },
        0xDF => Opcode { mnemonic_fmt: "set 3, a", mnemonic_tail: "", cycles: (8, 0), pre_len: 1, op_len: 1, arg_len: 0, group: InsnGroup::Regular },
        0xE0 => Opcode { mnemonic_fmt: "set 4, b", mnemonic_tail: "", cycles: (8, 0), pre_len: 1, op_len: 1, arg_len: 0, group: InsnGroup::Regular },
        0xE1 => Opcode { mnemonic_fmt: "set 4, c", mnemonic_tail: "", cycles: (8, 0), pre_len: 1, op_len: 1, arg_len: 0, group: InsnGroup::Regular },
        0xE2 => Opcode { mnemonic_fmt: "set 4, d", mnemonic_tail: "", cycles: (8, 0), pre_len: 1, op_len: 1, arg_len: 0, group: InsnGroup::Regular },
        0xE3 => Opcode { mnemonic_fmt: "set 4, e", mnemonic_tail: "", cycles: (8, 0), pre_len: 1, op_len: 1, arg_len: 0, group: InsnGroup::Regular },
        0xE4 => Opcode { mnemonic_fmt: "set 4, h", mnemonic_tail: "", cycles: (8, 0), pre_len: 1, op_len: 1, arg_len: 0, group: InsnGroup::Regular },
        0xE5 => Opcode { mnemonic_fmt: "set 4, l", mnemonic_tail: "", cycles: (8, 0), pre_len: 1, op_len: 1, arg_len: 0, group: InsnGroup::Regular },
        0xE6 => Opcode { mnemonic_fmt: "set 4, (hl)", mnemonic_tail: "", cycles: (15, 0), pre_len: 1, op_len: 1, arg_len: 0, group: InsnGroup::Regular },
        0xE7 => Opcode { mnemonic_fmt: "set 4, a", mnemonic_tail: "", cycles: (8, 0), pre_len: 1, op_len: 1, arg_len: 0, group: InsnGroup::Regular },
        0xE8 => Opcode { mnemonic_fmt: "set 5, b", mnemonic_tail: "", cycles: (8, 0), pre_len: 1, op_len: 1, arg_len: 0, group: InsnGroup::Regular },
        0xE9 => Opcode { mnemonic_fmt: "set 5, c", mnemonic_tail: "", cycles: (8, 0), pre_len: 1, op_len: 1, arg_len: 0, group: InsnGroup::Regular },
        0xEA => Opcode { mnemonic_fmt: "set 5, d", mnemonic_tail: "", cycles: (8, 0), pre_len: 1, op_len: 1, arg_len: 0, group: InsnGroup::Regular },
        0xEB => Opcode { mnemonic_fmt: "set 5, e", mnemonic_tail: "", cycles: (8, 0), pre_len: 1, op_len: 1, arg_len: 0, group: InsnGroup::Regular },
        0xEC => Opcode { mnemonic_fmt: "set 5, h", mnemonic_tail: "", cycles: (8, 0), pre_len: 1, op_len: 1, arg_len: 0, group: InsnGroup::Regular },
        0xED => Opcode { mnemonic_fmt: "set 5, l", mnemonic_tail: "", cycles: (8, 0), pre_len: 1, op_len: 1, arg_len: 0, group: InsnGroup::Regular },
        0xEE => Opcode { mnemonic_fmt: "set 5, (hl)", mnemonic_tail: "", cycles: (15, 0), pre_len: 1, op_len: 1, arg_len: 0, group: InsnGroup::Regular },
        0xEF => Opcode { mnemonic_fmt: "set 5, a", mnemonic_tail: "", cycles: (8, 0), pre_len: 1, op_len: 1, arg_len: 0, group: InsnGroup::Regular },
        0xF0 => Opcode { mnemonic_fmt: "set 6, b", mnemonic_tail: "", cycles: (8, 0), pre_len: 1, op_len: 1, arg_len: 0, group: InsnGroup::Regular },
        0xF1 => Opcode { mnemonic_fmt: "set 6, c", mnemonic_tail: "", cycles: (8, 0), pre_len: 1, op_len: 1, arg_len: 0, group: InsnGroup::Regular },
        0xF2 => Opcode { mnemonic_fmt: "set 6, d", mnemonic_tail: "", cycles: (8, 0), pre_len: 1, op_len: 1, arg_len: 0, group: InsnGroup::Regular },
        0xF3 => Opcode { mnemonic_fmt: "set 6, e", mnemonic_tail: "", cycles: (8, 0), pre_len: 1, op_len: 1, arg_len: 0, group: InsnGroup::Regular },
        0xF4 => Opcode { mnemonic_fmt: "set 6, h", mnemonic_tail: "", cycles: (8, 0), pre_len: 1, op_len: 1, arg_len: 0, group: InsnGroup::Regular },
        0xF5 => Opcode { mnemonic_fmt: "set 6, l", mnemonic_tail: "", cycles: (8, 0), pre_len: 1, op_len: 1, arg_len: 0, group: InsnGroup::Regular },
        0xF6 => Opcode { mnemonic_fmt: "set 6, (hl)", mnemonic_tail: "", cycles: (15, 0), pre_len: 1, op_len: 1, arg_len: 0, group: InsnGroup::Regular },
        0xF7 => Opcode { mnemonic_fmt: "set 6, a", mnemonic_tail: "", cycles: (8, 0), pre_len: 1, op_len: 1, arg_len: 0, group: InsnGroup::Regular },
        0xF8 => Opcode { mnemonic_fmt: "set 7, b", mnemonic_tail: "", cycles: (8, 0), pre_len: 1, op_len: 1, arg_len: 0, group: InsnGroup::Regular },
        0xF9 => Opcode { mnemonic_fmt: "set 7, c", mnemonic_tail: "", cycles: (8, 0), pre_len: 1, op_len: 1, arg_len: 0, group: InsnGroup::Regular },
        0xFA => Opcode { mnemonic_fmt: "set 7, d", mnemonic_tail: "", cycles: (8, 0), pre_len: 1, op_len: 1, arg_len: 0, group: InsnGroup::Regular },
        0xFB => Opcode { mnemonic_fmt: "set 7, e", mnemonic_tail: "", cycles: (8, 0), pre_len: 1, op_len: 1, arg_len: 0, group: InsnGroup::Regular },
        0xFC => Opcode { mnemonic_fmt: "set 7, h", mnemonic_tail: "", cycles: (8, 0), pre_len: 1, op_len: 1, arg_len: 0, group: InsnGroup::Regular },
        0xFD => Opcode { mnemonic_fmt: "set 7, l", mnemonic_tail: "", cycles: (8, 0), pre_len: 1, op_len: 1, arg_len: 0, group: InsnGroup::Regular },
        0xFE => Opcode { mnemonic_fmt: "set 7, (hl)", mnemonic_tail: "", cycles: (15, 0), pre_len: 1, op_len: 1, arg_len: 0, group: InsnGroup::Regular },
        _ => Opcode { mnemonic_fmt: "set 7, a", mnemonic_tail: "", cycles: (8, 0), pre_len: 1, op_len: 1, arg_len: 0, group: InsnGroup::Regular },
    }
}

/// Looks up an entry of the table of opcodes after the `0xCB` prefix.
pub fn lookup_cb(b: u8) -> (r: Opcode)
    ensures
        r == spec_cb(b),
{
    match b {
        0x00 => Opcode { mnemonic_fmt: "rlc b", mnemonic_tail: "", cycles: (8, 0), pre_len: 1, op_len: 1, arg_len: 0, group: InsnGroup::Regular },
        0x01 => Opcode { mnemonic_fmt: "rlc c", mnemonic_tail: "", cycles: (8, 0), pre_len: 1, op_len: 1, arg_len: 0, group: InsnGroup::Regular },
        0x02 => Opcode { mnemonic_fmt: "rlc d", mnemonic_tail: "", cycles: (8, 0), pre_len: 1, op_len: 1, arg_len: 0, group: InsnGroup::Regular },
        0x03 => Opcode { mnemonic_fmt: "rlc e", mnemonic_tail: "", cycles: (8, 0), pre_len: 1, op_len: 1, arg_len: 0, group: InsnGroup::Regular },
        0x04 => Opcode { mnemonic_fmt: "rlc h", mnemonic_tail: "", cycles: (8, 0), pre_len: 1, op_len: 1, arg_len: 0, group: InsnGroup::Regular },
        0x05 => Opcode { mnemonic_fmt: "rlc l", mnemonic_tail: "", cycles: (8, 0), pre_len: 1, op_len: 1, arg_len: 0, group: InsnGroup::Regular },
        0x06 => Opcode { mnemonic_fmt: "rlc (hl)", mnemonic_tail: "", cycles: (15, 0), pre_len: 1, op_len: 1, arg_len: 0, group: InsnGroup::Regular },
        0x07 => Opcode { mnemonic_fmt: "rlc a", mnemonic_tail: "", cycles: (8, 0), pre_len: 1, op_len: 1, arg_len: 0, group: InsnGroup::Regular },
        0x08 => Opcode { mnemonic_fmt: "rrc b", mnemonic_tail: "", cycles: (8, 0), pre_len: 1, op_len: 1, arg_len: 0, group: InsnGroup::Regular },
        0x09 => Opcode { mnemonic_fmt: "rrc c", mnemonic_tail: "", cycles: (8, 0), pre_len: 1, op_len: 1, arg_len: 0, group: InsnGroup::Regular },
        0x0A => Opcode { mnemonic_fmt: "rrc d", mnemonic_tail: "", cycles: (8, 0), pre_len: 1, op_len: 1, arg_len: 0, group: InsnGroup::Regular },
        0x0B => Opcode { mnemonic_fmt: "rrc e", mnemonic_tail: "", cycles: (8, 0), pre_len: 1, op_len: 1, arg_len: 0, group: InsnGroup::Regular },
        0x0C => Opcode { mnemonic_fmt: "rrc h", mnemonic_tail: "", cycles: (8, 0), pre_len: 1, op_len: 1, arg_len: 0, group: InsnGroup::Regular },
        0x0D => Opcode { mnemonic_fmt: "rrc l", mnemonic_tail: "", cycles: (8, 0), pre_len: 1, op_len: 1, arg_len: 0, group: InsnGroup::Regular },
        0x0E => Opcode { mnemonic_fmt: "rrc (hl)", mnemonic_tail: "", cycles: (15, 0), pre_len: 1, op_len: 1, arg_len: 0, group: InsnGroup::Regular },
        0x0F => Opcode { mnemonic_fmt: "rrc a", mnemonic_tail: "", cycles: (8, 0), pre_len: 1, op_len: 1, arg_len: 0, group: InsnGroup::Regular },
        0x10 => Opcode { mnemonic_fmt: "rl b", mnemonic_tail: "", cycles: (8, 0), pre_len: 1, op_len: 1, arg_len: 0, group: InsnGroup::Regular },
        0x11 => Opcode { mnemonic_fmt: "rl c", mnemonic_tail: "", cycles: (8, 0), pre_len: 1, op_len: 1, arg_len: 0, group: InsnGroup::Regular },
        0x12 => Opcode { mnemonic_fmt: "rl d", mnemonic_tail: "", cycles: (8, 0), pre_len: 1, op_len: 1, arg_len: 0, group: InsnGroup::Regular },
        0x13 => Opcode { mnemonic_fmt: "rl e", mnemonic_tail: "", cycles: (8, 0), pre_len: 1, op_len: 1, arg_len: 0, group: InsnGroup::Regular },
        0x14 => Opcode { mnemonic_fmt: "rl h", mnemonic_tail: "", cycles: (8, 0), pre_len: 1, op_len: 1, arg_len: 0, group: InsnGroup::Regular },
        0x15 => Opcode { mnemonic_fmt: "rl l", mnemonic_tail: "", cycles: (8, 0), pre_len: 1, op_len: 1, arg_len: 0, group: InsnGroup::Regular },
        0x16 => Opcode { mnemonic_fmt: "rl (hl)", mnemonic_tail: "", cycles: (15, 0), pre_len: 1, op_len: 1, arg_len: 0, group: InsnGroup::Regular },
        0x17 => Opcode { mnemonic_fmt: "rl a", mnemonic_tail: "", cycles: (8, 0), pre_len: 1, op_len: 1, arg_len: 0, group: InsnGroup::Regular },
        0x18 => Opcode { mnemonic_fmt: "rr b", mnemonic_tail: "", cycles: (8, 0), pre_len: 1, op_len: 1, arg_len: 0, group: InsnGroup::Regular },
        0x19 => Opcode { mnemonic_fmt: "rr c", mnemonic_tail: "", cycles: (8, 0), pre_len: 1, op_len: 1, arg_len: 0, group: InsnGroup::Regular },
        0x1A => Opcode { mnemonic_fmt: "rr d", mnemonic_tail: "", cycles: (8, 0), pre_len: 1, op_len: 1, arg_len: 0, group: InsnGroup::Regular },
        0x1B => Opcode { mnemonic_fmt: "rr e", mnemonic_tail: "", cycles: (8, 0), pre_len: 1, op_len: 1, arg_len: 0, group: InsnGroup::Regular },
        0x1C => Opcode { mnemonic_fmt: "rr h", mnemonic_tail: "", cycles: (8, 0), pre_len: 1, op_len: 1, arg_len: 0, group: InsnGroup::Regular },
        0x1D => Opcode { mnemonic_fmt: "rr l", mnemonic_tail: "", cycles: (8, 0), pre_len: 1, op_len: 1, arg_len: 0, group: InsnGroup::Regular },
        0x1E => Opcode { mnemonic_fmt: "rr (hl)", mnemonic_tail: "", cycles: (15, 0), pre_len: 1, op_len: 1, arg_len: 0, group: InsnGroup::Regular },
        0x1F => Opcode { mnemonic_fmt: "rr a", mnemonic_tail: "", cycles: (8, 0), pre_len: 1, op_len: 1, arg_len: 0, group: InsnGroup::Regular },
        0x20 => Opcode { mnemonic_fmt: "sla b", mnemonic_tail: "", cycles: (8, 0), pre_len: 1, op_len: 1, arg_len: 0, group: InsnGroup::Regular },
        0x21 => Opcode { mnemonic_fmt: "sla c", mnemonic_tail: "", cycles: (8, 0), pre_len: 1, op_len: 1, arg_len: 0, group: InsnGroup::Regular },
        0x22 => Opcode { mnemonic_fmt: "sla d", mnemonic_tail: "", cycles: (8, 0), pre_len: 1, op_len: 1, arg_len: 0, group: InsnGroup::Regular },
        0x23 => Opcode { mnemonic_fmt: "sla e", mnemonic_tail: "", cycles: (8, 0), pre_len: 1, op_len: 1, arg_len: 0, group: InsnGroup::Regular },
        0x24 => Opcode { mnemonic_fmt: "sla h", mnemonic_tail: "", cycles: (8, 0), pre_len: 1, op_len: 1, arg_len: 0, group: InsnGroup::Regular },
        0x25 => Opcode { mnemonic_fmt: "sla l", mnemonic_tail: "", cycles: (8, 0), pre_len: 1, op_len: 1, arg_len: 0, group: InsnGroup::Regular },
        0x26 => Opcode { mnemonic_fmt: "sla (hl)", mnemonic_tail: "", cycles: (15, 0), pre_len: 1, op_len: 1, arg_len: 0, group: InsnGroup::Regular },
        0x27 => Opcode { mnemonic_fmt: "sla a", mnemonic_tail: "", cycles: (8, 0), pre_len: 1, op_len: 1, arg_len: 0, group: InsnGroup::Regular },
        0x28 => Opcode { mnemonic_fmt: "sra b", mnemonic_tail: "", cycles: (8, 0), pre_len: 1, op_len: 1, arg_len: 0, group: InsnGroup::Regular },
        0x29 => Opcode { mnemonic_fmt: "sra c", mnemonic_tail: "", cycles: (8, 0), pre_len: 1, op_len: 1, arg_len: 0, group: InsnGroup::Regular },
        0x2A => Opcode { mnemonic_fmt: "sra d", mnemonic_tail: "", cycles: (8, 0), pre_len: 1, op_len: 1, arg_len: 0, group: InsnGroup::Regular },
        0x2B => Opcode { mnemonic_fmt: "sra e", mnemonic_tail: "", cycles: (8, 0), pre_len: 1, op_len: 1, arg_len: 0, group: InsnGroup::Regular },
        0x2C => Opcode { mnemonic_fmt: "sra h", mnemonic_tail: "", cycles: (8, 0), pre_len: 1, op_len: 1, arg_len: 0, group: InsnGroup::Regular },
        0x2D => Opcode { mnemonic_fmt: "sra l", mnemonic_tail: "", cycles: (8, 0), pre_len: 1, op_len: 1, arg_len: 0, group: InsnGroup::Regular },
        0x2E => Opcode { mnemonic_fmt: "sra (hl)", mnemonic_tail: "", cycles: (15, 0), pre_len: 1, op_len: 1, arg_len: 0, group: InsnGroup::Regular },
        0x2F => Opcode { mnemonic_fmt: "sra a", mnemonic_tail: "", cycles: (8, 0), pre_len: 1, op_len: 1, arg_len: 0, group: InsnGroup::Regular },
        0x30 => Opcode { mnemonic_fmt: "sll b", mnemonic_tail: "", cycles: (8, 0), pre_len: 1, op_len: 1, arg_len: 0, group: InsnGroup::Regular },
        0x31 => Opcode { mnemonic_fmt: "sll c", mnemonic_tail: "", cycles: (8, 0), pre_len: 1, op_len: 1, arg_len: 0, group: InsnGroup::Regular },
        0x32 => Opcode { mnemonic_fmt: "sll d", mnemonic_tail: "", cycles: (8, 0), pre_len: 1, op_len: 1, arg_len: 0, group: InsnGroup::Regular },
        0x33 => Opcode { mnemonic_fmt: "sll e", mnemonic_tail: "", cycles: (8, 0), pre_len: 1, op_len: 1, arg_len: 0, group: InsnGroup::Regular },
        0x34 => Opcode { mnemonic_fmt: "sll h", mnemonic_tail: "", cycles: (8, 0), pre_len: 1, op_len: 1, arg_len: 0, group: InsnGroup::Regular },
        0x35 => Opcode { mnemonic_fmt: "sll l", mnemonic_tail: "", cycles: (8, 0), pre_len: 1, op_len: 1, arg_len: 0, group: InsnGroup::Regular },
        0x36 => Opcode { mnemonic_fmt: "sll (hl)", mnemonic_tail: "", cycles: (15, 0), pre_len: 1, op_len: 1, arg_len: 0, group: InsnGroup::Regular },
        0x37 => Opcode { mnemonic_fmt: "sll a", mnemonic_tail: "", cycles: (8, 0), pre_len: 1, op_len: 1, arg_len: 0, group: InsnGroup::Regular },
        0x38 => Opcode { mnemonic_fmt: "srl b", mnemonic_tail: "", cycles: (8, 0), pre_len: 1, op_len: 1, arg_len: 0, group: InsnGroup::Regular },
        0x39 => Opcode { mnemonic_fmt: "srl c", mnemonic_tail: "", cycles: (8, 0), pre_len: 1, op_len: 1, arg_len: 0, group: InsnGroup::Regular },
        0x3A => Opcode { mnemonic_fmt: "srl d", mnemonic_tail: "", cycles: (8, 0), pre_len: 1, op_len: 1, arg_len: 0, group: InsnGroup::Regular },
        0x3B => Opcode { mnemonic_fmt: "srl e", mnemonic_tail: "", cycles: (8, 0), pre_len: 1, op_len: 1, arg_len: 0, group: InsnGroup::Regular },
        0x3C => Opcode { mnemonic_fmt: "srl h", mnemonic_tail: "", cycles: (8, 0), pre_len: 1, op_len: 1, arg_len: 0, group: InsnGroup::Regular },
        0x3D => Opcode { mnemonic_fmt: "srl l", mnemonic_tail: "", cycles: (8, 0), pre_len: 1, op_len: 1, arg_len: 0, group: InsnGroup::Regular },
        0x3E => Opcode { mnemonic_fmt: "srl (hl)", mnemonic_tail: "", cycles: (15, 0), pre_len: 1, op_len: 1, arg_len: 0, group: InsnGroup::Regular },
        0x3F => Opcode { mnemonic_fmt: "srl a", mnemonic_tail: "", cycles: (8, 0), pre_len: 1, op_len: 1, arg_len: 0, group: InsnGroup::Regular },
        0x40 => Opcode { mnemonic_fmt: "bit 0, b", mnemonic_tail: "", cycles: (8, 0), pre_len: 1, op_len: 1, arg_len: 0, group: InsnGroup::Regular },
        0x41 => Opcode { mnemonic_fmt: "bit 0, c", mnemonic_tail: "", cycles: (8, 0), pre_len: 1, op_len: 1, arg_len: 0, group: InsnGroup::Regular },
        0x42 => Opcode { mnemonic_fmt: "bit 0, d", mnemonic_tail: "", cycles: (8, 0), pre_len: 1, op_len: 1, arg_len: 0, group: InsnGroup::Regular },
        0x43 => Opcode { mnemonic_fmt: "bit 0, e", mnemonic_tail: "", cycles: (8, 0), pre_len: 1, op_len: 1, arg_len: 0, group: InsnGroup::Regular },
        0x44 => Opcode { mnemonic_fmt: "bit 0, h", mnemonic_tail: "", cycles: (8, 0), pre_len: 1, op_len: 1, arg_len: 0, group: InsnGroup::Regular },
        0x45 => Opcode { mnemonic_fmt: "bit 0, l", mnemonic_tail: "", cycles: (8, 0), pre_len: 1, op_len: 1, arg_len: 0, group: InsnGroup::Regular },
        0x46 => Opcode { mnemonic_fmt: "bit 0, (hl)", mnemonic_tail: "", cycles: (12, 0), pre_len: 1, op_len: 1, arg_len: 0, group: InsnGroup::Regular },
        0x47 => Opcode { mnemonic_fmt: "bit 0, a", mnemonic_tail: "", cycles: (8, 0), pre_len: 1, op_len: 1, arg_len: 0, group: InsnGroup::Regular },
        0x48 => Opcode { mnemonic_fmt: "bit 1, b", mnemonic_tail: "", cycles: (8, 0), pre_len: 1, op_len: 1, arg_len: 0, group: InsnGroup::Regular },
        0x49 => Opcode { mnemonic_fmt: "bit 1, c", mnemonic_tail: "", cycles: (8, 0), pre_len: 1, op_len: 1, arg_len: 0, group: InsnGroup::Regular },
        0x4A => Opcode { mnemonic_fmt: "bit 1, d", mnemonic_tail: "", cycles: (8, 0), pre_len: 1, op_len: 1, arg_len: 0, group: InsnGroup::Regular },
        0x4B => Opcode { mnemonic_fmt: "bit 1, e", mnemonic_tail: "", cycles: (8, 0), pre_len: 1, op_len: 1, arg_len: 0, group: InsnGroup::Regular },
        0x4C => Opcode { mnemonic_fmt: "bit 1, h", mnemonic_tail: "", cycles: (8, 0), pre_len: 1, op_len: 1, arg_len: 0, group: InsnGroup::Regular },
        0x4D => Opcode { mnemonic_fmt: "bit 1, l", mnemonic_tail: "", cycles: (8, 0), pre_len: 1, op_len: 1, arg_len: 0, group: InsnGroup::Regular },
        0x4E => Opcode { mnemonic_fmt: "bit 1, (hl)", mnemonic_tail: "", cycles: (12, 0), pre_len: 1, op_len: 1, arg_len: 0, group: InsnGroup::Regular },
        0x4F => Opcode { mnemonic_fmt: "bit 1, a", mnemonic_tail: "", cycles: (8, 0), pre_len: 1, op_len: 1, arg_len: 0, group: InsnGroup::Regular },
        0x50 => Opcode { mnemonic_fmt: "bit 2, b", mnemonic_tail: "", cycles: (8, 0), pre_len: 1, op_len: 1, arg_len: 0, group: InsnGroup::Regular },
        0x51 => Opcode { mnemonic_fmt: "bit 2, c", mnemonic_tail: "", cycles: (8, 0), pre_len: 1, op_len: 1, arg_len: 0, group: InsnGroup::Regular },
        0x52 => Opcode { mnemonic_fmt: "bit 2, d", mnemonic_tail: "", cycles: (8, 0), pre_len: 1, op_len: 1, arg_len: 0, group: InsnGroup::Regular },
        0x53 => Opcode { mnemonic_fmt: "bit 2, e", mnemonic_tail: "", cycles: (8, 0), pre_len: 1, op_len: 1, arg_len: 0, group: InsnGroup::Regular },
        0x54 => Opcode { mnemonic_fmt: "bit 2, h", mnemonic_tail: "", cycles: (8, 0), pre_len: 1, op_len: 1, arg_len: 0, group: InsnGroup::Regular },
        0x55 => Opcode { mnemonic_fmt: "bit 2, l", mnemonic_tail: "", cycles: (8, 0), pre_len: 1, op_len: 1, arg_len: 0, group: InsnGroup::Regular },
        0x56 => Opcode { mnemonic_fmt: "bit 2, (hl)", mnemonic_tail: "", cycles: (12, 0), pre_len: 1, op_len: 1, arg_len: 0, group: InsnGroup::Regular },
        0x57 => Opcode { mnemonic_fmt: "bit 2, a", mnemonic_tail: "", cycles: (8, 0), pre_len: 1, op_len: 1, arg_len: 0, group: InsnGroup::Regular },
        0x58 => Opcode { mnemonic_fmt: "bit 3, b", mnemonic_tail: "", cycles: (8, 0), pre_len: 1, op_len: 1, arg_len: 0, group: InsnGroup::Regular },
        0x59 => Opcode { mnemonic_fmt: "bit 3, c", mnemonic_tail: "", cycles: (8, 0), pre_len: 1, op_len: 1, arg_len: 0, group: InsnGroup::Regular },
        0x5A => Opcode { mnemonic_fmt: "bit 3, d", mnemonic_tail: "", cycles: (8, 0), pre_len: 1, op_len: 1, arg_len: 0, group: InsnGroup::Regular },
        0x5B => Opcode { mnemonic_fmt: "bit 3, e", mnemonic_tail: "", cycles: (8, 0), pre_len: 1, op_len: 1, arg_len: 0, group: InsnGroup::Regular },
        0x5C => Opcode { mnemonic_fmt: "bit 3, h", mnemonic_tail: "", cycles: (8, 0), pre_len: 1, op_len: 1, arg_len: 0, group: InsnGroup::Regular },
        0x5D => Opcode { mnemonic_fmt: "bit 3, l", mnemonic_tail: "", cycles: (8, 0), pre_len: 1, op_len: 1, arg_len: 0, group: InsnGroup::Regular },
        0x5E => Opcode { mnemonic_fmt: "bit 3, (hl)", mnemonic_tail: "", cycles: (12, 0), pre_len: 1, op_len: 1, arg_len: 0, group: InsnGroup::Regular },
        0x5F => Opcode { mnemonic_fmt: "bit 3, a", mnemonic_tail: "", cycles: (8, 0), pre_len: 1, op_len: 1, arg_len: 0, group: InsnGroup::Regular },
        0x60 => Opcode { mnemonic_fmt: "bit 4, b", mnemonic_tail: "", cycles: (8, 0), pre_len: 1, op_len: 1, arg_len: 0, group: InsnGroup::Regular },
        0x61 => Opcode { mnemonic_fmt: "bit 4, c", mnemonic_tail: "", cycles: (8, 0), pre_len: 1, op_len: 1, arg_len: 0, group: InsnGroup::Regular },
        0x62 => Opcode { mnemonic_fmt: "bit 4, d", mnemonic_tail: "", cycles: (8, 0), pre_len: 1, op_len: 1, arg_len: 0, group: InsnGroup::Regular },
        0x63 => Opcode { mnemonic_fmt: "bit 4, e", mnemonic_tail: "", cycles: (8, 0), pre_len: 1, op_len: 1, arg_len: 0, group: InsnGroup::Regular },
        0x64 => Opcode { mnemonic_fmt: "bit 4, h", mnemonic_tail: "", cycles: (8, 0), pre_len: 1, op_len: 1, arg_len: 0, group: InsnGroup::Regular },
        0x65 => Opcode { mnemonic_fmt: "bit 4, l", mnemonic_tail: "", cycles: (8, 0), pre_len: 1, op_len: 1, arg_len: 0, group: InsnGroup::Regular },
        0x66 => Opcode { mnemonic_fmt: "bit 4, (hl)", mnemonic_tail: "", cycles: (12, 0), pre_len: 1, op_len: 1, arg_len: 0, group: InsnGroup::Regular },
        0x67 => Opcode { mnemonic_fmt: "bit 4, a", mnemonic_tail: "", cycles: (8, 0), pre_len: 1, op_len: 1, arg_len: 0, group: InsnGroup::Regular },
        0x68 => Opcode { mnemonic_fmt: "bit 5, b", mnemonic_tail: "", cycles: (8, 0), pre_len: 1, op_len: 1, arg_len: 0, group: InsnGroup::Regular },
        0x69 => Opcode { mnemonic_fmt: "bit 5, c", mnemonic_tail: "", cycles: (8, 0), pre_len: 1, op_len: 1, arg_len: 0, group: InsnGroup::Regular },
        0x6A => Opcode { mnemonic_fmt: "bit 5, d", mnemonic_tail: "", cycles: (8, 0), pre_len: 1, op_len: 1, arg_len: 0, group: InsnGroup::Regular },
        0x6B => Opcode { mnemonic_fmt: "bit 5, e", mnemonic_tail: "", cycles: (8, 0), pre_len: 1, op_len: 1, arg_len: 0, group: InsnGroup::Regular },
        0x6C => Opcode { mnemonic_fmt: "bit 5, h", mnemonic_tail: "", cycles: (8, 0), pre_len: 1, op_len: 1, arg_len: 0, group: InsnGroup::Regular },
        0x6D => Opcode { mnemonic_fmt: "bit 5, l", mnemonic_tail: "", cycles: (8, 0), pre_len: 1, op_len: 1, arg_len: 0, group: InsnGroup::Regular },
        0x6E => Opcode { mnemonic_fmt: "bit 5, (hl)", mnemonic_tail: "", cycles: (12, 0), pre_len: 1, op_len: 1, arg_len: 0, group: InsnGroup::Regular },
        0x6F => Opcode { mnemonic_fmt: "bit 5, a", mnemonic_tail: "", cycles: (8, 0), pre_len: 1, op_len: 1, arg_len: 0, group: InsnGroup::Regular },
        0x70 => Opcode { mnemonic_fmt: "bit 6, b", mnemonic_tail: "", cycles: (8, 0), pre_len: 1, op_len: 1, arg_len: 0, group: InsnGroup::Regular },
        0x71 => Opcode { mnemonic_fmt: "bit 6, c", mnemonic_tail: "", cycles: (8, 0), pre_len: 1, op_len: 1, arg_len: 0, group: InsnGroup::Regular },
        0x72 => Opcode { mnemonic_fmt: "bit 6, d", mnemonic_tail: "", cycles: (8, 0), pre_len: 1, op_len: 1, arg_len: 0, group: InsnGroup::Regular },
        0x73 => Opcode { mnemonic_fmt: "bit 6, e", mnemonic_tail: "", cycles: (8, 0), pre_len: 1, op_len: 1, arg_len: 0, group: InsnGroup::Regular },
        0x74 => Opcode { mnemonic_fmt: "bit 6, h", mnemonic_tail: "", cycles: (8, 0), pre_len: 1, op_len: 1, arg_len: 0, group: InsnGroup::Regular },
        0x75 => Opcode { mnemonic_fmt: "bit 6, l", mnemonic_tail: "", cycles: (8, 0), pre_len: 1, op_len: 1, arg_len: 0, group: InsnGroup::Regular },
        0x76 => Opcode { mnemonic_fmt: "bit 6, (hl)", mnemonic_tail: "", cycles: (12, 0), pre_len: 1, op_len: 1, arg_len: 0, group: InsnGroup::Regular },
        0x77 => Opcode { mnemonic_fmt: "bit 6, a", mnemonic_tail: "", cycles: (8, 0), pre_len: 1, op_len: 1, arg_len: 0, group: InsnGroup::Regular },
        0x78 => Opcode { mnemonic_fmt: "bit 7, b", mnemonic_tail: "", cycles: (8, 0), pre_len: 1, op_len: 1, arg_len: 0, group: InsnGroup::Regular },
        0x79 => Opcode { mnemonic_fmt: "bit 7, c", mnemonic_tail: "", cycles: (8, 0), pre_len: 1, op_len: 1, arg_len: 0, group: InsnGroup::Regular },
        0x7A => Opcode { mnemonic_fmt: "bit 7, d", mnemonic_tail: "", cycles: (8, 0), pre_len: 1, op_len: 1, arg_len: 0, group: InsnGroup::Regular },
        0x7B => Opcode { mnemonic_fmt: "bit 7, e", mnemonic_tail: "", cycles: (8, 0), pre_len: 1, op_len: 1, arg_len: 0, group: InsnGroup::Regular },
        0x7C => Opcode { mnemonic_fmt: "bit 7, h", mnemonic_tail: "", cycles: (8, 0), pre_len: 1, op_len: 1, arg_len: 0, group: InsnGroup::Regular },
        0x7D => Opcode { mnemonic_fmt: "bit 7, l", mnemonic_tail: "", cycles: (8, 0), pre_len: 1, op_len: 1, arg_len: 0, group: InsnGroup::Regular },
        0x7E => Opcode { mnemonic_fmt: "bit 7, (hl)", mnemonic_tail: "", cycles: (12, 0), pre_len: 1, op_len: 1, arg_len: 0, group: InsnGroup::Regular },
        0x7F => Opcode { mnemonic_fmt: "bit 7, a", mnemonic_tail: "", cycles: (8, 0), pre_len: 1, op_len: 1, arg_len: 0, group: InsnGroup::Regular },
        0x80 => Opcode { mnemonic_fmt: "res 0, b", mnemonic_tail: "", cycles: (8, 0), pre_len: 1, op_len: 1, arg_len: 0, group: InsnGroup::Regular },
        0x81 => Opcode { mnemonic_fmt: "res 0, c", mnemonic_tail: "", cycles: (8, 0), pre_len: 1, op_len: 1, arg_len: 0, group: InsnGroup::Regular },
        0x82 => Opcode { mnemonic_fmt: "res 0, d", mnemonic_tail: "", cycles: (8, 0), pre_len: 1, op_len: 1, arg_len: 0, group: InsnGroup::Regular },
        0x83 => Opcode { mnemonic_fmt: "res 0, e", mnemonic_tail: "", cycles: (8, 0), pre_len: 1, op_len: 1, arg_len: 0, group: InsnGroup::Regular },
        0x84 => Opcode { mnemonic_fmt: "res 0, h", mnemonic_tail: "", cycles: (8, 0), pre_len: 1, op_len: 1, arg_len: 0, group: InsnGroup::Regular },
        0x85 => Opcode { mnemonic_fmt: "res 0, l", mnemonic_tail: "", cycles: (8, 0), pre_len: 1, op_len: 1, arg_len: 0, group: InsnGroup::Regular },
        0x86 => Opcode { mnemonic_fmt: "res 0, (hl)", mnemonic_tail: "", cycles: (15, 0), pre_len: 1, op_len: 1, arg_len: 0, group: InsnGroup::Regular },
        0x87 => Opcode { mnemonic_fmt: "res 0, a", mnemonic_tail: "", cycles: (8, 0), pre_len: 1, op_len: 1, arg_len: 0, group: InsnGroup::Regular },
        0x88 => Opcode { mnemonic_fmt: "res 1, b", mnemonic_tail: "", cycles: (8, 0), pre_len: 1, op_len: 1, arg_len: 0, group: InsnGroup::Regular },
        0x89 => Opcode { mnemonic_fmt: "res 1, c", mnemonic_tail: "", cycles: (8, 0), pre_len: 1, op_len: 1, arg_len: 0, group: InsnGroup::Regular },
        0x8A => Opcode { mnemonic_fmt: "res 1, d", mnemonic_tail: "", cycles: (8, 0), pre_len: 1, op_len: 1, arg_len: 0, group: InsnGroup::Regular },
        0x8B => Opcode { mnemonic_fmt: "res 1, e", mnemonic_tail: "", cycles: (8, 0), pre_len: 1, op_len: 1, arg_len: 0, group: InsnGroup::Regular },
        0x8C => Opcode { mnemonic_fmt: "res 1, h", mnemonic_tail: "", cycles: (8, 0), pre_len: 1, op_len: 1, arg_len: 0, group: InsnGroup::Regular },
        0x8D => Opcode { mnemonic_fmt: "res 1, l", mnemonic_tail: "", cycles: (8, 0), pre_len: 1, op_len: 1, arg_len: 0, group: InsnGroup::Regular },
        0x8E => Opcode { mnemonic_fmt: "res 1, (hl)", mnemonic_tail: "", cycles: (15, 0), pre_len: 1, op_len: 1, arg_len: 0, group: InsnGroup::Regular },
        0x8F => Opcode { mnemonic_fmt: "res 1, a", mnemonic_tail: "", cycles: (8, 0), pre_len: 1, op_len: 1, arg_len: 0, group: InsnGroup::Regular },
        0x90 => Opcode { mnemonic_fmt: "res 2, b", mnemonic_tail: "", cycles: (8, 0), pre_len: 1, op_len: 1, arg_len: 0, group: InsnGroup::Regular },
        0x91 => Opcode { mnemonic_fmt: "res 2, c", mnemonic_tail: "", cycles: (8, 0), pre_len: 1, op_len: 1, arg_len: 0, group: InsnGroup::Regular },
        0x92 => Opcode { mnemonic_fmt: "res 2, d", mnemonic_tail: "", cycles: (8, 0), pre_len: 1, op_len: 1, arg_len: 0, group: InsnGroup::Regular },
        0x93 => Opcode { mnemonic_fmt: "res 2, e", mnemonic_tail: "", cycles: (8, 0), pre_len: 1, op_len: 1, arg_len: 0, group: InsnGroup::Regular },
        0x94 => Opcode { mnemonic_fmt: "res 2, h", mnemonic_tail: "", cycles: (8, 0), pre_len: 1, op_len: 1, arg_len: 0, group: InsnGroup::Regular },
        0x95 => Opcode { mnemonic_fmt: "res 2, l", mnemonic_tail: "", cycles: (8, 0), pre_len: 1, op_len: 1, arg_len: 0, group: InsnGroup::Regular },
        0x96 => Opcode { mnemonic_fmt: "res 2, (hl)", mnemonic_tail: "", cycles: (15, 0), pre_len: 1, op_len: 1, arg_len: 0, group: InsnGroup::Regular },
        0x97 => Opcode { mnemonic_fmt: "res 2, a", mnemonic_tail: "", cycles: (8, 0), pre_len: 1, op_len: 1, arg_len: 0, group: InsnGroup::Regular },
        0x98 => Opcode { mnemonic_fmt: "res 3, b", mnemonic_tail: "", cycles: (8, 0), pre_len: 1, op_len: 1, arg_len: 0, group: InsnGroup::Regular },
        0x99 => Opcode { mnemonic_fmt: "res 3, c", mnemonic_tail: "", cycles: (8, 0), pre_len: 1, op_len: 1, arg_len: 0, group: InsnGroup::Regular },
        0x9A => Opcode { mnemonic_fmt: "res 3, d", mnemonic_tail: "", cycles: (8, 0), pre_len: 1, op_len: 1, arg_len: 0, group: InsnGroup::Regular },
        0x9B => Opcode { mnemonic_fmt: "res 3, e", mnemonic_tail: "", cycles: (8, 0), pre_len: 1, op_len: 1, arg_len: 0, group: InsnGroup::Regular },
        0x9C => Opcode { mnemonic_fmt: "res 3, h", mnemonic_tail: "", cycles: (8, 0), pre_len: 1, op_len: 1, arg_len: 0, group: InsnGroup::Regular },
        0x9D => Opcode { mnemonic_fmt: "res 3, l", mnemonic_tail: "", cycles: (8, 0), pre_len: 1, op_len: 1, arg_len: 0, group: InsnGroup::Regular },
        0x9E => Opcode { mnemonic_fmt: "res 3, (hl)", mnemonic_tail: "", cycles: (15, 0), pre_len: 1, op_len: 1, arg_len: 0, group: InsnGroup::Regular },
        0x9F => Opcode { mnemonic_fmt: "res 3, a", mnemonic_tail: "", cycles: (8, 0), pre_len: 1, op_len: 1, arg_len: 0, group: InsnGroup::Regular },
        0xA0 => Opcode { mnemonic_fmt: "res 4, b", mnemonic_tail: "", cycles: (8, 0), pre_len: 1, op_len: 1, arg_len: 0, group: InsnGroup::Regular },
        0xA1 => Opcode { mnemonic_fmt: "res 4, c", mnemonic_tail: "", cycles: (8, 0), pre_len: 1, op_len: 1, arg_len: 0, group: InsnGroup::Regular },
        0xA2 => Opcode { mnemonic_fmt: "res 4, d", mnemonic_tail: "", cycles: (8, 0), pre_len: 1, op_len: 1, arg_len: 0, group: InsnGroup::Regular },
        0xA3 => Opcode { mnemonic_fmt: "res 4, e", mnemonic_tail: "", cycles: (8, 0), pre_len: 1, op_len: 1, arg_len: 0, group: InsnGroup::Regular },
        0xA4 => Opcode { mnemonic_fmt: "res 4, h", mnemonic_tail: "", cycles: (8, 0), pre_len: 1, op_len: 1, arg_len: 0, group: InsnGroup::Regular },
        0xA5 => Opcode { mnemonic_fmt: "res 4, l", mnemonic_tail: "", cycles: (8, 0), pre_len: 1, op_len: 1, arg_len: 0, group: InsnGroup::Regular },
        0xA6 => Opcode { mnemonic_fmt: "res 4, (hl)", mnemonic_tail: "", cycles: (15, 0), pre_len: 1, op_len: 1, arg_len: 0, group: InsnGroup::Regular },
        0xA7 => Opcode { mnemonic_fmt: "res 4, a", mnemonic_tail: "", cycles: (8, 0), pre_len: 1, op_len: 1, arg_len: 0, group: InsnGroup::Regular },
        0xA8 => Opcode { mnemonic_fmt: "res 5, b", mnemonic_tail: "", cycles: (8, 0), pre_len: 1, op_len: 1, arg_len: 0, group: InsnGroup::Regular },
        0xA9 => Opcode { mnemonic_fmt: "res 5, c", mnemonic_tail: "", cycles: (8, 0), pre_len: 1, op_len: 1, arg_len: 0, group: InsnGroup::Regular },
        0xAA => Opcode { mnemonic_fmt: "res 5, d", mnemonic_tail: "", cycles: (8, 0), pre_len: 1, op_len: 1, arg_len: 0, group: InsnGroup::Regular },
        0xAB => Opcode { mnemonic_fmt: "res 5, e", mnemonic_tail: "", cycles: (8, 0), pre_len: 1, op_len: 1, arg_len: 0, group: InsnGroup::Regular },
        0xAC => Opcode { mnemonic_fmt: "res 5, h", mnemonic_tail: "", cycles: (8, 0), pre_len: 1, op_len: 1, arg_len: 0, group: InsnGroup::Regular },
        0xAD => Opcode { mnemonic_fmt: "res 5, l", mnemonic_tail: "", cycles: (8, 0), pre_len: 1, op_len: 1, arg_len: 0, group: InsnGroup::Regular },
        0xAE => Opcode { mnemonic_fmt: "res 5, (hl)", mnemonic_tail: "", cycles: (15, 0), pre_len: 1, op_len: 1, arg_len: 0, group: InsnGroup::Regular },
        0xAF => Opcode { mnemonic_fmt: "res 5, a", mnemonic_tail: "", cycles: (8, 0), pre_len: 1, op_len: 1, arg_len: 0, group: InsnGroup::Regular },
        0xB0 => Opcode { mnemonic_fmt: "res 6, b", mnemonic_tail: "", cycles: (8, 0), pre_len: 1, op_len: 1, arg_len: 0, group: InsnGroup::Regular },
        0xB1 => Opcode { mnemonic_fmt: "res 6, c", mnemonic_tail: "", cycles: (8, 0), pre_len: 1, op_len: 1, arg_len: 0, group: InsnGroup::Regular },
        0xB2 => Opcode { mnemonic_fmt: "res 6, d", mnemonic_tail: "", cycles: (8, 0), pre_len: 1, op_len: 1, arg_len: 0, group: InsnGroup::Regular },
        0xB3 => Opcode { mnemonic_fmt: "res 6, e", mnemonic_tail: "", cycles: (8, 0), pre_len: 1, op_len: 1, arg_len: 0, group: InsnGroup::Regular },
        0xB4 => Opcode { mnemonic_fmt: "res 6, h", mnemonic_tail: "", cycles: (8, 0), pre_len: 1, op_len: 1, arg_len: 0, group: InsnGroup::Regular },
        0xB5 => Opcode { mnemonic_fmt: "res 6, l", mnemonic_tail: "", cycles: (8, 0), pre_len: 1, op_len: 1, arg_len: 0, group: InsnGroup::Regular },
        0xB6 => Opcode { mnemonic_fmt: "res 6, (hl)", mnemonic_tail: "", cycles: (15, 0), pre_len: 1, op_len: 1, arg_len: 0, group: InsnGroup::Regular },
        0xB7 => Opcode { mnemonic_fmt: "res 6, a", mnemonic_tail: "", cycles: (8, 0), pre_len: 1, op_len: 1, arg_len: 0, group: InsnGroup::Regular },
        0xB8 => Opcode { mnemonic_fmt: "res 7, b", mnemonic_tail: "", cycles: (8, 0), pre_len: 1, op_len: 1, arg_len: 0, group: InsnGroup::Regular },
        0xB9 => Opcode { mnemonic_fmt: "res 7, c", mnemonic_tail: "", cycles: (8, 0), pre_len: 1, op_len: 1, arg_len: 0, group: InsnGroup::Regular },
        0xBA => Opcode { mnemonic_fmt: "res 7, d", mnemonic_tail: "", cycles: (8, 0), pre_len: 1, op_len: 1, arg_len: 0, group: InsnGroup::Regular },
        0xBB => Opcode { mnemonic_fmt: "res 7, e", mnemonic_tail: "", cycles: (8, 0), pre_len: 1, op_len: 1, arg_len: 0, group: InsnGroup::Regular },
        0xBC => Opcode { mnemonic_fmt: "res 7, h", mnemonic_tail: "", cycles: (8, 0), pre_len: 1, op_len: 1, arg_len: 0, group: InsnGroup::Regular },
        0xBD => Opcode { mnemonic_fmt: "res 7, l", mnemonic_tail: "", cycles: (8, 0), pre_len: 1, op_len: 1, arg_len: 0, group: InsnGroup::Regular },
        0xBE => Opcode { mnemonic_fmt: "res 7, (hl)", mnemonic_tail: "", cycles: (15, 0), pre_len: 1, op_len: 1, arg_len: 0, group: InsnGroup::Regular },
        0xBF => Opcode { mnemonic_fmt: "res 7, a", mnemonic_tail: "", cycles: (8, 0), pre_len: 1, op_len: 1, arg_len: 0, group: InsnGroup::Regular },
        0xC0 => Opcode { mnemonic_fmt: "set 0, b", mnemonic_tail: "", cycles: (8, 0), pre_len: 1, op_len: 1, arg_len: 0, group: InsnGroup::Regular },
        0xC1 => Opcode { mnemonic_fmt: "set 0, c", mnemonic_tail: "", cycles: (8, 0), pre_len: 1, op_len: 1, arg_len: 0, group: InsnGroup::Regular },
        0xC2 => Opcode { mnemonic_fmt: "set 0, d", mnemonic_tail: "", cycles: (8, 0), pre_len: 1, op_len: 1, arg_len: 0, group: InsnGroup::Regular },
        0xC3 => Opcode { mnemonic_fmt: "set 0, e", mnemonic_tail: "", cycles: (8, 0), pre_len: 1, op_len: 1, arg_len: 0, group: InsnGroup::Regular },
        0xC4 => Opcode { mnemonic_fmt: "set 0, h", mnemonic_tail: "", cycles: (8, 0), pre_len: 1, op_len: 1, arg_len: 0, group: InsnGroup::Regular },
        0xC5 => Opcode { mnemonic_fmt: "set 0, l", mnemonic_tail: "", cycles: (8, 0), pre_len: 1, op_len: 1, arg_len: 0, group: InsnGroup::Regular },
        0xC6 => Opcode { mnemonic_fmt: "set 0, (hl)", mnemonic_tail: "", cycles: (15, 0), pre_len: 1, op_len: 1, arg_len: 0, group: InsnGroup::Regular },
        0xC7 => Opcode { mnemonic_fmt: "set 0, a", mnemonic_tail: "", cycles: (8, 0), pre_len: 1, op_len: 1, arg_len: 0, group: InsnGroup::Regular },
        0xC8 => Opcode { mnemonic_fmt: "set 1, b", mnemonic_tail: "", cycles: (8, 0), pre_len: 1, op_len: 1, arg_len: 0, group: InsnGroup::Regular },
        0xC9 => Opcode { mnemonic_fmt: "set 1, c", mnemonic_tail: "", cycles: (8, 0), pre_len: 1, op_len: 1, arg_len: 0, group: InsnGroup::Regular },
        0xCA => Opcode { mnemonic_fmt: "set 1, d", mnemonic_tail: "", cycles: (8, 0), pre_len: 1, op_len: 1, arg_len: 0, group: InsnGroup::Regular },
        0xCB => Opcode { mnemonic_fmt: "set 1, e", mnemonic_tail: "", cycles: (8, 0), pre_len: 1, op_len: 1, arg_len: 0, group: InsnGroup::Regular },
        0xCC => Opcode { mnemonic_fmt: "set 1, h", mnemonic_tail: "", cycles: (8, 0), pre_len: 1, op_len: 1, arg_len: 0, group: InsnGroup::Regular },
        0xCD => Opcode { mnemonic_fmt: "set 1, l", mnemonic_tail: "", cycles: (8, 0), pre_len: 1, op_len: 1, arg_len: 0, group: InsnGroup::Regular },
        0xCE => Opcode { mnemonic_fmt: "set 1, (hl)", mnemonic_tail: "", cycles: (15, 0), pre_len: 1, op_len: 1, arg_len: 0, group: InsnGroup::Regular },
        0xCF => Opcode { mnemonic_fmt: "set 1, a", mnemonic_tail: "", cycles: (8, 0), pre_len: 1, op_len: 1, arg_len: 0, group: InsnGroup::Regular },
        0xD0 => Opcode { mnemonic_fmt: "set 2, b", mnemonic_tail: "", cycles: (8, 0), pre_len: 1, op_len: 1, arg_len: 0, group: InsnGroup::Regular },
        0xD1 => Opcode { mnemonic_fmt: "set 2, c", mnemonic_tail: "", cycles: (8, 0), pre_len: 1, op_len: 1, arg_len: 0, group: InsnGroup::Regular },
        0xD2 => Opcode { mnemonic_fmt: "set 2, d", mnemonic_tail: "", cycles: (8, 0), pre_len: 1, op_len: 1, arg_len: 0, group: InsnGroup::Regular },
        0xD3 => Opcode { mnemonic_fmt: "set 2, e", mnemonic_tail: "", cycles: (8, 0), pre_len: 1, op_len: 1, arg_len: 0, group: InsnGroup::Regular },
        0xD4 => Opcode { mnemonic_fmt: "set 2, h", mnemonic_tail: "", cycles: (8, 0), pre_len: 1, op_len: 1, arg_len: 0, group: InsnGroup::Regular },
        0xD5 => Opcode { mnemonic_fmt: "set 2, l", mnemonic_tail: "", cycles: (8, 0), pre_len: 1, op_len: 1, arg_len: 0, group: InsnGroup::Regular },
        0xD6 => Opcode { mnemonic_fmt: "set 2, (hl)", mnemonic_tail: "", cycles: (15, 0), pre_len: 1, op_len: 1, arg_len: 0, group: InsnGroup::Regular },
        0xD7 => Opcode { mnemonic_fmt: "set 2, a", mnemonic_tail: "", cycles: (8, 0), pre_len: 1, op_len: 1, arg_len: 0, group: InsnGroup::Regular },
        0xD8 => Opcode { mnemonic_fmt: "set 3, b", mnemonic_tail: "", cycles: (8, 0), pre_len: 1, op_len: 1, arg_len: 0, group: InsnGroup::Regular },
        0xD9 => Opcode { mnemonic_fmt: "set 3, c", mnemonic_tail: "", cycles: (8, 0), pre_len: 1, op_len: 1, arg_len: 0, group: InsnGroup::Regular },
        0xDA => Opcode { mnemonic_fmt: "set 3, d", mnemonic_tail: "", cycles: (8, 0), pre_len: 1, op_len: 1, arg_len: 0, group: InsnGroup::Regular },
        0xDB => Opcode { mnemonic_fmt: "set 3, e", mnemonic_tail: "", cycles: (8, 0), pre_len: 1, op_len: 1, arg_len: 0, group: InsnGroup::Regular },
        0xDC => Opcode { mnemonic_fmt: "set 3, h", mnemonic_tail: "", cycles: (8, 0), pre_len: 1, op_len: 1, arg_len: 0, group: InsnGroup::Regular },
        0xDD => Opcode { mnemonic_fmt: "set 3, l", mnemonic_tail: "", cycles: (8, 0), pre_len: 1, op_len: 1, arg_len: 0, group: InsnGroup::Regular },
        0xDE => Opcode { mnemonic_fmt: "set 3, (hl)", mnemonic_tail: "", cycles: (15, 0), pre_len: 1, op_len: 1, arg_len: 0, group: InsnGroup::Regular },
        0xDF => Opcode { mnemonic_fmt: "set 3, a", mnemonic_tail: "", cycles: (8, 0), pre_len: 1, op_len: 1, arg_len: 0, group: InsnGroup::Regular },
        0xE0 => Opcode { mnemonic_fmt: "set 4, b", mnemonic_tail: "", cycles: (8, 0), pre_len: 1, op_len: 1, arg_len: 0, group: InsnGroup::Regular },
        0xE1 => Opcode { mnemonic_fmt: "set 4, c", mnemonic_tail: "", cycles: (8, 0), pre_len: 1, op_len: 1, arg_len: 0, group: InsnGroup::Regular },
        0xE2 => Opcode { mnemonic_fmt: "set 4, d", mnemonic_tail: "", cycles: (8, 0), pre_len: 1, op_len: 1, arg_len: 0, group: InsnGroup::Regular },
        0xE3 => Opcode { mnemonic_fmt: "set 4, e", mnemonic_tail: "", cycles: (8, 0), pre_len: 1, op_len: 1, arg_len: 0, group: InsnGroup::Regular },
        0xE4 => Opcode { mnemonic_fmt: "set 4, h", mnemonic_tail: "", cycles: (8, 0), pre_len: 1, op_len: 1, arg_len: 0, group: InsnGroup::Regular },
        0xE5 => Opcode { mnemonic_fmt: "set 4, l", mnemonic_tail: "", cycles: (8, 0), pre_len: 1, op_len: 1, arg_len: 0, group: InsnGroup::Regular },
        0xE6 => Opcode { mnemonic_fmt: "set 4, (hl)", mnemonic_tail: "", cycles: (15, 0), pre_len: 1, op_len: 1, arg_len: 0, group: InsnGroup::Regular },
        0xE7 => Opcode { mnemonic_fmt: "set 4, a", mnemonic_tail: "", cycles: (8, 0), pre_len: 1, op_len: 1, arg_len: 0, group: InsnGroup::Regular },
        0xE8 => Opcode { mnemonic_fmt: "set 5, b", mnemonic_tail: "", cycles: (8, 0), pre_len: 1, op_len: 1, arg_len: 0, group: InsnGroup::Regular },
        0xE9 => Opcode { mnemonic_fmt: "set 5, c", mnemonic_tail: "", cycles: (8, 0), pre_len: 1, op_len: 1, arg_len: 0, group: InsnGroup::Regular },
        0xEA => Opcode { mnemonic_fmt: "set 5, d", mnemonic_tail: "", cycles: (8, 0), pre_len: 1, op_len: 1, arg_len: 0, group: InsnGroup::Regular },
        0xEB => Opcode { mnemonic_fmt: "set 5, e", mnemonic_tail: "", cycles: (8, 0), pre_len: 1, op_len: 1, arg_len: 0, group: InsnGroup::Regular },
        0xEC => Opcode { mnemonic_fmt: "set 5, h", mnemonic_tail: "", cycles: (8, 0), pre_len: 1, op_len: 1, arg_len: 0, group: InsnGroup::Regular },
        0xED => Opcode { mnemonic_fmt: "set 5, l", mnemonic_tail: "", cycles: (8, 0), pre_len: 1, op_len: 1, arg_len: 0, group: InsnGroup::Regular },
        0xEE => Opcode { mnemonic_fmt: "set 5, (hl)", mnemonic_tail: "", cycles: (15, 0), pre_len: 1, op_len: 1, arg_len: 0, group: InsnGroup::Regular },
        0xEF => Opcode { mnemonic_fmt: "set 5, a", mnemonic_tail: "", cycles: (8, 0), pre_len: 1, op_len: 1, arg_len: 0, group: InsnGroup::Regular },
        0xF0 => Opcode { mnemonic_fmt: "set 6, b", mnemonic_tail: "", cycles: (8, 0), pre_len: 1, op_len: 1, arg_len: 0, group: InsnGroup::Regular },
        0xF1 => Opcode { mnemonic_fmt: "set 6, c", mnemonic_tail: "", cycles: (8, 0), pre_len: 1, op_len: 1, arg_len: 0, group: InsnGroup::Regular },
        0xF2 => Opcode { mnemonic_fmt: "set 6, d", mnemonic_tail: "", cycles: (8, 0), pre_len: 1, op_len: 1, arg_len: 0, group: InsnGroup::Regular },
        0xF3 => Opcode { mnemonic_fmt: "set 6, e", mnemonic_tail: "", cycles: (8, 0), pre_len: 1, op_len: 1, arg_len: 0, group: InsnGroup::Regular },
        0xF4 => Opcode { mnemonic_fmt: "set 6, h", mnemonic_tail: "", cycles: (8, 0), pre_len: 1, op_len: 1, arg_len: 0, group: InsnGroup::Regular },
        0xF5 => Opcode { mnemonic_fmt: "set 6, l", mnemonic_tail: "", cycles: (8, 0), pre_len: 1, op_len: 1, arg_len: 0, group: InsnGroup::Regular },
        0xF6 => Opcode { mnemonic_fmt: "set 6, (hl)", mnemonic_tail: "", cycles: (15, 0), pre_len: 1, op_len: 1, arg_len: 0, group: InsnGroup::Regular },
        0xF7 => Opcode { mnemonic_fmt: "set 6, a", mnemonic_tail: "", cycles: (8, 0), pre_len: 1, op_len: 1, arg_len: 0, group: InsnGroup::Regular },
        0xF8 => Opcode { mnemonic_fmt: "set 7, b", mnemonic_tail: "", cycles: (8, 0), pre_len: 1, op_len: 1, arg_len: 0, group: InsnGroup::Regular },
        0xF9 => Opcode { mnemonic_fmt: "set 7, c", mnemonic_tail: "", cycles: (8, 0), pre_len: 1, op_len: 1, arg_len: 0, group: InsnGroup::Regular },
        0xFA => Opcode { mnemonic_fmt: "set 7, d", mnemonic_tail: "", cycles: (8, 0), pre_len: 1, op_len: 1, arg_len: 0, group: InsnGroup::Regular },
        0xFB => Opcode { mnemonic_fmt: "set 7, e", mnemonic_tail: "", cycles: (8, 0), pre_len: 1, op_len: 1, arg_len: 0, group: InsnGroup::Regular },
        0xFC => Opcode { mnemonic_fmt: "set 7, h", mnemonic_tail: "", cycles: (8, 0), pre_len: 1, op_len: 1, arg_len: 0, group: InsnGroup::Regular },
        0xFD => Opcode { mnemonic_fmt: "set 7, l", mnemonic_tail: "", cycles: (8, 0), pre_len: 1, op_len: 1, arg_len: 0, group: InsnGroup::Regular },
        0xFE => Opcode { mnemonic_fmt: "set 7, (hl)", mnemonic_tail: "", cycles: (15, 0), pre_len: 1, op_len: 1, arg_len: 0, group: InsnGroup::Regular },
        _ => Opcode { mnemonic_fmt: "set 7, a", mnemonic_tail: "", cycles: (8, 0), pre_len: 1, op_len: 1, arg_len: 0, group: InsnGroup::Regular },
    }
}

/// The table of opcodes after the `0xDD` prefix (IX forms), indexed by opcode byte.
pub open spec fn spec_dd(b: u8) -> Opcode {
    match b {
        0x00 => Opcode { mnemonic_fmt: "invalid", mnemonic_tail: "", cycles: (4, 0), pre_len: 0, op_len: 1, arg_len: 0, group: InsnGroup::Invalid },
        0x01 => Opcode { mnemonic_fmt: "invalid", mnemonic_tail: "", cycles: (4, 0), pre_len: 0, op_len: 1, arg_len: 0, group: InsnGroup::Invalid },
        0x02 => Opcode { mnemonic_fmt: "invalid", mnemonic_tail: "", cycles: (4, 0), pre_len: 0, op_len: 1, arg_len: 0, group: InsnGroup::Invalid },
        0x03 => Opcode { mnemonic_fmt: "invalid", mnemonic_tail: "", cycles: (4, 0), pre_len: 0, op_len: 1, arg_len: 0, group: InsnGroup::Invalid },
        0x04 => Opcode { mnemonic_fmt: "invalid", mnemonic_tail: "", cycles: (4, 0), pre_len: 0, op_len: 1, arg_len: 0, group: InsnGroup::Invalid },
        0x05 => Opcode { mnemonic_fmt: "invalid", mnemonic_tail: "", cycles: (4, 0), pre_len: 0, op_len: 1, arg_len: 0, group: InsnGroup::Invalid },
        0x06 => Opcode { mnemonic_fmt: "invalid", mnemonic_tail: "", cycles: (4, 0), pre_len: 0, op_len: 1, arg_len: 0, group: InsnGroup::Invalid },
        0x07 => Opcode { mnemonic_fmt: "invalid", mnemonic_tail: "", cycles: (4, 0), pre_len: 0, op_len: 1, arg_len: 0, group: InsnGroup::Invalid },
        0x08 => Opcode { mnemonic_fmt: "invalid", mnemonic_tail: "", cycles: (4, 0), pre_len: 0, op_len: 1, arg_len: 0, group: InsnGroup::Invalid },
        0x09 => Opcode { mnemonic_fmt: "add ix, bc", mnemonic_tail: "", cycles: (15, 0), pre_len: 1, op_len: 1, arg_len: 0, group: InsnGroup::Regular },
        0x0A => Opcode { mnemonic_fmt: "invalid", mnemonic_tail: "", cycles: (4, 0), pre_len: 0, op_len: 1, arg_len: 0, group: InsnGroup::Invalid },
        0x0B => Opcode { mnemonic_fmt: "invalid", mnemonic_tail: "", cycles: (4, 0), pre_len: 0, op_len: 1, arg_len: 0, group: InsnGroup::Invalid },
        0x0C => Opcode { mnemonic_fmt: "invalid", mnemonic_tail: "", cycles: (4, 0), pre_len: 0, op_len: 1, arg_len: 0, group: InsnGroup::Invalid },
        0x0D => Opcode { mnemonic_fmt: "invalid", mnemonic_tail: "", cycles: (4, 0), pre_len: 0, op_len: 1, arg_len: 0, group: InsnGroup::Invalid },
        0x0E => Opcode { mnemonic_fmt: "invalid", mnemonic_tail: "", cycles: (4, 0), pre_len: 0, op_len: 1, arg_len: 0, group: InsnGroup::Invalid },
        0x0F => Opcode { mnemonic_fmt: "invalid", mnemonic_tail: "", cycles: (4, 0), pre_len: 0, op_len: 1, arg_len: 0, group: InsnGroup::Invalid },
        0x10 => Opcode { mnemonic_fmt: "invalid", mnemonic_tail: "", cycles: (4, 0), pre_len: 0, op_len: 1, arg_len: 0, group: InsnGroup::Invalid },
        0x11 => Opcode { mnemonic_fmt: "invalid", mnemonic_tail: "", cycles: (4, 0), pre_len: 0, op_len: 1, arg_len: 0, group: InsnGroup::Invalid },
        0x12 => Opcode { mnemonic_fmt: "invalid", mnemonic_tail: "", cycles: (4, 0), pre_len: 0, op_len: 1, arg_len: 0, group: InsnGroup::Invalid },
        0x13 => Opcode { mnemonic_fmt: "invalid", mnemonic_tail: "", cycles: (4, 0), pre_len: 0, op_len: 1, arg_len: 0, group: InsnGroup::Invalid },
        0x14 => Opcode { mnemonic_fmt: "invalid", mnemonic_tail: "", cycles: (4, 0), pre_len: 0, op_len: 1, arg_len: 0, group: InsnGroup::Invalid },
        0x15 => Opcode { mnemonic_fmt: "invalid", mnemonic_tail: "", cycles: (4, 0), pre_len: 0, op_len: 1, arg_len: 0, group: InsnGroup::Invalid },
        0x16 => Opcode { mnemonic_fmt: "invalid", mnemonic_tail: "", cycles: (4, 0), pre_len: 0, op_len: 1, arg_len: 0, group: InsnGroup::Invalid },
        0x17 => Opcode { mnemonic_fmt: "invalid", mnemonic_tail: "", cycles: (4, 0), pre_len: 0, op_len: 1, arg_len: 0, group: InsnGroup::Invalid },
        0x18 => Opcode { mnemonic_fmt: "invalid", mnemonic_tail: "", cycles: (4, 0), pre_len: 0, op_len: 1, arg_len: 0, group: InsnGroup::Invalid },
        0x19 => Opcode { mnemonic_fmt: "add ix, de", mnemonic_tail: "", cycles: (15, 0), pre_len: 1, op_len: 1, arg_len: 0, group: InsnGroup::Regular },
        0x1A => Opcode { mnemonic_fmt: "invalid", mnemonic_tail: "", cycles: (4, 0), pre_len: 0, op_len: 1, arg_len: 0, group: InsnGroup::Invalid },
        0x1B => Opcode { mnemonic_fmt: "invalid", mnemonic_tail: "", cycles: (4, 0), pre_len: 0, op_len: 1, arg_len: 0, group: InsnGroup::Invalid },
        0x1C => Opcode { mnemonic_fmt: "invalid", mnemonic_tail: "", cycles: (4, 0), pre_len: 0, op_len: 1, arg_len: 0, group: InsnGroup::Invalid },
        0x1D => Opcode { mnemonic_fmt: "invalid", mnemonic_tail: "", cycles: (4, 0), pre_len: 0, op_len: 1, arg_len: 0, group: InsnGroup::Invalid },
        0x1E => Opcode { mnemonic_fmt: "invalid", mnemonic_tail: "", cycles: (4, 0), pre_len: 0, op_len: 1, arg_len: 0, group: InsnGroup::Invalid },
        0x1F => Opcode { mnemonic_fmt: "invalid", mnemonic_tail: "", cycles: (4, 0), pre_len: 0, op_len: 1, arg_len: 0, group: InsnGroup::Invalid },
        0x20 => Opcode { mnemonic_fmt: "invalid", mnemonic_tail: "", cycles: (4, 0), pre_len: 0, op_len: 1, arg_len: 0, group: InsnGroup::Invalid },
        0x21 => Opcode { mnemonic_fmt: "ld ix, $", mnemonic_tail: "", cycles: (14, 0), pre_len: 1, op_len: 1, arg_len: 2, group: InsnGroup::Regular },
        0x22 => Opcode { mnemonic_fmt: "ld ($", mnemonic_tail: "), ix", cycles: (20, 0), pre_len: 1, op_len: 1, arg_len: 2, group: InsnGroup::Regular },
        0x23 => Opcode { mnemonic_fmt: "inc ix", mnemonic_tail: "", cycles: (10, 0), pre_len: 1, op_len: 1, arg_len: 0, group: InsnGroup::Regular },
        0x24 => Opcode { mnemonic_fmt: "invalid", mnemonic_tail: "", cycles: (4, 0), pre_len: 0, op_len: 1, arg_len: 0, group: InsnGroup::Invalid },
        0x25 => Opcode { mnemonic_fmt: "invalid", mnemonic_tail: "", cycles: (4, 0), pre_len: 0, op_len: 1, arg_len: 0, group: InsnGroup::Invalid },
        0x26 => Opcode { mnemonic_fmt: "invalid", mnemonic_tail: "", cycles: (4, 0), pre_len: 0, op_len: 1, arg_len: 0, group: InsnGroup::Invalid },
        0x27 => Opcode { mnemonic_fmt: "invalid", mnemonic_tail: "", cycles: (4, 0), pre_len: 0, op_len: 1, arg_len: 0, group: InsnGroup::Invalid },
        0x28 => Opcode { mnemonic_fmt: "invalid", mnemonic_tail: "", cycles: (4, 0), pre_len: 0, op_len: 1, arg_len: 0, group: InsnGroup::Invalid },
        0x29 => Opcode { mnemonic_fmt: "add ix, ix", mnemonic_tail: "", cycles: (15, 0), pre_len: 1, op_len: 1, arg_len: 0, group: InsnGroup::Regular },
        0x2A => Opcode { mnemonic_fmt: "ld ix, ($", mnemonic_tail: ")", cycles: (20, 0), pre_len: 1, op_len: 1, arg_len: 2, group: InsnGroup::Regular },
        0x2B => Opcode { mnemonic_fmt: "dec ix", mnemonic_tail: "", cycles: (10, 0), pre_len: 1, op_len: 1, arg_len: 0, group: InsnGroup::Regular },
        0x2C => Opcode { mnemonic_fmt: "invalid", mnemonic_tail: "", cycles: (4, 0), pre_len: 0, op_len: 1, arg_len: 0, group: InsnGroup::Invalid },
        0x2D => Opcode { mnemonic_fmt: "invalid", mnemonic_tail: "", cycles: (4, 0), pre_len: 0, op_len: 1, arg_len: 0, group: InsnGroup::Invalid },
        0x2E => Opcode { mnemonic_fmt: "invalid", mnemonic_tail: "", cycles: (4, 0), pre_len: 0, op_len: 1, arg_len: 0, group: InsnGroup::Invalid },
        0x2F => Opcode { mnemonic_fmt: "invalid", mnemonic_tail: "", cycles: (4, 0), pre_len: 0, op_len: 1, arg_len: 0, group: InsnGroup::Invalid },
        0x30 => Opcode { mnemonic_fmt: "invalid", mnemonic_tail: "", cycles: (4, 0), pre_len: 0, op_len: 1, arg_len: 0, group: InsnGroup::Invalid },
        0x31 => Opcode { mnemonic_fmt: "invalid", mnemonic_tail: "", cycles: (4, 0), pre_len: 0, op_len: 1, arg_len: 0, group: InsnGroup::Invalid },
        0x32 => Opcode { mnemonic_fmt: "invalid", mnemonic_tail: "", cycles: (4, 0), pre_len: 0, op_len: 1, arg_len: 0, group: InsnGroup::Invalid },
        0x33 => Opcode { mnemonic_fmt: "invalid", mnemonic_tail: "", cycles: (4, 0), pre_len: 0, op_len: 1, arg_len: 0, group: InsnGroup::Invalid },
        0x34 => Opcode { mnemonic_fmt: "inc (ix+$", mnemonic_tail: ")", cycles: (23, 0), pre_len: 1, op_len: 1, arg_len: 1, group: InsnGroup::Regular },
        0x35 => Opcode { mnemonic_fmt: "dec (ix+$", mnemonic_tail: ")", cycles: (23, 0), pre_len: 1, op_len: 1, arg_len: 1, group: InsnGroup::Regular },
        0x36 => Opcode { mnemonic_fmt: "ld (ix+d), n ; n:d = $", mnemonic_tail: "", cycles: (19, 0), pre_len: 1, op_len: 1, arg_len: 2, group: InsnGroup::Regular },
        0x37 => Opcode { mnemonic_fmt: "invalid", mnemonic_tail: "", cycles: (4, 0), pre_len: 0, op_len: 1, arg_len: 0, group: InsnGroup::Invalid },
        0x38 => Opcode { mnemonic_fmt: "invalid", mnemonic_tail: "", cycles: (4, 0), pre_len: 0, op_len: 1, arg_len: 0, group: InsnGroup::Invalid },
        0x39 => Opcode { mnemonic_fmt: "add ix, sp", mnemonic_tail: "", cycles: (15, 0), pre_len: 1, op_len: 1, arg_len: 0, group: InsnGroup::Regular },
        0x3A => Opcode { mnemonic_fmt: "invalid", mnemonic_tail: "", cycles: (4, 0), pre_len: 0, op_len: 1, arg_len: 0, group: InsnGroup::Invalid },
        0x3B => Opcode { mnemonic_fmt: "invalid", mnemonic_tail: "", cycles: (4, 0), pre_len: 0, op_len: 1, arg_len: 0, group: InsnGroup::Invalid },
        0x3C => Opcode { mnemonic_fmt: "invalid", mnemonic_tail: "", cycles: (4, 0), pre_len: 0, op_len: 1, arg_len: 0, group: InsnGroup::Invalid },
        0x3D => Opcode { mnemonic_fmt: "invalid", mnemonic_tail: "", cycles: (4, 0), pre_len: 0, op_len: 1, arg_len: 0, group: InsnGroup::Invalid },
        0x3E => Opcode { mnemonic_fmt: "invalid", mnemonic_tail: "", cycles: (4, 0), pre_len: 0, op_len: 1, arg_len: 0, group: InsnGroup::Invalid },
        0x3F => Opcode { mnemonic_fmt: "invalid", mnemonic_tail: "", cycles: (4, 0), pre_len: 0, op_len: 1, arg_len: 0, group: InsnGroup::Invalid },
        0x40 => Opcode { mnemonic_fmt: "invalid", mnemonic_tail: "", cycles: (4, 0), pre_len: 0, op_len: 1, arg_len: 0, group: InsnGroup::Invalid },
        0x41 => Opcode { mnemonic_fmt: "invalid", mnemonic_tail: "", cycles: (4, 0), pre_len: 0, op_len: 1, arg_len: 0, group: InsnGroup::Invalid },
        0x42 => Opcode { mnemonic_fmt: "invalid", mnemonic_tail: "", cycles: (4, 0), pre_len: 0, op_len: 1, arg_len: 0, group: InsnGroup::Invalid },
        0x43 => Opcode { mnemonic_fmt: "invalid", mnemonic_tail: "", cycles: (4, 0), pre_len: 0, op_len: 1, arg_len: 0, group: InsnGroup::Invalid },
        0x44 => Opcode { mnemonic_fmt: "invalid", mnemonic_tail: "", cycles: (4, 0), pre_len: 0, op_len: 1, arg_len: 0, group: InsnGroup::Invalid },
        0x45 => Opcode { mnemonic_fmt: "invalid", mnemonic_tail: "", cycles: (4, 0), pre_len: 0, op_len: 1, arg_len: 0, group: InsnGroup::Invalid },
        0x46 => Opcode { mnemonic_fmt: "ld b, (ix+$", mnemonic_tail: ")", cycles: (19, 0), pre_len: 1, op_len: 1, arg_len: 1, group: InsnGroup::Regular },
        0x47 => Opcode { mnemonic_fmt: "invalid", mnemonic_tail: "", cycles: (4, 0), pre_len: 0, op_len: 1, arg_len: 0, group: InsnGroup::Invalid },
        0x48 => Opcode { mnemonic_fmt: "invalid", mnemonic_tail: "", cycles: (4, 0), pre_len: 0, op_len: 1, arg_len: 0, group: InsnGroup::Invalid },
        0x49 => Opcode { mnemonic_fmt: "invalid", mnemonic_tail: "", cycles: (4, 0), pre_len: 0, op_len: 1, arg_len: 0, group: InsnGroup::Invalid },
        0x4A => Opcode { mnemonic_fmt: "invalid", mnemonic_tail: "", cycles: (4, 0), pre_len: 0, op_len: 1, arg_len: 0, group: InsnGroup::Invalid },
        0x4B => Opcode { mnemonic_fmt: "invalid", mnemonic_tail: "", cycles: (4, 0), pre_len: 0, op_len: 1, arg_len: 0, group: InsnGroup::Invalid },
        0x4C => Opcode { mnemonic_fmt: "invalid", mnemonic_tail: "", cycles: (4, 0), pre_len: 0, op_len: 1, arg_len: 0, group: InsnGroup::Invalid },
        0x4D => Opcode { mnemonic_fmt: "invalid", mnemonic_tail: "", cycles: (4, 0), pre_len: 0, op_len: 1, arg_len: 0, group: InsnGroup::Invalid },
        0x4E => Opcode { mnemonic_fmt: "ld c, (ix+$", mnemonic_tail: ")", cycles: (19, 0), pre_len: 1, op_len: 1, arg_len: 1, group: InsnGroup::Regular },
        0x4F => Opcode { mnemonic_fmt: "invalid", mnemonic_tail: "", cycles: (4, 0), pre_len: 0, op_len: 1, arg_len: 0, group: InsnGroup::Invalid },
        0x50 => Opcode { mnemonic_fmt: "invalid", mnemonic_tail: "", cycles: (4, 0), pre_len: 0, op_len: 1, arg_len: 0, group: InsnGroup::Invalid },
        0x51 => Opcode { mnemonic_fmt: "invalid", mnemonic_tail: "", cycles: (4, 0), pre_len: 0, op_len: 1, arg_len: 0, group: InsnGroup::Invalid },
        0x52 => Opcode { mnemonic_fmt: "invalid", mnemonic_tail: "", cycles: (4, 0), pre_len: 0, op_len: 1, arg_len: 0, group: InsnGroup::Invalid },
        0x53 => Opcode { mnemonic_fmt: "invalid", mnemonic_tail: "", cycles: (4, 0), pre_len: 0, op_len: 1, arg_len: 0, group: InsnGroup::Invalid },
        0x54 => Opcode { mnemonic_fmt: "invalid", mnemonic_tail: "", cycles: (4, 0), pre_len: 0, op_len: 1, arg_len: 0, group: InsnGroup::Invalid },
        0x55 => Opcode { mnemonic_fmt: "invalid", mnemonic_tail: "", cycles: (4, 0), pre_len: 0, op_len: 1, arg_len: 0, group: InsnGroup::Invalid },
        0x56 => Opcode { mnemonic_fmt: "ld d, (ix+$", mnemonic_tail: ")", cycles: (19, 0), pre_len: 1, op_len: 1, arg_len: 1, group: InsnGroup::Regular },
        0x57 => Opcode { mnemonic_fmt: "invalid", mnemonic_tail: "", cycles: (4, 0), pre_len: 0, op_len: 1, arg_len: 0, group: InsnGroup::Invalid },
        0x58 => Opcode { mnemonic_fmt: "invalid", mnemonic_tail: "", cycles: (4, 0), pre_len: 0, op_len: 1, arg_len: 0, group: InsnGroup::Invalid },
        0x59 => Opcode { mnemonic_fmt: "invalid", mnemonic_tail: "", cycles: (4, 0), pre_len: 0, op_len: 1, arg_len: 0, group: InsnGroup::Invalid },
        0x5A => Opcode { mnemonic_fmt: "invalid", mnemonic_tail: "", cycles: (4, 0), pre_len: 0, op_len: 1, arg_len: 0, group: InsnGroup::Invalid },
        0x5B => Opcode { mnemonic_fmt: "invalid", mnemonic_tail: "", cycles: (4, 0), pre_len: 0, op_len: 1, arg_len: 0, group: InsnGroup::Invalid },
        0x5C => Opcode { mnemonic_fmt: "invalid", mnemonic_tail: "", cycles: (4, 0), pre_len: 0, op_len: 1, arg_len: 0, group: InsnGroup::Invalid },
        0x5D => Opcode { mnemonic_fmt: "invalid", mnemonic_tail: "", cycles: (4, 0), pre_len: 0, op_len: 1, arg_len: 0, group: InsnGroup::Invalid },
        0x5E => Opcode { mnemonic_fmt: "ld e, (ix+$", mnemonic_tail: ")", cycles: (19, 0), pre_len: 1, op_len: 1, arg_len: 1, group: InsnGroup::Regular },
        0x5F => Opcode { mnemonic_fmt: "invalid", mnemonic_tail: "", cycles: (4, 0), pre_len: 0, op_len: 1, arg_len: 0, group: InsnGroup::Invalid },
        0x60 => Opcode { mnemonic_fmt: "invalid", mnemonic_tail: "", cycles: (4, 0), pre_len: 0, op_len: 1, arg_len: 0, group: InsnGroup::Invalid },
        0x61 => Opcode { mnemonic_fmt: "invalid", mnemonic_tail: "", cycles: (4, 0), pre_len: 0, op_len: 1, arg_len: 0, group: InsnGroup::Invalid },
        0x62 => Opcode { mnemonic_fmt: "invalid", mnemonic_tail: "", cycles: (4, 0), pre_len: 0, op_len: 1, arg_len: 0, group: InsnGroup::Invalid },
        0x63 => Opcode { mnemonic_fmt: "invalid", mnemonic_tail: "", cycles: (4, 0), pre_len: 0, op_len: 1, arg_len: 0, group: InsnGroup::Invalid },
        0x64 => Opcode { mnemonic_fmt: "invalid", mnemonic_tail: "", cycles: (4, 0), pre_len: 0, op_len: 1, arg_len: 0, group: InsnGroup::Invalid },
        0x65 => Opcode { mnemonic_fmt: "invalid", mnemonic_tail: "", cycles: (4, 0), pre_len: 0, op_len: 1, arg_len: 0, group: InsnGroup::Invalid },
        0x66 => Opcode { mnemonic_fmt: "ld h, (ix+$", mnemonic_tail: ")", cycles: (19, 0), pre_len: 1, op_len: 1, arg_len: 1, group: InsnGroup::Regular },
        0x67 => Opcode { mnemonic_fmt: "invalid", mnemonic_tail: "", cycles: (4, 0), pre_len: 0, op_len: 1, arg_len: 0, group: InsnGroup::Invalid },
        0x68 => Opcode { mnemonic_fmt: "invalid", mnemonic_tail: "", cycles: (4, 0), pre_len: 0, op_len: 1, arg_len: 0, group: InsnGroup::Invalid },
        0x69 => Opcode { mnemonic_fmt: "invalid", mnemonic_tail: "", cycles: (4, 0), pre_len: 0, op_len: 1, arg_len: 0, group: InsnGroup::Invalid },
        0x6A => Opcode { mnemonic_fmt: "invalid", mnemonic_tail: "", cycles: (4, 0), pre_len: 0, op_len: 1, arg_len: 0, group: InsnGroup::Invalid },
        0x6B => Opcode { mnemonic_fmt: "invalid", mnemonic_tail: "", cycles: (4, 0), pre_len: 0, op_len: 1, arg_len: 0, group: InsnGroup::Invalid },
        0x6C => Opcode { mnemonic_fmt: "invalid", mnemonic_tail: "", cycles: (4, 0), pre_len: 0, op_len: 1, arg_len: 0, group: InsnGroup::Invalid },
        0x6D => Opcode { mnemonic_fmt: "invalid", mnemonic_tail: "", cycles: (4, 0), pre_len: 0, op_len: 1, arg_len: 0, group: InsnGroup::Invalid },
        0x6E => Opcode { mnemonic_fmt: "ld l, (ix+$", mnemonic_tail: ")", cycles: (19, 0), pre_len: 1, op_len: 1, arg_len: 1, group: InsnGroup::Regular },
        0x6F => Opcode { mnemonic_fmt: "invalid", mnemonic_tail: "", cycles: (4, 0), pre_len: 0, op_len: 1, arg_len: 0, group: InsnGroup::Invalid },
        0x70 => Opcode { mnemonic_fmt: "ld (ix+$", mnemonic_tail: "), b", cycles: (19, 0), pre_len: 1, op_len: 1, arg_len: 1, group: InsnGroup::Regular },
        0x71 => Opcode { mnemonic_fmt: "ld (ix+$", mnemonic_tail: "), c", cycles: (19, 0), pre_len: 1, op_len: 1, arg_len: 1, group: InsnGroup::Regular },
        0x72 => Opcode { mnemonic_fmt: "ld (ix+$", mnemonic_tail: "), d", cycles: (19, 0), pre_len: 1, op_len: 1, arg_len: 1, group: InsnGroup::Regular },
        0x73 => Opcode { mnemonic_fmt: "ld (ix+$", mnemonic_tail: "), e", cycles: (19, 0), pre_len: 1, op_len: 1, arg_len: 1, group: InsnGroup::Regular },
        0x74 => Opcode { mnemonic_fmt: "ld (ix+$", mnemonic_tail: "), h", cycles: (19, 0), pre_len: 1, op_len: 1, arg_len: 1, group: InsnGroup::Regular },
        0x75 => Opcode { mnemonic_fmt: "ld (ix+$", mnemonic_tail: "), l", cycles: (19, 0), pre_len: 1, op_len: 1, arg_len: 1, group: InsnGroup::Regular },
        0x76 => Opcode { mnemonic_fmt: "invalid", mnemonic_tail: "", cycles: (4, 0), pre_len: 0, op_len: 1, arg_len: 0, group: InsnGroup::Invalid },
        0x77 => Opcode { mnemonic_fmt: "ld (ix+$", mnemonic_tail: "), a", cycles: (19, 0), pre_len: 1, op_len: 1, arg_len: 1, group: InsnGroup::Regular },
        0x78 => Opcode { mnemonic_fmt: "invalid", mnemonic_tail: "", cycles: (4, 0), pre_len: 0, op_len: 1, arg_len: 0, group: InsnGroup::Invalid },
        0x79 => Opcode { mnemonic_fmt: "invalid", mnemonic_tail: "", cycles: (4, 0), pre_len: 0, op_len: 1, arg_len: 0, group: InsnGroup::Invalid },
        0x7A => Opcode { mnemonic_fmt: "invalid", mnemonic_tail: "", cycles: (4, 0), pre_len: 0, op_len: 1, arg_len: 0, group: InsnGroup::Invalid },
        0x7B => Opcode { mnemonic_fmt: "invalid", mnemonic_tail: "", cycles: (4, 0), pre_len: 0, op_len: 1, arg_len: 0, group: InsnGroup::Invalid },
        0x7C => Opcode { mnemonic_fmt: "invalid", mnemonic_tail: "", cycles: (4, 0), pre_len: 0, op_len: 1, arg_len: 0, group: InsnGroup::Invalid },
        0x7D => Opcode { mnemonic_fmt: "invalid", mnemonic_tail: "", cycles: (4, 0), pre_len: 0, op_len: 1, arg_len: 0, group: InsnGroup::Invalid },
        0x7E => Opcode { mnemonic_fmt: "ld a, (ix+$", mnemonic_tail: ")", cycles: (19, 0), pre_len: 1, op_len: 1, arg_len: 1, group: InsnGroup::Regular },
        0x7F => Opcode { mnemonic_fmt: "invalid", mnemonic_tail: "", cycles: (4, 0), pre_len: 0, op_len: 1, arg_len: 0, group: InsnGroup::Invalid },
        0x80 => Opcode { mnemonic_fmt: "invalid", mnemonic_tail: "", cycles: (4, 0), pre_len: 0, op_len: 1, arg_len: 0, group: InsnGroup::Invalid },
        0x81 => Opcode { mnemonic_fmt: "invalid", mnemonic_tail: "", cycles: (4, 0), pre_len: 0, op_len: 1, arg_len: 0, group: InsnGroup::Invalid },
        0x82 => Opcode { mnemonic_fmt: "invalid", mnemonic_tail: "", cycles: (4, 0), pre_len: 0, op_len: 1, arg_len: 0, group: InsnGroup::Invalid },
        0x83 => Opcode { mnemonic_fmt: "invalid", mnemonic_tail: "", cycles: (4, 0), pre_len: 0, op_len: 1, arg_len: 0, group: InsnGroup::Invalid },
        0x84 => Opcode { mnemonic_fmt: "invalid", mnemonic_tail: "", cycles: (4, 0), pre_len: 0, op_len: 1, arg_len: 0, group: InsnGroup::Invalid },
        0x85 => Opcode { mnemonic_fmt: "invalid", mnemonic_tail: "", cycles: (4, 0), pre_len: 0, op_len: 1, arg_len: 0, group: InsnGroup::Invalid },
        0x86 => Opcode { mnemonic_fmt: "add a, (ix+$", mnemonic_tail: ")", cycles: (19, 0), pre_len: 1, op_len: 1, arg_len: 1, group: InsnGroup::Regular },
        0x87 => Opcode { mnemonic_fmt: "invalid", mnemonic_tail: "", cycles: (4, 0), pre_len: 0, op_len: 1, arg_len: 0, group: InsnGroup::Invalid },
        0x88 => Opcode { mnemonic_fmt: "invalid", mnemonic_tail: "", cycles: (4, 0), pre_len: 0, op_len: 1, arg_len: 0, group: InsnGroup::Invalid },
        0x89 => Opcode { mnemonic_fmt: "invalid", mnemonic_tail: "", cycles: (4, 0), pre_len: 0, op_len: 1, arg_len: 0, group: InsnGroup::Invalid },
        0x8A => Opcode { mnemonic_fmt: "invalid", mnemonic_tail: "", cycles: (4, 0), pre_len: 0, op_len: 1, arg_len: 0, group: InsnGroup::Invalid },
        0x8B => Opcode { mnemonic_fmt: "invalid", mnemonic_tail: "", cycles: (4, 0), pre_len: 0, op_len: 1, arg_len: 0, group: InsnGroup::Invalid },
        0x8C => Opcode { mnemonic_fmt: "invalid", mnemonic_tail: "", cycles: (4, 0), pre_len: 0, op_len: 1, arg_len: 0, group: InsnGroup::Invalid },
        0x8D => Opcode { mnemonic_fmt: "invalid", mnemonic_tail: "", cycles: (4, 0), pre_len: 0, op_len: 1, arg_len: 0, group: InsnGroup::Invalid },
        0x8E => Opcode { mnemonic_fmt: "adc a, (ix+$", mnemonic_tail: ")", cycles: (19, 0), pre_len: 1, op_len: 1, arg_len: 1, group: InsnGroup::Regular },
        0x8F => Opcode { mnemonic_fmt: "invalid", mnemonic_tail: "", cycles: (4, 0), pre_len: 0, op_len: 1, arg_len: 0, group: InsnGroup::Invalid },
        0x90 => Opcode { mnemonic_fmt: "invalid", mnemonic_tail: "", cycles: (4, 0), pre_len: 0, op_len: 1, arg_len: 0, group: InsnGroup::Invalid },
        0x91 => Opcode { mnemonic_fmt: "invalid", mnemonic_tail: "", cycles: (4, 0), pre_len: 0, op_len: 1, arg_len: 0, group: InsnGroup::Invalid },
        0x92 => Opcode { mnemonic_fmt: "invalid", mnemonic_tail: "", cycles: (4, 0), pre_len: 0, op_len: 1, arg_len: 0, group: InsnGroup::Invalid },
        0x93 => Opcode { mnemonic_fmt: "invalid", mnemonic_tail: "", cycles: (4, 0), pre_len: 0, op_len: 1, arg_len: 0, group: InsnGroup::Invalid },
        0x94 => Opcode { mnemonic_fmt: "invalid", mnemonic_tail: "", cycles: (4, 0), pre_len: 0, op_len: 1, arg_len: 0, group: InsnGroup::Invalid },
        0x95 => Opcode { mnemonic_fmt: "invalid", mnemonic_tail: "", cycles: (4, 0), pre_len: 0, op_len: 1, arg_len: 0, group: InsnGroup::Invalid },
        0x96 => Opcode { mnemonic_fmt: "sub (ix+$", mnemonic_tail: ")", cycles: (19, 0), pre_len: 1, op_len: 1, arg_len: 1, group: InsnGroup::Regular },
        0x97 => Opcode { mnemonic_fmt: "invalid", mnemonic_tail: "", cycles: (4, 0), pre_len: 0, op_len: 1, arg_len: 0, group: InsnGroup::Invalid },
        0x98 => Opcode { mnemonic_fmt: "invalid", mnemonic_tail: "", cycles: (4, 0), pre_len: 0, op_len: 1, arg_len: 0, group: InsnGroup::Invalid },
        0x99 => Opcode { mnemonic_fmt: "invalid", mnemonic_tail: "", cycles: (4, 0), pre_len: 0, op_len: 1, arg_len: 0, group: InsnGroup::Invalid },
        0x9A => Opcode { mnemonic_fmt: "invalid", mnemonic_tail: "", cycles: (4, 0), pre_len: 0, op_len: 1, arg_len: 0, group: InsnGroup::Invalid },
        0x9B => Opcode { mnemonic_fmt: "invalid", mnemonic_tail: "", cycles: (4, 0), pre_len: 0, op_len: 1, arg_len: 0, group: InsnGroup::Invalid },
        0x9C => Opcode { mnemonic_fmt: "invalid", mnemonic_tail: "", cycles: (4, 0), pre_len: 0, op_len: 1, arg_len: 0, group: InsnGroup::Invalid },
        0x9D => Opcode { mnemonic_fmt: "invalid", mnemonic_tail: "", cycles: (4, 0), pre_len: 0, op_len: 1, arg_len: 0, group: InsnGroup::Invalid },
        0x9E => Opcode { mnemonic_fmt: "sbc a, (ix+$", mnemonic_tail: ")", cycles: (19, 0), pre_len: 1, op_len: 1, arg_len: 1, group: InsnGroup::Regular },
        0x9F => Opcode { mnemonic_fmt: "invalid", mnemonic_tail: "", cycles: (4, 0), pre_len: 0, op_len: 1, arg_len: 0, group: InsnGroup::Invalid },
        0xA0 => Opcode { mnemonic_fmt: "invalid", mnemonic_tail: "", cycles: (4, 0), pre_len: 0, op_len: 1, arg_len: 0, group: InsnGroup::Invalid },
        0xA1 => Opcode { mnemonic_fmt: "invalid", mnemonic_tail: "", cycles: (4, 0), pre_len: 0, op_len: 1, arg_len: 0, group: InsnGroup::Invalid },
        0xA2 => Opcode { mnemonic_fmt: "invalid", mnemonic_tail: "", cycles: (4, 0), pre_len: 0, op_len: 1, arg_len: 0, group: InsnGroup::Invalid },
        0xA3 => Opcode { mnemonic_fmt: "invalid", mnemonic_tail: "", cycles: (4, 0), pre_len: 0, op_len: 1, arg_len: 0, group: InsnGroup::Invalid },
        0xA4 => Opcode { mnemonic_fmt: "invalid", mnemonic_tail: "", cycles: (4, 0), pre_len: 0, op_len: 1, arg_len: 0, group: InsnGroup::Invalid },
        0xA5 => Opcode { mnemonic_fmt: "invalid", mnemonic_tail: "", cycles: (4, 0), pre_len: 0, op_len: 1, arg_len: 0, group: InsnGroup::Invalid },
        0xA6 => Opcode { mnemonic_fmt: "and (ix+$", mnemonic_tail: ")", cycles: (19, 0), pre_len: 1, op_len: 1, arg_len: 1, group: InsnGroup::Regular },
        0xA7 => Opcode { mnemonic_fmt: "invalid", mnemonic_tail: "", cycles: (4, 0), pre_len: 0, op_len: 1, arg_len: 0, group: InsnGroup::Invalid },
        0xA8 => Opcode { mnemonic_fmt: "invalid", mnemonic_tail: "", cycles: (4, 0), pre_len: 0, op_len: 1, arg_len: 0, group: InsnGroup::Invalid },
        0xA9 => Opcode { mnemonic_fmt: "invalid", mnemonic_tail: "", cycles: (4, 0), pre_len: 0, op_len: 1, arg_len: 0, group: InsnGroup::Invalid },
        0xAA => Opcode { mnemonic_fmt: "invalid", mnemonic_tail: "", cycles: (4, 0), pre_len: 0, op_len: 1, arg_len: 0, group: InsnGroup::Invalid },
        0xAB => Opcode { mnemonic_fmt: "invalid", mnemonic_tail: "", cycles: (4, 0), pre_len: 0, op_len: 1, arg_len: 0, group: InsnGroup::Invalid },
        0xAC => Opcode { mnemonic_fmt: "invalid", mnemonic_tail: "", cycles: (4, 0), pre_len: 0, op_len: 1, arg_len: 0, group: InsnGroup::Invalid },
        0xAD => Opcode { mnemonic_fmt: "invalid", mnemonic_tail: "", cycles: (4, 0), pre_len: 0, op_len: 1, arg_len: 0, group: InsnGroup::Invalid },
        0xAE => Opcode { mnemonic_fmt: "xor (ix+$", mnemonic_tail: ")", cycles: (19, 0), pre_len: 1, op_len: 1, arg_len: 1, group: InsnGroup::Regular },
        0xAF => Opcode { mnemonic_fmt: "invalid", mnemonic_tail: "", cycles: (4, 0), pre_len: 0, op_len: 1, arg_len: 0, group: InsnGroup::Invalid },
        0xB0 => Opcode { mnemonic_fmt: "invalid", mnemonic_tail: "", cycles: (4, 0), pre_len: 0, op_len: 1, arg_len: 0, group: InsnGroup::Invalid },
        0xB1 => Opcode { mnemonic_fmt: "invalid", mnemonic_tail: "", cycles: (4, 0), pre_len: 0, op_len: 1, arg_len: 0, group: InsnGroup::Invalid },
        0xB2 => Opcode { mnemonic_fmt: "invalid", mnemonic_tail: "", cycles: (4, 0), pre_len: 0, op_len: 1, arg_len: 0, group: InsnGroup::Invalid },
        0xB3 => Opcode { mnemonic_fmt: "invalid", mnemonic_tail: "", cycles: (4, 0), pre_len: 0, op_len: 1, arg_len: 0, group: InsnGroup::Invalid },
        0xB4 => Opcode { mnemonic_fmt: "invalid", mnemonic_tail: "", cycles: (4, 0), pre_len: 0, op_len: 1, arg_len: 0, group: InsnGroup::Invalid },
        0xB5 => Opcode { mnemonic_fmt: "invalid", mnemonic_tail: "", cycles: (4, 0), pre_len: 0, op_len: 1, arg_len: 0, group: InsnGroup::Invalid },
        0xB6 => Opcode { mnemonic_fmt: "or (ix+$", mnemonic_tail: ")", cycles: (19, 0), pre_len: 1, op_len: 1, arg_len: 1, group: InsnGroup::Regular },
        0xB7 => Opcode { mnemonic_fmt: "invalid", mnemonic_tail: "", cycles: (4, 0), pre_len: 0, op_len: 1, arg_len: 0, group: InsnGroup::Invalid },
        0xB8 => Opcode { mnemonic_fmt: "invalid", mnemonic_tail: "", cycles: (4, 0), pre_len: 0, op_len: 1, arg_len: 0, group: InsnGroup::Invalid },
        0xB9 => Opcode { mnemonic_fmt: "invalid", mnemonic_tail: "", cycles: (4, 0), pre_len: 0, op_len: 1, arg_len: 0, group: InsnGroup::Invalid },
        0xBA => Opcode { mnemonic_fmt: "invalid", mnemonic_tail: "", cycles: (4, 0), pre_len: 0, op_len: 1, arg_len: 0, group: InsnGroup::Invalid },
        0xBB => Opcode { mnemonic_fmt: "invalid", mnemonic_tail: "", cycles: (4, 0), pre_len: 0, op_len: 1, arg_len: 0, group: InsnGroup::Invalid },
        0xBC => Opcode { mnemonic_fmt: "invalid", mnemonic_tail: "", cycles: (4, 0), pre_len: 0, op_len: 1, arg_len: 0, group: InsnGroup::Invalid },
        0xBD => Opcode { mnemonic_fmt: "invalid", mnemonic_tail: "", cycles: (4, 0), pre_len: 0, op_len: 1, arg_len: 0, group: InsnGroup::Invalid },
        0xBE => Opcode { mnemonic_fmt: "cp (ix+$", mnemonic_tail: ")", cycles: (19, 0), pre_len: 1, op_len: 1, arg_len: 1, group: InsnGroup::Regular },
        0xBF => Opcode { mnemonic_fmt: "invalid", mnemonic_tail: "", cycles: (4, 0), pre_len: 0, op_len: 1, arg_len: 0, group: InsnGroup::Invalid },
        0xC0 => Opcode { mnemonic_fmt: "invalid", mnemonic_tail: "", cycles: (4, 0), pre_len: 0, op_len: 1, arg_len: 0, group: InsnGroup::Invalid },
        0xC1 => Opcode { mnemonic_fmt: "invalid", mnemonic_tail: "", cycles: (4, 0), pre_len: 0, op_len: 1, arg_len: 0, group: InsnGroup::Invalid },
        0xC2 => Opcode { mnemonic_fmt: "invalid", mnemonic_tail: "", cycles: (4, 0), pre_len: 0, op_len: 1, arg_len: 0, group: InsnGroup::Invalid },
        0xC3 => Opcode { mnemonic_fmt: "invalid", mnemonic_tail: "", cycles: (4, 0), pre_len: 0, op_len: 1, arg_len: 0, group: InsnGroup::Invalid },
        0xC4 => Opcode { mnemonic_fmt: "invalid", mnemonic_tail: "", cycles: (4, 0), pre_len: 0, op_len: 1, arg_len: 0, group: InsnGroup::Invalid },
        0xC5 => Opcode { mnemonic_fmt: "invalid", mnemonic_tail: "", cycles: (4, 0), pre_len: 0, op_len: 1, arg_len: 0, group: InsnGroup::Invalid },
        0xC6 => Opcode { mnemonic_fmt: "invalid", mnemonic_tail: "", cycles: (4, 0), pre_len: 0, op_len: 1, arg_len: 0, group: InsnGroup::Invalid },
        0xC7 => Opcode { mnemonic_fmt: "invalid", mnemonic_tail: "", cycles: (4, 0), pre_len: 0, op_len: 1, arg_len: 0, group: InsnGroup::Invalid },
        0xC8 => Opcode { mnemonic_fmt: "invalid", mnemonic_tail: "", cycles: (4, 0), pre_len: 0, op_len: 1, arg_len: 0, group: InsnGroup::Invalid },
        0xC9 => Opcode { mnemonic_fmt: "invalid", mnemonic_tail: "", cycles: (4, 0), pre_len: 0, op_len: 1, arg_len: 0, group: InsnGroup::Invalid },
        0xCA => Opcode { mnemonic_fmt: "invalid", mnemonic_tail: "", cycles: (4, 0), pre_len: 0, op_len: 1, arg_len: 0, group: InsnGroup::Invalid },
        0xCB => Opcode { mnemonic_fmt: "invalid", mnemonic_tail: "", cycles: (4, 0), pre_len: 0, op_len: 1, arg_len: 0, group: InsnGroup::Invalid },
        0xCC => Opcode { mnemonic_fmt: "invalid", mnemonic_tail: "", cycles: (4, 0), pre_len: 0, op_len: 1, arg_len: 0, group: InsnGroup::Invalid },
        0xCD => Opcode { mnemonic_fmt: "invalid", mnemonic_tail: "", cycles: (4, 0), pre_len: 0, op_len: 1, arg_len: 0, group: InsnGroup::Invalid },
        0xCE => Opcode { mnemonic_fmt: "invalid", mnemonic_tail: "", cycles: (4, 0), pre_len: 0, op_len: 1, arg_len: 0, group: InsnGroup::Invalid },
        0xCF => Opcode { mnemonic_fmt: "invalid", mnemonic_tail: "", cycles: (4, 0), pre_len: 0, op_len: 1, arg_len: 0, group: InsnGroup::Invalid },
        0xD0 => Opcode { mnemonic_fmt: "invalid", mnemonic_tail: "", cycles: (4, 0), pre_len: 0, op_len: 1, arg_len: 0, group: InsnGroup::Invalid },
        0xD1 => Opcode { mnemonic_fmt: "invalid", mnemonic_tail: "", cycles: (4, 0), pre_len: 0, op_len: 1, arg_len: 0, group: InsnGroup::Invalid },
        0xD2 => Opcode { mnemonic_fmt: "invalid", mnemonic_tail: "", cycles: (4, 0), pre_len: 0, op_len: 1, arg_len: 0, group: InsnGroup::Invalid },
        0xD3 => Opcode { mnemonic_fmt: "invalid", mnemonic_tail: "", cycles: (4, 0), pre_len: 0, op_len: 1, arg_len: 0, group: InsnGroup::Invalid },
        0xD4 => Opcode { mnemonic_fmt: "invalid", mnemonic_tail: "", cycles: (4, 0), pre_len: 0, op_len: 1, arg_len: 0, group: InsnGroup::Invalid },
        0xD5 => Opcode { mnemonic_fmt: "invalid", mnemonic_tail: "", cycles: (4, 0), pre_len: 0, op_len: 1, arg_len: 0, group: InsnGroup::Invalid },
        0xD6 => Opcode { mnemonic_fmt: "invalid", mnemonic_tail: "", cycles: (4, 0), pre_len: 0, op_len: 1, arg_len: 0, group: InsnGroup::Invalid },
        0xD7 => Opcode { mnemonic_fmt: "invalid", mnemonic_tail: "", cycles: (4, 0), pre_len: 0, op_len: 1, arg_len: 0, group: InsnGroup::Invalid },
        0xD8 => Opcode { mnemonic_fmt: "invalid", mnemonic_tail: "", cycles: (4, 0), pre_len: 0, op_len: 1, arg_len: 0, group: InsnGroup::Invalid },
        0xD9 => Opcode { mnemonic_fmt: "invalid", mnemonic_tail: "", cycles: (4, 0), pre_len: 0, op_len: 1, arg_len: 0, group: InsnGroup::Invalid },
        0xDA => Opcode { mnemonic_fmt: "invalid", mnemonic_tail: "", cycles: (4, 0), pre_len: 0, op_len: 1, arg_len: 0, group: InsnGroup::Invalid },
        0xDB => Opcode { mnemonic_fmt: "invalid", mnemonic_tail: "", cycles: (4, 0), pre_len: 0, op_len: 1, arg_len: 0, group: InsnGroup::Invalid },
        0xDC => Opcode { mnemonic_fmt: "invalid", mnemonic_tail: "", cycles: (4, 0), pre_len: 0, op_len: 1, arg_len: 0, group: InsnGroup::Invalid },
        0xDD => Opcode { mnemonic_fmt: "invalid", mnemonic_tail: "", cycles: (4, 0), pre_len: 0, op_len: 1, arg_len: 0, group: InsnGroup::Invalid },
        0xDE => Opcode { mnemonic_fmt: "invalid", mnemonic_tail: "", cycles: (4, 0), pre_len: 0, op_len: 1, arg_len: 0, group: InsnGroup::Invalid },
        0xDF => Opcode { mnemonic_fmt: "invalid", mnemonic_tail: "", cycles: (4, 0), pre_len: 0, op_len: 1, arg_len: 0, group: InsnGroup::Invalid },
        0xE0 => Opcode { mnemonic_fmt: "invalid", mnemonic_tail: "", cycles: (4, 0), pre_len: 0, op_len: 1, arg_len: 0, group: InsnGroup::Invalid },
        0xE1 => Opcode { mnemonic_fmt: "pop ix", mnemonic_tail: "", cycles: (14, 0), pre_len: 1, op_len: 1, arg_len: 0, group: InsnGroup::Regular },
        0xE2 => Opcode { mnemonic_fmt: "invalid", mnemonic_tail: "", cycles: (4, 0), pre_len: 0, op_len: 1, arg_len: 0, group: InsnGroup::Invalid },
        0xE3 => Opcode { mnemonic_fmt: "ex (sp), ix", mnemonic_tail: "", cycles: (23, 0), pre_len: 1, op_len: 1, arg_len: 0, group: InsnGroup::Regular },
        0xE4 => Opcode { mnemonic_fmt: "invalid", mnemonic_tail: "", cycles: (4, 0), pre_len: 0, op_len: 1, arg_len: 0, group: InsnGroup::Invalid },
        0xE5 => Opcode { mnemonic_fmt: "push ix", mnemonic_tail: "", cycles: (15, 0), pre_len: 1, op_len: 1, arg_len: 0, group: InsnGroup::Regular },
        0xE6 => Opcode { mnemonic_fmt: "invalid", mnemonic_tail: "", cycles: (4, 0), pre_len: 0, op_len: 1, arg_len: 0, group: InsnGroup::Invalid },
        0xE7 => Opcode { mnemonic_fmt: "invalid", mnemonic_tail: "", cycles: (4, 0), pre_len: 0, op_len: 1, arg_len: 0, group: InsnGroup::Invalid },
        0xE8 => Opcode { mnemonic_fmt: "invalid", mnemonic_tail: "", cycles: (4, 0), pre_len: 0, op_len: 1, arg_len: 0, group: InsnGroup::Invalid },
        0xE9 => Opcode { mnemonic_fmt: "jp (ix)", mnemonic_tail: "", cycles: (8, 0), pre_len: 1, op_len: 1, arg_len: 0, group: InsnGroup::Jump },
        0xEA => Opcode { mnemonic_fmt: "invalid", mnemonic_tail: "", cycles: (4, 0), pre_len: 0, op_len: 1, arg_len: 0, group: InsnGroup::Invalid },
        0xEB => Opcode { mnemonic_fmt: "invalid", mnemonic_tail: "", cycles: (4, 0), pre_len: 0, op_len: 1, arg_len: 0, group: InsnGroup::Invalid },
        0xEC => Opcode { mnemonic_fmt: "invalid", mnemonic_tail: "", cycles: (4, 0), pre_len: 0, op_len: 1, arg_len: 0, group: InsnGroup::Invalid },
        0xED => Opcode { mnemonic_fmt: "invalid", mnemonic_tail: "", cycles: (4, 0), pre_len: 0, op_len: 1, arg_len: 0, group: InsnGroup::Invalid },
        0xEE => Opcode { mnemonic_fmt: "invalid", mnemonic_tail: "", cycles: (4, 0), pre_len: 0, op_len: 1, arg_len: 0, group: InsnGroup::Invalid },
        0xEF => Opcode { mnemonic_fmt: "invalid", mnemonic_tail: "", cycles: (4, 0), pre_len: 0, op_len: 1, arg_len: 0, group: InsnGroup::Invalid },
        0xF0 => Opcode { mnemonic_fmt: "invalid", mnemonic_tail: "", cycles: (4, 0), pre_len: 0, op_len: 1, arg_len: 0, group: InsnGroup::Invalid },
        0xF1 => Opcode { mnemonic_fmt: "invalid", mnemonic_tail: "", cycles: (4, 0), pre_len: 0, op_len: 1, arg_len: 0, group: InsnGroup::Invalid },
        0xF2 => Opcode { mnemonic_fmt: "invalid", mnemonic_tail: "", cycles: (4, 0), pre_len: 0, op_len: 1, arg_len: 0, group: InsnGroup::Invalid },
        0xF3 => Opcode { mnemonic_fmt: "invalid", mnemonic_tail: "", cycles: (4, 0), pre_len: 0, op_len: 1, arg_len: 0, group: InsnGroup::Invalid },
        0xF4 => Opcode { mnemonic_fmt: "invalid", mnemonic_tail: "", cycles: (4, 0), pre_len: 0, op_len: 1, arg_len: 0, group: InsnGroup::Invalid },
        0xF5 => Opcode { mnemonic_fmt: "invalid", mnemonic_tail: "", cycles: (4, 0), pre_len: 0, op_len: 1, arg_len: 0, group: InsnGroup::Invalid },
        0xF6 => Opcode { mnemonic_fmt: "invalid", mnemonic_tail: "", cycles: (4, 0), pre_len: 0, op_len: 1, arg_len: 0, group: InsnGroup::Invalid },
        0xF7 => Opcode { mnemonic_fmt: "invalid", mnemonic_tail: "", cycles: (4, 0), pre_len: 0, op_len: 1, arg_len: 0, group: InsnGroup::Invalid },
        0xF8 => Opcode { mnemonic_fmt: "invalid", mnemonic_tail: "", cycles: (4, 0), pre_len: 0, op_len: 1, arg_len: 0, group: InsnGroup::Invalid },
        0xF9 => Opcode { mnemonic_fmt: "ld sp, ix", mnemonic_tail: "", cycles: (10, 0), pre_len: 1, op_len: 1, arg_len: 0, group: InsnGroup::Regular },
        0xFA => Opcode { mnemonic_fmt: "invalid", mnemonic_tail: "", cycles: (4, 0), pre_len: 0, op_len: 1, arg_len: 0, group: InsnGroup::Invalid },
        0xFB => Opcode { mnemonic_fmt: "invalid", mnemonic_tail: "", cycles: (4, 0), pre_len: 0, op_len: 1, arg_len: 0, group: InsnGroup::Invalid },
        0xFC => Opcode { mnemonic_fmt: "invalid", mnemonic_tail: "", cycles: (4, 0), pre_len: 0, op_len: 1, arg_len: 0, group: InsnGroup::Invalid },
        0xFD => Opcode { mnemonic_fmt: "invalid", mnemonic_tail: "", cycles: (4, 0), pre_len: 0, op_len: 1, arg_len: 0, group: InsnGroup::Invalid },
        0xFE => Opcode { mnemonic_fmt: "invalid", mnemonic_tail: "", cycles: (4, 0), pre_len: 0, op_len: 1, arg_len: 0, group: InsnGroup::Invalid },
        _ => Opcode { mnemonic_fmt: "invalid", mnemonic_tail: "", cycles: (4, 0), pre_len: 0, op_len: 1, arg_len: 0, group: InsnGroup::Invalid },
    }
}

/// Looks up an entry of the table of opcodes after the `0xDD` prefix (IX forms).
pub fn lookup_dd(b: u8) -> (r: Opcode)
    ensures
        r == spec_dd(b),
{
    match b {
        0x00 => Opcode { mnemonic_fmt: "invalid", mnemonic_tail: "", cycles: (4, 0), pre_len: 0, op_len: 1, arg_len: 0, group: InsnGroup::Invalid },
        0x01 => Opcode { mnemonic_fmt: "invalid", mnemonic_tail: "", cycles: (4, 0), pre_len: 0, op_len: 1, arg_len: 0, group: InsnGroup::Invalid },
        0x02 => Opcode { mnemonic_fmt: "invalid", mnemonic_tail: "", cycles: (4, 0), pre_len: 0, op_len: 1, arg_len: 0, group: InsnGroup::Invalid },
        0x03 => Opcode { mnemonic_fmt: "invalid", mnemonic_tail: "", cycles: (4, 0), pre_len: 0, op_len: 1, arg_len: 0, group: InsnGroup::Invalid },
        0x04 => Opcode { mnemonic_fmt: "invalid", mnemonic_tail: "", cycles: (4, 0), pre_len: 0, op_len: 1, arg_len: 0, group: InsnGroup::Invalid },
        0x05 => Opcode { mnemonic_fmt: "invalid", mnemonic_tail: "", cycles: (4, 0), pre_len: 0, op_len: 1, arg_len: 0, group: InsnGroup::Invalid },
        0x06 => Opcode { mnemonic_fmt: "invalid", mnemonic_tail: "", cycles: (4, 0), pre_len: 0, op_len: 1, arg_len: 0, group: InsnGroup::Invalid },
        0x07 => Opcode { mnemonic_fmt: "invalid", mnemonic_tail: "", cycles: (4, 0), pre_len: 0, op_len: 1, arg_len: 0, group: InsnGroup::Invalid },
        0x08 => Opcode { mnemonic_fmt: "invalid", mnemonic_tail: "", cycles: (4, 0), pre_len: 0, op_len: 1, arg_len: 0, group: InsnGroup::Invalid },
        0x09 => Opcode { mnemonic_fmt: "add ix, bc", mnemonic_tail: "", cycles: (15, 0), pre_len: 1, op_len: 1, arg_len: 0, group: InsnGroup::Regular },
        0x0A => Opcode { mnemonic_fmt: "invalid", mnemonic_tail: "", cycles: (4, 0), pre_len: 0, op_len: 1, arg_len: 0, group: InsnGroup::Invalid },
        0x0B => Opcode { mnemonic_fmt: "invalid", mnemonic_tail: "", cycles: (4, 0), pre_len: 0, op_len: 1, arg_len: 0, group: InsnGroup::Invalid },
        0x0C => Opcode { mnemonic_fmt: "invalid", mnemonic_tail: "", cycles: (4, 0), pre_len: 0, op_len: 1, arg_len: 0, group: InsnGroup::Invalid },
        0x0D => Opcode { mnemonic_fmt: "invalid", mnemonic_tail: "", cycles: (4, 0), pre_len: 0, op_len: 1, arg_len: 0, group: InsnGroup::Invalid },
        0x0E => Opcode { mnemonic_fmt: "invalid", mnemonic_tail: "", cycles: (4, 0), pre_len: 0, op_len: 1, arg_len: 0, group: InsnGroup::Invalid },
        0x0F => Opcode { mnemonic_fmt: "invalid", mnemonic_tail: "", cycles: (4, 0), pre_len: 0, op_len: 1, arg_len: 0, group: InsnGroup::Invalid },
        0x10 => Opcode { mnemonic_fmt: "invalid", mnemonic_tail: "", cycles: (4, 0), pre_len: 0, op_len: 1, arg_len: 0, group: InsnGroup::Invalid },
        0x11 => Opcode { mnemonic_fmt: "invalid", mnemonic_tail: "", cycles: (4, 0), pre_len: 0, op_len: 1, arg_len: 0, group: InsnGroup::Invalid },
        0x12 => Opcode { mnemonic_fmt: "invalid", mnemonic_tail: "", cycles: (4, 0), pre_len: 0, op_len: 1, arg_len: 0, group: InsnGroup::Invalid },
        0x13 => Opcode { mnemonic_fmt: "invalid", mnemonic_tail: "", cycles: (4, 0), pre_len: 0, op_len: 1, arg_len: 0, group: InsnGroup::Invalid },
        0x14 => Opcode { mnemonic_fmt: "invalid", mnemonic_tail: "", cycles: (4, 0), pre_len: 0, op_len: 1, arg_len: 0, group: InsnGroup::Invalid },
        0x15 => Opcode { mnemonic_fmt: "invalid", mnemonic_tail: "", cycles: (4, 0), pre_len: 0, op_len: 1, arg_len: 0, group: InsnGroup::Invalid },
        0x16 => Opcode { mnemonic_fmt: "invalid", mnemonic_tail: "", cycles: (4, 0), pre_len: 0, op_len: 1, arg_len: 0, group: InsnGroup::Invalid },
        0x17 => Opcode { mnemonic_fmt: "invalid", mnemonic_tail: "", cycles: (4, 0), pre_len: 0, op_len: 1, arg_len: 0, group: InsnGroup::Invalid },
        0x18 => Opcode { mnemonic_fmt: "invalid", mnemonic_tail: "", cycles: (4, 0), pre_len: 0, op_len: 1, arg_len: 0, group: InsnGroup::Invalid },
        0x19 => Opcode { mnemonic_fmt: "add ix, de", mnemonic_tail: "", cycles: (15, 0), pre_len: 1, op_len: 1, arg_len: 0, group: InsnGroup::Regular },
        0x1A => Opcode { mnemonic_fmt: "invalid", mnemonic_tail: "", cycles: (4, 0), pre_len: 0, op_len: 1, arg_len: 0, group: InsnGroup::Invalid },
        0x1B => Opcode { mnemonic_fmt: "invalid", mnemonic_tail: "", cycles: (4, 0), pre_len: 0, op_len: 1, arg_len: 0, group: InsnGroup::Invalid },
        0x1C => Opcode { mnemonic_fmt: "invalid", mnemonic_tail: "", cycles: (4, 0), pre_len: 0, op_len: 1, arg_len: 0, group: InsnGroup::Invalid },
        0x1D => Opcode { mnemonic_fmt: "invalid", mnemonic_tail: "", cycles: (4, 0), pre_len: 0, op_len: 1, arg_len: 0, group: InsnGroup::Invalid },
        0x1E => Opcode { mnemonic_fmt: "invalid", mnemonic_tail: "", cycles: (4, 0), pre_len: 0, op_len: 1, arg_len: 0, group: InsnGroup::Invalid },
        0x1F => Opcode { mnemonic_fmt: "invalid", mnemonic_tail: "", cycles: (4, 0), pre_len: 0, op_len: 1, arg_len: 0, group: InsnGroup::Invalid },
        0x20 => Opcode { mnemonic_fmt: "invalid", mnemonic_tail: "", cycles: (4, 0), pre_len: 0, op_len: 1, arg_len: 0, group: InsnGroup::Invalid },
        0x21 => Opcode { mnemonic_fmt: "ld ix, $", mnemonic_tail: "", cycles: (14, 0), pre_len: 1, op_len: 1, arg_len: 2, group: InsnGroup::Regular },
        0x22 => Opcode { mnemonic_fmt: "ld ($", mnemonic_tail: "), ix", cycles: (20, 0), pre_len: 1, op_len: 1, arg_len: 2, group: InsnGroup::Regular },
        0x23 => Opcode { mnemonic_fmt: "inc ix", mnemonic_tail: "", cycles: (10, 0), pre_len: 1, op_len: 1, arg_len: 0, group: InsnGroup::Regular },
        0x24 => Opcode { mnemonic_fmt: "invalid", mnemonic_tail: "", cycles: (4, 0), pre_len: 0, op_len: 1, arg_len: 0, group: InsnGroup::Invalid },
        0x25 => Opcode { mnemonic_fmt: "invalid", mnemonic_tail: "", cycles: (4, 0), pre_len: 0, op_len: 1, arg_len: 0, group: InsnGroup::Invalid },
        0x26 => Opcode { mnemonic_fmt: "invalid", mnemonic_tail: "", cycles: (4, 0), pre_len: 0, op_len: 1, arg_len: 0, group: InsnGroup::Invalid },
        0x27 => Opcode { mnemonic_fmt: "invalid", mnemonic_tail: "", cycles: (4, 0), pre_len: 0, op_len: 1, arg_len: 0, group: InsnGroup::Invalid },
        0x28 => Opcode { mnemonic_fmt: "invalid", mnemonic_tail: "", cycles: (4, 0), pre_len: 0, op_len: 1, arg_len: 0, group: InsnGroup::Invalid },
        0x29 => Opcode { mnemonic_fmt: "add ix, ix", mnemonic_tail: "", cycles: (15, 0), pre_len: 1, op_len: 1, arg_len: 0, group: InsnGroup::Regular },
        0x2A => Opcode { mnemonic_fmt: "ld ix, ($", mnemonic_tail: ")", cycles: (20, 0), pre_len: 1, op_len: 1, arg_len: 2, group: InsnGroup::Regular },
        0x2B => Opcode { mnemonic_fmt: "dec ix", mnemonic_tail: "", cycles: (10, 0), pre_len: 1, op_len: 1, arg_len: 0, group: InsnGroup::Regular },
        0x2C => Opcode { mnemonic_fmt: "invalid", mnemonic_tail: "", cycles: (4, 0), pre_len: 0, op_len: 1, arg_len: 0, group: InsnGroup::Invalid },
        0x2D => Opcode { mnemonic_fmt: "invalid", mnemonic_tail: "", cycles: (4, 0), pre_len: 0, op_len: 1, arg_len: 0, group: InsnGroup::Invalid },
        0x2E => Opcode { mnemonic_fmt: "invalid", mnemonic_tail: "", cycles: (4, 0), pre_len: 0, op_len: 1, arg_len: 0, group: InsnGroup::Invalid },
        0x2F => Opcode { mnemonic_fmt: "invalid", mnemonic_tail: "", cycles: (4, 0), pre_len: 0, op_len: 1, arg_len: 0, group: InsnGroup::Invalid },
        0x30 => Opcode { mnemonic_fmt: "invalid", mnemonic_tail: "", cycles: (4, 0), pre_len: 0, op_len: 1, arg_len: 0, group: InsnGroup::Invalid },
        0x31 => Opcode { mnemonic_fmt: "invalid", mnemonic_tail: "", cycles: (4, 0), pre_len: 0, op_len: 1, arg_len: 0, group: InsnGroup::Invalid },
        0x32 => Opcode { mnemonic_fmt: "invalid", mnemonic_tail: "", cycles: (4, 0), pre_len: 0, op_len: 1, arg_len: 0, group: InsnGroup::Invalid },
        0x33 => Opcode { mnemonic_fmt: "invalid", mnemonic_tail: "", cycles: (4, 0), pre_len: 0, op_len: 1, arg_len: 0, group: InsnGroup::Invalid },
        0x34 => Opcode { mnemonic_fmt: "inc (ix+$", mnemonic_tail: ")", cycles: (23, 0), pre_len: 1, op_len: 1, arg_len: 1, group: InsnGroup::Regular },
        0x35 => Opcode { mnemonic_fmt: "dec (ix+$", mnemonic_tail: ")", cycles: (23, 0), pre_len: 1, op_len: 1, arg_len: 1, group: InsnGroup::Regular },
        0x36 => Opcode { mnemonic_fmt: "ld (ix+d), n ; n:d = $", mnemonic_tail: "", cycles: (19, 0), pre_len: 1, op_len: 1, arg_len: 2, group: InsnGroup::Regular },
        0x37 => Opcode { mnemonic_fmt: "invalid", mnemonic_tail: "", cycles: (4, 0), pre_len: 0, op_len: 1, arg_len: 0, group: InsnGroup::Invalid },
        0x38 => Opcode { mnemonic_fmt: "invalid", mnemonic_tail: "", cycles: (4, 0), pre_len: 0, op_len: 1, arg_len: 0, group: InsnGroup::Invalid },
        0x39 => Opcode { mnemonic_fmt: "add ix, sp", mnemonic_tail: "", cycles: (15, 0), pre_len: 1, op_len: 1, arg_len: 0, group: InsnGroup::Regular },
        0x3A => Opcode { mnemonic_fmt: "invalid", mnemonic_tail: "", cycles: (4, 0), pre_len: 0, op_len: 1, arg_len: 0, group: InsnGroup::Invalid },
        0x3B => Opcode { mnemonic_fmt: "invalid", mnemonic_tail: "", cycles: (4, 0), pre_len: 0, op_len: 1, arg_len: 0, group: InsnGroup::Invalid },
        0x3C => Opcode { mnemonic_fmt: "invalid", mnemonic_tail: "", cycles: (4, 0), pre_len: 0, op_len: 1, arg_len: 0, group: InsnGroup::Invalid },
        0x3D => Opcode { mnemonic_fmt: "invalid", mnemonic_tail: "", cycles: (4, 0), pre_len: 0, op_len: 1, arg_len: 0, group: InsnGroup::Invalid },
        0x3E => Opcode { mnemonic_fmt: "invalid", mnemonic_tail: "", cycles: (4, 0), pre_len: 0, op_len: 1, arg_len: 0, group: InsnGroup::Invalid },
        0x3F => Opcode { mnemonic_fmt: "invalid", mnemonic_tail: "", cycles: (4, 0), pre_len: 0, op_len: 1, arg_len: 0, group: InsnGroup::Invalid },
        0x40 => Opcode { mnemonic_fmt: "invalid", mnemonic_tail: "", cycles: (4, 0), pre_len: 0, op_len: 1, arg_len: 0, group: InsnGroup::Invalid },
        0x41 => Opcode { mnemonic_fmt: "invalid", mnemonic_tail: "", cycles: (4, 0), pre_len: 0, op_len: 1, arg_len: 0, group: InsnGroup::Invalid },
        0x42 => Opcode { mnemonic_fmt: "invalid", mnemonic_tail: "", cycles: (4, 0), pre_len: 0, op_len: 1, arg_len: 0, group: InsnGroup::Invalid },
        0x43 => Opcode { mnemonic_fmt: "invalid", mnemonic_tail: "", cycles: (4, 0), pre_len: 0, op_len: 1, arg_len: 0, group: InsnGroup::Invalid },
        0x44 => Opcode { mnemonic_fmt: "invalid", mnemonic_tail: "", cycles: (4, 0), pre_len: 0, op_len: 1, arg_len: 0, group: InsnGroup::Invalid },
        0x45 => Opcode { mnemonic_fmt: "invalid", mnemonic_tail: "", cycles: (4, 0), pre_len: 0, op_len: 1, arg_len: 0, group: InsnGroup::Invalid },
        0x46 => Opcode { mnemonic_fmt: "ld b, (ix+$", mnemonic_tail: ")", cycles: (19, 0), pre_len: 1, op_len: 1, arg_len: 1, group: InsnGroup::Regular },
        0x47 => Opcode { mnemonic_fmt: "invalid", mnemonic_tail: "", cycles: (4, 0), pre_len: 0, op_len: 1, arg_len: 0, group: InsnGroup::Invalid },
        0x48 => Opcode { mnemonic_fmt: "invalid", mnemonic_tail: "", cycles: (4, 0), pre_len: 0, op_len: 1, arg_len: 0, group: InsnGroup::Invalid },
        0x49 => Opcode { mnemonic_fmt: "invalid", mnemonic_tail: "", cycles: (4, 0), pre_len: 0, op_len: 1, arg_len: 0, group: InsnGroup::Invalid },
        0x4A => Opcode { mnemonic_fmt: "invalid", mnemonic_tail: "", cycles: (4, 0), pre_len: 0, op_len: 1, arg_len: 0, group: InsnGroup::Invalid },
        0x4B => Opcode { mnemonic_fmt: "invalid", mnemonic_tail: "", cycles: (4, 0), pre_len: 0, op_len: 1, arg_len: 0, group: InsnGroup::Invalid },
        0x4C => Opcode { mnemonic_fmt: "invalid", mnemonic_tail: "", cycles: (4, 0), pre_len: 0, op_len: 1, arg_len: 0, group: InsnGroup::Invalid },
        0x4D => Opcode { mnemonic_fmt: "invalid", mnemonic_tail: "", cycles: (4, 0), pre_len: 0, op_len: 1, arg_len: 0, group: InsnGroup::Invalid },
        0x4E => Opcode { mnemonic_fmt: "ld c, (ix+$", mnemonic_tail: ")", cycles: (19, 0), pre_len: 1, op_len: 1, arg_len: 1, group: InsnGroup::Regular },
        0x4F => Opcode { mnemonic_fmt: "invalid", mnemonic_tail: "", cycles: (4, 0), pre_len: 0, op_len: 1, arg_len: 0, group: InsnGroup::Invalid },
        0x50 => Opcode { mnemonic_fmt: "invalid", mnemonic_tail: "", cycles: (4, 0), pre_len: 0, op_len: 1, arg_len: 0, group: InsnGroup::Invalid },
        0x51 => Opcode { mnemonic_fmt: "invalid", mnemonic_tail: "", cycles: (4, 0), pre_len: 0, op_len: 1, arg_len: 0, group: InsnGroup::Invalid },
        0x52 => Opcode { mnemonic_fmt: "invalid", mnemonic_tail: "", cycles: (4, 0), pre_len: 0, op_len: 1, arg_len: 0, group: InsnGroup::Invalid },
        0x53 => Opcode { mnemonic_fmt: "invalid", mnemonic_tail: "", cycles: (4, 0), pre_len: 0, op_len: 1, arg_len: 0, group: InsnGroup::Invalid },
        0x54 => Opcode { mnemonic_fmt: "invalid", mnemonic_tail: "", cycles: (4, 0), pre_len: 0, op_len: 1, arg_len: 0, group: InsnGroup::Invalid },
        0x55 => Opcode { mnemonic_fmt: "invalid", mnemonic_tail: "", cycles: (4, 0), pre_len: 0, op_len: 1, arg_len: 0, group: InsnGroup::Invalid },
        0x56 => Opcode { mnemonic_fmt: "ld d, (ix+$", mnemonic_tail: ")", cycles: (19, 0), pre_len: 1, op_len: 1, arg_len: 1, group: InsnGroup::Regular },
        0x57 => Opcode { mnemonic_fmt: "invalid", mnemonic_tail: "", cycles: (4, 0), pre_len: 0, op_len: 1, arg_len: 0, group: InsnGroup::Invalid },
        0x58 => Opcode { mnemonic_fmt: "invalid", mnemonic_tail: "", cycles: (4, 0), pre_len: 0, op_len: 1, arg_len: 0, group: InsnGroup::Invalid },
        0x59 => Opcode { mnemonic_fmt: "invalid", mnemonic_tail: "", cycles: (4, 0), pre_len: 0, op_len: 1, arg_len: 0, group: InsnGroup::Invalid },
        0x5A => Opcode { mnemonic_fmt: "invalid", mnemonic_tail: "", cycles: (4, 0), pre_len: 0, op_len: 1, arg_len: 0, group: InsnGroup::Invalid },
        0x5B => Opcode { mnemonic_fmt: "invalid", mnemonic_tail: "", cycles: (4, 0), pre_len: 0, op_len: 1, arg_len: 0, group: InsnGroup::Invalid },
        0x5C => Opcode { mnemonic_fmt: "invalid", mnemonic_tail: "", cycles: (4, 0), pre_len: 0, op_len: 1, arg_len: 0, group: InsnGroup::Invalid },
        0x5D => Opcode { mnemonic_fmt: "invalid", mnemonic_tail: "", cycles: (4, 0), pre_len: 0, op_len: 1, arg_len: 0, group: InsnGroup::Invalid },
        0x5E => Opcode { mnemonic_fmt: "ld e, (ix+$", mnemonic_tail: ")", cycles: (19, 0), pre_len: 1, op_len: 1, arg_len: 1, group: InsnGroup::Regular },
        0x5F => Opcode { mnemonic_fmt: "invalid", mnemonic_tail: "", cycles: (4, 0), pre_len: 0, op_len: 1, arg_len: 0, group: InsnGroup::Invalid },
        0x60 => Opcode { mnemonic_fmt: "invalid", mnemonic_tail: "", cycles: (4, 0), pre_len: 0, op_len: 1, arg_len: 0, group: InsnGroup::Invalid },
        0x61 => Opcode { mnemonic_fmt: "invalid", mnemonic_tail: "", cycles: (4, 0), pre_len: 0, op_len: 1, arg_len: 0, group: InsnGroup::Invalid },
        0x62 => Opcode { mnemonic_fmt: "invalid", mnemonic_tail: "", cycles: (4, 0), pre_len: 0, op_len: 1, arg_len: 0, group: InsnGroup::Invalid },
        0x63 => Opcode { mnemonic_fmt: "invalid", mnemonic_tail: "", cycles: (4, 0), pre_len: 0, op_len: 1, arg_len: 0, group: InsnGroup::Invalid },
        0x64 => Opcode { mnemonic_fmt: "invalid", mnemonic_tail: "", cycles: (4, 0), pre_len: 0, op_len: 1, arg_len: 0, group: InsnGroup::Invalid },
        0x65 => Opcode { mnemonic_fmt: "invalid", mnemonic_tail: "", cycles: (4, 0), pre_len: 0, op_len: 1, arg_len: 0, group: InsnGroup::Invalid },
        0x66 => Opcode { mnemonic_fmt: "ld h, (ix+$", mnemonic_tail: ")", cycles: (19, 0), pre_len: 1, op_len: 1, arg_len: 1, group: InsnGroup::Regular },
        0x67 => Opcode { mnemonic_fmt: "invalid", mnemonic_tail: "", cycles: (4, 0), pre_len: 0, op_len: 1, arg_len: 0, group: InsnGroup::Invalid },
        0x68 => Opcode { mnemonic_fmt: "invalid", mnemonic_tail: "", cycles: (4, 0), pre_len: 0, op_len: 1, arg_len: 0, group: InsnGroup::Invalid },
        0x69 => Opcode { mnemonic_fmt: "invalid", mnemonic_tail: "", cycles: (4, 0), pre_len: 0, op_len: 1, arg_len: 0, group: InsnGroup::Invalid },
        0x6A => Opcode { mnemonic_fmt: "invalid", mnemonic_tail: "", cycles: (4, 0), pre_len: 0, op_len: 1, arg_len: 0, group: InsnGroup::Invalid },
        0x6B => Opcode { mnemonic_fmt: "invalid", mnemonic_tail: "", cycles: (4, 0), pre_len: 0, op_len: 1, arg_len: 0, group: InsnGroup::Invalid },
        0x6C => Opcode { mnemonic_fmt: "invalid", mnemonic_tail: "", cycles: (4, 0), pre_len: 0, op_len: 1, arg_len: 0, group: InsnGroup::Invalid },
        0x6D => Opcode { mnemonic_fmt: "invalid", mnemonic_tail: "", cycles: (4, 0), pre_len: 0, op_len: 1, arg_len: 0, group: InsnGroup::Invalid },
        0x6E => Opcode { mnemonic_fmt: "ld l, (ix+$", mnemonic_tail: ")", cycles: (19, 0), pre_len: 1, op_len: 1, arg_len: 1, group: InsnGroup::Regular },
        0x6F => Opcode { mnemonic_fmt: "invalid", mnemonic_tail: "", cycles: (4, 0), pre_len: 0, op_len: 1, arg_len: 0, group: InsnGroup::Invalid },
        0x70 => Opcode { mnemonic_fmt: "ld (ix+$", mnemonic_tail: "), b", cycles: (19, 0), pre_len: 1, op_len: 1, arg_len: 1, group: InsnGroup::Regular },
        0x71 => Opcode { mnemonic_fmt: "ld (ix+$", mnemonic_tail: "), c", cycles: (19, 0), pre_len: 1, op_len: 1, arg_len: 1, group: InsnGroup::Regular },
        0x72 => Opcode { mnemonic_fmt: "ld (ix+$", mnemonic_tail: "), d", cycles: (19, 0), pre_len: 1, op_len: 1, arg_len: 1, group: InsnGroup::Regular },
        0x73 => Opcode { mnemonic_fmt: "ld (ix+$", mnemonic_tail: "), e", cycles: (19, 0), pre_len: 1, op_len: 1, arg_len: 1, group: InsnGroup::Regular },
        0x74 => Opcode { mnemonic_fmt: "ld (ix+$", mnemonic_tail: "), h", cycles: (19, 0), pre_len: 1, op_len: 1, arg_len: 1, group: InsnGroup::Regular },
        0x75 => Opcode { mnemonic_fmt: "ld (ix+$", mnemonic_tail: "), l", cycles: (19, 0), pre_len: 1, op_len: 1, arg_len: 1, group: InsnGroup::Regular },
        0x76 => Opcode { mnemonic_fmt: "invalid", mnemonic_tail: "", cycles: (4, 0), pre_len: 0, op_len: 1, arg_len: 0, group: InsnGroup::Invalid },
        0x77 => Opcode { mnemonic_fmt: "ld (ix+$", mnemonic_tail: "), a", cycles: (19, 0), pre_len: 1, op_len: 1, arg_len: 1, group: InsnGroup::Regular },
        0x78 => Opcode { mnemonic_fmt: "invalid", mnemonic_tail: "", cycles: (4, 0), pre_len: 0, op_len: 1, arg_len: 0, group: InsnGroup::Invalid },
        0x79 => Opcode { mnemonic_fmt: "invalid", mnemonic_tail: "", cycles: (4, 0), pre_len: 0, op_len: 1, arg_len: 0, group: InsnGroup::Invalid },
        0x7A => Opcode { mnemonic_fmt: "invalid", mnemonic_tail: "", cycles: (4, 0), pre_len: 0, op_len: 1, arg_len: 0, group: InsnGroup::Invalid },
        0x7B => Opcode { mnemonic_fmt: "invalid", mnemonic_tail: "", cycles: (4, 0), pre_len: 0, op_len: 1, arg_len: 0, group: InsnGroup::Invalid },
        0x7C => Opcode { mnemonic_fmt: "invalid", mnemonic_tail: "", cycles: (4, 0), pre_len: 0, op_len: 1, arg_len: 0, group: InsnGroup::Invalid },
        0x7D => Opcode { mnemonic_fmt: "invalid", mnemonic_tail: "", cycles: (4, 0), pre_len: 0, op_len: 1, arg_len: 0, group: InsnGroup::Invalid },
        0x7E => Opcode { mnemonic_fmt: "ld a, (ix+$", mnemonic_tail: ")", cycles: (19, 0), pre_len: 1, op_len: 1, arg_len: 1, group: InsnGroup::Regular },
        0x7F => Opcode { mnemonic_fmt: "invalid", mnemonic_tail: "", cycles: (4, 0), pre_len: 0, op_len: 1, arg_len: 0, group: InsnGroup::Invalid },
        0x80 => Opcode { mnemonic_fmt: "invalid", mnemonic_tail: "", cycles: (4, 0), pre_len: 0, op_len: 1, arg_len: 0, group: InsnGroup::Invalid },
        0x81 => Opcode { mnemonic_fmt: "invalid", mnemonic_tail: "", cycles: (4, 0), pre_len: 0, op_len: 1, arg_len: 0, group: InsnGroup::Invalid },
        0x82 => Opcode { mnemonic_fmt: "invalid", mnemonic_tail: "", cycles: (4, 0), pre_len: 0, op_len: 1, arg_len: 0, group: InsnGroup::Invalid },
        0x83 => Opcode { mnemonic_fmt: "invalid", mnemonic_tail: "", cycles: (4, 0), pre_len: 0, op_len: 1, arg_len: 0, group: InsnGroup::Invalid },
        0x84 => Opcode { mnemonic_fmt: "invalid", mnemonic_tail: "", cycles: (4, 0), pre_len: 0, op_len: 1, arg_len: 0, group: InsnGroup::Invalid },
        0x85 => Opcode { mnemonic_fmt: "invalid", mnemonic_tail: "", cycles: (4, 0), pre_len: 0, op_len: 1, arg_len: 0, group: InsnGroup::Invalid },
        0x86 => Opcode { mnemonic_fmt: "add a, (ix+$", mnemonic_tail: ")", cycles: (19, 0), pre_len: 1, op_len: 1, arg_len: 1, group: InsnGroup::Regular },
        0x87 => Opcode { mnemonic_fmt: "invalid", mnemonic_tail: "", cycles: (4, 0), pre_len: 0, op_len: 1, arg_len: 0, group: InsnGroup::Invalid },
        0x88 => Opcode { mnemonic_fmt: "invalid", mnemonic_tail: "", cycles: (4, 0), pre_len: 0, op_len: 1, arg_len: 0, group: InsnGroup::Invalid },
        0x89 => Opcode { mnemonic_fmt: "invalid", mnemonic_tail: "", cycles: (4, 0), pre_len: 0, op_len: 1, arg_len: 0, group: InsnGroup::Invalid },
        0x8A => Opcode { mnemonic_fmt: "invalid", mnemonic_tail: "", cycles: (4, 0), pre_len: 0, op_len: 1, arg_len: 0, group: InsnGroup::Invalid },
        0x8B => Opcode { mnemonic_fmt: "invalid", mnemonic_tail: "", cycles: (4, 0), pre_len: 0, op_len: 1, arg_len: 0, group: InsnGroup::Invalid },
        0x8C => Opcode { mnemonic_fmt: "invalid", mnemonic_tail: "", cycles: (4, 0), pre_len: 0, op_len: 1, arg_len: 0, group: InsnGroup::Invalid },
        0x8D => Opcode { mnemonic_fmt: "invalid", mnemonic_tail: "", cycles: (4, 0), pre_len: 0, op_len: 1, arg_len: 0, group: InsnGroup::Invalid },
        0x8E => Opcode { mnemonic_fmt: "adc a, (ix+$", mnemonic_tail: ")", cycles: (19, 0), pre_len: 1, op_len: 1, arg_len: 1, group: InsnGroup::Regular },
        0x8F => Opcode { mnemonic_fmt: "invalid", mnemonic_tail: "", cycles: (4, 0), pre_len: 0, op_len: 1, arg_len: 0, group: InsnGroup::Invalid },
        0x90 => Opcode { mnemonic_fmt: "invalid", mnemonic_tail: "", cycles: (4, 0), pre_len: 0, op_len: 1, arg_len: 0, group: InsnGroup::Invalid },
        0x91 => Opcode { mnemonic_fmt: "invalid", mnemonic_tail: "", cycles: (4, 0), pre_len: 0, op_len: 1, arg_len: 0, group: InsnGroup::Invalid },
        0x92 => Opcode { mnemonic_fmt: "invalid", mnemonic_tail: "", cycles: (4, 0), pre_len: 0, op_len: 1, arg_len: 0, group: InsnGroup::Invalid },
        0x93 => Opcode { mnemonic_fmt: "invalid", mnemonic_tail: "", cycles: (4, 0), pre_len: 0, op_len: 1, arg_len: 0, group: InsnGroup::Invalid },
        0x94 => Opcode { mnemonic_fmt: "invalid", mnemonic_tail: "", cycles: (4, 0), pre_len: 0, op_len: 1, arg_len: 0, group: InsnGroup::Invalid },
        0x95 => Opcode { mnemonic_fmt: "invalid", mnemonic_tail: "", cycles: (4, 0), pre_len: 0, op_len: 1, arg_len: 0, group: InsnGroup::Invalid },
        0x96 => Opcode { mnemonic_fmt: "sub (ix+$", mnemonic_tail: ")", cycles: (19, 0), pre_len: 1, op_len: 1, arg_len: 1, group: InsnGroup::Regular },
        0x97 => Opcode { mnemonic_fmt: "invalid", mnemonic_tail: "", cycles: (4, 0), pre_len: 0, op_len: 1, arg_len: 0, group: InsnGroup::Invalid },
        0x98 => Opcode { mnemonic_fmt: "invalid", mnemonic_tail: "", cycles: (4, 0), pre_len: 0, op_len: 1, arg_len: 0, group: InsnGroup::Invalid },
        0x99 => Opcode { mnemonic_fmt: "invalid", mnemonic_tail: "", cycles: (4, 0), pre_len: 0, op_len: 1, arg_len: 0, group: InsnGroup::Invalid },
        0x9A => Opcode { mnemonic_fmt: "invalid", mnemonic_tail: "", cycles: (4, 0), pre_len: 0, op_len: 1, arg_len: 0, group: InsnGroup::Invalid },
        0x9B => Opcode { mnemonic_fmt: "invalid", mnemonic_tail: "", cycles: (4, 0), pre_len: 0, op_len: 1, arg_len: 0, group: InsnGroup::Invalid },
        0x9C => Opcode { mnemonic_fmt: "invalid", mnemonic_tail: "", cycles: (4, 0), pre_len: 0, op_len: 1, arg_len: 0, group: InsnGroup::Invalid },
        0x9D => Opcode { mnemonic_fmt: "invalid", mnemonic_tail: "", cycles: (4, 0), pre_len: 0, op_len: 1, arg_len: 0, group: InsnGroup::Invalid },
        0x9E => Opcode { mnemonic_fmt: "sbc a, (ix+$", mnemonic_tail: ")", cycles: (19, 0), pre_len: 1, op_len: 1, arg_len: 1, group: InsnGroup::Regular },
        0x9F => Opcode { mnemonic_fmt: "invalid", mnemonic_tail: "", cycles: (4, 0), pre_len: 0, op_len: 1, arg_len: 0, group: InsnGroup::Invalid },
        0xA0 => Opcode { mnemonic_fmt: "invalid", mnemonic_tail: "", cycles: (4, 0), pre_len: 0, op_len: 1, arg_len: 0, group: InsnGroup::Invalid },
        0xA1 => Opcode { mnemonic_fmt: "invalid", mnemonic_tail: "", cycles: (4, 0), pre_len: 0, op_len: 1, arg_len: 0, group: InsnGroup::Invalid },
        0xA2 => Opcode { mnemonic_fmt: "invalid", mnemonic_tail: "", cycles: (4, 0), pre_len: 0, op_len: 1, arg_len: 0, group: InsnGroup::Invalid },
        0xA3 => Opcode { mnemonic_fmt: "invalid", mnemonic_tail: "", cycles: (4, 0), pre_len: 0, op_len: 1, arg_len: 0, group: InsnGroup::Invalid },
        0xA4 => Opcode { mnemonic_fmt: "invalid", mnemonic_tail: "", cycles: (4, 0), pre_len: 0, op_len: 1, arg_len: 0, group: InsnGroup::Invalid },
        0xA5 => Opcode { mnemonic_fmt: "invalid", mnemonic_tail: "", cycles: (4, 0), pre_len: 0, op_len: 1, arg_len: 0, group: InsnGroup::Invalid },
        0xA6 => Opcode { mnemonic_fmt: "and (ix+$", mnemonic_tail: ")", cycles: (19, 0), pre_len: 1, op_len: 1, arg_len: 1, group: InsnGroup::Regular },
        0xA7 => Opcode { mnemonic_fmt: "invalid", mnemonic_tail: "", cycles: (4, 0), pre_len: 0, op_len: 1, arg_len: 0, group: InsnGroup::Invalid },
        0xA8 => Opcode { mnemonic_fmt: "invalid", mnemonic_tail: "", cycles: (4, 0), pre_len: 0, op_len: 1, arg_len: 0, group: InsnGroup::Invalid },
        0xA9 => Opcode { mnemonic_fmt: "invalid", mnemonic_tail: "", cycles: (4, 0), pre_len: 0, op_len: 1, arg_len: 0, group: InsnGroup::Invalid },
        0xAA => Opcode { mnemonic_fmt: "invalid", mnemonic_tail: "", cycles: (4, 0), pre_len: 0, op_len: 1, arg_len: 0, group: InsnGroup::Invalid },
        0xAB => Opcode { mnemonic_fmt: "invalid", mnemonic_tail: "", cycles: (4, 0), pre_len: 0, op_len: 1, arg_len: 0, group: InsnGroup::Invalid },
        0xAC => Opcode { mnemonic_fmt: "invalid", mnemonic_tail: "", cycles: (4, 0), pre_len: 0, op_len: 1, arg_len: 0, group: InsnGroup::Invalid },
        0xAD => Opcode { mnemonic_fmt: "invalid", mnemonic_tail: "", cycles: (4, 0), pre_len: 0, op_len: 1, arg_len: 0, group: InsnGroup::Invalid },
        0xAE => Opcode { mnemonic_fmt: "xor (ix+$", mnemonic_tail: ")", cycles: (19, 0), pre_len: 1, op_len: 1, arg_len: 1, group: InsnGroup::Regular },
        0xAF => Opcode { mnemonic_fmt: "invalid", mnemonic_tail: "", cycles: (4, 0), pre_len: 0, op_len: 1, arg_len: 0, group: InsnGroup::Invalid },
        0xB0 => Opcode { mnemonic_fmt: "invalid", mnemonic_tail: "", cycles: (4, 0), pre_len: 0, op_len: 1, arg_len: 0, group: InsnGroup::Invalid },
        0xB1 => Opcode { mnemonic_fmt: "invalid", mnemonic_tail: "", cycles: (4, 0), pre_len: 0, op_len: 1, arg_len: 0, group: InsnGroup::Invalid },
        0xB2 => Opcode { mnemonic_fmt: "invalid", mnemonic_tail: "", cycles: (4, 0), pre_len: 0, op_len: 1, arg_len: 0, group: InsnGroup::Invalid },
        0xB3 => Opcode { mnemonic_fmt: "invalid", mnemonic_tail: "", cycles: (4, 0), pre_len: 0, op_len: 1, arg_len: 0, group: InsnGroup::Invalid },
        0xB4 => Opcode { mnemonic_fmt: "invalid", mnemonic_tail: "", cycles: (4, 0), pre_len: 0, op_len: 1, arg_len: 0, group: InsnGroup::Invalid },
        0xB5 => Opcode { mnemonic_fmt: "invalid", mnemonic_tail: "", cycles: (4, 0), pre_len: 0, op_len: 1, arg_len: 0, group: InsnGroup::Invalid },
        0xB6 => Opcode { mnemonic_fmt: "or (ix+$", mnemonic_tail: ")", cycles: (19, 0), pre_len: 1, op_len: 1, arg_len: 1, group: InsnGroup::Regular },
        0xB7 => Opcode { mnemonic_fmt: "invalid", mnemonic_tail: "", cycles: (4, 0), pre_len: 0, op_len: 1, arg_len: 0, group: InsnGroup::Invalid },
        0xB8 => Opcode { mnemonic_fmt: "invalid", mnemonic_tail: "", cycles: (4, 0), pre_len: 0, op_len: 1, arg_len: 0, group: InsnGroup::Invalid },
        0xB9 => Opcode { mnemonic_fmt: "invalid", mnemonic_tail: "", cycles: (4, 0), pre_len: 0, op_len: 1, arg_len: 0, group: InsnGroup::Invalid },
        0xBA => Opcode { mnemonic_fmt: "invalid", mnemonic_tail: "", cycles: (4, 0), pre_len: 0, op_len: 1, arg_len: 0, group: InsnGroup::Invalid },
        0xBB => Opcode { mnemonic_fmt: "invalid", mnemonic_tail: "", cycles: (4, 0), pre_len: 0, op_len: 1, arg_len: 0, group: InsnGroup::Invalid },
        0xBC => Opcode { mnemonic_fmt: "invalid", mnemonic_tail: "", cycles: (4, 0), pre_len: 0, op_len: 1, arg_len: 0, group: InsnGroup::Invalid },
        0xBD => Opcode { mnemonic_fmt: "invalid", mnemonic_tail: "", cycles: (4, 0), pre_len: 0, op_len: 1, arg_len: 0, group: InsnGroup::Invalid },
        0xBE => Opcode { mnemonic_fmt: "cp (ix+$", mnemonic_tail: ")", cycles: (19, 0), pre_len: 1, op_len: 1, arg_len: 1, group: InsnGroup::Regular },
        0xBF => Opcode { mnemonic_fmt: "invalid", mnemonic_tail: "", cycles: (4, 0), pre_len: 0, op_len: 1, arg_len: 0, group: InsnGroup::Invalid },
        0xC0 => Opcode { mnemonic_fmt: "invalid", mnemonic_tail: "", cycles: (4, 0), pre_len: 0, op_len: 1, arg_len: 0, group: InsnGroup::Invalid },
        0xC1 => Opcode { mnemonic_fmt: "invalid", mnemonic_tail: "", cycles: (4, 0), pre_len: 0, op_len: 1, arg_len: 0, group: InsnGroup::Invalid },
        0xC2 => Opcode { mnemonic_fmt: "invalid", mnemonic_tail: "", cycles: (4, 0), pre_len: 0, op_len: 1, arg_len: 0, group: InsnGroup::Invalid },
        0xC3 => Opcode { mnemonic_fmt: "invalid", mnemonic_tail: "", cycles: (4, 0), pre_len: 0, op_len: 1, arg_len: 0, group: InsnGroup::Invalid },
        0xC4 => Opcode { mnemonic_fmt: "invalid", mnemonic_tail: "", cycles: (4, 0), pre_len: 0, op_len: 1, arg_len: 0, group: InsnGroup::Invalid },
        0xC5 => Opcode { mnemonic_fmt: "invalid", mnemonic_tail: "", cycles: (4, 0), pre_len: 0, op_len: 1, arg_len: 0, group: InsnGroup::Invalid },
        0xC6 => Opcode { mnemonic_fmt: "invalid", mnemonic_tail: "", cycles: (4, 0), pre_len: 0, op_len: 1, arg_len: 0, group: InsnGroup::Invalid },
        0xC7 => Opcode { mnemonic_fmt: "invalid", mnemonic_tail: "", cycles: (4, 0), pre_len: 0, op_len: 1, arg_len: 0, group: InsnGroup::Invalid },
        0xC8 => Opcode { mnemonic_fmt: "invalid", mnemonic_tail: "", cycles: (4, 0), pre_len: 0, op_len: 1, arg_len: 0, group: InsnGroup::Invalid },
        0xC9 => Opcode { mnemonic_fmt: "invalid", mnemonic_tail: "", cycles: (4, 0), pre_len: 0, op_len: 1, arg_len: 0, group: InsnGroup::Invalid },
        0xCA => Opcode { mnemonic_fmt: "invalid", mnemonic_tail: "", cycles: (4, 0), pre_len: 0, op_len: 1, arg_len: 0, group: InsnGroup::Invalid },
        0xCB => Opcode { mnemonic_fmt: "invalid", mnemonic_tail: "", cycles: (4, 0), pre_len: 0, op_len: 1, arg_len: 0, group: InsnGroup::Invalid },
        0xCC => Opcode { mnemonic_fmt: "invalid", mnemonic_tail: "", cycles: (4, 0), pre_len: 0, op_len: 1, arg_len: 0, group: InsnGroup::Invalid },
        0xCD => Opcode { mnemonic_fmt: "invalid", mnemonic_tail: "", cycles: (4, 0), pre_len: 0, op_len: 1, arg_len: 0, group: InsnGroup::Invalid },
        0xCE => Opcode { mnemonic_fmt: "invalid", mnemonic_tail: "", cycles: (4, 0), pre_len: 0, op_len: 1, arg_len: 0, group: InsnGroup::Invalid },
        0xCF => Opcode { mnemonic_fmt: "invalid", mnemonic_tail: "", cycles: (4, 0), pre_len: 0, op_len: 1, arg_len: 0, group: InsnGroup::Invalid },
        0xD0 => Opcode { mnemonic_fmt: "invalid", mnemonic_tail: "", cycles: (4, 0), pre_len: 0, op_len: 1, arg_len: 0, group: InsnGroup::Invalid },
        0xD1 => Opcode { mnemonic_fmt: "invalid", mnemonic_tail: "", cycles: (4, 0), pre_len: 0, op_len: 1, arg_len: 0, group: InsnGroup::Invalid },
        0xD2 => Opcode { mnemonic_fmt: "invalid", mnemonic_tail: "", cycles: (4, 0), pre_len: 0, op_len: 1, arg_len: 0, group: InsnGroup::Invalid },
        0xD3 => Opcode { mnemonic_fmt: "invalid", mnemonic_tail: "", cycles: (4, 0), pre_len: 0, op_len: 1, arg_len: 0, group: InsnGroup::Invalid },
        0xD4 => Opcode { mnemonic_fmt: "invalid", mnemonic_tail: "", cycles: (4, 0), pre_len: 0, op_len: 1, arg_len: 0, group: InsnGroup::Invalid },
        0xD5 => Opcode { mnemonic_fmt: "invalid", mnemonic_tail: "", cycles: (4, 0), pre_len: 0, op_len: 1, arg_len: 0, group: InsnGroup::Invalid },
        0xD6 => Opcode { mnemonic_fmt: "invalid", mnemonic_tail: "", cycles: (4, 0), pre_len: 0, op_len: 1, arg_len: 0, group: InsnGroup::Invalid },
        0xD7 => Opcode { mnemonic_fmt: "invalid", mnemonic_tail: "", cycles: (4, 0), pre_len: 0, op_len: 1, arg_len: 0, group: InsnGroup::Invalid },
        0xD8 => Opcode { mnemonic_fmt: "invalid", mnemonic_tail: "", cycles: (4, 0), pre_len: 0, op_len: 1, arg_len: 0, group: InsnGroup::Invalid },
        0xD9 => Opcode { mnemonic_fmt: "invalid", mnemonic_tail: "", cycles: (4, 0), pre_len: 0, op_len: 1, arg_len: 0, group: InsnGroup::Invalid },
        0xDA => Opcode { mnemonic_fmt: "invalid", mnemonic_tail: "", cycles: (4, 0), pre_len: 0, op_len: 1, arg_len: 0, group: InsnGroup::Invalid },
        0xDB => Opcode { mnemonic_fmt: "invalid", mnemonic_tail: "", cycles: (4, 0), pre_len: 0, op_len: 1, arg_len: 0, group: InsnGroup::Invalid },
        0xDC => Opcode { mnemonic_fmt: "invalid", mnemonic_tail: "", cycles: (4, 0), pre_len: 0, op_len: 1, arg_len: 0, group: InsnGroup::Invalid },
        0xDD => Opcode { mnemonic_fmt: "invalid", mnemonic_tail: "", cycles: (4, 0), pre_len: 0, op_len: 1, arg_len: 0, group: InsnGroup::Invalid },
        0xDE => Opcode { mnemonic_fmt: "invalid", mnemonic_tail: "", cycles: (4, 0), pre_len: 0, op_len: 1, arg_len: 0, group: InsnGroup::Invalid },
        0xDF => Opcode { mnemonic_fmt: "invalid", mnemonic_tail: "", cycles: (4, 0), pre_len: 0, op_len: 1, arg_len: 0, group: InsnGroup::Invalid },
        0xE0 => Opcode { mnemonic_fmt: "invalid", mnemonic_tail: "", cycles: (4, 0), pre_len: 0, op_len: 1, arg_len: 0, group: InsnGroup::Invalid },
        0xE1 => Opcode { mnemonic_fmt: "pop ix", mnemonic_tail: "", cycles: (14, 0), pre_len: 1, op_len: 1, arg_len: 0, group: InsnGroup::Regular },
        0xE2 => Opcode { mnemonic_fmt: "invalid", mnemonic_tail: "", cycles: (4, 0), pre_len: 0, op_len: 1, arg_len: 0, group: InsnGroup::Invalid },
        0xE3 => Opcode { mnemonic_fmt: "ex (sp), ix", mnemonic_tail: "", cycles: (23, 0), pre_len: 1, op_len: 1, arg_len: 0, group: InsnGroup::Regular },
        0xE4 => Opcode { mnemonic_fmt: "invalid", mnemonic_tail: "", cycles: (4, 0), pre_len: 0, op_len: 1, arg_len: 0, group: InsnGroup::Invalid },
        0xE5 => Opcode { mnemonic_fmt: "push ix", mnemonic_tail: "", cycles: (15, 0), pre_len: 1, op_len: 1, arg_len: 0, group: InsnGroup::Regular },
        0xE6 => Opcode { mnemonic_fmt: "invalid", mnemonic_tail: "", cycles: (4, 0), pre_len: 0, op_len: 1, arg_len: 0, group: InsnGroup::Invalid },
        0xE7 => Opcode { mnemonic_fmt: "invalid", mnemonic_tail: "", cycles: (4, 0), pre_len: 0, op_len: 1, arg_len: 0, group: InsnGroup::Invalid },
        0xE8 => Opcode { mnemonic_fmt: "invalid", mnemonic_tail: "", cycles: (4, 0), pre_len: 0, op_len: 1, arg_len: 0, group: InsnGroup::Invalid },
        0xE9 => Opcode { mnemonic_fmt: "jp (ix)", mnemonic_tail: "", cycles: (8, 0), pre_len: 1, op_len: 1, arg_len: 0, group: InsnGroup::Jump },
        0xEA => Opcode { mnemonic_fmt: "invalid", mnemonic_tail: "", cycles: (4, 0), pre_len: 0, op_len: 1, arg_len: 0, group: InsnGroup::Invalid },
        0xEB => Opcode { mnemonic_fmt: "invalid", mnemonic_tail: "", cycles: (4, 0), pre_len: 0, op_len: 1, arg_len: 0, group: InsnGroup::Invalid },
        0xEC => Opcode { mnemonic_fmt: "invalid", mnemonic_tail: "", cycles: (4, 0), pre_len: 0, op_len: 1, arg_len: 0, group: InsnGroup::Invalid },
        0xED => Opcode { mnemonic_fmt: "invalid", mnemonic_tail: "", cycles: (4, 0), pre_len: 0, op_len: 1, arg_len: 0, group: InsnGroup::Invalid },
        0xEE => Opcode { mnemonic_fmt: "invalid", mnemonic_tail: "", cycles: (4, 0), pre_len: 0, op_len: 1, arg_len: 0, group: InsnGroup::Invalid },
        0xEF => Opcode { mnemonic_fmt: "invalid", mnemonic_tail: "", cycles: (4, 0), pre_len: 0, op_len: 1, arg_len: 0, group: InsnGroup::Invalid },
        0xF0 => Opcode { mnemonic_fmt: "invalid", mnemonic_tail: "", cycles: (4, 0), pre_len: 0, op_len: 1, arg_len: 0, group: InsnGroup::Invalid },
        0xF1 => Opcode { mnemonic_fmt: "invalid", mnemonic_tail: "", cycles: (4, 0), pre_len: 0, op_len: 1, arg_len: 0, group: InsnGroup::Invalid },
        0xF2 => Opcode { mnemonic_fmt: "invalid", mnemonic_tail: "", cycles: (4, 0), pre_len: 0, op_len: 1, arg_len: 0, group: InsnGroup::Invalid },
        0xF3 => Opcode { mnemonic_fmt: "invalid", mnemonic_tail: "", cycles: (4, 0), pre_len: 0, op_len: 1, arg_len: 0, group: InsnGroup::Invalid },
        0xF4 => Opcode { mnemonic_fmt: "invalid", mnemonic_tail: "", cycles: (4, 0), pre_len: 0, op_len: 1, arg_len: 0, group: InsnGroup::Invalid },
        0xF5 => Opcode { mnemonic_fmt: "invalid", mnemonic_tail: "", cycles: (4, 0), pre_len: 0, op_len: 1, arg_len: 0, group: InsnGroup::Invalid },
        0xF6 => Opcode { mnemonic_fmt: "invalid", mnemonic_tail: "", cycles: (4, 0), pre_len: 0, op_len: 1, arg_len: 0, group: InsnGroup::Invalid },
        0xF7 => Opcode { mnemonic_fmt: "invalid", mnemonic_tail: "", cycles: (4, 0), pre_len: 0, op_len: 1, arg_len: 0, group: InsnGroup::Invalid },
        0xF8 => Opcode { mnemonic_fmt: "invalid", mnemonic_tail: "", cycles: (4, 0), pre_len: 0, op_len: 1, arg_len: 0, group: InsnGroup::Invalid },
        0xF9 => Opcode { mnemonic_fmt: "ld sp, ix", mnemonic_tail: "", cycles: (10, 0), pre_len: 1, op_len: 1, arg_len: 0, group: InsnGroup::Regular },
        0xFA => Opcode { mnemonic_fmt: "invalid", mnemonic_tail: "", cycles: (4, 0), pre_len: 0, op_len: 1, arg_len: 0, group: InsnGroup::Invalid },
        0xFB => Opcode { mnemonic_fmt: "invalid", mnemonic_tail: "", cycles: (4, 0), pre_len: 0, op_len: 1, arg_len: 0, group: InsnGroup::Invalid },
        0xFC => Opcode { mnemonic_fmt: "invalid", mnemonic_tail: "", cycles: (4, 0), pre_len: 0, op_len: 1, arg_len: 0, group: InsnGroup::Invalid },
        0xFD => Opcode { mnemonic_fmt: "invalid", mnemonic_tail: "", cycles: (4, 0), pre_len: 0, op_len: 1, arg_len: 0, group: InsnGroup::Invalid },
        0xFE => Opcode { mnemonic_fmt: "invalid", mnemonic_tail: "", cycles: (4, 0), pre_len: 0, op_len: 1, arg_len: 0, group: InsnGroup::Invalid },
        _ => Opcode { mnemonic_fmt: "invalid", mnemonic_tail: "", cycles: (4, 0), pre_len: 0, op_len: 1, arg_len: 0, group: InsnGroup::Invalid },
    }
}

/// The table of opcodes after the `0xED` prefix, indexed by opcode byte.
pub open spec fn spec_ed(b: u8) -> Opcode {
    match b {
        0x00 => Opcode { mnemonic_fmt: "invalid", mnemonic_tail: "", cycles: (4, 0), pre_len: 0, op_len: 1, arg_len: 0, group: InsnGroup::Invalid },
        0x01 => Opcode { mnemonic_fmt: "invalid", mnemonic_tail: "", cycles: (4, 0), pre_len: 0, op_len: 1, arg_len: 0, group: InsnGroup::Invalid },
        0x02 => Opcode { mnemonic_fmt: "invalid", mnemonic_tail: "", cycles: (4, 0), pre_len: 0, op_len: 1, arg_len: 0, group: InsnGroup::Invalid },
        0x03 => Opcode { mnemonic_fmt: "invalid", mnemonic_tail: "", cycles: (4, 0), pre_len: 0, op_len: 1, arg_len: 0, group: InsnGroup::Invalid },
        0x04 => Opcode { mnemonic_fmt: "invalid", mnemonic_tail: "", cycles: (4, 0), pre_len: 0, op_len: 1, arg_len: 0, group: InsnGroup::Invalid },
        0x05 => Opcode { mnemonic_fmt: "invalid", mnemonic_tail: "", cycles: (4, 0), pre_len: 0, op_len: 1, arg_len: 0, group: InsnGroup::Invalid },
        0x06 => Opcode { mnemonic_fmt: "invalid", mnemonic_tail: "", cycles: (4, 0), pre_len: 0, op_len: 1, arg_len: 0, group: InsnGroup::Invalid },
        0x07 => Opcode { mnemonic_fmt: "invalid", mnemonic_tail: "", cycles: (4, 0), pre_len: 0, op_len: 1, arg_len: 0, group: InsnGroup::Invalid },
        0x08 => Opcode { mnemonic_fmt: "invalid", mnemonic_tail: "", cycles: (4, 0), pre_len: 0, op_len: 1, arg_len: 0, group: InsnGroup::Invalid },
        0x09 => Opcode { mnemonic_fmt: "invalid", mnemonic_tail: "", cycles: (4, 0), pre_len: 0, op_len: 1, arg_len: 0, group: InsnGroup::Invalid },
        0x0A => Opcode { mnemonic_fmt: "invalid", mnemonic_tail: "", cycles: (4, 0), pre_len: 0, op_len: 1, arg_len: 0, group: InsnGroup::Invalid },
        0x0B => Opcode { mnemonic_fmt: "invalid", mnemonic_tail: "", cycles: (4, 0), pre_len: 0, op_len: 1, arg_len: 0, group: InsnGroup::Invalid },
        0x0C => Opcode { mnemonic_fmt: "invalid", mnemonic_tail: "", cycles: (4, 0), pre_len: 0, op_len: 1, arg_len: 0, group: InsnGroup::Invalid },
        0x0D => Opcode { mnemonic_fmt: "invalid", mnemonic_tail: "", cycles: (4, 0), pre_len: 0, op_len: 1, arg_len: 0, group: InsnGroup::Invalid },
        0x0E => Opcode { mnemonic_fmt: "invalid", mnemonic_tail: "", cycles: (4, 0), pre_len: 0, op_len: 1, arg_len: 0, group: InsnGroup::Invalid },
        0x0F => Opcode { mnemonic_fmt: "invalid", mnemonic_tail: "", cycles: (4, 0), pre_len: 0, op_len: 1, arg_len: 0, group: InsnGroup::Invalid },
        0x10 => Opcode { mnemonic_fmt: "invalid", mnemonic_tail: "", cycles: (4, 0), pre_len: 0, op_len: 1, arg_len: 0, group: InsnGroup::Invalid },
        0x11 => Opcode { mnemonic_fmt: "invalid", mnemonic_tail: "", cycles: (4, 0), pre_len: 0, op_len: 1, arg_len: 0, group: InsnGroup::Invalid },
        0x12 => Opcode { mnemonic_fmt: "invalid", mnemonic_tail: "", cycles: (4, 0), pre_len: 0, op_len: 1, arg_len: 0, group: InsnGroup::Invalid },
        0x13 => Opcode { mnemonic_fmt: "invalid", mnemonic_tail: "", cycles: (4, 0), pre_len: 0, op_len: 1, arg_len: 0, group: InsnGroup::Invalid },
        0x14 => Opcode { mnemonic_fmt: "invalid", mnemonic_tail: "", cycles: (4, 0), pre_len: 0, op_len: 1, arg_len: 0, group: InsnGroup::Invalid },
        0x15 => Opcode { mnemonic_fmt: "invalid", mnemonic_tail: "", cycles: (4, 0), pre_len: 0, op_len: 1, arg_len: 0, group: InsnGroup::Invalid },
        0x16 => Opcode { mnemonic_fmt: "invalid", mnemonic_tail: "", cycles: (4, 0), pre_len: 0, op_len: 1, arg_len: 0, group: InsnGroup::Invalid },
        0x17 => Opcode { mnemonic_fmt: "invalid", mnemonic_tail: "", cycles: (4, 0), pre_len: 0, op_len: 1, arg_len: 0, group: InsnGroup::Invalid },
        0x18 => Opcode { mnemonic_fmt: "invalid", mnemonic_tail: "", cycles: (4, 0), pre_len: 0, op_len: 1, arg_len: 0, group: InsnGroup::Invalid },
        0x19 => Opcode { mnemonic_fmt: "invalid", mnemonic_tail: "", cycles: (4, 0), pre_len: 0, op_len: 1, arg_len: 0, group: InsnGroup::Invalid },
        0x1A => Opcode { mnemonic_fmt: "invalid", mnemonic_tail: "", cycles: (4, 0), pre_len: 0, op_len: 1, arg_len: 0, group: InsnGroup::Invalid },
        0x1B => Opcode { mnemonic_fmt: "invalid", mnemonic_tail: "", cycles: (4, 0), pre_len: 0, op_len: 1, arg_len: 0, group: InsnGroup::Invalid },
        0x1C => Opcode { mnemonic_fmt: "invalid", mnemonic_tail: "", cycles: (4, 0), pre_len: 0, op_len: 1, arg_len: 0, group: InsnGroup::Invalid },
        0x1D => Opcode { mnemonic_fmt: "invalid", mnemonic_tail: "", cycles: (4, 0), pre_len: 0, op_len: 1, arg_len: 0, group: InsnGroup::Invalid },
        0x1E => Opcode { mnemonic_fmt: "invalid", mnemonic_tail: "", cycles: (4, 0), pre_len: 0, op_len: 1, arg_len: 0, group: InsnGroup::Invalid },
        0x1F => Opcode { mnemonic_fmt: "invalid", mnemonic_tail: "", cycles: (4, 0), pre_len: 0, op_len: 1, arg_len: 0, group: InsnGroup::Invalid },
        0x20 => Opcode { mnemonic_fmt: "invalid", mnemonic_tail: "", cycles: (4, 0), pre_len: 0, op_len: 1, arg_len: 0, group: InsnGroup::Invalid },
        0x21 => Opcode { mnemonic_fmt: "invalid", mnemonic_tail: "", cycles: (4, 0), pre_len: 0, op_len: 1, arg_len: 0, group: InsnGroup::Invalid },
        0x22 => Opcode { mnemonic_fmt: "invalid", mnemonic_tail: "", cycles: (4, 0), pre_len: 0, op_len: 1, arg_len: 0, group: InsnGroup::Invalid },
        0x23 => Opcode { mnemonic_fmt: "invalid", mnemonic_tail: "", cycles: (4, 0), pre_len: 0, op_len: 1, arg_len: 0, group: InsnGroup::Invalid },
        0x24 => Opcode { mnemonic_fmt: "invalid", mnemonic_tail: "", cycles: (4, 0), pre_len: 0, op_len: 1, arg_len: 0, group: InsnGroup::Invalid },
        0x25 => Opcode { mnemonic_fmt: "invalid", mnemonic_tail: "", cycles: (4, 0), pre_len: 0, op_len: 1, arg_len: 0, group: InsnGroup::Invalid },
        0x26 => Opcode { mnemonic_fmt: "invalid", mnemonic_tail: "", cycles: (4, 0), pre_len: 0, op_len: 1, arg_len: 0, group: InsnGroup::Invalid },
        0x27 => Opcode { mnemonic_fmt: "invalid", mnemonic_tail: "", cycles: (4, 0), pre_len: 0, op_len: 1, arg_len: 0, group: InsnGroup::Invalid },
        0x28 => Opcode { mnemonic_fmt: "invalid", mnemonic_tail: "", cycles: (4, 0), pre_len: 0, op_len: 1, arg_len: 0, group: InsnGroup::Invalid },
        0x29 => Opcode { mnemonic_fmt: "invalid", mnemonic_tail: "", cycles: (4, 0), pre_len: 0, op_len: 1, arg_len: 0, group: InsnGroup::Invalid },
        0x2A => Opcode { mnemonic_fmt: "invalid", mnemonic_tail: "", cycles: (4, 0), pre_len: 0, op_len: 1, arg_len: 0, group: InsnGroup::Invalid },
        0x2B => Opcode { mnemonic_fmt: "invalid", mnemonic_tail: "", cycles: (4, 0), pre_len: 0, op_len: 1, arg_len: 0, group: InsnGroup::Invalid },
        0x2C => Opcode { mnemonic_fmt: "invalid", mnemonic_tail: "", cycles: (4, 0), pre_len: 0, op_len: 1, arg_len: 0, group: InsnGroup::Invalid },
        0x2D => Opcode { mnemonic_fmt: "invalid", mnemonic_tail: "", cycles: (4, 0), pre_len: 0, op_len: 1, arg_len: 0, group: InsnGroup::Invalid },
        0x2E => Opcode { mnemonic_fmt: "invalid", mnemonic_tail: "", cycles: (4, 0), pre_len: 0, op_len: 1, arg_len: 0, group: InsnGroup::Invalid },
        0x2F => Opcode { mnemonic_fmt: "invalid", mnemonic_tail: "", cycles: (4, 0), pre_len: 0, op_len: 1, arg_len: 0, group: InsnGroup::Invalid },
        0x30 => Opcode { mnemonic_fmt: "invalid", mnemonic_tail: "", cycles: (4, 0), pre_len: 0, op_len: 1, arg_len: 0, group: InsnGroup::Invalid },
        0x31 => Opcode { mnemonic_fmt: "invalid", mnemonic_tail: "", cycles: (4, 0), pre_len: 0, op_len: 1, arg_len: 0, group: InsnGroup::Invalid },
        0x32 => Opcode { mnemonic_fmt: "invalid", mnemonic_tail: "", cycles: (4, 0), pre_len: 0, op_len: 1, arg_len: 0, group: InsnGroup::Invalid },
        0x33 => Opcode { mnemonic_fmt: "invalid", mnemonic_tail: "", cycles: (4, 0), pre_len: 0, op_len: 1, arg_len: 0, group: InsnGroup::Invalid },
        0x34 => Opcode { mnemonic_fmt: "invalid", mnemonic_tail: "", cycles: (4, 0), pre_len: 0, op_len: 1, arg_len: 0, group: InsnGroup::Invalid },
        0x35 => Opcode { mnemonic_fmt: "invalid", mnemonic_tail: "", cycles: (4, 0), pre_len: 0, op_len: 1, arg_len: 0, group: InsnGroup::Invalid },
        0x36 => Opcode { mnemonic_fmt: "invalid", mnemonic_tail: "", cycles: (4, 0), pre_len: 0, op_len: 1, arg_len: 0, group: InsnGroup::Invalid },
        0x37 => Opcode { mnemonic_fmt: "invalid", mnemonic_tail: "", cycles: (4, 0), pre_len: 0, op_len: 1, arg_len: 0, group: InsnGroup::Invalid },
        0x38 => Opcode { mnemonic_fmt: "invalid", mnemonic_tail: "", cycles: (4, 0), pre_len: 0, op_len: 1, arg_len: 0, group: InsnGroup::Invalid },
        0x39 => Opcode { mnemonic_fmt: "invalid", mnemonic_tail: "", cycles: (4, 0), pre_len: 0, op_len: 1, arg_len: 0, group: InsnGroup::Invalid },
        0x3A => Opcode { mnemonic_fmt: "invalid", mnemonic_tail: "", cycles: (4, 0), pre_len: 0, op_len: 1, arg_len: 0, group: InsnGroup::Invalid },
        0x3B => Opcode { mnemonic_fmt: "invalid", mnemonic_tail: "", cycles: (4, 0), pre_len: 0, op_len: 1, arg_len: 0, group: InsnGroup::Invalid },
        0x3C => Opcode { mnemonic_fmt: "invalid", mnemonic_tail: "", cycles: (4, 0), pre_len: 0, op_len: 1, arg_len: 0, group: InsnGroup::Invalid },
        0x3D => Opcode { mnemonic_fmt: "invalid", mnemonic_tail: "", cycles: (4, 0), pre_len: 0, op_len: 1, arg_len: 0, group: InsnGroup::Invalid },
        0x3E => Opcode { mnemonic_fmt: "invalid", mnemonic_tail: "", cycles: (4, 0), pre_len: 0, op_len: 1, arg_len: 0, group: InsnGroup::Invalid },
        0x3F => Opcode { mnemonic_fmt: "invalid", mnemonic_tail: "", cycles: (4, 0), pre_len: 0, op_len: 1, arg_len: 0, group: InsnGroup::Invalid },
        0x40 => Opcode { mnemonic_fmt: "in b, (c)", mnemonic_tail: "", cycles: (12, 0), pre_len: 1, op_len: 1, arg_len: 0, group: InsnGroup::Regular },
        0x41 => Opcode { mnemonic_fmt: "out (c), b", mnemonic_tail: "", cycles: (12, 0), pre_len: 1, op_len: 1, arg_len: 0, group: InsnGroup::Regular },
        0x42 => Opcode { mnemonic_fmt: "sbc hl, bc", mnemonic_tail: "", cycles: (15, 0), pre_len: 1, op_len: 1, arg_len: 0, group: InsnGroup::Regular },
        0x43 => Opcode { mnemonic_fmt: "ld ($", mnemonic_tail: "), bc", cycles: (20, 0), pre_len: 1, op_len: 1, arg_len: 2, group: InsnGroup::Regular },
        0x44 => Opcode { mnemonic_fmt: "neg", mnemonic_tail: "", cycles: (8, 0), pre_len: 1, op_len: 1, arg_len: 0, group: InsnGroup::Regular },
        0x45 => Opcode { mnemonic_fmt: "retn", mnemonic_tail: "", cycles: (14, 0), pre_len: 1, op_len: 1, arg_len: 0, group: InsnGroup::Iret },
        0x46 => Opcode { mnemonic_fmt: "im 0", mnemonic_tail: "", cycles: (8, 0), pre_len: 1, op_len: 1, arg_len: 0, group: InsnGroup::Regular },
        0x47 => Opcode { mnemonic_fmt: "ld i, a", mnemonic_tail: "", cycles: (9, 0), pre_len: 1, op_len: 1, arg_len: 0, group: InsnGroup::Regular },
        0x48 => Opcode { mnemonic_fmt: "in c, (c)", mnemonic_tail: "", cycles: (12, 0), pre_len: 1, op_len: 1, arg_len: 0, group: InsnGroup::Regular },
        0x49 => Opcode { mnemonic_fmt: "out (c), c", mnemonic_tail: "", cycles: (12, 0), pre_len: 1, op_len: 1, arg_len: 0, group: InsnGroup::Regular },
        0x4A => Opcode { mnemonic_fmt: "adc hl, bc", mnemonic_tail: "", cycles: (15, 0), pre_len: 1, op_len: 1, arg_len: 0, group: InsnGroup::Regular },
        0x4B => Opcode { mnemonic_fmt: "ld bc, ($", mnemonic_tail: ")", cycles: (20, 0), pre_len: 1, op_len: 1, arg_len: 2, group: InsnGroup::Regular },
        0x4C => Opcode { mnemonic_fmt: "invalid", mnemonic_tail: "", cycles: (4, 0), pre_len: 0, op_len: 1, arg_len: 0, group: InsnGroup::Invalid },
        0x4D => Opcode { mnemonic_fmt: "reti", mnemonic_tail: "", cycles: (14, 0), pre_len: 1, op_len: 1, arg_len: 0, group: InsnGroup::Iret },
        0x4E => Opcode { mnemonic_fmt: "invalid", mnemonic_tail: "", cycles: (4, 0), pre_len: 0, op_len: 1, arg_len: 0, group: InsnGroup::Invalid },
        0x4F => Opcode { mnemonic_fmt: "ld r, a", mnemonic_tail: "", cycles: (9, 0), pre_len: 1, op_len: 1, arg_len: 0, group: InsnGroup::Regular },
        0x50 => Opcode { mnemonic_fmt: "in d, (c)", mnemonic_tail: "", cycles: (12, 0), pre_len: 1, op_len: 1, arg_len: 0, group: InsnGroup::Regular },
        0x51 => Opcode { mnemonic_fmt: "out (c), d", mnemonic_tail: "", cycles: (12, 0), pre_len: 1, op_len: 1, arg_len: 0, group: InsnGroup::Regular },
        0x52 => Opcode { mnemonic_fmt: "sbc hl, de", mnemonic_tail: "", cycles: (15, 0), pre_len: 1, op_len: 1, arg_len: 0, group: InsnGroup::Regular },
        0x53 => Opcode { mnemonic_fmt: "ld ($", mnemonic_tail: "), de", cycles: (20, 0), pre_len: 1, op_len: 1, arg_len: 2, group: InsnGroup::Regular },
        0x54 => Opcode { mnemonic_fmt: "invalid", mnemonic_tail: "", cycles: (4, 0), pre_len: 0, op_len: 1, arg_len: 0, group: InsnGroup::Invalid },
        0x55 => Opcode { mnemonic_fmt: "invalid", mnemonic_tail: "", cycles: (4, 0), pre_len: 0, op_len: 1, arg_len: 0, group: InsnGroup::Invalid },
        0x56 => Opcode { mnemonic_fmt: "im 1", mnemonic_tail: "", cycles: (8, 0), pre_len: 1, op_len: 1, arg_len: 0, group: InsnGroup::Regular },
        0x57 => Opcode { mnemonic_fmt: "ld a, i", mnemonic_tail: "", cycles: (9, 0), pre_len: 1, op_len: 1, arg_len: 0, group: InsnGroup::Regular },
        0x58 => Opcode { mnemonic_fmt: "in e, (c)", mnemonic_tail: "", cycles: (12, 0), pre_len: 1, op_len: 1, arg_len: 0, group: InsnGroup::Regular },
        0x59 => Opcode { mnemonic_fmt: "out (c), e", mnemonic_tail: "", cycles: (12, 0), pre_len: 1, op_len: 1, arg_len: 0, group: InsnGroup::Regular },
        0x5A => Opcode { mnemonic_fmt: "adc hl, de", mnemonic_tail: "", cycles: (15, 0), pre_len: 1, op_len: 1, arg_len: 0, group: InsnGroup::Regular },
        0x5B => Opcode { mnemonic_fmt: "ld de, ($", mnemonic_tail: ")", cycles: (20, 0), pre_len: 1, op_len: 1, arg_len: 2, group: InsnGroup::Regular },
        0x5C => Opcode { mnemonic_fmt: "invalid", mnemonic_tail: "", cycles: (4, 0), pre_len: 0, op_len: 1, arg_len: 0, group: InsnGroup::Invalid },
        0x5D => Opcode { mnemonic_fmt: "invalid", mnemonic_tail: "", cycles: (4, 0), pre_len: 0, op_len: 1, arg_len: 0, group: InsnGroup::Invalid },
        0x5E => Opcode { mnemonic_fmt: "im 2", mnemonic_tail: "", cycles: (8, 0), pre_len: 1, op_len: 1, arg_len: 0, group: InsnGroup::Regular },
        0x5F => Opcode { mnemonic_fmt: "ld a, r", mnemonic_tail: "", cycles: (9, 0), pre_len: 1, op_len: 1, arg_len: 0, group: InsnGroup::Regular },
        0x60 => Opcode { mnemonic_fmt: "in h, (c)", mnemonic_tail: "", cycles: (12, 0), pre_len: 1, op_len: 1, arg_len: 0, group: InsnGroup::Regular },
        0x61 => Opcode { mnemonic_fmt: "out (c), h", mnemonic_tail: "", cycles: (12, 0), pre_len: 1, op_len: 1, arg_len: 0, group: InsnGroup::Regular },
        0x62 => Opcode { mnemonic_fmt: "sbc hl, hl", mnemonic_tail: "", cycles: (15, 0), pre_len: 1, op_len: 1, arg_len: 0, group: InsnGroup::Regular },
        0x63 => Opcode { mnemonic_fmt: "ld ($", mnemonic_tail: "), hl", cycles: (20, 0), pre_len: 1, op_len: 1, arg_len: 2, group: InsnGroup::Regular },
        0x64 => Opcode { mnemonic_fmt: "invalid", mnemonic_tail: "", cycles: (4, 0), pre_len: 0, op_len: 1, arg_len: 0, group: InsnGroup::Invalid },
        0x65 => Opcode { mnemonic_fmt: "invalid", mnemonic_tail: "", cycles: (4, 0), pre_len: 0, op_len: 1, arg_len: 0, group: InsnGroup::Invalid },
        0x66 => Opcode { mnemonic_fmt: "invalid", mnemonic_tail: "", cycles: (4, 0), pre_len: 0, op_len: 1, arg_len: 0, group: InsnGroup::Invalid },
        0x67 => Opcode { mnemonic_fmt: "rrd", mnemonic_tail: "", cycles: (18, 0), pre_len: 1, op_len: 1, arg_len: 0, group: InsnGroup::Regular },
        0x68 => Opcode { mnemonic_fmt: "in l, (c)", mnemonic_tail: "", cycles: (12, 0), pre_len: 1, op_len: 1, arg_len: 0, group: InsnGroup::Regular },
        0x69 => Opcode { mnemonic_fmt: "out (c), l", mnemonic_tail: "", cycles: (12, 0), pre_len: 1, op_len: 1, arg_len: 0, group: InsnGroup::Regular },
        0x6A => Opcode { mnemonic_fmt: "adc hl, hl", mnemonic_tail: "", cycles: (15, 0), pre_len: 1, op_len: 1, arg_len: 0, group: InsnGroup::Regular },
        0x6B => Opcode { mnemonic_fmt: "ld hl, ($", mnemonic_tail: ")", cycles: (20, 0), pre_len: 1, op_len: 1, arg_len: 2, group: InsnGroup::Regular },
        0x6C => Opcode { mnemonic_fmt: "invalid", mnemonic_tail: "", cycles: (4, 0), pre_len: 0, op_len: 1, arg_len: 0, group: InsnGroup::Invalid },
        0x6D => Opcode { mnemonic_fmt: "invalid", mnemonic_tail: "", cycles: (4, 0), pre_len: 0, op_len: 1, arg_len: 0, group: InsnGroup::Invalid },
        0x6E => Opcode { mnemonic_fmt: "invalid", mnemonic_tail: "", cycles: (4, 0), pre_len: 0, op_len: 1, arg_len: 0, group: InsnGroup::Invalid },
        0x6F => Opcode { mnemonic_fmt: "rld", mnemonic_tail: "", cycles: (18, 0), pre_len: 1, op_len: 1, arg_len: 0, group: InsnGroup::Regular },
        0x70 => Opcode { mnemonic_fmt: "invalid", mnemonic_tail: "", cycles: (4, 0), pre_len: 0, op_len: 1, arg_len: 0, group: InsnGroup::Invalid },
        0x71 => Opcode { mnemonic_fmt: "invalid", mnemonic_tail: "", cycles: (4, 0), pre_len: 0, op_len: 1, arg_len: 0, group: InsnGroup::Invalid },
        0x72 => Opcode { mnemonic_fmt: "sbc hl, sp", mnemonic_tail: "", cycles: (15, 0), pre_len: 1, op_len: 1, arg_len: 0, group: InsnGroup::Regular },
        0x73 => Opcode { mnemonic_fmt: "ld ($", mnemonic_tail: "), sp", cycles: (20, 0), pre_len: 1, op_len: 1, arg_len: 2, group: InsnGroup::Regular },
        0x74 => Opcode { mnemonic_fmt: "invalid", mnemonic_tail: "", cycles: (4, 0), pre_len: 0, op_len: 1, arg_len: 0, group: InsnGroup::Invalid },
        0x75 => Opcode { mnemonic_fmt: "invalid", mnemonic_tail: "", cycles: (4, 0), pre_len: 0, op_len: 1, arg_len: 0, group: InsnGroup::Invalid },
        0x76 => Opcode { mnemonic_fmt: "invalid", mnemonic_tail: "", cycles: (4, 0), pre_len: 0, op_len: 1, arg_len: 0, group: InsnGroup::Invalid },
        0x77 => Opcode { mnemonic_fmt: "invalid", mnemonic_tail: "", cycles: (4, 0), pre_len: 0, op_len: 1, arg_len: 0, group: InsnGroup::Invalid },
        0x78 => Opcode { mnemonic_fmt: "in a, (c)", mnemonic_tail: "", cycles: (12, 0), pre_len: 1, op_len: 1, arg_len: 0, group: InsnGroup::Regular },
        0x79 => Opcode { mnemonic_fmt: "out (c), a", mnemonic_tail: "", cycles: (12, 0), pre_len: 1, op_len: 1, arg_len: 0, group: InsnGroup::Regular },
        0x7A => Opcode { mnemonic_fmt: "adc hl, sp", mnemonic_tail: "", cycles: (15, 0), pre_len: 1, op_len: 1, arg_len: 0, group: InsnGroup::Regular },
        0x7B => Opcode { mnemonic_fmt: "ld sp, ($", mnemonic_tail: ")", cycles: (20, 0), pre_len: 1, op_len: 1, arg_len: 2, group: InsnGroup::Regular },
        0x7C => Opcode { mnemonic_fmt: "invalid", mnemonic_tail: "", cycles: (4, 0), pre_len: 0, op_len: 1, arg_len: 0, group: InsnGroup::Invalid },
        0x7D => Opcode { mnemonic_fmt: "invalid", mnemonic_tail: "", cycles: (4, 0), pre_len: 0, op_len: 1, arg_len: 0, group: InsnGroup::Invalid },
        0x7E => Opcode { mnemonic_fmt: "invalid", mnemonic_tail: "", cycles: (4, 0), pre_len: 0, op_len: 1, arg_len: 0, group: InsnGroup::Invalid },
        0x7F => Opcode { mnemonic_fmt: "invalid", mnemonic_tail: "", cycles: (4, 0), pre_len: 0, op_len: 1, arg_len: 0, group: InsnGroup::Invalid },
        0x80 => Opcode { mnemonic_fmt: "invalid", mnemonic_tail: "", cycles: (4, 0), pre_len: 0, op_len: 1, arg_len: 0, group: InsnGroup::Invalid },
        0x81 => Opcode { mnemonic_fmt: "invalid", mnemonic_tail: "", cycles: (4, 0), pre_len: 0, op_len: 1, arg_len: 0, group: InsnGroup::Invalid },
        0x82 => Opcode { mnemonic_fmt: "invalid", mnemonic_tail: "", cycles: (4, 0), pre_len: 0, op_len: 1, arg_len: 0, group: InsnGroup::Invalid },
        0x83 => Opcode { mnemonic_fmt: "invalid", mnemonic_tail: "", cycles: (4, 0), pre_len: 0, op_len: 1, arg_len: 0, group: InsnGroup::Invalid },
        0x84 => Opcode { mnemonic_fmt: "invalid", mnemonic_tail: "", cycles: (4, 0), pre_len: 0, op_len: 1, arg_len: 0, group: InsnGroup::Invalid },
        0x85 => Opcode { mnemonic_fmt: "invalid", mnemonic_tail: "", cycles: (4, 0), pre_len: 0, op_len: 1, arg_len: 0, group: InsnGroup::Invalid },
        0x86 => Opcode { mnemonic_fmt: "invalid", mnemonic_tail: "", cycles: (4, 0), pre_len: 0, op_len: 1, arg_len: 0, group: InsnGroup::Invalid },
        0x87 => Opcode { mnemonic_fmt: "invalid", mnemonic_tail: "", cycles: (4, 0), pre_len: 0, op_len: 1, arg_len: 0, group: InsnGroup::Invalid },
        0x88 => Opcode { mnemonic_fmt: "invalid", mnemonic_tail: "", cycles: (4, 0), pre_len: 0, op_len: 1, arg_len: 0, group: InsnGroup::Invalid },
        0x89 => Opcode { mnemonic_fmt: "invalid", mnemonic_tail: "", cycles: (4, 0), pre_len: 0, op_len: 1, arg_len: 0, group: InsnGroup::Invalid },
        0x8A => Opcode { mnemonic_fmt: "invalid", mnemonic_tail: "", cycles: (4, 0), pre_len: 0, op_len: 1, arg_len: 0, group: InsnGroup::Invalid },
        0x8B => Opcode { mnemonic_fmt: "invalid", mnemonic_tail: "", cycles: (4, 0), pre_len: 0, op_len: 1, arg_len: 0, group: InsnGroup::Invalid },
        0x8C => Opcode { mnemonic_fmt: "invalid", mnemonic_tail: "", cycles: (4, 0), pre_len: 0, op_len: 1, arg_len: 0, group: InsnGroup::Invalid },
        0x8D => Opcode { mnemonic_fmt: "invalid", mnemonic_tail: "", cycles: (4, 0), pre_len: 0, op_len: 1, arg_len: 0, group: InsnGroup::Invalid },
        0x8E => Opcode { mnemonic_fmt: "invalid", mnemonic_tail: "", cycles: (4, 0), pre_len: 0, op_len: 1, arg_len: 0, group: InsnGroup::Invalid },
        0x8F => Opcode { mnemonic_fmt: "invalid", mnemonic_tail: "", cycles: (4, 0), pre_len: 0, op_len: 1, arg_len: 0, group: InsnGroup::Invalid },
        0x90 => Opcode { mnemonic_fmt: "invalid", mnemonic_tail: "", cycles: (4, 0), pre_len: 0, op_len: 1, arg_len: 0, group: InsnGroup::Invalid },
        0x91 => Opcode { mnemonic_fmt: "invalid", mnemonic_tail: "", cycles: (4, 0), pre_len: 0, op_len: 1, arg_len: 0, group: InsnGroup::Invalid },
        0x92 => Opcode { mnemonic_fmt: "invalid", mnemonic_tail: "", cycles: (4, 0), pre_len: 0, op_len: 1, arg_len: 0, group: InsnGroup::Invalid },
        0x93 => Opcode { mnemonic_fmt: "invalid", mnemonic_tail: "", cycles: (4, 0), pre_len: 0, op_len: 1, arg_len: 0, group: InsnGroup::Invalid },
        0x94 => Opcode { mnemonic_fmt: "invalid", mnemonic_tail: "", cycles: (4, 0), pre_len: 0, op_len: 1, arg_len: 0, group: InsnGroup::Invalid },
        0x95 => Opcode { mnemonic_fmt: "invalid", mnemonic_tail: "", cycles: (4, 0), pre_len: 0, op_len: 1, arg_len: 0, group: InsnGroup::Invalid },
        0x96 => Opcode { mnemonic_fmt: "invalid", mnemonic_tail: "", cycles: (4, 0), pre_len: 0, op_len: 1, arg_len: 0, group: InsnGroup::Invalid },
        0x97 => Opcode { mnemonic_fmt: "invalid", mnemonic_tail: "", cycles: (4, 0), pre_len: 0, op_len: 1, arg_len: 0, group: InsnGroup::Invalid },
        0x98 => Opcode { mnemonic_fmt: "invalid", mnemonic_tail: "", cycles: (4, 0), pre_len: 0, op_len: 1, arg_len: 0, group: InsnGroup::Invalid },
        0x99 => Opcode { mnemonic_fmt: "invalid", mnemonic_tail: "", cycles: (4, 0), pre_len: 0, op_len: 1, arg_len: 0, group: InsnGroup::Invalid },
        0x9A => Opcode { mnemonic_fmt: "invalid", mnemonic_tail: "", cycles: (4, 0), pre_len: 0, op_len: 1, arg_len: 0, group: InsnGroup::Invalid },
        0x9B => Opcode { mnemonic_fmt: "invalid", mnemonic_tail: "", cycles: (4, 0), pre_len: 0, op_len: 1, arg_len: 0, group: InsnGroup::Invalid },
        0x9C => Opcode { mnemonic_fmt: "invalid", mnemonic_tail: "", cycles: (4, 0), pre_len: 0, op_len: 1, arg_len: 0, group: InsnGroup::Invalid },
        0x9D => Opcode { mnemonic_fmt: "invalid", mnemonic_tail: "", cycles: (4, 0), pre_len: 0, op_len: 1, arg_len: 0, group: InsnGroup::Invalid },
        0x9E => Opcode { mnemonic_fmt: "invalid", mnemonic_tail: "", cycles: (4, 0), pre_len: 0, op_len: 1, arg_len: 0, group: InsnGroup::Invalid },
        0x9F => Opcode { mnemonic_fmt: "invalid", mnemonic_tail: "", cycles: (4, 0), pre_len: 0, op_len: 1, arg_len: 0, group: InsnGroup::Invalid },
        0xA0 => Opcode { mnemonic_fmt: "ldi", mnemonic_tail: "", cycles: (16, 0), pre_len: 1, op_len: 1, arg_len: 0, group: InsnGroup::Regular },
        0xA1 => Opcode { mnemonic_fmt: "cpi", mnemonic_tail: "", cycles: (16, 0), pre_len: 1, op_len: 1, arg_len: 0, group: InsnGroup::Regular },
        0xA2 => Opcode { mnemonic_fmt: "ini", mnemonic_tail: "", cycles: (16, 0), pre_len: 1, op_len: 1, arg_len: 0, group: InsnGroup::Regular },
        0xA3 => Opcode { mnemonic_fmt: "outi", mnemonic_tail: "", cycles: (16, 0), pre_len: 1, op_len: 1, arg_len: 0, group: InsnGroup::Regular },
        0xA4 => Opcode { mnemonic_fmt: "invalid", mnemonic_tail: "", cycles: (4, 0), pre_len: 0, op_len: 1, arg_len: 0, group: InsnGroup::Invalid },
        0xA5 => Opcode { mnemonic_fmt: "invalid", mnemonic_tail: "", cycles: (4, 0), pre_len: 0, op_len: 1, arg_len: 0, group: InsnGroup::Invalid },
        0xA6 => Opcode { mnemonic_fmt: "invalid", mnemonic_tail: "", cycles: (4, 0), pre_len: 0, op_len: 1, arg_len: 0, group: InsnGroup::Invalid },
        0xA7 => Opcode { mnemonic_fmt: "invalid", mnemonic_tail: "", cycles: (4, 0), pre_len: 0, op_len: 1, arg_len: 0, group: InsnGroup::Invalid },
        0xA8 => Opcode { mnemonic_fmt: "ldd", mnemonic_tail: "", cycles: (16, 0), pre_len: 1, op_len: 1, arg_len: 0, group: InsnGroup::Regular },
        0xA9 => Opcode { mnemonic_fmt: "cpd", mnemonic_tail: "", cycles: (16, 0), pre_len: 1, op_len: 1, arg_len: 0, group: InsnGroup::Regular },
        0xAA => Opcode { mnemonic_fmt: "ind", mnemonic_tail: "", cycles: (16, 0), pre_len: 1, op_len: 1, arg_len: 0, group: InsnGroup::Regular },
        0xAB => Opcode { mnemonic_fmt: "outd", mnemonic_tail: "", cycles: (16, 0), pre_len: 1, op_len: 1, arg_len: 0, group: InsnGroup::Regular },
        0xAC => Opcode { mnemonic_fmt: "invalid", mnemonic_tail: "", cycles: (4, 0), pre_len: 0, op_len: 1, arg_len: 0, group: InsnGroup::Invalid },
        0xAD => Opcode { mnemonic_fmt: "invalid", mnemonic_tail: "", cycles: (4, 0), pre_len: 0, op_len: 1, arg_len: 0, group: InsnGroup::Invalid },
        0xAE => Opcode { mnemonic_fmt: "invalid", mnemonic_tail: "", cycles: (4, 0), pre_len: 0, op_len: 1, arg_len: 0, group: InsnGroup::Invalid },
        0xAF => Opcode { mnemonic_fmt: "invalid", mnemonic_tail: "", cycles: (4, 0), pre_len: 0, op_len: 1, arg_len: 0, group: InsnGroup::Invalid },
        0xB0 => Opcode { mnemonic_fmt: "ldir", mnemonic_tail: "", cycles: (16, 5), pre_len: 1, op_len: 1, arg_len: 0, group: InsnGroup::Regular },
        0xB1 => Opcode { mnemonic_fmt: "cpir", mnemonic_tail: "", cycles: (16, 5), pre_len: 1, op_len: 1, arg_len: 0, group: InsnGroup::Regular },
        0xB2 => Opcode { mnemonic_fmt: "inir", mnemonic_tail: "", cycles: (16, 5), pre_len: 1, op_len: 1, arg_len: 0, group: InsnGroup::Regular },
        0xB3 => Opcode { mnemonic_fmt: "otir", mnemonic_tail: "", cycles: (16, 5), pre_len: 1, op_len: 1, arg_len: 0, group: InsnGroup::Regular },
        0xB4 => Opcode { mnemonic_fmt: "invalid", mnemonic_tail: "", cycles: (4, 0), pre_len: 0, op_len: 1, arg_len: 0, group: InsnGroup::Invalid },
        0xB5 => Opcode { mnemonic_fmt: "invalid", mnemonic_tail: "", cycles: (4, 0), pre_len: 0, op_len: 1, arg_len: 0, group: InsnGroup::Invalid },
        0xB6 => Opcode { mnemonic_fmt: "invalid", mnemonic_tail: "", cycles: (4, 0), pre_len: 0, op_len: 1, arg_len: 0, group: InsnGroup::Invalid },
        0xB7 => Opcode { mnemonic_fmt: "invalid", mnemonic_tail: "", cycles: (4, 0), pre_len: 0, op_len: 1, arg_len: 0, group: InsnGroup::Invalid },
        0xB8 => Opcode { mnemonic_fmt: "lddr", mnemonic_tail: "", cycles: (16, 5), pre_len: 1, op_len: 1, arg_len: 0, group: InsnGroup::Regular },
        0xB9 => Opcode { mnemonic_fmt: "cpdr", mnemonic_tail: "", cycles: (16, 5), pre_len: 1, op_len: 1, arg_len: 0, group: InsnGroup::Regular },
        0xBA => Opcode { mnemonic_fmt: "indr", mnemonic_tail: "", cycles: (16, 5), pre_len: 1, op_len: 1, arg_len: 0, group: InsnGroup::Regular },
        0xBB => Opcode { mnemonic_fmt: "otdr", mnemonic_tail: "", cycles: (16, 5), pre_len: 1, op_len: 1, arg_len: 0, group: InsnGroup::Regular },
        0xBC => Opcode { mnemonic_fmt: "invalid", mnemonic_tail: "", cycles: (4, 0), pre_len: 0, op_len: 1, arg_len: 0, group: InsnGroup::Invalid },
        0xBD => Opcode { mnemonic_fmt: "invalid", mnemonic_tail: "", cycles: (4, 0), pre_len: 0, op_len: 1, arg_len: 0, group: InsnGroup::Invalid },
        0xBE => Opcode { mnemonic_fmt: "invalid", mnemonic_tail: "", cycles: (4, 0), pre_len: 0, op_len: 1, arg_len: 0, group: InsnGroup::Invalid },
        0xBF => Opcode { mnemonic_fmt: "invalid", mnemonic_tail: "", cycles: (4, 0), pre_len: 0, op_len: 1, arg_len: 0, group: InsnGroup::Invalid },
        0xC0 => Opcode { mnemonic_fmt: "invalid", mnemonic_tail: "", cycles: (4, 0), pre_len: 0, op_len: 1, arg_len: 0, group: InsnGroup::Invalid },
        0xC1 => Opcode { mnemonic_fmt: "invalid", mnemonic_tail: "", cycles: (4, 0), pre_len: 0, op_len: 1, arg_len: 0, group: InsnGroup::Invalid },
        0xC2 => Opcode { mnemonic_fmt: "invalid", mnemonic_tail: "", cycles: (4, 0), pre_len: 0, op_len: 1, arg_len: 0, group: InsnGroup::Invalid },
        0xC3 => Opcode { mnemonic_fmt: "invalid", mnemonic_tail: "", cycles: (4, 0), pre_len: 0, op_len: 1, arg_len: 0, group: InsnGroup::Invalid },
        0xC4 => Opcode { mnemonic_fmt: "invalid", mnemonic_tail: "", cycles: (4, 0), pre_len: 0, op_len: 1, arg_len: 0, group: InsnGroup::Invalid },
        0xC5 => Opcode { mnemonic_fmt: "invalid", mnemonic_tail: "", cycles: (4, 0), pre_len: 0, op_len: 1, arg_len: 0, group: InsnGroup::Invalid },
        0xC6 => Opcode { mnemonic_fmt: "invalid", mnemonic_tail: "", cycles: (4, 0), pre_len: 0, op_len: 1, arg_len: 0, group: InsnGroup::Invalid },
        0xC7 => Opcode { mnemonic_fmt: "invalid", mnemonic_tail: "", cycles: (4, 0), pre_len: 0, op_len: 1, arg_len: 0, group: InsnGroup::Invalid },
        0xC8 => Opcode { mnemonic_fmt: "invalid", mnemonic_tail: "", cycles: (4, 0), pre_len: 0, op_len: 1, arg_len: 0, group: InsnGroup::Invalid },
        0xC9 => Opcode { mnemonic_fmt: "invalid", mnemonic_tail: "", cycles: (4, 0), pre_len: 0, op_len: 1, arg_len: 0, group: InsnGroup::Invalid },
        0xCA => Opcode { mnemonic_fmt: "invalid", mnemonic_tail: "", cycles: (4, 0), pre_len: 0, op_len: 1, arg_len: 0, group: InsnGroup::Invalid },
        0xCB => Opcode { mnemonic_fmt: "invalid", mnemonic_tail: "", cycles: (4, 0), pre_len: 0, op_len: 1, arg_len: 0, group: InsnGroup::Invalid },
        0xCC => Opcode { mnemonic_fmt: "invalid", mnemonic_tail: "", cycles: (4, 0), pre_len: 0, op_len: 1, arg_len: 0, group: InsnGroup::Invalid },
        0xCD => Opcode { mnemonic_fmt: "invalid", mnemonic_tail: "", cycles: (4, 0), pre_len: 0, op_len: 1, arg_len: 0, group: InsnGroup::Invalid },
        0xCE => Opcode { mnemonic_fmt: "invalid", mnemonic_tail: "", cycles: (4, 0), pre_len: 0, op_len: 1, arg_len: 0, group: InsnGroup::Invalid },
        0xCF => Opcode { mnemonic_fmt: "invalid", mnemonic_tail: "", cycles: (4, 0), pre_len: 0, op_len: 1, arg_len: 0, group: InsnGroup::Invalid },
        0xD0 => Opcode { mnemonic_fmt: "invalid", mnemonic_tail: "", cycles: (4, 0), pre_len: 0, op_len: 1, arg_len: 0, group: InsnGroup::Invalid },
        0xD1 => Opcode { mnemonic_fmt: "invalid", mnemonic_tail: "", cycles: (4, 0), pre_len: 0, op_len: 1, arg_len: 0, group: InsnGroup::Invalid },
        0xD2 => Opcode { mnemonic_fmt: "invalid", mnemonic_tail: "", cycles: (4, 0), pre_len: 0, op_len: 1, arg_len: 0, group: InsnGroup::Invalid },
        0xD3 => Opcode { mnemonic_fmt: "invalid", mnemonic_tail: "", cycles: (4, 0), pre_len: 0, op_len: 1, arg_len: 0, group: InsnGroup::Invalid },
        0xD4 => Opcode { mnemonic_fmt: "invalid", mnemonic_tail: "", cycles: (4, 0), pre_len: 0, op_len: 1, arg_len: 0, group: InsnGroup::Invalid },
        0xD5 => Opcode { mnemonic_fmt: "invalid", mnemonic_tail: "", cycles: (4, 0), pre_len: 0, op_len: 1, arg_len: 0, group: InsnGroup::Invalid },
        0xD6 => Opcode { mnemonic_fmt: "invalid", mnemonic_tail: "", cycles: (4, 0), pre_len: 0, op_len: 1, arg_len: 0, group: InsnGroup::Invalid },
        0xD7 => Opcode { mnemonic_fmt: "invalid", mnemonic_tail: "", cycles: (4, 0), pre_len: 0, op_len: 1, arg_len: 0, group: InsnGroup::Invalid },
        0xD8 => Opcode { mnemonic_fmt: "invalid", mnemonic_tail: "", cycles: (4, 0), pre_len: 0, op_len: 1, arg_len: 0, group: InsnGroup::Invalid },
        0xD9 => Opcode { mnemonic_fmt: "invalid", mnemonic_tail: "", cycles: (4, 0), pre_len: 0, op_len: 1, arg_len: 0, group: InsnGroup::Invalid },
        0xDA => Opcode { mnemonic_fmt: "invalid", mnemonic_tail: "", cycles: (4, 0), pre_len: 0, op_len: 1, arg_len: 0, group: InsnGroup::Invalid },
        0xDB => Opcode { mnemonic_fmt: "invalid", mnemonic_tail: "", cycles: (4, 0), pre_len: 0, op_len: 1, arg_len: 0, group: InsnGroup::Invalid },
        0xDC => Opcode { mnemonic_fmt: "invalid", mnemonic_tail: "", cycles: (4, 0), pre_len: 0, op_len: 1, arg_len: 0, group: InsnGroup::Invalid },
        0xDD => Opcode { mnemonic_fmt: "invalid", mnemonic_tail: "", cycles: (4, 0), pre_len: 0, op_len: 1, arg_len: 0, group: InsnGroup::Invalid },
        0xDE => Opcode { mnemonic_fmt: "invalid", mnemonic_tail: "", cycles: (4, 0), pre_len: 0, op_len: 1, arg_len: 0, group: InsnGroup::Invalid },
        0xDF => Opcode { mnemonic_fmt: "invalid", mnemonic_tail: "", cycles: (4, 0), pre_len: 0, op_len: 1, arg_len: 0, group: InsnGroup::Invalid },
        0xE0 => Opcode { mnemonic_fmt: "invalid", mnemonic_tail: "", cycles: (4, 0), pre_len: 0, op_len: 1, arg_len: 0, group: InsnGroup::Invalid },
        0xE1 => Opcode { mnemonic_fmt: "invalid", mnemonic_tail: "", cycles: (4, 0), pre_len: 0, op_len: 1, arg_len: 0, group: InsnGroup::Invalid },
        0xE2 => Opcode { mnemonic_fmt: "invalid", mnemonic_tail: "", cycles: (4, 0), pre_len: 0, op_len: 1, arg_len: 0, group: InsnGroup::Invalid },
        0xE3 => Opcode { mnemonic_fmt: "invalid", mnemonic_tail: "", cycles: (4, 0), pre_len: 0, op_len: 1, arg_len: 0, group: InsnGroup::Invalid },
        0xE4 => Opcode { mnemonic_fmt: "invalid", mnemonic_tail: "", cycles: (4, 0), pre_len: 0, op_len: 1, arg_len: 0, group: InsnGroup::Invalid },
        0xE5 => Opcode { mnemonic_fmt: "invalid", mnemonic_tail: "", cycles: (4, 0), pre_len: 0, op_len: 1, arg_len: 0, group: InsnGroup::Invalid },
        0xE6 => Opcode { mnemonic_fmt: "invalid", mnemonic_tail: "", cycles: (4, 0), pre_len: 0, op_len: 1, arg_len: 0, group: InsnGroup::Invalid },
        0xE7 => Opcode { mnemonic_fmt: "invalid", mnemonic_tail: "", cycles: (4, 0), pre_len: 0, op_len: 1, arg_len: 0, group: InsnGroup::Invalid },
        0xE8 => Opcode { mnemonic_fmt: "invalid", mnemonic_tail: "", cycles: (4, 0), pre_len: 0, op_len: 1, arg_len: 0, group: InsnGroup::Invalid },
        0xE9 => Opcode { mnemonic_fmt: "invalid", mnemonic_tail: "", cycles: (4, 0), pre_len: 0, op_len: 1, arg_len: 0, group: InsnGroup::Invalid },
        0xEA => Opcode { mnemonic_fmt: "invalid", mnemonic_tail: "", cycles: (4, 0), pre_len: 0, op_len: 1, arg_len: 0, group: InsnGroup::Invalid },
        0xEB => Opcode { mnemonic_fmt: "invalid", mnemonic_tail: "", cycles: (4, 0), pre_len: 0, op_len: 1, arg_len: 0, group: InsnGroup::Invalid },
        0xEC => Opcode { mnemonic_fmt: "invalid", mnemonic_tail: "", cycles: (4, 0), pre_len: 0, op_len: 1, arg_len: 0, group: InsnGroup::Invalid },
        0xED => Opcode { mnemonic_fmt: "invalid", mnemonic_tail: "", cycles: (4, 0), pre_len: 0, op_len: 1, arg_len: 0, group: InsnGroup::Invalid },
        0xEE => Opcode { mnemonic_fmt: "invalid", mnemonic_tail: "", cycles: (4, 0), pre_len: 0, op_len: 1, arg_len: 0, group: InsnGroup::Invalid },
        0xEF => Opcode { mnemonic_fmt: "invalid", mnemonic_tail: "", cycles: (4, 0), pre_len: 0, op_len: 1, arg_len: 0, group: InsnGroup::Invalid },
        0xF0 => Opcode { mnemonic_fmt: "invalid", mnemonic_tail: "", cycles: (4, 0), pre_len: 0, op_len: 1, arg_len: 0, group: InsnGroup::Invalid },
        0xF1 => Opcode { mnemonic_fmt: "invalid", mnemonic_tail: "", cycles: (4, 0), pre_len: 0, op_len: 1, arg_len: 0, group: InsnGroup::Invalid },
        0xF2 => Opcode { mnemonic_fmt: "invalid", mnemonic_tail: "", cycles: (4, 0), pre_len: 0, op_len: 1, arg_len: 0, group: InsnGroup::Invalid },
        0xF3 => Opcode { mnemonic_fmt: "invalid", mnemonic_tail: "", cycles: (4, 0), pre_len: 0, op_len: 1, arg_len: 0, group: InsnGroup::Invalid },
        0xF4 => Opcode { mnemonic_fmt: "invalid", mnemonic_tail: "", cycles: (4, 0), pre_len: 0, op_len: 1, arg_len: 0, group: InsnGroup::Invalid },
        0xF5 => Opcode { mnemonic_fmt: "invalid", mnemonic_tail: "", cycles: (4, 0), pre_len: 0, op_len: 1, arg_len: 0, group: InsnGroup::Invalid },
        0xF6 => Opcode { mnemonic_fmt: "invalid", mnemonic_tail: "", cycles: (4, 0), pre_len: 0, op_len: 1, arg_len: 0, group: InsnGroup::Invalid },
        0xF7 => Opcode { mnemonic_fmt: "invalid", mnemonic_tail: "", cycles: (4, 0), pre_len: 0, op_len: 1, arg_len: 0, group: InsnGroup::Invalid },
        0xF8 => Opcode { mnemonic_fmt: "invalid", mnemonic_tail: "", cycles: (4, 0), pre_len: 0, op_len: 1, arg_len: 0, group: InsnGroup::Invalid },
        0xF9 => Opcode { mnemonic_fmt: "invalid", mnemonic_tail: "", cycles: (4, 0), pre_len: 0, op_len: 1, arg_len: 0, group: InsnGroup::Invalid },
        0xFA => Opcode { mnemonic_fmt: "invalid", mnemonic_tail: "", cycles: (4, 0), pre_len: 0, op_len: 1, arg_len: 0, group: InsnGroup::Invalid },
        0xFB => Opcode { mnemonic_fmt: "invalid", mnemonic_tail: "", cycles: (4, 0), pre_len: 0, op_len: 1, arg_len: 0, group: InsnGroup::Invalid },
        0xFC => Opcode { mnemonic_fmt: "invalid", mnemonic_tail: "", cycles: (4, 0), pre_len: 0, op_len: 1, arg_len: 0, group: InsnGroup::Invalid },
        0xFD => Opcode { mnemonic_fmt: "invalid", mnemonic_tail: "", cycles: (4, 0), pre_len: 0, op_len: 1, arg_len: 0, group: InsnGroup::Invalid },
        0xFE => Opcode { mnemonic_fmt: "invalid", mnemonic_tail: "", cycles: (4, 0), pre_len: 0, op_len: 1, arg_len: 0, group: InsnGroup::Invalid },
        _ => Opcode { mnemonic_fmt: "invalid", mnemonic_tail: "", cycles: (4, 0), pre_len: 0, op_len: 1, arg_len: 0, group: InsnGroup::Invalid },
    }
}

/// Looks up an entry of the table of opcodes after the `0xED` prefix.
pub fn lookup_ed(b: u8) -> (r: Opcode)
    ensures
        r == spec_ed(b),
{
    match b {
        0x00 => Opcode { mnemonic_fmt: "invalid", mnemonic_tail: "", cycles: (4, 0), pre_len: 0, op_len: 1, arg_len: 0, group: InsnGroup::Invalid },
        0x01 => Opcode { mnemonic_fmt: "invalid", mnemonic_tail: "", cycles: (4, 0), pre_len: 0, op_len: 1, arg_len: 0, group: InsnGroup::Invalid },
        0x02 => Opcode { mnemonic_fmt: "invalid", mnemonic_tail: "", cycles: (4, 0), pre_len: 0, op_len: 1, arg_len: 0, group: InsnGroup::Invalid },
        0x03 => Opcode { mnemonic_fmt: "invalid", mnemonic_tail: "", cycles: (4, 0), pre_len: 0, op_len: 1, arg_len: 0, group: InsnGroup::Invalid },
        0x04 => Opcode { mnemonic_fmt: "invalid", mnemonic_tail: "", cycles: (4, 0), pre_len: 0, op_len: 1, arg_len: 0, group: InsnGroup::Invalid },
        0x05 => Opcode { mnemonic_fmt: "invalid", mnemonic_tail: "", cycles: (4, 0), pre_len: 0, op_len: 1, arg_len: 0, group: InsnGroup::Invalid },
        0x06 => Opcode { mnemonic_fmt: "invalid", mnemonic_tail: "", cycles: (4, 0), pre_len: 0, op_len: 1, arg_len: 0, group: InsnGroup::Invalid },
        0x07 => Opcode { mnemonic_fmt: "invalid", mnemonic_tail: "", cycles: (4, 0), pre_len: 0, op_len: 1, arg_len: 0, group: InsnGroup::Invalid },
        0x08 => Opcode { mnemonic_fmt: "invalid", mnemonic_tail: "", cycles: (4, 0), pre_len: 0, op_len: 1, arg_len: 0, group: InsnGroup::Invalid },
        0x09 => Opcode { mnemonic_fmt: "invalid", mnemonic_tail: "", cycles: (4, 0), pre_len: 0, op_len: 1, arg_len: 0, group: InsnGroup::Invalid },
        0x0A => Opcode { mnemonic_fmt: "invalid", mnemonic_tail: "", cycles: (4, 0), pre_len: 0, op_len: 1, arg_len: 0, group: InsnGroup::Invalid },
        0x0B => Opcode { mnemonic_fmt: "invalid", mnemonic_tail: "", cycles: (4, 0), pre_len: 0, op_len: 1, arg_len: 0, group: InsnGroup::Invalid },
        0x0C => Opcode { mnemonic_fmt: "invalid", mnemonic_tail: "", cycles: (4, 0), pre_len: 0, op_len: 1, arg_len: 0, group: InsnGroup::Invalid },
        0x0D => Opcode { mnemonic_fmt: "invalid", mnemonic_tail: "", cycles: (4, 0), pre_len: 0, op_len: 1, arg_len: 0, group: InsnGroup::Invalid },
        0x0E => Opcode { mnemonic_fmt: "invalid", mnemonic_tail: "", cycles: (4, 0), pre_len: 0, op_len: 1, arg_len: 0, group: InsnGroup::Invalid },
        0x0F => Opcode { mnemonic_fmt: "invalid", mnemonic_tail: "", cycles: (4, 0), pre_len: 0, op_len: 1, arg_len: 0, group: InsnGroup::Invalid },
        0x10 => Opcode { mnemonic_fmt: "invalid", mnemonic_tail: "", cycles: (4, 0), pre_len: 0, op_len: 1, arg_len: 0, group: InsnGroup::Invalid },
        0x11 => Opcode { mnemonic_fmt: "invalid", mnemonic_tail: "", cycles: (4, 0), pre_len: 0, op_len: 1, arg_len: 0, group: InsnGroup::Invalid },
        0x12 => Opcode { mnemonic_fmt: "invalid", mnemonic_tail: "", cycles: (4, 0), pre_len: 0, op_len: 1, arg_len: 0, group: InsnGroup::Invalid },
        0x13 => Opcode { mnemonic_fmt: "invalid", mnemonic_tail: "", cycles: (4, 0), pre_len: 0, op_len: 1, arg_len: 0, group: InsnGroup::Invalid },
        0x14 => Opcode { mnemonic_fmt: "invalid", mnemonic_tail: "", cycles: (4, 0), pre_len: 0, op_len: 1, arg_len: 0, group: InsnGroup::Invalid },
        0x15 => Opcode { mnemonic_fmt: "invalid", mnemonic_tail: "", cycles: (4, 0), pre_len: 0, op_len: 1, arg_len: 0, group: InsnGroup::Invalid },
        0x16 => Opcode { mnemonic_fmt: "invalid", mnemonic_tail: "", cycles: (4, 0), pre_len: 0, op_len: 1, arg_len: 0, group: InsnGroup::Invalid },
        0x17 => Opcode { mnemonic_fmt: "invalid", mnemonic_tail: "", cycles: (4, 0), pre_len: 0, op_len: 1, arg_len: 0, group: InsnGroup::Invalid },
        0x18 => Opcode { mnemonic_fmt: "invalid", mnemonic_tail: "", cycles: (4, 0), pre_len: 0, op_len: 1, arg_len: 0, group: InsnGroup::Invalid },
        0x19 => Opcode { mnemonic_fmt: "invalid", mnemonic_tail: "", cycles: (4, 0), pre_len: 0, op_len: 1, arg_len: 0, group: InsnGroup::Invalid },
        0x1A => Opcode { mnemonic_fmt: "invalid", mnemonic_tail: "", cycles: (4, 0), pre_len: 0, op_len: 1, arg_len: 0, group: InsnGroup::Invalid },
        0x1B => Opcode { mnemonic_fmt: "invalid", mnemonic_tail: "", cycles: (4, 0), pre_len: 0, op_len: 1, arg_len: 0, group: InsnGroup::Invalid },
        0x1C => Opcode { mnemonic_fmt: "invalid", mnemonic_tail: "", cycles: (4, 0), pre_len: 0, op_len: 1, arg_len: 0, group: InsnGroup::Invalid },
        0x1D => Opcode { mnemonic_fmt: "invalid", mnemonic_tail: "", cycles: (4, 0), pre_len: 0, op_len: 1, arg_len: 0, group: InsnGroup::Invalid },
        0x1E => Opcode { mnemonic_fmt: "invalid", mnemonic_tail: "", cycles: (4, 0), pre_len: 0, op_len: 1, arg_len: 0, group: InsnGroup::Invalid },
        0x1F => Opcode { mnemonic_fmt: "invalid", mnemonic_tail: "", cycles: (4, 0), pre_len: 0, op_len: 1, arg_len: 0, group: InsnGroup::Invalid },
        0x20 => Opcode { mnemonic_fmt: "invalid", mnemonic_tail: "", cycles: (4, 0), pre_len: 0, op_len: 1, arg_len: 0, group: InsnGroup::Invalid },
        0x21 => Opcode { mnemonic_fmt: "invalid", mnemonic_tail: "", cycles: (4, 0), pre_len: 0, op_len: 1, arg_len: 0, group: InsnGroup::Invalid },
        0x22 => Opcode { mnemonic_fmt: "invalid", mnemonic_tail: "", cycles: (4, 0), pre_len: 0, op_len: 1, arg_len: 0, group: InsnGroup::Invalid },
        0x23 => Opcode { mnemonic_fmt: "invalid", mnemonic_tail: "", cycles: (4, 0), pre_len: 0, op_len: 1, arg_len: 0, group: InsnGroup::Invalid },
        0x24 => Opcode { mnemonic_fmt: "invalid", mnemonic_tail: "", cycles: (4, 0), pre_len: 0, op_len: 1, arg_len: 0, group: InsnGroup::Invalid },
        0x25 => Opcode { mnemonic_fmt: "invalid", mnemonic_tail: "", cycles: (4, 0), pre_len: 0, op_len: 1, arg_len: 0, group: InsnGroup::Invalid },
        0x26 => Opcode { mnemonic_fmt: "invalid", mnemonic_tail: "", cycles: (4, 0), pre_len: 0, op_len: 1, arg_len: 0, group: InsnGroup::Invalid },
        0x27 => Opcode { mnemonic_fmt: "invalid", mnemonic_tail: "", cycles: (4, 0), pre_len: 0, op_len: 1, arg_len: 0, group: InsnGroup::Invalid },
        0x28 => Opcode { mnemonic_fmt: "invalid", mnemonic_tail: "", cycles: (4, 0), pre_len: 0, op_len: 1, arg_len: 0, group: InsnGroup::Invalid },
        0x29 => Opcode { mnemonic_fmt: "invalid", mnemonic_tail: "", cycles: (4, 0), pre_len: 0, op_len: 1, arg_len: 0, group: InsnGroup::Invalid },
        0x2A => Opcode { mnemonic_fmt: "invalid", mnemonic_tail: "", cycles: (4, 0), pre_len: 0, op_len: 1, arg_len: 0, group: InsnGroup::Invalid },
        0x2B => Opcode { mnemonic_fmt: "invalid", mnemonic_tail: "", cycles: (4, 0), pre_len: 0, op_len: 1, arg_len: 0, group: InsnGroup::Invalid },
        0x2C => Opcode { mnemonic_fmt: "invalid", mnemonic_tail: "", cycles: (4, 0), pre_len: 0, op_len: 1, arg_len: 0, group: InsnGroup::Invalid },
        0x2D => Opcode { mnemonic_fmt: "invalid", mnemonic_tail: "", cycles: (4, 0), pre_len: 0, op_len: 1, arg_len: 0, group: InsnGroup::Invalid },
        0x2E => Opcode { mnemonic_fmt: "invalid", mnemonic_tail: "", cycles: (4, 0), pre_len: 0, op_len: 1, arg_len: 0, group: InsnGroup::Invalid },
        0x2F => Opcode { mnemonic_fmt: "invalid", mnemonic_tail: "", cycles: (4, 0), pre_len: 0, op_len: 1, arg_len: 0, group: InsnGroup::Invalid },
        0x30 => Opcode { mnemonic_fmt: "invalid", mnemonic_tail: "", cycles: (4, 0), pre_len: 0, op_len: 1, arg_len: 0, group: InsnGroup::Invalid },
        0x31 => Opcode { mnemonic_fmt: "invalid", mnemonic_tail: "", cycles: (4, 0), pre_len: 0, op_len: 1, arg_len: 0, group: InsnGroup::Invalid },
        0x32 => Opcode { mnemonic_fmt: "invalid", mnemonic_tail: "", cycles: (4, 0), pre_len: 0, op_len: 1, arg_len: 0, group: InsnGroup::Invalid },
        0x33 => Opcode { mnemonic_fmt: "invalid", mnemonic_tail: "", cycles: (4, 0), pre_len: 0, op_len: 1, arg_len: 0, group: InsnGroup::Invalid },
        0x34 => Opcode { mnemonic_fmt: "invalid", mnemonic_tail: "", cycles: (4, 0), pre_len: 0, op_len: 1, arg_len: 0, group: InsnGroup::Invalid },
        0x35 => Opcode { mnemonic_fmt: "invalid", mnemonic_tail: "", cycles: (4, 0), pre_len: 0, op_len: 1, arg_len: 0, group: InsnGroup::Invalid },
        0x36 => Opcode { mnemonic_fmt: "invalid", mnemonic_tail: "", cycles: (4, 0), pre_len: 0, op_len: 1, arg_len: 0, group: InsnGroup::Invalid },
        0x37 => Opcode { mnemonic_fmt: "invalid", mnemonic_tail: "", cycles: (4, 0), pre_len: 0, op_len: 1, arg_len: 0, group: InsnGroup::Invalid },
        0x38 => Opcode { mnemonic_fmt: "invalid", mnemonic_tail: "", cycles: (4, 0), pre_len: 0, op_len: 1, arg_len: 0, group: InsnGroup::Invalid },
        0x39 => Opcode { mnemonic_fmt: "invalid", mnemonic_tail: "", cycles: (4, 0), pre_len: 0, op_len: 1, arg_len: 0, group: InsnGroup::Invalid },
        0x3A => Opcode { mnemonic_fmt: "invalid", mnemonic_tail: "", cycles: (4, 0), pre_len: 0, op_len: 1, arg_len: 0, group: InsnGroup::Invalid },
        0x3B => Opcode { mnemonic_fmt: "invalid", mnemonic_tail: "", cycles: (4, 0), pre_len: 0, op_len: 1, arg_len: 0, group: InsnGroup::Invalid },
        0x3C => Opcode { mnemonic_fmt: "invalid", mnemonic_tail: "", cycles: (4, 0), pre_len: 0, op_len: 1, arg_len: 0, group: InsnGroup::Invalid },
        0x3D => Opcode { mnemonic_fmt: "invalid", mnemonic_tail: "", cycles: (4, 0), pre_len: 0, op_len: 1, arg_len: 0, group: InsnGroup::Invalid },
        0x3E => Opcode { mnemonic_fmt: "invalid", mnemonic_tail: "", cycles: (4, 0), pre_len: 0, op_len: 1, arg_len: 0, group: InsnGroup::Invalid },
        0x3F => Opcode { mnemonic_fmt: "invalid", mnemonic_tail: "", cycles: (4, 0), pre_len: 0, op_len: 1, arg_len: 0, group: InsnGroup::Invalid },
        0x40 => Opcode { mnemonic_fmt: "in b, (c)", mnemonic_tail: "", cycles: (12, 0), pre_len: 1, op_len: 1, arg_len: 0, group: InsnGroup::Regular },
        0x41 => Opcode { mnemonic_fmt: "out (c), b", mnemonic_tail: "", cycles: (12, 0), pre_len: 1, op_len: 1, arg_len: 0, group: InsnGroup::Regular },
        0x42 => Opcode { mnemonic_fmt: "sbc hl, bc", mnemonic_tail: "", cycles: (15, 0), pre_len: 1, op_len: 1, arg_len: 0, group: InsnGroup::Regular },
        0x43 => Opcode { mnemonic_fmt: "ld ($", mnemonic_tail: "), bc", cycles: (20, 0), pre_len: 1, op_len: 1, arg_len: 2, group: InsnGroup::Regular },
        0x44 => Opcode { mnemonic_fmt: "neg", mnemonic_tail: "", cycles: (8, 0), pre_len: 1, op_len: 1, arg_len: 0, group: InsnGroup::Regular },
        0x45 => Opcode { mnemonic_fmt: "retn", mnemonic_tail: "", cycles: (14, 0), pre_len: 1, op_len: 1, arg_len: 0, group: InsnGroup::Iret },
        0x46 => Opcode { mnemonic_fmt: "im 0", mnemonic_tail: "", cycles: (8, 0), pre_len: 1, op_len: 1, arg_len: 0, group: InsnGroup::Regular },
        0x47 => Opcode { mnemonic_fmt: "ld i, a", mnemonic_tail: "", cycles: (9, 0), pre_len: 1, op_len: 1, arg_len: 0, group: InsnGroup::Regular },
        0x48 => Opcode { mnemonic_fmt: "in c, (c)", mnemonic_tail: "", cycles: (12, 0), pre_len: 1, op_len: 1, arg_len: 0, group: InsnGroup::Regular },
        0x49 => Opcode { mnemonic_fmt: "out (c), c", mnemonic_tail: "", cycles: (12, 0), pre_len: 1, op_len: 1, arg_len: 0, group: InsnGroup::Regular },
        0x4A => Opcode { mnemonic_fmt: "adc hl, bc", mnemonic_tail: "", cycles: (15, 0), pre_len: 1, op_len: 1, arg_len: 0, group: InsnGroup::Regular },
        0x4B => Opcode { mnemonic_fmt: "ld bc, ($", mnemonic_tail: ")", cycles: (20, 0), pre_len: 1, op_len: 1, arg_len: 2, group: InsnGroup::Regular },
        0x4C => Opcode { mnemonic_fmt: "invalid", mnemonic_tail: "", cycles: (4, 0), pre_len: 0, op_len: 1, arg_len: 0, group: InsnGroup::Invalid },
        0x4D => Opcode { mnemonic_fmt: "reti", mnemonic_tail: "", cycles: (14, 0), pre_len: 1, op_len: 1, arg_len: 0, group: InsnGroup::Iret },
        0x4E => Opcode { mnemonic_fmt: "invalid", mnemonic_tail: "", cycles: (4, 0), pre_len: 0, op_len: 1, arg_len: 0, group: InsnGroup::Invalid },
        0x4F => Opcode { mnemonic_fmt: "ld r, a", mnemonic_tail: "", cycles: (9, 0), pre_len: 1, op_len: 1, arg_len: 0, group: InsnGroup::Regular },
        0x50 => Opcode { mnemonic_fmt: "in d, (c)", mnemonic_tail: "", cycles: (12, 0), pre_len: 1, op_len: 1, arg_len: 0, group: InsnGroup::Regular },
        0x51 => Opcode { mnemonic_fmt: "out (c), d", mnemonic_tail: "", cycles: (12, 0), pre_len: 1, op_len: 1, arg_len: 0, group: InsnGroup::Regular },
        0x52 => Opcode { mnemonic_fmt: "sbc hl, de", mnemonic_tail: "", cycles: (15, 0), pre_len: 1, op_len: 1, arg_len: 0, group: InsnGroup::Regular },
        0x53 => Opcode { mnemonic_fmt: "ld ($", mnemonic_tail: "), de", cycles: (20, 0), pre_len: 1, op_len: 1, arg_len: 2, group: InsnGroup::Regular },
        0x54 => Opcode { mnemonic_fmt: "invalid", mnemonic_tail: "", cycles: (4, 0), pre_len: 0, op_len: 1, arg_len: 0, group: InsnGroup::Invalid },
        0x55 => Opcode { mnemonic_fmt: "invalid", mnemonic_tail: "", cycles: (4, 0), pre_len: 0, op_len: 1, arg_len: 0, group: InsnGroup::Invalid },
        0x56 => Opcode { mnemonic_fmt: "im 1", mnemonic_tail: "", cycles: (8, 0), pre_len: 1, op_len: 1, arg_len: 0, group: InsnGroup::Regular },
        0x57 => Opcode { mnemonic_fmt: "ld a, i", mnemonic_tail: "", cycles: (9, 0), pre_len: 1, op_len: 1, arg_len: 0, group: InsnGroup::Regular },
        0x58 => Opcode { mnemonic_fmt: "in e, (c)", mnemonic_tail: "", cycles: (12, 0), pre_len: 1, op_len: 1, arg_len: 0, group: InsnGroup::Regular },
        0x59 => Opcode { mnemonic_fmt: "out (c), e", mnemonic_tail: "", cycles: (12, 0), pre_len: 1, op_len: 1, arg_len: 0, group: InsnGroup::Regular },
        0x5A => Opcode { mnemonic_fmt: "adc hl, de", mnemonic_tail: "", cycles: (15, 0), pre_len: 1, op_len: 1, arg_len: 0, group: InsnGroup::Regular },
        0x5B => Opcode { mnemonic_fmt: "ld de, ($", mnemonic_tail: ")", cycles: (20, 0), pre_len: 1, op_len: 1, arg_len: 2, group: InsnGroup::Regular },
        0x5C => Opcode { mnemonic_fmt: "invalid", mnemonic_tail: "", cycles: (4, 0), pre_len: 0, op_len: 1, arg_len: 0, group: InsnGroup::Invalid },
        0x5D => Opcode { mnemonic_fmt: "invalid", mnemonic_tail: "", cycles: (4, 0), pre_len: 0, op_len: 1, arg_len: 0, group: InsnGroup::Invalid },
        0x5E => Opcode { mnemonic_fmt: "im 2", mnemonic_tail: "", cycles: (8, 0), pre_len: 1, op_len: 1, arg_len: 0, group: InsnGroup::Regular },
        0x5F => Opcode { mnemonic_fmt: "ld a, r", mnemonic_tail: "", cycles: (9, 0), pre_len: 1, op_len: 1, arg_len: 0, group: InsnGroup::Regular },
        0x60 => Opcode { mnemonic_fmt: "in h, (c)", mnemonic_tail: "", cycles: (12, 0), pre_len: 1, op_len: 1, arg_len: 0, group: InsnGroup::Regular },
        0x61 => Opcode { mnemonic_fmt: "out (c), h", mnemonic_tail: "", cycles: (12, 0), pre_len: 1, op_len: 1, arg_len: 0, group: InsnGroup::Regular },
        0x62 => Opcode { mnemonic_fmt: "sbc hl, hl", mnemonic_tail: "", cycles: (15, 0), pre_len: 1, op_len: 1, arg_len: 0, group: InsnGroup::Regular },
        0x63 => Opcode { mnemonic_fmt: "ld ($", mnemonic_tail: "), hl", cycles: (20, 0), pre_len: 1, op_len: 1, arg_len: 2, group: InsnGroup::Regular },
        0x64 => Opcode { mnemonic_fmt: "invalid", mnemonic_tail: "", cycles: (4, 0), pre_len: 0, op_len: 1, arg_len: 0, group: InsnGroup::Invalid },
        0x65 => Opcode { mnemonic_fmt: "invalid", mnemonic_tail: "", cycles: (4, 0), pre_len: 0, op_len: 1, arg_len: 0, group: InsnGroup::Invalid },
        0x66 => Opcode { mnemonic_fmt: "invalid", mnemonic_tail: "", cycles: (4, 0), pre_len: 0, op_len: 1, arg_len: 0, group: InsnGroup::Invalid },
        0x67 => Opcode { mnemonic_fmt: "rrd", mnemonic_tail: "", cycles: (18, 0), pre_len: 1, op_len: 1, arg_len: 0, group: InsnGroup::Regular },
        0x68 => Opcode { mnemonic_fmt: "in l, (c)", mnemonic_tail: "", cycles: (12, 0), pre_len: 1, op_len: 1, arg_len: 0, group: InsnGroup::Regular },
        0x69 => Opcode { mnemonic_fmt: "out (c), l", mnemonic_tail: "", cycles: (12, 0), pre_len: 1, op_len: 1, arg_len: 0, group: InsnGroup::Regular },
        0x6A => Opcode { mnemonic_fmt: "adc hl, hl", mnemonic_tail: "", cycles: (15, 0), pre_len: 1, op_len: 1, arg_len: 0, group: InsnGroup::Regular },
        0x6B => Opcode { mnemonic_fmt: "ld hl, ($", mnemonic_tail: ")", cycles: (20, 0), pre_len: 1, op_len: 1, arg_len: 2, group: InsnGroup::Regular },
        0x6C => Opcode { mnemonic_fmt: "invalid", mnemonic_tail: "", cycles: (4, 0), pre_len: 0, op_len: 1, arg_len: 0, group: InsnGroup::Invalid },
        0x6D => Opcode { mnemonic_fmt: "invalid", mnemonic_tail: "", cycles: (4, 0), pre_len: 0, op_len: 1, arg_len: 0, group: InsnGroup::Invalid },
        0x6E => Opcode { mnemonic_fmt: "invalid", mnemonic_tail: "", cycles: (4, 0), pre_len: 0, op_len: 1, arg_len: 0, group: InsnGroup::Invalid },
        0x6F => Opcode { mnemonic_fmt: "rld", mnemonic_tail: "", cycles: (18, 0), pre_len: 1, op_len: 1, arg_len: 0, group: InsnGroup::Regular },
        0x70 => Opcode { mnemonic_fmt: "invalid", mnemonic_tail: "", cycles: (4, 0), pre_len: 0, op_len: 1, arg_len: 0, group: InsnGroup::Invalid },
        0x71 => Opcode { mnemonic_fmt: "invalid", mnemonic_tail: "", cycles: (4, 0), pre_len: 0, op_len: 1, arg_len: 0, group: InsnGroup::Invalid },
        0x72 => Opcode { mnemonic_fmt: "sbc hl, sp", mnemonic_tail: "", cycles: (15, 0), pre_len: 1, op_len: 1, arg_len: 0, group: InsnGroup::Regular },
        0x73 => Opcode { mnemonic_fmt: "ld ($", mnemonic_tail: "), sp", cycles: (20, 0), pre_len: 1, op_len: 1, arg_len: 2, group: InsnGroup::Regular },
        0x74 => Opcode { mnemonic_fmt: "invalid", mnemonic_tail: "", cycles: (4, 0), pre_len: 0, op_len: 1, arg_len: 0, group: InsnGroup::Invalid },
        0x75 => Opcode { mnemonic_fmt: "invalid", mnemonic_tail: "", cycles: (4, 0), pre_len: 0, op_len: 1, arg_len: 0, group: InsnGroup::Invalid },
        0x76 => Opcode { mnemonic_fmt: "invalid", mnemonic_tail: "", cycles: (4, 0), pre_len: 0, op_len: 1, arg_len: 0, group: InsnGroup::Invalid },
        0x77 => Opcode { mnemonic_fmt: "invalid", mnemonic_tail: "", cycles: (4, 0), pre_len: 0, op_len: 1, arg_len: 0, group: InsnGroup::Invalid },
        0x78 => Opcode { mnemonic_fmt: "in a, (c)", mnemonic_tail: "", cycles: (12, 0), pre_len: 1, op_len: 1, arg_len: 0, group: InsnGroup::Regular },
        0x79 => Opcode { mnemonic_fmt: "out (c), a", mnemonic_tail: "", cycles: (12, 0), pre_len: 1, op_len: 1, arg_len: 0, group: InsnGroup::Regular },
        0x7A => Opcode { mnemonic_fmt: "adc hl, sp", mnemonic_tail: "", cycles: (15, 0), pre_len: 1, op_len: 1, arg_len: 0, group: InsnGroup::Regular },
        0x7B => Opcode { mnemonic_fmt: "ld sp, ($", mnemonic_tail: ")", cycles: (20, 0), pre_len: 1, op_len: 1, arg_len: 2, group: InsnGroup::Regular },
        0x7C => Opcode { mnemonic_fmt: "invalid", mnemonic_tail: "", cycles: (4, 0), pre_len: 0, op_len: 1, arg_len: 0, group: InsnGroup::Invalid },
        0x7D => Opcode { mnemonic_fmt: "invalid", mnemonic_tail: "", cycles: (4, 0), pre_len: 0, op_len: 1, arg_len: 0, group: InsnGroup::Invalid },
        0x7E => Opcode { mnemonic_fmt: "invalid", mnemonic_tail: "", cycles: (4, 0), pre_len: 0, op_len: 1, arg_len: 0, group: InsnGroup::Invalid },
        0x7F => Opcode { mnemonic_fmt: "invalid", mnemonic_tail: "", cycles: (4, 0), pre_len: 0, op_len: 1, arg_len: 0, group: InsnGroup::Invalid },
        0x80 => Opcode { mnemonic_fmt: "invalid", mnemonic_tail: "", cycles: (4, 0), pre_len: 0, op_len: 1, arg_len: 0, group: InsnGroup::Invalid },
        0x81 => Opcode { mnemonic_fmt: "invalid", mnemonic_tail: "", cycles: (4, 0), pre_len: 0, op_len: 1, arg_len: 0, group: InsnGroup::Invalid },
        0x82 => Opcode { mnemonic_fmt: "invalid", mnemonic_tail: "", cycles: (4, 0), pre_len: 0, op_len: 1, arg_len: 0, group: InsnGroup::Invalid },
        0x83 => Opcode { mnemonic_fmt: "invalid", mnemonic_tail: "", cycles: (4, 0), pre_len: 0, op_len: 1, arg_len: 0, group: InsnGroup::Invalid },
        0x84 => Opcode { mnemonic_fmt: "invalid", mnemonic_tail: "", cycles: (4, 0), pre_len: 0, op_len: 1, arg_len: 0, group: InsnGroup::Invalid },
        0x85 => Opcode { mnemonic_fmt: "invalid", mnemonic_tail: "", cycles: (4, 0), pre_len: 0, op_len: 1, arg_len: 0, group: InsnGroup::Invalid },
        0x86 => Opcode { mnemonic_fmt: "invalid", mnemonic_tail: "", cycles: (4, 0), pre_len: 0, op_len: 1, arg_len: 0, group: InsnGroup::Invalid },
        0x87 => Opcode { mnemonic_fmt: "invalid", mnemonic_tail: "", cycles: (4, 0), pre_len: 0, op_len: 1, arg_len: 0, group: InsnGroup::Invalid },
        0x88 => Opcode { mnemonic_fmt: "invalid", mnemonic_tail: "", cycles: (4, 0), pre_len: 0, op_len: 1, arg_len: 0, group: InsnGroup::Invalid },
        0x89 => Opcode { mnemonic_fmt: "invalid", mnemonic_tail: "", cycles: (4, 0), pre_len: 0, op_len: 1, arg_len: 0, group: InsnGroup::Invalid },
        0x8A => Opcode { mnemonic_fmt: "invalid", mnemonic_tail: "", cycles: (4, 0), pre_len: 0, op_len: 1, arg_len: 0, group: InsnGroup::Invalid },
        0x8B => Opcode { mnemonic_fmt: "invalid", mnemonic_tail: "", cycles: (4, 0), pre_len: 0, op_len: 1, arg_len: 0, group: InsnGroup::Invalid },
        0x8C => Opcode { mnemonic_fmt: "invalid", mnemonic_tail: "", cycles: (4, 0), pre_len: 0, op_len: 1, arg_len: 0, group: InsnGroup::Invalid },
        0x8D => Opcode { mnemonic_fmt: "invalid", mnemonic_tail: "", cycles: (4, 0), pre_len: 0, op_len: 1, arg_len: 0, group: InsnGroup::Invalid },
        0x8E => Opcode { mnemonic_fmt: "invalid", mnemonic_tail: "", cycles: (4, 0), pre_len: 0, op_len: 1, arg_len: 0, group: InsnGroup::Invalid },
        0x8F => Opcode { mnemonic_fmt: "invalid", mnemonic_tail: "", cycles: (4, 0), pre_len: 0, op_len: 1, arg_len: 0, group: InsnGroup::Invalid },
        0x90 => Opcode { mnemonic_fmt: "invalid", mnemonic_tail: "", cycles: (4, 0), pre_len: 0, op_len: 1, arg_len: 0, group: InsnGroup::Invalid },
        0x91 => Opcode { mnemonic_fmt: "invalid", mnemonic_tail: "", cycles: (4, 0), pre_len: 0, op_len: 1, arg_len: 0, group: InsnGroup::Invalid },
        0x92 => Opcode { mnemonic_fmt: "invalid", mnemonic_tail: "", cycles: (4, 0), pre_len: 0, op_len: 1, arg_len: 0, group: InsnGroup::Invalid },
        0x93 => Opcode { mnemonic_fmt: "invalid", mnemonic_tail: "", cycles: (4, 0), pre_len: 0, op_len: 1, arg_len: 0, group: InsnGroup::Invalid },
        0x94 => Opcode { mnemonic_fmt: "invalid", mnemonic_tail: "", cycles: (4, 0), pre_len: 0, op_len: 1, arg_len: 0, group: InsnGroup::Invalid },
        0x95 => Opcode { mnemonic_fmt: "invalid", mnemonic_tail: "", cycles: (4, 0), pre_len: 0, op_len: 1, arg_len: 0, group: InsnGroup::Invalid },
        0x96 => Opcode { mnemonic_fmt: "invalid", mnemonic_tail: "", cycles: (4, 0), pre_len: 0, op_len: 1, arg_len: 0, group: InsnGroup::Invalid },
        0x97 => Opcode { mnemonic_fmt: "invalid", mnemonic_tail: "", cycles: (4, 0), pre_len: 0, op_len: 1, arg_len: 0, group: InsnGroup::Invalid },
        0x98 => Opcode { mnemonic_fmt: "invalid", mnemonic_tail: "", cycles: (4, 0), pre_len: 0, op_len: 1, arg_len: 0, group: InsnGroup::Invalid },
        0x99 => Opcode { mnemonic_fmt: "invalid", mnemonic_tail: "", cycles: (4, 0), pre_len: 0, op_len: 1, arg_len: 0, group: InsnGroup::Invalid },
        0x9A => Opcode { mnemonic_fmt: "invalid", mnemonic_tail: "", cycles: (4, 0), pre_len: 0, op_len: 1, arg_len: 0, group: InsnGroup::Invalid },
        0x9B => Opcode { mnemonic_fmt: "invalid", mnemonic_tail: "", cycles: (4, 0), pre_len: 0, op_len: 1, arg_len: 0, group: InsnGroup::Invalid },
        0x9C => Opcode { mnemonic_fmt: "invalid", mnemonic_tail: "", cycles: (4, 0), pre_len: 0, op_len: 1, arg_len: 0, group: InsnGroup::Invalid },
        0x9D => Opcode { mnemonic_fmt: "invalid", mnemonic_tail: "", cycles: (4, 0), pre_len: 0, op_len: 1, arg_len: 0, group: InsnGroup::Invalid },
        0x9E => Opcode { mnemonic_fmt: "invalid", mnemonic_tail: "", cycles: (4, 0), pre_len: 0, op_len: 1, arg_len: 0, group: InsnGroup::Invalid },
        0x9F => Opcode { mnemonic_fmt: "invalid", mnemonic_tail: "", cycles: (4, 0), pre_len: 0, op_len: 1, arg_len: 0, group: InsnGroup::Invalid },
        0xA0 => Opcode { mnemonic_fmt: "ldi", mnemonic_tail: "", cycles: (16, 0), pre_len: 1, op_len: 1, arg_len: 0, group: InsnGroup::Regular },
        0xA1 => Opcode { mnemonic_fmt: "cpi", mnemonic_tail: "", cycles: (16, 0), pre_len: 1, op_len: 1, arg_len: 0, group: InsnGroup::Regular },
        0xA2 => Opcode { mnemonic_fmt: "ini", mnemonic_tail: "", cycles: (16, 0), pre_len: 1, op_len: 1, arg_len: 0, group: InsnGroup::Regular },
        0xA3 => Opcode { mnemonic_fmt: "outi", mnemonic_tail: "", cycles: (16, 0), pre_len: 1, op_len: 1, arg_len: 0, group: InsnGroup::Regular },
        0xA4 => Opcode { mnemonic_fmt: "invalid", mnemonic_tail: "", cycles: (4, 0), pre_len: 0, op_len: 1, arg_len: 0, group: InsnGroup::Invalid },
        0xA5 => Opcode { mnemonic_fmt: "invalid", mnemonic_tail: "", cycles: (4, 0), pre_len: 0, op_len: 1, arg_len: 0, group: InsnGroup::Invalid },
        0xA6 => Opcode { mnemonic_fmt: "invalid", mnemonic_tail: "", cycles: (4, 0), pre_len: 0, op_len: 1, arg_len: 0, group: InsnGroup::Invalid },
        0xA7 => Opcode { mnemonic_fmt: "invalid", mnemonic_tail: "", cycles: (4, 0), pre_len: 0, op_len: 1, arg_len: 0, group: InsnGroup::Invalid },
        0xA8 => Opcode { mnemonic_fmt: "ldd", mnemonic_tail: "", cycles: (16, 0), pre_len: 1, op_len: 1, arg_len: 0, group: InsnGroup::Regular },
        0xA9 => Opcode { mnemonic_fmt: "cpd", mnemonic_tail: "", cycles: (16, 0), pre_len: 1, op_len: 1, arg_len: 0, group: InsnGroup::Regular },
        0xAA => Opcode { mnemonic_fmt: "ind", mnemonic_tail: "", cycles: (16, 0), pre_len: 1, op_len: 1, arg_len: 0, group: InsnGroup::Regular },
        0xAB => Opcode { mnemonic_fmt: "outd", mnemonic_tail: "", cycles: (16, 0), pre_len: 1, op_len: 1, arg_len: 0, group: InsnGroup::Regular },
        0xAC => Opcode { mnemonic_fmt: "invalid", mnemonic_tail: "", cycles: (4, 0), pre_len: 0, op_len: 1, arg_len: 0, group: InsnGroup::Invalid },
        0xAD => Opcode { mnemonic_fmt: "invalid", mnemonic_tail: "", cycles: (4, 0), pre_len: 0, op_len: 1, arg_len: 0, group: InsnGroup::Invalid },
        0xAE => Opcode { mnemonic_fmt: "invalid", mnemonic_tail: "", cycles: (4, 0), pre_len: 0, op_len: 1, arg_len: 0, group: InsnGroup::Invalid },
        0xAF => Opcode { mnemonic_fmt: "invalid", mnemonic_tail: "", cycles: (4, 0), pre_len: 0, op_len: 1, arg_len: 0, group: InsnGroup::Invalid },
        0xB0 => Opcode { mnemonic_fmt: "ldir", mnemonic_tail: "", cycles: (16, 5), pre_len: 1, op_len: 1, arg_len: 0, group: InsnGroup::Regular },
        0xB1 => Opcode { mnemonic_fmt: "cpir", mnemonic_tail: "", cycles: (16, 5), pre_len: 1, op_len: 1, arg_len: 0, group: InsnGroup::Regular },
        0xB2 => Opcode { mnemonic_fmt: "inir", mnemonic_tail: "", cycles: (16, 5), pre_len: 1, op_len: 1, arg_len: 0, group: InsnGroup::Regular },
        0xB3 => Opcode { mnemonic_fmt: "otir", mnemonic_tail: "", cycles: (16, 5), pre_len: 1, op_len: 1, arg_len: 0, group: InsnGroup::Regular },
        0xB4 => Opcode { mnemonic_fmt: "invalid", mnemonic_tail: "", cycles: (4, 0), pre_len: 0, op_len: 1, arg_len: 0, group: InsnGroup::Invalid },
        0xB5 => Opcode { mnemonic_fmt: "invalid", mnemonic_tail: "", cycles: (4, 0), pre_len: 0, op_len: 1, arg_len: 0, group: InsnGroup::Invalid },
        0xB6 => Opcode { mnemonic_fmt: "invalid", mnemonic_tail: "", cycles: (4, 0), pre_len: 0, op_len: 1, arg_len: 0, group: InsnGroup::Invalid },
        0xB7 => Opcode { mnemonic_fmt: "invalid", mnemonic_tail: "", cycles: (4, 0), pre_len: 0, op_len: 1, arg_len: 0, group: InsnGroup::Invalid },
        0xB8 => Opcode { mnemonic_fmt: "lddr", mnemonic_tail: "", cycles: (16, 5), pre_len: 1, op_len: 1, arg_len: 0, group: InsnGroup::Regular },
        0xB9 => Opcode { mnemonic_fmt: "cpdr", mnemonic_tail: "", cycles: (16, 5), pre_len: 1, op_len: 1, arg_len: 0, group: InsnGroup::Regular },
        0xBA => Opcode { mnemonic_fmt: "indr", mnemonic_tail: "", cycles: (16, 5), pre_len: 1, op_len: 1, arg_len: 0, group: InsnGroup::Regular },
        0xBB => Opcode { mnemonic_fmt: "otdr", mnemonic_tail: "", cycles: (16, 5), pre_len: 1, op_len: 1, arg_len: 0, group: InsnGroup::Regular },
        0xBC => Opcode { mnemonic_fmt: "invalid", mnemonic_tail: "", cycles: (4, 0), pre_len: 0, op_len: 1, arg_len: 0, group: InsnGroup::Invalid },
        0xBD => Opcode { mnemonic_fmt: "invalid", mnemonic_tail: "", cycles: (4, 0), pre_len: 0, op_len: 1, arg_len: 0, group: InsnGroup::Invalid },
        0xBE => Opcode { mnemonic_fmt: "invalid", mnemonic_tail: "", cycles: (4, 0), pre_len: 0, op_len: 1, arg_len: 0, group: InsnGroup::Invalid },
        0xBF => Opcode { mnemonic_fmt: "invalid", mnemonic_tail: "", cycles: (4, 0), pre_len: 0, op_len: 1, arg_len: 0, group: InsnGroup::Invalid },
        0xC0 => Opcode { mnemonic_fmt: "invalid", mnemonic_tail: "", cycles: (4, 0), pre_len: 0, op_len: 1, arg_len: 0, group: InsnGroup::Invalid },
        0xC1 => Opcode { mnemonic_fmt: "invalid", mnemonic_tail: "", cycles: (4, 0), pre_len: 0, op_len: 1, arg_len: 0, group: InsnGroup::Invalid },
        0xC2 => Opcode { mnemonic_fmt: "invalid", mnemonic_tail: "", cycles: (4, 0), pre_len: 0, op_len: 1, arg_len: 0, group: InsnGroup::Invalid },
        0xC3 => Opcode { mnemonic_fmt: "invalid", mnemonic_tail: "", cycles: (4, 0), pre_len: 0, op_len: 1, arg_len: 0, group: InsnGroup::Invalid },
        0xC4 => Opcode { mnemonic_fmt: "invalid", mnemonic_tail: "", cycles: (4, 0), pre_len: 0, op_len: 1, arg_len: 0, group: InsnGroup::Invalid },
        0xC5 => Opcode { mnemonic_fmt: "invalid", mnemonic_tail: "", cycles: (4, 0), pre_len: 0, op_len: 1, arg_len: 0, group: InsnGroup::Invalid },
        0xC6 => Opcode { mnemonic_fmt: "invalid", mnemonic_tail: "", cycles: (4, 0), pre_len: 0, op_len: 1, arg_len: 0, group: InsnGroup::Invalid },
        0xC7 => Opcode { mnemonic_fmt: "invalid", mnemonic_tail: "", cycles: (4, 0), pre_len: 0, op_len: 1, arg_len: 0, group: InsnGroup::Invalid },
        0xC8 => Opcode { mnemonic_fmt: "invalid", mnemonic_tail: "", cycles: (4, 0), pre_len: 0, op_len: 1, arg_len: 0, group: InsnGroup::Invalid },
        0xC9 => Opcode { mnemonic_fmt: "invalid", mnemonic_tail: "", cycles: (4, 0), pre_len: 0, op_len: 1, arg_len: 0, group: InsnGroup::Invalid },
        0xCA => Opcode { mnemonic_fmt: "invalid", mnemonic_tail: "", cycles: (4, 0), pre_len: 0, op_len: 1, arg_len: 0, group: InsnGroup::Invalid },
        0xCB => Opcode { mnemonic_fmt: "invalid", mnemonic_tail: "", cycles: (4, 0), pre_len: 0, op_len: 1, arg_len: 0, group: InsnGroup::Invalid },
        0xCC => Opcode { mnemonic_fmt: "invalid", mnemonic_tail: "", cycles: (4, 0), pre_len: 0, op_len: 1, arg_len: 0, group: InsnGroup::Invalid },
        0xCD => Opcode { mnemonic_fmt: "invalid", mnemonic_tail: "", cycles: (4, 0), pre_len: 0, op_len: 1, arg_len: 0, group: InsnGroup::Invalid },
        0xCE => Opcode { mnemonic_fmt: "invalid", mnemonic_tail: "", cycles: (4, 0), pre_len: 0, op_len: 1, arg_len: 0, group: InsnGroup::Invalid },
        0xCF => Opcode { mnemonic_fmt: "invalid", mnemonic_tail: "", cycles: (4, 0), pre_len: 0, op_len: 1, arg_len: 0, group: InsnGroup::Invalid },
        0xD0 => Opcode { mnemonic_fmt: "invalid", mnemonic_tail: "", cycles: (4, 0), pre_len: 0, op_len: 1, arg_len: 0, group: InsnGroup::Invalid },
        0xD1 => Opcode { mnemonic_fmt: "invalid", mnemonic_tail: "", cycles: (4, 0), pre_len: 0, op_len: 1, arg_len: 0, group: InsnGroup::Invalid },
        0xD2 => Opcode { mnemonic_fmt: "invalid", mnemonic_tail: "", cycles: (4, 0), pre_len: 0, op_len: 1, arg_len: 0, group: InsnGroup::Invalid },
        0xD3 => Opcode { mnemonic_fmt: "invalid", mnemonic_tail: "", cycles: (4, 0), pre_len: 0, op_len: 1, arg_len: 0, group: InsnGroup::Invalid },
        0xD4 => Opcode { mnemonic_fmt: "invalid", mnemonic_tail: "", cycles: (4, 0), pre_len: 0, op_len: 1, arg_len: 0, group: InsnGroup::Invalid },
        0xD5 => Opcode { mnemonic_fmt: "invalid", mnemonic_tail: "", cycles: (4, 0), pre_len: 0, op_len: 1, arg_len: 0, group: InsnGroup::Invalid },
        0xD6 => Opcode { mnemonic_fmt: "invalid", mnemonic_tail: "", cycles: (4, 0), pre_len: 0, op_len: 1, arg_len: 0, group: InsnGroup::Invalid },
        0xD7 => Opcode { mnemonic_fmt: "invalid", mnemonic_tail: "", cycles: (4, 0), pre_len: 0, op_len: 1, arg_len: 0, group: InsnGroup::Invalid },
        0xD8 => Opcode { mnemonic_fmt: "invalid", mnemonic_tail: "", cycles: (4, 0), pre_len: 0, op_len: 1, arg_len: 0, group: InsnGroup::Invalid },
        0xD9 => Opcode { mnemonic_fmt: "invalid", mnemonic_tail: "", cycles: (4, 0), pre_len: 0, op_len: 1, arg_len: 0, group: InsnGroup::Invalid },
        0xDA => Opcode { mnemonic_fmt: "invalid", mnemonic_tail: "", cycles: (4, 0), pre_len: 0, op_len: 1, arg_len: 0, group: InsnGroup::Invalid },
        0xDB => Opcode { mnemonic_fmt: "invalid", mnemonic_tail: "", cycles: (4, 0), pre_len: 0, op_len: 1, arg_len: 0, group: InsnGroup::Invalid },
        0xDC => Opcode { mnemonic_fmt: "invalid", mnemonic_tail: "", cycles: (4, 0), pre_len: 0, op_len: 1, arg_len: 0, group: InsnGroup::Invalid },
        0xDD => Opcode { mnemonic_fmt: "invalid", mnemonic_tail: "", cycles: (4, 0), pre_len: 0, op_len: 1, arg_len: 0, group: InsnGroup::Invalid },
        0xDE => Opcode { mnemonic_fmt: "invalid", mnemonic_tail: "", cycles: (4, 0), pre_len: 0, op_len: 1, arg_len: 0, group: InsnGroup::Invalid },
        0xDF => Opcode { mnemonic_fmt: "invalid", mnemonic_tail: "", cycles: (4, 0), pre_len: 0, op_len: 1, arg_len: 0, group: InsnGroup::Invalid },
        0xE0 => Opcode { mnemonic_fmt: "invalid", mnemonic_tail: "", cycles: (4, 0), pre_len: 0, op_len: 1, arg_len: 0, group: InsnGroup::Invalid },
        0xE1 => Opcode { mnemonic_fmt: "invalid", mnemonic_tail: "", cycles: (4, 0), pre_len: 0, op_len: 1, arg_len: 0, group: InsnGroup::Invalid },
        0xE2 => Opcode { mnemonic_fmt: "invalid", mnemonic_tail: "", cycles: (4, 0), pre_len: 0, op_len: 1, arg_len: 0, group: InsnGroup::Invalid },
        0xE3 => Opcode { mnemonic_fmt: "invalid", mnemonic_tail: "", cycles: (4, 0), pre_len: 0, op_len: 1, arg_len: 0, group: InsnGroup::Invalid },
        0xE4 => Opcode { mnemonic_fmt: "invalid", mnemonic_tail: "", cycles: (4, 0), pre_len: 0, op_len: 1, arg_len: 0, group: InsnGroup::Invalid },
        0xE5 => Opcode { mnemonic_fmt: "invalid", mnemonic_tail: "", cycles: (4, 0), pre_len: 0, op_len: 1, arg_len: 0, group: InsnGroup::Invalid },
        0xE6 => Opcode { mnemonic_fmt: "invalid", mnemonic_tail: "", cycles: (4, 0), pre_len: 0, op_len: 1, arg_len: 0, group: InsnGroup::Invalid },
        0xE7 => Opcode { mnemonic_fmt: "invalid", mnemonic_tail: "", cycles: (4, 0), pre_len: 0, op_len: 1, arg_len: 0, group: InsnGroup::Invalid },
        0xE8 => Opcode { mnemonic_fmt: "invalid", mnemonic_tail: "", cycles: (4, 0), pre_len: 0, op_len: 1, arg_len: 0, group: InsnGroup::Invalid },
        0xE9 => Opcode { mnemonic_fmt: "invalid", mnemonic_tail: "", cycles: (4, 0), pre_len: 0, op_len: 1, arg_len: 0, group: InsnGroup::Invalid },
        0xEA => Opcode { mnemonic_fmt: "invalid", mnemonic_tail: "", cycles: (4, 0), pre_len: 0, op_len: 1, arg_len: 0, group: InsnGroup::Invalid },
        0xEB => Opcode { mnemonic_fmt: "invalid", mnemonic_tail: "", cycles: (4, 0), pre_len: 0, op_len: 1, arg_len: 0, group: InsnGroup::Invalid },
        0xEC => Opcode { mnemonic_fmt: "invalid", mnemonic_tail: "", cycles: (4, 0), pre_len: 0, op_len: 1, arg_len: 0, group: InsnGroup::Invalid },
        0xED => Opcode { mnemonic_fmt: "invalid", mnemonic_tail: "", cycles: (4, 0), pre_len: 0, op_len: 1, arg_len: 0, group: InsnGroup::Invalid },
        0xEE => Opcode { mnemonic_fmt: "invalid", mnemonic_tail: "", cycles: (4, 0), pre_len: 0, op_len: 1, arg_len: 0, group: InsnGroup::Invalid },
        0xEF => Opcode { mnemonic_fmt: "invalid", mnemonic_tail: "", cycles: (4, 0), pre_len: 0, op_len: 1, arg_len: 0, group: InsnGroup::Invalid },
        0xF0 => Opcode { mnemonic_fmt: "invalid", mnemonic_tail: "", cycles: (4, 0), pre_len: 0, op_len: 1, arg_len: 0, group: InsnGroup::Invalid },
        0xF1 => Opcode { mnemonic_fmt: "invalid", mnemonic_tail: "", cycles: (4, 0), pre_len: 0, op_len: 1, arg_len: 0, group: InsnGroup::Invalid },
        0xF2 => Opcode { mnemonic_fmt: "invalid", mnemonic_tail: "", cycles: (4, 0), pre_len: 0, op_len: 1, arg_len: 0, group: InsnGroup::Invalid },
        0xF3 => Opcode { mnemonic_fmt: "invalid", mnemonic_tail: "", cycles: (4, 0), pre_len: 0, op_len: 1, arg_len: 0, group: InsnGroup::Invalid },
        0xF4 => Opcode { mnemonic_fmt: "invalid", mnemonic_tail: "", cycles: (4, 0), pre_len: 0, op_len: 1, arg_len: 0, group: InsnGroup::Invalid },
        0xF5 => Opcode { mnemonic_fmt: "invalid", mnemonic_tail: "", cycles: (4, 0), pre_len: 0, op_len: 1, arg_len: 0, group: InsnGroup::Invalid },
        0xF6 => Opcode { mnemonic_fmt: "invalid", mnemonic_tail: "", cycles: (4, 0), pre_len: 0, op_len: 1, arg_len: 0, group: InsnGroup::Invalid },
        0xF7 => Opcode { mnemonic_fmt: "invalid", mnemonic_tail: "", cycles: (4, 0), pre_len: 0, op_len: 1, arg_len: 0, group: InsnGroup::Invalid },
        0xF8 => Opcode { mnemonic_fmt: "invalid", mnemonic_tail: "", cycles: (4, 0), pre_len: 0, op_len: 1, arg_len: 0, group: InsnGroup::Invalid },
        0xF9 => Opcode { mnemonic_fmt: "invalid", mnemonic_tail: "", cycles: (4, 0), pre_len: 0, op_len: 1, arg_len: 0, group: InsnGroup::Invalid },
        0xFA => Opcode { mnemonic_fmt: "invalid", mnemonic_tail: "", cycles: (4, 0), pre_len: 0, op_len: 1, arg_len: 0, group: InsnGroup::Invalid },
        0xFB => Opcode { mnemonic_fmt: "invalid", mnemonic_tail: "", cycles: (4, 0), pre_len: 0, op_len: 1, arg_len: 0, group: InsnGroup::Invalid },
        0xFC => Opcode { mnemonic_fmt: "invalid", mnemonic_tail: "", cycles: (4, 0), pre_len: 0, op_len: 1, arg_len: 0, group: InsnGroup::Invalid },
        0xFD => Opcode { mnemonic_fmt: "invalid", mnemonic_tail: "", cycles: (4, 0), pre_len: 0, op_len: 1, arg_len: 0, group: InsnGroup::Invalid },
        0xFE => Opcode { mnemonic_fmt: "invalid", mnemonic_tail: "", cycles: (4, 0), pre_len: 0, op_len: 1, arg_len: 0, group: InsnGroup::Invalid },
        _ => Opcode { mnemonic_fmt: "invalid", mnemonic_tail: "", cycles: (4, 0), pre_len: 0, op_len: 1, arg_len: 0, group: InsnGroup::Invalid },
    }
}

/// The table of opcodes after the `0xFD` prefix (IY forms), indexed by opcode byte.
pub open spec fn spec_fd(b: u8) -> Opcode {
    match b {
        0x00 => Opcode { mnemonic_fmt: "invalid", mnemonic_tail: "", cycles: (4, 0), pre_len: 0, op_len: 1, arg_len: 0, group: InsnGroup::Invalid },
        0x01 => Opcode { mnemonic_fmt: "invalid", mnemonic_tail: "", cycles: (4, 0), pre_len: 0, op_len: 1, arg_len: 0, group: InsnGroup::Invalid },
        0x02 => Opcode { mnemonic_fmt: "invalid", mnemonic_tail: "", cycles: (4, 0), pre_len: 0, op_len: 1, arg_len: 0, group: InsnGroup::Invalid },
        0x03 => Opcode { mnemonic_fmt: "invalid", mnemonic_tail: "", cycles: (4, 0), pre_len: 0, op_len: 1, arg_len: 0, group: InsnGroup::Invalid },
        0x04 => Opcode { mnemonic_fmt: "invalid", mnemonic_tail: "", cycles: (4, 0), pre_len: 0, op_len: 1, arg_len: 0, group: InsnGroup::Invalid },
        0x05 => Opcode { mnemonic_fmt: "invalid", mnemonic_tail: "", cycles: (4, 0), pre_len: 0, op_len: 1, arg_len: 0, group: InsnGroup::Invalid },
        0x06 => Opcode { mnemonic_fmt: "invalid", mnemonic_tail: "", cycles: (4, 0), pre_len: 0, op_len: 1, arg_len: 0, group: InsnGroup::Invalid },
        0x07 => Opcode { mnemonic_fmt: "invalid", mnemonic_tail: "", cycles: (4, 0), pre_len: 0, op_len: 1, arg_len: 0, group: InsnGroup::Invalid },
        0x08 => Opcode { mnemonic_fmt: "invalid", mnemonic_tail: "", cycles: (4, 0), pre_len: 0, op_len: 1, arg_len: 0, group: InsnGroup::Invalid },
        0x09 => Opcode { mnemonic_fmt: "add iy, bc", mnemonic_tail: "", cycles: (15, 0), pre_len: 1, op_len: 1, arg_len: 0, group: InsnGroup::Regular },
        0x0A => Opcode { mnemonic_fmt: "invalid", mnemonic_tail: "", cycles: (4, 0), pre_len: 0, op_len: 1, arg_len: 0, group: InsnGroup::Invalid },
        0x0B => Opcode { mnemonic_fmt: "invalid", mnemonic_tail: "", cycles: (4, 0), pre_len: 0, op_len: 1, arg_len: 0, group: InsnGroup::Invalid },
        0x0C => Opcode { mnemonic_fmt: "invalid", mnemonic_tail: "", cycles: (4, 0), pre_len: 0, op_len: 1, arg_len: 0, group: InsnGroup::Invalid },
        0x0D => Opcode { mnemonic_fmt: "invalid", mnemonic_tail: "", cycles: (4, 0), pre_len: 0, op_len: 1, arg_len: 0, group: InsnGroup::Invalid },
        0x0E => Opcode { mnemonic_fmt: "invalid", mnemonic_tail: "", cycles: (4, 0), pre_len: 0, op_len: 1, arg_len: 0, group: InsnGroup::Invalid },
        0x0F => Opcode { mnemonic_fmt: "invalid", mnemonic_tail: "", cycles: (4, 0), pre_len: 0, op_len: 1, arg_len: 0, group: InsnGroup::Invalid },
        0x10 => Opcode { mnemonic_fmt: "invalid", mnemonic_tail: "", cycles: (4, 0), pre_len: 0, op_len: 1, arg_len: 0, group: InsnGroup::Invalid },
        0x11 => Opcode { mnemonic_fmt: "invalid", mnemonic_tail: "", cycles: (4, 0), pre_len: 0, op_len: 1, arg_len: 0, group: InsnGroup::Invalid },
        0x12 => Opcode { mnemonic_fmt: "invalid", mnemonic_tail: "", cycles: (4, 0), pre_len: 0, op_len: 1, arg_len: 0, group: InsnGroup::Invalid },
        0x13 => Opcode { mnemonic_fmt: "invalid", mnemonic_tail: "", cycles: (4, 0), pre_len: 0, op_len: 1, arg_len: 0, group: InsnGroup::Invalid },
        0x14 => Opcode { mnemonic_fmt: "invalid", mnemonic_tail: "", cycles: (4, 0), pre_len: 0, op_len: 1, arg_len: 0, group: InsnGroup::Invalid },
        0x15 => Opcode { mnemonic_fmt: "invalid", mnemonic_tail: "", cycles: (4, 0), pre_len: 0, op_len: 1, arg_len: 0, group: InsnGroup::Invalid },
        0x16 => Opcode { mnemonic_fmt: "invalid", mnemonic_tail: "", cycles: (4, 0), pre_len: 0, op_len: 1, arg_len: 0, group: InsnGroup::Invalid },
        0x17 => Opcode { mnemonic_fmt: "invalid", mnemonic_tail: "", cycles: (4, 0), pre_len: 0, op_len: 1, arg_len: 0, group: InsnGroup::Invalid },
        0x18 => Opcode { mnemonic_fmt: "invalid", mnemonic_tail: "", cycles: (4, 0), pre_len: 0, op_len: 1, arg_len: 0, group: InsnGroup::Invalid },
        0x19 => Opcode { mnemonic_fmt: "add iy, de", mnemonic_tail: "", cycles: (15, 0), pre_len: 1, op_len: 1, arg_len: 0, group: InsnGroup::Regular },
        0x1A => Opcode { mnemonic_fmt: "invalid", mnemonic_tail: "", cycles: (4, 0), pre_len: 0, op_len: 1, arg_len: 0, group: InsnGroup::Invalid },
        0x1B => Opcode { mnemonic_fmt: "invalid", mnemonic_tail: "", cycles: (4, 0), pre_len: 0, op_len: 1, arg_len: 0, group: InsnGroup::Invalid },
        0x1C => Opcode { mnemonic_fmt: "invalid", mnemonic_tail: "", cycles: (4, 0), pre_len: 0, op_len: 1, arg_len: 0, group: InsnGroup::Invalid },
        0x1D => Opcode { mnemonic_fmt: "invalid", mnemonic_tail: "", cycles: (4, 0), pre_len: 0, op_len: 1, arg_len: 0, group: InsnGroup::Invalid },
        0x1E => Opcode { mnemonic_fmt: "invalid", mnemonic_tail: "", cycles: (4, 0), pre_len: 0, op_len: 1, arg_len: 0, group: InsnGroup::Invalid },
        0x1F => Opcode { mnemonic_fmt: "invalid", mnemonic_tail: "", cycles: (4, 0), pre_len: 0, op_len: 1, arg_len: 0, group: InsnGroup::Invalid },
        0x20 => Opcode { mnemonic_fmt: "invalid", mnemonic_tail: "", cycles: (4, 0), pre_len: 0, op_len: 1, arg_len: 0, group: InsnGroup::Invalid },
        0x21 => Opcode { mnemonic_fmt: "ld iy, $", mnemonic_tail: "", cycles: (14, 0), pre_len: 1, op_len: 1, arg_len: 2, group: InsnGroup::Regular },
        0x22 => Opcode { mnemonic_fmt: "ld ($", mnemonic_tail: "), iy", cycles: (20, 0), pre_len: 1, op_len: 1, arg_len: 2, group: InsnGroup::Regular },
        0x23 => Opcode { mnemonic_fmt: "inc iy", mnemonic_tail: "", cycles: (10, 0), pre_len: 1, op_len: 1, arg_len: 0, group: InsnGroup::Regular },
        0x24 => Opcode { mnemonic_fmt: "invalid", mnemonic_tail: "", cycles: (4, 0), pre_len: 0, op_len: 1, arg_len: 0, group: InsnGroup::Invalid },
        0x25 => Opcode { mnemonic_fmt: "invalid", mnemonic_tail: "", cycles: (4, 0), pre_len: 0, op_len: 1, arg_len: 0, group: InsnGroup::Invalid },
        0x26 => Opcode { mnemonic_fmt: "invalid", mnemonic_tail: "", cycles: (4, 0), pre_len: 0, op_len: 1, arg_len: 0, group: InsnGroup::Invalid },
        0x27 => Opcode { mnemonic_fmt: "invalid", mnemonic_tail: "", cycles: (4, 0), pre_len: 0, op_len: 1, arg_len: 0, group: InsnGroup::Invalid },
        0x28 => Opcode { mnemonic_fmt: "invalid", mnemonic_tail: "", cycles: (4, 0), pre_len: 0, op_len: 1, arg_len: 0, group: InsnGroup::Invalid },
        0x29 => Opcode { mnemonic_fmt: "add iy, iy", mnemonic_tail: "", cycles: (15, 0), pre_len: 1, op_len: 1, arg_len: 0, group: InsnGroup::Regular },
        0x2A => Opcode { mnemonic_fmt: "ld iy, ($", mnemonic_tail: ")", cycles: (20, 0), pre_len: 1, op_len: 1, arg_len: 2, group: InsnGroup::Regular },
        0x2B => Opcode { mnemonic_fmt: "dec iy", mnemonic_tail: "", cycles: (10, 0), pre_len: 1, op_len: 1, arg_len: 0, group: InsnGroup::Regular },
        0x2C => Opcode { mnemonic_fmt: "invalid", mnemonic_tail: "", cycles: (4, 0), pre_len: 0, op_len: 1, arg_len: 0, group: InsnGroup::Invalid },
        0x2D => Opcode { mnemonic_fmt: "invalid", mnemonic_tail: "", cycles: (4, 0), pre_len: 0, op_len: 1, arg_len: 0, group: InsnGroup::Invalid },
        0x2E => Opcode { mnemonic_fmt: "invalid", mnemonic_tail: "", cycles: (4, 0), pre_len: 0, op_len: 1, arg_len: 0, group: InsnGroup::Invalid },
        0x2F => Opcode { mnemonic_fmt: "invalid", mnemonic_tail: "", cycles: (4, 0), pre_len: 0, op_len: 1, arg_len: 0, group: InsnGroup::Invalid },
        0x30 => Opcode { mnemonic_fmt: "invalid", mnemonic_tail: "", cycles: (4, 0), pre_len: 0, op_len: 1, arg_len: 0, group: InsnGroup::Invalid },
        0x31 => Opcode { mnemonic_fmt: "invalid", mnemonic_tail: "", cycles: (4, 0), pre_len: 0, op_len: 1, arg_len: 0, group: InsnGroup::Invalid },
        0x32 => Opcode { mnemonic_fmt: "invalid", mnemonic_tail: "", cycles: (4, 0), pre_len: 0, op_len: 1, arg_len: 0, group: InsnGroup::Invalid },
        0x33 => Opcode { mnemonic_fmt: "invalid", mnemonic_tail: "", cycles: (4, 0), pre_len: 0, op_len: 1, arg_len: 0, group: InsnGroup::Invalid },
        0x34 => Opcode { mnemonic_fmt: "inc (iy+$", mnemonic_tail: ")", cycles: (23, 0), pre_len: 1, op_len: 1, arg_len: 1, group: InsnGroup::Regular },
        0x35 => Opcode { mnemonic_fmt: "dec (iy+$", mnemonic_tail: ")", cycles: (23, 0), pre_len: 1, op_len: 1, arg_len: 1, group: InsnGroup::Regular },
        0x36 => Opcode { mnemonic_fmt: "ld (iy+d), n ; n:d = $", mnemonic_tail: "", cycles: (19, 0), pre_len: 1, op_len: 1, arg_len: 2, group: InsnGroup::Regular },
        0x37 => Opcode { mnemonic_fmt: "invalid", mnemonic_tail: "", cycles: (4, 0), pre_len: 0, op_len: 1, arg_len: 0, group: InsnGroup::Invalid },
        0x38 => Opcode { mnemonic_fmt: "invalid", mnemonic_tail: "", cycles: (4, 0), pre_len: 0, op_len: 1, arg_len: 0, group: InsnGroup::Invalid },
        0x39 => Opcode { mnemonic_fmt: "add iy, sp", mnemonic_tail: "", cycles: (15, 0), pre_len: 1, op_len: 1, arg_len: 0, group: InsnGroup::Regular },
        0x3A => Opcode { mnemonic_fmt: "invalid", mnemonic_tail: "", cycles: (4, 0), pre_len: 0, op_len: 1, arg_len: 0, group: InsnGroup::Invalid },
        0x3B => Opcode { mnemonic_fmt: "invalid", mnemonic_tail: "", cycles: (4, 0), pre_len: 0, op_len: 1, arg_len: 0, group: InsnGroup::Invalid },
        0x3C => Opcode { mnemonic_fmt: "invalid", mnemonic_tail: "", cycles: (4, 0), pre_len: 0, op_len: 1, arg_len: 0, group: InsnGroup::Invalid },
        0x3D => Opcode { mnemonic_fmt: "invalid", mnemonic_tail: "", cycles: (4, 0), pre_len: 0, op_len: 1, arg_len: 0, group: InsnGroup::Invalid },
        0x3E => Opcode { mnemonic_fmt: "invalid", mnemonic_tail: "", cycles: (4, 0), pre_len: 0, op_len: 1, arg_len: 0, group: InsnGroup::Invalid },
        0x3F => Opcode { mnemonic_fmt: "invalid", mnemonic_tail: "", cycles: (4, 0), pre_len: 0, op_len: 1, arg_len: 0, group: InsnGroup::Invalid },
        0x40 => Opcode { mnemonic_fmt: "invalid", mnemonic_tail: "", cycles: (4, 0), pre_len: 0, op_len: 1, arg_len: 0, group: InsnGroup::Invalid },
        0x41 => Opcode { mnemonic_fmt: "invalid", mnemonic_tail: "", cycles: (4, 0), pre_len: 0, op_len: 1, arg_len: 0, group: InsnGroup::Invalid },
        0x42 => Opcode { mnemonic_fmt: "invalid", mnemonic_tail: "", cycles: (4, 0), pre_len: 0, op_len: 1, arg_len: 0, group: InsnGroup::Invalid },
        0x43 => Opcode { mnemonic_fmt: "invalid", mnemonic_tail: "", cycles: (4, 0), pre_len: 0, op_len: 1, arg_len: 0, group: InsnGroup::Invalid },
        0x44 => Opcode { mnemonic_fmt: "invalid", mnemonic_tail: "", cycles: (4, 0), pre_len: 0, op_len: 1, arg_len: 0, group: InsnGroup::Invalid },
        0x45 => Opcode { mnemonic_fmt: "invalid", mnemonic_tail: "", cycles: (4, 0), pre_len: 0, op_len: 1, arg_len: 0, group: InsnGroup::Invalid },
        0x46 => Opcode { mnemonic_fmt: "ld b, (iy+$", mnemonic_tail: ")", cycles: (19, 0), pre_len: 1, op_len: 1, arg_len: 1, group: InsnGroup::Regular },
        0x47 => Opcode { mnemonic_fmt: "invalid", mnemonic_tail: "", cycles: (4, 0), pre_len: 0, op_len: 1, arg_len: 0, group: InsnGroup::Invalid },
        0x48 => Opcode { mnemonic_fmt: "invalid", mnemonic_tail: "", cycles: (4, 0), pre_len: 0, op_len: 1, arg_len: 0, group: InsnGroup::Invalid },
        0x49 => Opcode { mnemonic_fmt: "invalid", mnemonic_tail: "", cycles: (4, 0), pre_len: 0, op_len: 1, arg_len: 0, group: InsnGroup::Invalid },
        0x4A => Opcode { mnemonic_fmt: "invalid", mnemonic_tail: "", cycles: (4, 0), pre_len: 0, op_len: 1, arg_len: 0, group: InsnGroup::Invalid },
        0x4B => Opcode { mnemonic_fmt: "invalid", mnemonic_tail: "", cycles: (4, 0), pre_len: 0, op_len: 1, arg_len: 0, group: InsnGroup::Invalid },
        0x4C => Opcode { mnemonic_fmt: "invalid", mnemonic_tail: "", cycles: (4, 0), pre_len: 0, op_len: 1, arg_len: 0, group: InsnGroup::Invalid },
        0x4D => Opcode { mnemonic_fmt: "invalid", mnemonic_tail: "", cycles: (4, 0), pre_len: 0, op_len: 1, arg_len: 0, group: InsnGroup::Invalid },
        0x4E => Opcode { mnemonic_fmt: "ld c, (iy+$", mnemonic_tail: ")", cycles: (19, 0), pre_len: 1, op_len: 1, arg_len: 1, group: InsnGroup::Regular },
        0x4F => Opcode { mnemonic_fmt: "invalid", mnemonic_tail: "", cycles: (4, 0), pre_len: 0, op_len: 1, arg_len: 0, group: InsnGroup::Invalid },
        0x50 => Opcode { mnemonic_fmt: "invalid", mnemonic_tail: "", cycles: (4, 0), pre_len: 0, op_len: 1, arg_len: 0, group: InsnGroup::Invalid },
        0x51 => Opcode { mnemonic_fmt: "invalid", mnemonic_tail: "", cycles: (4, 0), pre_len: 0, op_len: 1, arg_len: 0, group: InsnGroup::Invalid },
        0x52 => Opcode { mnemonic_fmt: "invalid", mnemonic_tail: "", cycles: (4, 0), pre_len: 0, op_len: 1, arg_len: 0, group: InsnGroup::Invalid },
        0x53 => Opcode { mnemonic_fmt: "invalid", mnemonic_tail: "", cycles: (4, 0), pre_len: 0, op_len: 1, arg_len: 0, group: InsnGroup::Invalid },
        0x54 => Opcode { mnemonic_fmt: "invalid", mnemonic_tail: "", cycles: (4, 0), pre_len: 0, op_len: 1, arg_len: 0, group: InsnGroup::Invalid },
        0x55 => Opcode { mnemonic_fmt: "invalid", mnemonic_tail: "", cycles: (4, 0), pre_len: 0, op_len: 1, arg_len: 0, group: InsnGroup::Invalid },
        0x56 => Opcode { mnemonic_fmt: "ld d, (iy+$", mnemonic_tail: ")", cycles: (19, 0), pre_len: 1, op_len: 1, arg_len: 1, group: InsnGroup::Regular },
        0x57 => Opcode { mnemonic_fmt: "invalid", mnemonic_tail: "", cycles: (4, 0), pre_len: 0, op_len: 1, arg_len: 0, group: InsnGroup::Invalid },
        0x58 => Opcode { mnemonic_fmt: "invalid", mnemonic_tail: "", cycles: (4, 0), pre_len: 0, op_len: 1, arg_len: 0, group: InsnGroup::Invalid },
        0x59 => Opcode { mnemonic_fmt: "invalid", mnemonic_tail: "", cycles: (4, 0), pre_len: 0, op_len: 1, arg_len: 0, group: InsnGroup::Invalid },
        0x5A => Opcode { mnemonic_fmt: "invalid", mnemonic_tail: "", cycles: (4, 0), pre_len: 0, op_len: 1, arg_len: 0, group: InsnGroup::Invalid },
        0x5B => Opcode { mnemonic_fmt: "invalid", mnemonic_tail: "", cycles: (4, 0), pre_len: 0, op_len: 1, arg_len: 0, group: InsnGroup::Invalid },
        0x5C => Opcode { mnemonic_fmt: "invalid", mnemonic_tail: "", cycles: (4, 0), pre_len: 0, op_len: 1, arg_len: 0, group: InsnGroup::Invalid },
        0x5D => Opcode { mnemonic_fmt: "invalid", mnemonic_tail: "", cycles: (4, 0), pre_len: 0, op_len: 1, arg_len: 0, group: InsnGroup::Invalid },
        0x5E => Opcode { mnemonic_fmt: "ld e, (iy+$", mnemonic_tail: ")", cycles: (19, 0), pre_len: 1, op_len: 1, arg_len: 1, group: InsnGroup::Regular },
        0x5F => Opcode { mnemonic_fmt: "invalid", mnemonic_tail: "", cycles: (4, 0), pre_len: 0, op_len: 1, arg_len: 0, group: InsnGroup::Invalid },
        0x60 => Opcode { mnemonic_fmt: "invalid", mnemonic_tail: "", cycles: (4, 0), pre_len: 0, op_len: 1, arg_len: 0, group: InsnGroup::Invalid },
        0x61 => Opcode { mnemonic_fmt: "invalid", mnemonic_tail: "", cycles: (4, 0), pre_len: 0, op_len: 1, arg_len: 0, group: InsnGroup::Invalid },
        0x62 => Opcode { mnemonic_fmt: "invalid", mnemonic_tail: "", cycles: (4, 0), pre_len: 0, op_len: 1, arg_len: 0, group: InsnGroup::Invalid },
        0x63 => Opcode { mnemonic_fmt: "invalid", mnemonic_tail: "", cycles: (4, 0), pre_len: 0, op_len: 1, arg_len: 0, group: InsnGroup::Invalid },
        0x64 => Opcode { mnemonic_fmt: "invalid", mnemonic_tail: "", cycles: (4, 0), pre_len: 0, op_len: 1, arg_len: 0, group: InsnGroup::Invalid },
        0x65 => Opcode { mnemonic_fmt: "invalid", mnemonic_tail: "", cycles: (4, 0), pre_len: 0, op_len: 1, arg_len: 0, group: InsnGroup::Invalid },
        0x66 => Opcode { mnemonic_fmt: "ld h, (iy+$", mnemonic_tail: ")", cycles: (19, 0), pre_len: 1, op_len: 1, arg_len: 1, group: InsnGroup::Regular },
        0x67 => Opcode { mnemonic_fmt: "invalid", mnemonic_tail: "", cycles: (4, 0), pre_len: 0, op_len: 1, arg_len: 0, group: InsnGroup::Invalid },
        0x68 => Opcode { mnemonic_fmt: "invalid", mnemonic_tail: "", cycles: (4, 0), pre_len: 0, op_len: 1, arg_len: 0, group: InsnGroup::Invalid },
        0x69 => Opcode { mnemonic_fmt: "invalid", mnemonic_tail: "", cycles: (4, 0), pre_len: 0, op_len: 1, arg_len: 0, group: InsnGroup::Invalid },
        0x6A => Opcode { mnemonic_fmt: "invalid", mnemonic_tail: "", cycles: (4, 0), pre_len: 0, op_len: 1, arg_len: 0, group: InsnGroup::Invalid },
        0x6B => Opcode { mnemonic_fmt: "invalid", mnemonic_tail: "", cycles: (4, 0), pre_len: 0, op_len: 1, arg_len: 0, group: InsnGroup::Invalid },
        0x6C => Opcode { mnemonic_fmt: "invalid", mnemonic_tail: "", cycles: (4, 0), pre_len: 0, op_len: 1, arg_len: 0, group: InsnGroup::Invalid },
        0x6D => Opcode { mnemonic_fmt: "invalid", mnemonic_tail: "", cycles: (4, 0), pre_len: 0, op_len: 1, arg_len: 0, group: InsnGroup::Invalid },
        0x6E => Opcode { mnemonic_fmt: "ld l, (iy+$", mnemonic_tail: ")", cycles: (19, 0), pre_len: 1, op_len: 1, arg_len: 1, group: InsnGroup::Regular },
        0x6F => Opcode { mnemonic_fmt: "invalid", mnemonic_tail: "", cycles: (4, 0), pre_len: 0, op_len: 1, arg_len: 0, group: InsnGroup::Invalid },
        0x70 => Opcode { mnemonic_fmt: "ld (iy+$", mnemonic_tail: "), b", cycles: (19, 0), pre_len: 1, op_len: 1, arg_len: 1, group: InsnGroup::Regular },
        0x71 => Opcode { mnemonic_fmt: "ld (iy+$", mnemonic_tail: "), c", cycles: (19, 0), pre_len: 1, op_len: 1, arg_len: 1, group: InsnGroup::Regular },
        0x72 => Opcode { mnemonic_fmt: "ld (iy+$", mnemonic_tail: "), d", cycles: (19, 0), pre_len: 1, op_len: 1, arg_len: 1, group: InsnGroup::Regular },
        0x73 => Opcode { mnemonic_fmt: "ld (iy+$", mnemonic_tail: "), e", cycles: (19, 0), pre_len: 1, op_len: 1, arg_len: 1, group: InsnGroup::Regular },
        0x74 => Opcode { mnemonic_fmt: "ld (iy+$", mnemonic_tail: "), h", cycles: (19, 0), pre_len: 1, op_len: 1, arg_len: 1, group: InsnGroup::Regular },
        0x75 => Opcode { mnemonic_fmt: "ld (iy+$", mnemonic_tail: "), l", cycles: (19, 0), pre_len: 1, op_len: 1, arg_len: 1, group: InsnGroup::Regular },
        0x76 => Opcode { mnemonic_fmt: "invalid", mnemonic_tail: "", cycles: (4, 0), pre_len: 0, op_len: 1, arg_len: 0, group: InsnGroup::Invalid },
        0x77 => Opcode { mnemonic_fmt: "ld (iy+$", mnemonic_tail: "), a", cycles: (19, 0), pre_len: 1, op_len: 1, arg_len: 1, group: InsnGroup::Regular },
        0x78 => Opcode { mnemonic_fmt: "invalid", mnemonic_tail: "", cycles: (4, 0), pre_len: 0, op_len: 1, arg_len: 0, group: InsnGroup::Invalid },
        0x79 => Opcode { mnemonic_fmt: "invalid", mnemonic_tail: "", cycles: (4, 0), pre_len: 0, op_len: 1, arg_len: 0, group: InsnGroup::Invalid },
        0x7A => Opcode { mnemonic_fmt: "invalid", mnemonic_tail: "", cycles: (4, 0), pre_len: 0, op_len: 1, arg_len: 0, group: InsnGroup::Invalid },
        0x7B => Opcode { mnemonic_fmt: "invalid", mnemonic_tail: "", cycles: (4, 0), pre_len: 0, op_len: 1, arg_len: 0, group: InsnGroup::Invalid },
        0x7C => Opcode { mnemonic_fmt: "invalid", mnemonic_tail: "", cycles: (4, 0), pre_len: 0, op_len: 1, arg_len: 0, group: InsnGroup::Invalid },
        0x7D => Opcode { mnemonic_fmt: "invalid", mnemonic_tail: "", cycles: (4, 0), pre_len: 0, op_len: 1, arg_len: 0, group: InsnGroup::Invalid },
        0x7E => Opcode { mnemonic_fmt: "ld a, (iy+$", mnemonic_tail: ")", cycles: (19, 0), pre_len: 1, op_len: 1, arg_len: 1, group: InsnGroup::Regular },
        0x7F => Opcode { mnemonic_fmt: "invalid", mnemonic_tail: "", cycles: (4, 0), pre_len: 0, op_len: 1, arg_len: 0, group: InsnGroup::Invalid },
        0x80 => Opcode { mnemonic_fmt: "invalid", mnemonic_tail: "", cycles: (4, 0), pre_len: 0, op_len: 1, arg_len: 0, group: InsnGroup::Invalid },
        0x81 => Opcode { mnemonic_fmt: "invalid", mnemonic_tail: "", cycles: (4, 0), pre_len: 0, op_len: 1, arg_len: 0, group: InsnGroup::Invalid },
        0x82 => Opcode { mnemonic_fmt: "invalid", mnemonic_tail: "", cycles: (4, 0), pre_len: 0, op_len: 1, arg_len: 0, group: InsnGroup::Invalid },
        0x83 => Opcode { mnemonic_fmt: "invalid", mnemonic_tail: "", cycles: (4, 0), pre_len: 0, op_len: 1, arg_len: 0, group: InsnGroup::Invalid },
        0x84 => Opcode { mnemonic_fmt: "invalid", mnemonic_tail: "", cycles: (4, 0), pre_len: 0, op_len: 1, arg_len: 0, group: InsnGroup::Invalid },
        0x85 => Opcode { mnemonic_fmt: "invalid", mnemonic_tail: "", cycles: (4, 0), pre_len: 0, op_len: 1, arg_len: 0, group: InsnGroup::Invalid },
        0x86 => Opcode { mnemonic_fmt: "add a, (iy+$", mnemonic_tail: ")", cycles: (19, 0), pre_len: 1, op_len: 1, arg_len: 1, group: InsnGroup::Regular },
        0x87 => Opcode { mnemonic_fmt: "invalid", mnemonic_tail: "", cycles: (4, 0), pre_len: 0, op_len: 1, arg_len: 0, group: InsnGroup::Invalid },
        0x88 => Opcode { mnemonic_fmt: "invalid", mnemonic_tail: "", cycles: (4, 0), pre_len: 0, op_len: 1, arg_len: 0, group: InsnGroup::Invalid },
        0x89 => Opcode { mnemonic_fmt: "invalid", mnemonic_tail: "", cycles: (4, 0), pre_len: 0, op_len: 1, arg_len: 0, group: InsnGroup::Invalid },
        0x8A => Opcode { mnemonic_fmt: "invalid", mnemonic_tail: "", cycles: (4, 0), pre_len: 0, op_len: 1, arg_len: 0, group: InsnGroup::Invalid },
        0x8B => Opcode { mnemonic_fmt: "invalid", mnemonic_tail: "", cycles: (4, 0), pre_len: 0, op_len: 1, arg_len: 0, group: InsnGroup::Invalid },
        0x8C => Opcode { mnemonic_fmt: "invalid", mnemonic_tail: "", cycles: (4, 0), pre_len: 0, op_len: 1, arg_len: 0, group: InsnGroup::Invalid },
        0x8D => Opcode { mnemonic_fmt: "invalid", mnemonic_tail: "", cycles: (4, 0), pre_len: 0, op_len: 1, arg_len: 0, group: InsnGroup::Invalid },
        0x8E => Opcode { mnemonic_fmt: "adc a, (iy+$", mnemonic_tail: ")", cycles: (19, 0), pre_len: 1, op_len: 1, arg_len: 1, group: InsnGroup::Regular },
        0x8F => Opcode { mnemonic_fmt: "invalid", mnemonic_tail: "", cycles: (4, 0), pre_len: 0, op_len: 1, arg_len: 0, group: InsnGroup::Invalid },
        0x90 => Opcode { mnemonic_fmt: "invalid", mnemonic_tail: "", cycles: (4, 0), pre_len: 0, op_len: 1, arg_len: 0, group: InsnGroup::Invalid },
        0x91 => Opcode { mnemonic_fmt: "invalid", mnemonic_tail: "", cycles: (4, 0), pre_len: 0, op_len: 1, arg_len: 0, group: InsnGroup::Invalid },
        0x92 => Opcode { mnemonic_fmt: "invalid", mnemonic_tail: "", cycles: (4, 0), pre_len: 0, op_len: 1, arg_len: 0, group: InsnGroup::Invalid },
        0x93 => Opcode { mnemonic_fmt: "invalid", mnemonic_tail: "", cycles: (4, 0), pre_len: 0, op_len: 1, arg_len: 0, group: InsnGroup::Invalid },
        0x94 => Opcode { mnemonic_fmt: "invalid", mnemonic_tail: "", cycles: (4, 0), pre_len: 0, op_len: 1, arg_len: 0, group: InsnGroup::Invalid },
        0x95 => Opcode { mnemonic_fmt: "invalid", mnemonic_tail: "", cycles: (4, 0), pre_len: 0, op_len: 1, arg_len: 0, group: InsnGroup::Invalid },
        0x96 => Opcode { mnemonic_fmt: "sub (iy+$", mnemonic_tail: ")", cycles: (19, 0), pre_len: 1, op_len: 1, arg_len: 1, group: InsnGroup::Regular },
        0x97 => Opcode { mnemonic_fmt: "invalid", mnemonic_tail: "", cycles: (4, 0), pre_len: 0, op_len: 1, arg_len: 0, group: InsnGroup::Invalid },
        0x98 => Opcode { mnemonic_fmt: "invalid", mnemonic_tail: "", cycles: (4, 0), pre_len: 0, op_len: 1, arg_len: 0, group: InsnGroup::Invalid },
        0x99 => Opcode { mnemonic_fmt: "invalid", mnemonic_tail: "", cycles: (4, 0), pre_len: 0, op_len: 1, arg_len: 0, group: InsnGroup::Invalid },
        0x9A => Opcode { mnemonic_fmt: "invalid", mnemonic_tail: "", cycles: (4, 0), pre_len: 0, op_len: 1, arg_len: 0, group: InsnGroup::Invalid },
        0x9B => Opcode { mnemonic_fmt: "invalid", mnemonic_tail: "", cycles: (4, 0), pre_len: 0, op_len: 1, arg_len: 0, group: InsnGroup::Invalid },
        0x9C => Opcode { mnemonic_fmt: "invalid", mnemonic_tail: "", cycles: (4, 0), pre_len: 0, op_len: 1, arg_len: 0, group: InsnGroup::Invalid },
        0x9D => Opcode { mnemonic_fmt: "invalid", mnemonic_tail: "", cycles: (4, 0), pre_len: 0, op_len: 1, arg_len: 0, group: InsnGroup::Invalid },
        0x9E => Opcode { mnemonic_fmt: "sbc a, (iy+$", mnemonic_tail: ")", cycles: (19, 0), pre_len: 1, op_len: 1, arg_len: 1, group: InsnGroup::Regular },
        0x9F => Opcode { mnemonic_fmt: "invalid", mnemonic_tail: "", cycles: (4, 0), pre_len: 0, op_len: 1, arg_len: 0, group: InsnGroup::Invalid },
        0xA0 => Opcode { mnemonic_fmt: "invalid", mnemonic_tail: "", cycles: (4, 0), pre_len: 0, op_len: 1, arg_len: 0, group: InsnGroup::Invalid },
        0xA1 => Opcode { mnemonic_fmt: "invalid", mnemonic_tail: "", cycles: (4, 0), pre_len: 0, op_len: 1, arg_len: 0, group: InsnGroup::Invalid },
        0xA2 => Opcode { mnemonic_fmt: "invalid", mnemonic_tail: "", cycles: (4, 0), pre_len: 0, op_len: 1, arg_len: 0, group: InsnGroup::Invalid },
        0xA3 => Opcode { mnemonic_fmt: "invalid", mnemonic_tail: "", cycles: (4, 0), pre_len: 0, op_len: 1, arg_len: 0, group: InsnGroup::Invalid },
        0xA4 => Opcode { mnemonic_fmt: "invalid", mnemonic_tail: "", cycles: (4, 0), pre_len: 0, op_len: 1, arg_len: 0, group: InsnGroup::Invalid },
        0xA5 => Opcode { mnemonic_fmt: "invalid", mnemonic_tail: "", cycles: (4, 0), pre_len: 0, op_len: 1, arg_len: 0, group: InsnGroup::Invalid },
        0xA6 => Opcode { mnemonic_fmt: "and (iy+$", mnemonic_tail: ")", cycles: (19, 0), pre_len: 1, op_len: 1, arg_len: 1, group: InsnGroup::Regular },
        0xA7 => Opcode { mnemonic_fmt: "invalid", mnemonic_tail: "", cycles: (4, 0), pre_len: 0, op_len: 1, arg_len: 0, group: InsnGroup::Invalid },
        0xA8 => Opcode { mnemonic_fmt: "invalid", mnemonic_tail: "", cycles: (4, 0), pre_len: 0, op_len: 1, arg_len: 0, group: InsnGroup::Invalid },
        0xA9 => Opcode { mnemonic_fmt: "invalid", mnemonic_tail: "", cycles: (4, 0), pre_len: 0, op_len: 1, arg_len: 0, group: InsnGroup::Invalid },
        0xAA => Opcode { mnemonic_fmt: "invalid", mnemonic_tail: "", cycles: (4, 0), pre_len: 0, op_len: 1, arg_len: 0, group: InsnGroup::Invalid },
        0xAB => Opcode { mnemonic_fmt: "invalid", mnemonic_tail: "", cycles: (4, 0), pre_len: 0, op_len: 1, arg_len: 0, group: InsnGroup::Invalid },
        0xAC => Opcode { mnemonic_fmt: "invalid", mnemonic_tail: "", cycles: (4, 0), pre_len: 0, op_len: 1, arg_len: 0, group: InsnGroup::Invalid },
        0xAD => Opcode { mnemonic_fmt: "invalid", mnemonic_tail: "", cycles: (4, 0), pre_len: 0, op_len: 1, arg_len: 0, group: InsnGroup::Invalid },
        0xAE => Opcode { mnemonic_fmt: "xor (iy+$", mnemonic_tail: ")", cycles: (19, 0), pre_len: 1, op_len: 1, arg_len: 1, group: InsnGroup::Regular },
        0xAF => Opcode { mnemonic_fmt: "invalid", mnemonic_tail: "", cycles: (4, 0), pre_len: 0, op_len: 1, arg_len: 0, group: InsnGroup::Invalid },
        0xB0 => Opcode { mnemonic_fmt: "invalid", mnemonic_tail: "", cycles: (4, 0), pre_len: 0, op_len: 1, arg_len: 0, group: InsnGroup::Invalid },
        0xB1 => Opcode { mnemonic_fmt: "invalid", mnemonic_tail: "", cycles: (4, 0), pre_len: 0, op_len: 1, arg_len: 0, group: InsnGroup::Invalid },
        0xB2 => Opcode { mnemonic_fmt: "invalid", mnemonic_tail: "", cycles: (4, 0), pre_len: 0, op_len: 1, arg_len: 0, group: InsnGroup::Invalid },
        0xB3 => Opcode { mnemonic_fmt: "invalid", mnemonic_tail: "", cycles: (4, 0), pre_len: 0, op_len: 1, arg_len: 0, group: InsnGroup::Invalid },
        0xB4 => Opcode { mnemonic_fmt: "invalid", mnemonic_tail: "", cycles: (4, 0), pre_len: 0, op_len: 1, arg_len: 0, group: InsnGroup::Invalid },
        0xB5 => Opcode { mnemonic_fmt: "invalid", mnemonic_tail: "", cycles: (4, 0), pre_len: 0, op_len: 1, arg_len: 0, group: InsnGroup::Invalid },
        0xB6 => Opcode { mnemonic_fmt: "or (iy+$", mnemonic_tail: ")", cycles: (19, 0), pre_len: 1, op_len: 1, arg_len: 1, group: InsnGroup::Regular },
        0xB7 => Opcode { mnemonic_fmt: "invalid", mnemonic_tail: "", cycles: (4, 0), pre_len: 0, op_len: 1, arg_len: 0, group: InsnGroup::Invalid },
        0xB8 => Opcode { mnemonic_fmt: "invalid", mnemonic_tail: "", cycles: (4, 0), pre_len: 0, op_len: 1, arg_len: 0, group: InsnGroup::Invalid },
        0xB9 => Opcode { mnemonic_fmt: "invalid", mnemonic_tail: "", cycles: (4, 0), pre_len: 0, op_len: 1, arg_len: 0, group: InsnGroup::Invalid },
        0xBA => Opcode { mnemonic_fmt: "invalid", mnemonic_tail: "", cycles: (4, 0), pre_len: 0, op_len: 1, arg_len: 0, group: InsnGroup::Invalid },
        0xBB => Opcode { mnemonic_fmt: "invalid", mnemonic_tail: "", cycles: (4, 0), pre_len: 0, op_len: 1, arg_len: 0, group: InsnGroup::Invalid },
        0xBC => Opcode { mnemonic_fmt: "invalid", mnemonic_tail: "", cycles: (4, 0), pre_len: 0, op_len: 1, arg_len: 0, group: InsnGroup::Invalid },
        0xBD => Opcode { mnemonic_fmt: "invalid", mnemonic_tail: "", cycles: (4, 0), pre_len: 0, op_len: 1, arg_len: 0, group: InsnGroup::Invalid },
        0xBE => Opcode { mnemonic_fmt: "cp (iy+$", mnemonic_tail: ")", cycles: (19, 0), pre_len: 1, op_len: 1, arg_len: 1, group: InsnGroup::Regular },
        0xBF => Opcode { mnemonic_fmt: "invalid", mnemonic_tail: "", cycles: (4, 0), pre_len: 0, op_len: 1, arg_len: 0, group: InsnGroup::Invalid },
        0xC0 => Opcode { mnemonic_fmt: "invalid", mnemonic_tail: "", cycles: (4, 0), pre_len: 0, op_len: 1, arg_len: 0, group: InsnGroup::Invalid },
        0xC1 => Opcode { mnemonic_fmt: "invalid", mnemonic_tail: "", cycles: (4, 0), pre_len: 0, op_len: 1, arg_len: 0, group: InsnGroup::Invalid },
        0xC2 => Opcode { mnemonic_fmt: "invalid", mnemonic_tail: "", cycles: (4, 0), pre_len: 0, op_len: 1, arg_len: 0, group: InsnGroup::Invalid },
        0xC3 => Opcode { mnemonic_fmt: "invalid", mnemonic_tail: "", cycles: (4, 0), pre_len: 0, op_len: 1, arg_len: 0, group: InsnGroup::Invalid },
        0xC4 => Opcode { mnemonic_fmt: "invalid", mnemonic_tail: "", cycles: (4, 0), pre_len: 0, op_len: 1, arg_len: 0, group: InsnGroup::Invalid },
        0xC5 => Opcode { mnemonic_fmt: "invalid", mnemonic_tail: "", cycles: (4, 0), pre_len: 0, op_len: 1, arg_len: 0, group: InsnGroup::Invalid },
        0xC6 => Opcode { mnemonic_fmt: "invalid", mnemonic_tail: "", cycles: (4, 0), pre_len: 0, op_len: 1, arg_len: 0, group: InsnGroup::Invalid },
        0xC7 => Opcode { mnemonic_fmt: "invalid", mnemonic_tail: "", cycles: (4, 0), pre_len: 0, op_len: 1, arg_len: 0, group: InsnGroup::Invalid },
        0xC8 => Opcode { mnemonic_fmt: "invalid", mnemonic_tail: "", cycles: (4, 0), pre_len: 0, op_len: 1, arg_len: 0, group: InsnGroup::Invalid },
        0xC9 => Opcode { mnemonic_fmt: "invalid", mnemonic_tail: "", cycles: (4, 0), pre_len: 0, op_len: 1, arg_len: 0, group: InsnGroup::Invalid },
        0xCA => Opcode { mnemonic_fmt: "invalid", mnemonic_tail: "", cycles: (4, 0), pre_len: 0, op_len: 1, arg_len: 0, group: InsnGroup::Invalid },
        0xCB => Opcode { mnemonic_fmt: "invalid", mnemonic_tail: "", cycles: (4, 0), pre_len: 0, op_len: 1, arg_len: 0, group: InsnGroup::Invalid },
        0xCC => Opcode { mnemonic_fmt: "invalid", mnemonic_tail: "", cycles: (4, 0), pre_len: 0, op_len: 1, arg_len: 0, group: InsnGroup::Invalid },
        0xCD => Opcode { mnemonic_fmt: "invalid", mnemonic_tail: "", cycles: (4, 0), pre_len: 0, op_len: 1, arg_len: 0, group: InsnGroup::Invalid },
        0xCE => Opcode { mnemonic_fmt: "invalid", mnemonic_tail: "", cycles: (4, 0), pre_len: 0, op_len: 1, arg_len: 0, group: InsnGroup::Invalid },
        0xCF => Opcode { mnemonic_fmt: "invalid", mnemonic_tail: "", cycles: (4, 0), pre_len: 0, op_len: 1, arg_len: 0, group: InsnGroup::Invalid },
        0xD0 => Opcode { mnemonic_fmt: "invalid", mnemonic_tail: "", cycles: (4, 0), pre_len: 0, op_len: 1, arg_len: 0, group: InsnGroup::Invalid },
        0xD1 => Opcode { mnemonic_fmt: "invalid", mnemonic_tail: "", cycles: (4, 0), pre_len: 0, op_len: 1, arg_len: 0, group: InsnGroup::Invalid },
        0xD2 => Opcode { mnemonic_fmt: "invalid", mnemonic_tail: "", cycles: (4, 0), pre_len: 0, op_len: 1, arg_len: 0, group: InsnGroup::Invalid },
        0xD3 => Opcode { mnemonic_fmt: "invalid", mnemonic_tail: "", cycles: (4, 0), pre_len: 0, op_len: 1, arg_len: 0, group: InsnGroup::Invalid },
        0xD4 => Opcode { mnemonic_fmt: "invalid", mnemonic_tail: "", cycles: (4, 0), pre_len: 0, op_len: 1, arg_len: 0, group: InsnGroup::Invalid },
        0xD5 => Opcode { mnemonic_fmt: "invalid", mnemonic_tail: "", cycles: (4, 0), pre_len: 0, op_len: 1, arg_len: 0, group: InsnGroup::Invalid },
        0xD6 => Opcode { mnemonic_fmt: "invalid", mnemonic_tail: "", cycles: (4, 0), pre_len: 0, op_len: 1, arg_len: 0, group: InsnGroup::Invalid },
        0xD7 => Opcode { mnemonic_fmt: "invalid", mnemonic_tail: "", cycles: (4, 0), pre_len: 0, op_len: 1, arg_len: 0, group: InsnGroup::Invalid },
        0xD8 => Opcode { mnemonic_fmt: "invalid", mnemonic_tail: "", cycles: (4, 0), pre_len: 0, op_len: 1, arg_len: 0, group: InsnGroup::Invalid },
        0xD9 => Opcode { mnemonic_fmt: "invalid", mnemonic_tail: "", cycles: (4, 0), pre_len: 0, op_len: 1, arg_len: 0, group: InsnGroup::Invalid },
        0xDA => Opcode { mnemonic_fmt: "invalid", mnemonic_tail: "", cycles: (4, 0), pre_len: 0, op_len: 1, arg_len: 0, group: InsnGroup::Invalid },
        0xDB => Opcode { mnemonic_fmt: "invalid", mnemonic_tail: "", cycles: (4, 0), pre_len: 0, op_len: 1, arg_len: 0, group: InsnGroup::Invalid },
        0xDC => Opcode { mnemonic_fmt: "invalid", mnemonic_tail: "", cycles: (4, 0), pre_len: 0, op_len: 1, arg_len: 0, group: InsnGroup::Invalid },
        0xDD => Opcode { mnemonic_fmt: "invalid", mnemonic_tail: "", cycles: (4, 0), pre_len: 0, op_len: 1, arg_len: 0, group: InsnGroup::Invalid },
        0xDE => Opcode { mnemonic_fmt: "invalid", mnemonic_tail: "", cycles: (4, 0), pre_len: 0, op_len: 1, arg_len: 0, group: InsnGroup::Invalid },
        0xDF => Opcode { mnemonic_fmt: "invalid", mnemonic_tail: "", cycles: (4, 0), pre_len: 0, op_len: 1, arg_len: 0, group: InsnGroup::Invalid },
        0xE0 => Opcode { mnemonic_fmt: "invalid", mnemonic_tail: "", cycles: (4, 0), pre_len: 0, op_len: 1, arg_len: 0, group: InsnGroup::Invalid },
        0xE1 => Opcode { mnemonic_fmt: "pop iy", mnemonic_tail: "", cycles: (14, 0), pre_len: 1, op_len: 1, arg_len: 0, group: InsnGroup::Regular },
        0xE2 => Opcode { mnemonic_fmt: "invalid", mnemonic_tail: "", cycles: (4, 0), pre_len: 0, op_len: 1, arg_len: 0, group: InsnGroup::Invalid },
        0xE3 => Opcode { mnemonic_fmt: "ex (sp), iy", mnemonic_tail: "", cycles: (23, 0), pre_len: 1, op_len: 1, arg_len: 0, group: InsnGroup::Regular },
        0xE4 => Opcode { mnemonic_fmt: "invalid", mnemonic_tail: "", cycles: (4, 0), pre_len: 0, op_len: 1, arg_len: 0, group: InsnGroup::Invalid },
        0xE5 => Opcode { mnemonic_fmt: "push iy", mnemonic_tail: "", cycles: (15, 0), pre_len: 1, op_len: 1, arg_len: 0, group: InsnGroup::Regular },
        0xE6 => Opcode { mnemonic_fmt: "invalid", mnemonic_tail: "", cycles: (4, 0), pre_len: 0, op_len: 1, arg_len: 0, group: InsnGroup::Invalid },
        0xE7 => Opcode { mnemonic_fmt: "invalid", mnemonic_tail: "", cycles: (4, 0), pre_len: 0, op_len: 1, arg_len: 0, group: InsnGroup::Invalid },
        0xE8 => Opcode { mnemonic_fmt: "invalid", mnemonic_tail: "", cycles: (4, 0), pre_len: 0, op_len: 1, arg_len: 0, group: InsnGroup::Invalid },
        0xE9 => Opcode { mnemonic_fmt: "jp (iy)", mnemonic_tail: "", cycles: (8, 0), pre_len: 1, op_len: 1, arg_len: 0, group: InsnGroup::Jump },
        0xEA => Opcode { mnemonic_fmt: "invalid", mnemonic_tail: "", cycles: (4, 0), pre_len: 0, op_len: 1, arg_len: 0, group: InsnGroup::Invalid },
        0xEB => Opcode { mnemonic_fmt: "invalid", mnemonic_tail: "", cycles: (4, 0), pre_len: 0, op_len: 1, arg_len: 0, group: InsnGroup::Invalid },
        0xEC => Opcode { mnemonic_fmt: "invalid", mnemonic_tail: "", cycles: (4, 0), pre_len: 0, op_len: 1, arg_len: 0, group: InsnGroup::Invalid },
        0xED => Opcode { mnemonic_fmt: "invalid", mnemonic_tail: "", cycles: (4, 0), pre_len: 0, op_len: 1, arg_len: 0, group: InsnGroup::Invalid },
        0xEE => Opcode { mnemonic_fmt: "invalid", mnemonic_tail: "", cycles: (4, 0), pre_len: 0, op_len: 1, arg_len: 0, group: InsnGroup::Invalid },
        0xEF => Opcode { mnemonic_fmt: "invalid", mnemonic_tail: "", cycles: (4, 0), pre_len: 0, op_len: 1, arg_len: 0, group: InsnGroup::Invalid },
        0xF0 => Opcode { mnemonic_fmt: "invalid", mnemonic_tail: "", cycles: (4, 0), pre_len: 0, op_len: 1, arg_len: 0, group: InsnGroup::Invalid },
        0xF1 => Opcode { mnemonic_fmt: "invalid", mnemonic_tail: "", cycles: (4, 0), pre_len: 0, op_len: 1, arg_len: 0, group: InsnGroup::Invalid },
        0xF2 => Opcode { mnemonic_fmt: "invalid", mnemonic_tail: "", cycles: (4, 0), pre_len: 0, op_len: 1, arg_len: 0, group: InsnGroup::Invalid },
        0xF3 => Opcode { mnemonic_fmt: "invalid", mnemonic_tail: "", cycles: (4, 0), pre_len: 0, op_len: 1, arg_len: 0, group: InsnGroup::Invalid },
        0xF4 => Opcode { mnemonic_fmt: "invalid", mnemonic_tail: "", cycles: (4, 0), pre_len: 0, op_len: 1, arg_len: 0, group: InsnGroup::Invalid },
        0xF5 => Opcode { mnemonic_fmt: "invalid", mnemonic_tail: "", cycles: (4, 0), pre_len: 0, op_len: 1, arg_len: 0, group: InsnGroup::Invalid },
        0xF6 => Opcode { mnemonic_fmt: "invalid", mnemonic_tail: "", cycles: (4, 0), pre_len: 0, op_len: 1, arg_len: 0, group: InsnGroup::Invalid },
        0xF7 => Opcode { mnemonic_fmt: "invalid", mnemonic_tail: "", cycles: (4, 0), pre_len: 0, op_len: 1, arg_len: 0, group: InsnGroup::Invalid },
        0xF8 => Opcode { mnemonic_fmt: "invalid", mnemonic_tail: "", cycles: (4, 0), pre_len: 0, op_len: 1, arg_len: 0, group: InsnGroup::Invalid },
        0xF9 => Opcode { mnemonic_fmt: "ld sp, iy", mnemonic_tail: "", cycles: (10, 0), pre_len: 1, op_len: 1, arg_len: 0, group: InsnGroup::Regular },
        0xFA => Opcode { mnemonic_fmt: "invalid", mnemonic_tail: "", cycles: (4, 0), pre_len: 0, op_len: 1, arg_len: 0, group: InsnGroup::Invalid },
        0xFB => Opcode { mnemonic_fmt: "invalid", mnemonic_tail: "", cycles: (4, 0), pre_len: 0, op_len: 1, arg_len: 0, group: InsnGroup::Invalid },
        0xFC => Opcode { mnemonic_fmt: "invalid", mnemonic_tail: "", cycles: (4, 0), pre_len: 0, op_len: 1, arg_len: 0, group: InsnGroup::Invalid },
        0xFD => Opcode { mnemonic_fmt: "invalid", mnemonic_tail: "", cycles: (4, 0), pre_len: 0, op_len: 1, arg_len: 0, group: InsnGroup::Invalid },
        0xFE => Opcode { mnemonic_fmt: "invalid", mnemonic_tail: "", cycles: (4, 0), pre_len: 0, op_len: 1, arg_len: 0, group: InsnGroup::Invalid },
        _ => Opcode { mnemonic_fmt: "invalid", mnemonic_tail: "", cycles: (4, 0), pre_len: 0, op_len: 1, arg_len: 0, group: InsnGroup::Invalid },
    }
}

/// Looks up an entry of the table of opcodes after the `0xFD` prefix (IY forms).
pub fn lookup_fd(b: u8) -> (r: Opcode)
    ensures
        r == spec_fd(b),
{
    match b {
        0x00 => Opcode { mnemonic_fmt: "invalid", mnemonic_tail: "", cycles: (4, 0), pre_len: 0, op_len: 1, arg_len: 0, group: InsnGroup::Invalid },
        0x01 => Opcode { mnemonic_fmt: "invalid", mnemonic_tail: "", cycles: (4, 0), pre_len: 0, op_len: 1, arg_len: 0, group: InsnGroup::Invalid },
        0x02 => Opcode { mnemonic_fmt: "invalid", mnemonic_tail: "", cycles: (4, 0), pre_len: 0, op_len: 1, arg_len: 0, group: InsnGroup::Invalid },
        0x03 => Opcode { mnemonic_fmt: "invalid", mnemonic_tail: "", cycles: (4, 0), pre_len: 0, op_len: 1, arg_len: 0, group: InsnGroup::Invalid },
        0x04 => Opcode { mnemonic_fmt: "invalid", mnemonic_tail: "", cycles: (4, 0), pre_len: 0, op_len: 1, arg_len: 0, group: InsnGroup::Invalid },
        0x05 => Opcode { mnemonic_fmt: "invalid", mnemonic_tail: "", cycles: (4, 0), pre_len: 0, op_len: 1, arg_len: 0, group: InsnGroup::Invalid },
        0x06 => Opcode { mnemonic_fmt: "invalid", mnemonic_tail: "", cycles: (4, 0), pre_len: 0, op_len: 1, arg_len: 0, group: InsnGroup::Invalid },
        0x07 => Opcode { mnemonic_fmt: "invalid", mnemonic_tail: "", cycles: (4, 0), pre_len: 0, op_len: 1, arg_len: 0, group: InsnGroup::Invalid },
        0x08 => Opcode { mnemonic_fmt: "invalid", mnemonic_tail: "", cycles: (4, 0), pre_len: 0, op_len: 1, arg_len: 0, group: InsnGroup::Invalid },
        0x09 => Opcode { mnemonic_fmt: "add iy, bc", mnemonic_tail: "", cycles: (15, 0), pre_len: 1, op_len: 1, arg_len: 0, group: InsnGroup::Regular },
        0x0A => Opcode { mnemonic_fmt: "invalid", mnemonic_tail: "", cycles: (4, 0), pre_len: 0, op_len: 1, arg_len: 0, group: InsnGroup::Invalid },
        0x0B => Opcode { mnemonic_fmt: "invalid", mnemonic_tail: "", cycles: (4, 0), pre_len: 0, op_len: 1, arg_len: 0, group: InsnGroup::Invalid },
        0x0C => Opcode { mnemonic_fmt: "invalid", mnemonic_tail: "", cycles: (4, 0), pre_len: 0, op_len: 1, arg_len: 0, group: InsnGroup::Invalid },
        0x0D => Opcode { mnemonic_fmt: "invalid", mnemonic_tail: "", cycles: (4, 0), pre_len: 0, op_len: 1, arg_len: 0, group: InsnGroup::Invalid },
        0x0E => Opcode { mnemonic_fmt: "invalid", mnemonic_tail: "", cycles: (4, 0), pre_len: 0, op_len: 1, arg_len: 0, group: InsnGroup::Invalid },
        0x0F => Opcode { mnemonic_fmt: "invalid", mnemonic_tail: "", cycles: (4, 0), pre_len: 0, op_len: 1, arg_len: 0, group: InsnGroup::Invalid },
        0x10 => Opcode { mnemonic_fmt: "invalid", mnemonic_tail: "", cycles: (4, 0), pre_len: 0, op_len: 1, arg_len: 0, group: InsnGroup::Invalid },
        0x11 => Opcode { mnemonic_fmt: "invalid", mnemonic_tail: "", cycles: (4, 0), pre_len: 0, op_len: 1, arg_len: 0, group: InsnGroup::Invalid },
        0x12 => Opcode { mnemonic_fmt: "invalid", mnemonic_tail: "", cycles: (4, 0), pre_len: 0, op_len: 1, arg_len: 0, group: InsnGroup::Invalid },
        0x13 => Opcode { mnemonic_fmt: "invalid", mnemonic_tail: "", cycles: (4, 0), pre_len: 0, op_len: 1, arg_len: 0, group: InsnGroup::Invalid },
        0x14 => Opcode { mnemonic_fmt: "invalid", mnemonic_tail: "", cycles: (4, 0), pre_len: 0, op_len: 1, arg_len: 0, group: InsnGroup::Invalid },
        0x15 => Opcode { mnemonic_fmt: "invalid", mnemonic_tail: "", cycles: (4, 0), pre_len: 0, op_len: 1, arg_len: 0, group: InsnGroup::Invalid },
        0x16 => Opcode { mnemonic_fmt: "invalid", mnemonic_tail: "", cycles: (4, 0), pre_len: 0, op_len: 1, arg_len: 0, group: InsnGroup::Invalid },
        0x17 => Opcode { mnemonic_fmt: "invalid", mnemonic_tail: "", cycles: (4, 0), pre_len: 0, op_len: 1, arg_len: 0, group: InsnGroup::Invalid },
        0x18 => Opcode { mnemonic_fmt: "invalid", mnemonic_tail: "", cycles: (4, 0), pre_len: 0, op_len: 1, arg_len: 0, group: InsnGroup::Invalid },
        0x19 => Opcode { mnemonic_fmt: "add iy, de", mnemonic_tail: "", cycles: (15, 0), pre_len: 1, op_len: 1, arg_len: 0, group: InsnGroup::Regular },
        0x1A => Opcode { mnemonic_fmt: "invalid", mnemonic_tail: "", cycles: (4, 0), pre_len: 0, op_len: 1, arg_len: 0, group: InsnGroup::Invalid },
        0x1B => Opcode { mnemonic_fmt: "invalid", mnemonic_tail: "", cycles: (4, 0), pre_len: 0, op_len: 1, arg_len: 0, group: InsnGroup::Invalid },
        0x1C => Opcode { mnemonic_fmt: "invalid", mnemonic_tail: "", cycles: (4, 0), pre_len: 0, op_len: 1, arg_len: 0, group: InsnGroup::Invalid },
        0x1D => Opcode { mnemonic_fmt: "invalid", mnemonic_tail: "", cycles: (4, 0), pre_len: 0, op_len: 1, arg_len: 0, group: InsnGroup::Invalid },
        0x1E => Opcode { mnemonic_fmt: "invalid", mnemonic_tail: "", cycles: (4, 0), pre_len: 0, op_len: 1, arg_len: 0, group: InsnGroup::Invalid },
        0x1F => Opcode { mnemonic_fmt: "invalid", mnemonic_tail: "", cycles: (4, 0), pre_len: 0, op_len: 1, arg_len: 0, group: InsnGroup::Invalid },
        0x20 => Opcode { mnemonic_fmt: "invalid", mnemonic_tail: "", cycles: (4, 0), pre_len: 0, op_len: 1, arg_len: 0, group: InsnGroup::Invalid },
        0x21 => Opcode { mnemonic_fmt: "ld iy, $", mnemonic_tail: "", cycles: (14, 0), pre_len: 1, op_len: 1, arg_len: 2, group: InsnGroup::Regular },
        0x22 => Opcode { mnemonic_fmt: "ld ($", mnemonic_tail: "), iy", cycles: (20, 0), pre_len: 1, op_len: 1, arg_len: 2, group: InsnGroup::Regular },
        0x23 => Opcode { mnemonic_fmt: "inc iy", mnemonic_tail: "", cycles: (10, 0), pre_len: 1, op_len: 1, arg_len: 0, group: InsnGroup::Regular },
        0x24 => Opcode { mnemonic_fmt: "invalid", mnemonic_tail: "", cycles: (4, 0), pre_len: 0, op_len: 1, arg_len: 0, group: InsnGroup::Invalid },
        0x25 => Opcode { mnemonic_fmt: "invalid", mnemonic_tail: "", cycles: (4, 0), pre_len: 0, op_len: 1, arg_len: 0, group: InsnGroup::Invalid },
        0x26 => Opcode { mnemonic_fmt: "invalid", mnemonic_tail: "", cycles: (4, 0), pre_len: 0, op_len: 1, arg_len: 0, group: InsnGroup::Invalid },
        0x27 => Opcode { mnemonic_fmt: "invalid", mnemonic_tail: "", cycles: (4, 0), pre_len: 0, op_len: 1, arg_len: 0, group: InsnGroup::Invalid },
        0x28 => Opcode { mnemonic_fmt: "invalid", mnemonic_tail: "", cycles: (4, 0), pre_len: 0, op_len: 1, arg_len: 0, group: InsnGroup::Invalid },
        0x29 => Opcode { mnemonic_fmt: "add iy, iy", mnemonic_tail: "", cycles: (15, 0), pre_len: 1, op_len: 1, arg_len: 0, group: InsnGroup::Regular },
        0x2A => Opcode { mnemonic_fmt: "ld iy, ($", mnemonic_tail: ")", cycles: (20, 0), pre_len: 1, op_len: 1, arg_len: 2, group: InsnGroup::Regular },
        0x2B => Opcode { mnemonic_fmt: "dec iy", mnemonic_tail: "", cycles: (10, 0), pre_len: 1, op_len: 1, arg_len: 0, group: InsnGroup::Regular },
        0x2C => Opcode { mnemonic_fmt: "invalid", mnemonic_tail: "", cycles: (4, 0), pre_len: 0, op_len: 1, arg_len: 0, group: InsnGroup::Invalid },
        0x2D => Opcode { mnemonic_fmt: "invalid", mnemonic_tail: "", cycles: (4, 0), pre_len: 0, op_len: 1, arg_len: 0, group: InsnGroup::Invalid },
        0x2E => Opcode { mnemonic_fmt: "invalid", mnemonic_tail: "", cycles: (4, 0), pre_len: 0, op_len: 1, arg_len: 0, group: InsnGroup::Invalid },
        0x2F => Opcode { mnemonic_fmt: "invalid", mnemonic_tail: "", cycles: (4, 0), pre_len: 0, op_len: 1, arg_len: 0, group: InsnGroup::Invalid },
        0x30 => Opcode { mnemonic_fmt: "invalid", mnemonic_tail: "", cycles: (4, 0), pre_len: 0, op_len: 1, arg_len: 0, group: InsnGroup::Invalid },
        0x31 => Opcode { mnemonic_fmt: "invalid", mnemonic_tail: "", cycles: (4, 0), pre_len: 0, op_len: 1, arg_len: 0, group: InsnGroup::Invalid },
        0x32 => Opcode { mnemonic_fmt: "invalid", mnemonic_tail: "", cycles: (4, 0), pre_len: 0, op_len: 1, arg_len: 0, group: InsnGroup::Invalid },
        0x33 => Opcode { mnemonic_fmt: "invalid", mnemonic_tail: "", cycles: (4, 0), pre_len: 0, op_len: 1, arg_len: 0, group: InsnGroup::Invalid },
        0x34 => Opcode { mnemonic_fmt: "inc (iy+$", mnemonic_tail: ")", cycles: (23, 0), pre_len: 1, op_len: 1, arg_len: 1, group: InsnGroup::Regular },
        0x35 => Opcode { mnemonic_fmt: "dec (iy+$", mnemonic_tail: ")", cycles: (23, 0), pre_len: 1, op_len: 1, arg_len: 1, group: InsnGroup::Regular },
        0x36 => Opcode { mnemonic_fmt: "ld (iy+d), n ; n:d = $", mnemonic_tail: "", cycles: (19, 0), pre_len: 1, op_len: 1, arg_len: 2, group: InsnGroup::Regular },
        0x37 => Opcode { mnemonic_fmt: "invalid", mnemonic_tail: "", cycles: (4, 0), pre_len: 0, op_len: 1, arg_len: 0, group: InsnGroup::Invalid },
        0x38 => Opcode { mnemonic_fmt: "invalid", mnemonic_tail: "", cycles: (4, 0), pre_len: 0, op_len: 1, arg_len: 0, group: InsnGroup::Invalid },
        0x39 => Opcode { mnemonic_fmt: "add iy, sp", mnemonic_tail: "", cycles: (15, 0), pre_len: 1, op_len: 1, arg_len: 0, group: InsnGroup::Regular },
        0x3A => Opcode { mnemonic_fmt: "invalid", mnemonic_tail: "", cycles: (4, 0), pre_len: 0, op_len: 1, arg_len: 0, group: InsnGroup::Invalid },
        0x3B => Opcode { mnemonic_fmt: "invalid", mnemonic_tail: "", cycles: (4, 0), pre_len: 0, op_len: 1, arg_len: 0, group: InsnGroup::Invalid },
        0x3C => Opcode { mnemonic_fmt: "invalid", mnemonic_tail: "", cycles: (4, 0), pre_len: 0, op_len: 1, arg_len: 0, group: InsnGroup::Invalid },
        0x3D => Opcode { mnemonic_fmt: "invalid", mnemonic_tail: "", cycles: (4, 0), pre_len: 0, op_len: 1, arg_len: 0, group: InsnGroup::Invalid },
        0x3E => Opcode { mnemonic_fmt: "invalid", mnemonic_tail: "", cycles: (4, 0), pre_len: 0, op_len: 1, arg_len: 0, group: InsnGroup::Invalid },
        0x3F => Opcode { mnemonic_fmt: "invalid", mnemonic_tail: "", cycles: (4, 0), pre_len: 0, op_len: 1, arg_len: 0, group: InsnGroup::Invalid },
        0x40 => Opcode { mnemonic_fmt: "invalid", mnemonic_tail: "", cycles: (4, 0), pre_len: 0, op_len: 1, arg_len: 0, group: InsnGroup::Invalid },
        0x41 => Opcode { mnemonic_fmt: "invalid", mnemonic_tail: "", cycles: (4, 0), pre_len: 0, op_len: 1, arg_len: 0, group: InsnGroup::Invalid },
        0x42 => Opcode { mnemonic_fmt: "invalid", mnemonic_tail: "", cycles: (4, 0), pre_len: 0, op_len: 1, arg_len: 0, group: InsnGroup::Invalid },
        0x43 => Opcode { mnemonic_fmt: "invalid", mnemonic_tail: "", cycles: (4, 0), pre_len: 0, op_len: 1, arg_len: 0, group: InsnGroup::Invalid },
        0x44 => Opcode { mnemonic_fmt: "invalid", mnemonic_tail: "", cycles: (4, 0), pre_len: 0, op_len: 1, arg_len: 0, group: InsnGroup::Invalid },
        0x45 => Opcode { mnemonic_fmt: "invalid", mnemonic_tail: "", cycles: (4, 0), pre_len: 0, op_len: 1, arg_len: 0, group: InsnGroup::Invalid },
        0x46 => Opcode { mnemonic_fmt: "ld b, (iy+$", mnemonic_tail: ")", cycles: (19, 0), pre_len: 1, op_len: 1, arg_len: 1, group: InsnGroup::Regular },
        0x47 => Opcode { mnemonic_fmt: "invalid", mnemonic_tail: "", cycles: (4, 0), pre_len: 0, op_len: 1, arg_len: 0, group: InsnGroup::Invalid },
        0x48 => Opcode { mnemonic_fmt: "invalid", mnemonic_tail: "", cycles: (4, 0), pre_len: 0, op_len: 1, arg_len: 0, group: InsnGroup::Invalid },
        0x49 => Opcode { mnemonic_fmt: "invalid", mnemonic_tail: "", cycles: (4, 0), pre_len: 0, op_len: 1, arg_len: 0, group: InsnGroup::Invalid },
        0x4A => Opcode { mnemonic_fmt: "invalid", mnemonic_tail: "", cycles: (4, 0), pre_len: 0, op_len: 1, arg_len: 0, group: InsnGroup::Invalid },
        0x4B => Opcode { mnemonic_fmt: "invalid", mnemonic_tail: "", cycles: (4, 0), pre_len: 0, op_len: 1, arg_len: 0, group: InsnGroup::Invalid },
        0x4C => Opcode { mnemonic_fmt: "invalid", mnemonic_tail: "", cycles: (4, 0), pre_len: 0, op_len: 1, arg_len: 0, group: InsnGroup::Invalid },
        0x4D => Opcode { mnemonic_fmt: "invalid", mnemonic_tail: "", cycles: (4, 0), pre_len: 0, op_len: 1, arg_len: 0, group: InsnGroup::Invalid },
        0x4E => Opcode { mnemonic_fmt: "ld c, (iy+$", mnemonic_tail: ")", cycles: (19, 0), pre_len: 1, op_len: 1, arg_len: 1, group: InsnGroup::Regular },
        0x4F => Opcode { mnemonic_fmt: "invalid", mnemonic_tail: "", cycles: (4, 0), pre_len: 0, op_len: 1, arg_len: 0, group: InsnGroup::Invalid },
        0x50 => Opcode { mnemonic_fmt: "invalid", mnemonic_tail: "", cycles: (4, 0), pre_len: 0, op_len: 1, arg_len: 0, group: InsnGroup::Invalid },
        0x51 => Opcode { mnemonic_fmt: "invalid", mnemonic_tail: "", cycles: (4, 0), pre_len: 0, op_len: 1, arg_len: 0, group: InsnGroup::Invalid },
        0x52 => Opcode { mnemonic_fmt: "invalid", mnemonic_tail: "", cycles: (4, 0), pre_len: 0, op_len: 1, arg_len: 0, group: InsnGroup::Invalid },
        0x53 => Opcode { mnemonic_fmt: "invalid", mnemonic_tail: "", cycles: (4, 0), pre_len: 0, op_len: 1, arg_len: 0, group: InsnGroup::Invalid },
        0x54 => Opcode { mnemonic_fmt: "invalid", mnemonic_tail: "", cycles: (4, 0), pre_len: 0, op_len: 1, arg_len: 0, group: InsnGroup::Invalid },
        0x55 => Opcode { mnemonic_fmt: "invalid", mnemonic_tail: "", cycles: (4, 0), pre_len: 0, op_len: 1, arg_len: 0, group: InsnGroup::Invalid },
        0x56 => Opcode { mnemonic_fmt: "ld d, (iy+$", mnemonic_tail: ")", cycles: (19, 0), pre_len: 1, op_len: 1, arg_len: 1, group: InsnGroup::Regular },
        0x57 => Opcode { mnemonic_fmt: "invalid", mnemonic_tail: "", cycles: (4, 0), pre_len: 0, op_len: 1, arg_len: 0, group: InsnGroup::Invalid },
        0x58 => Opcode { mnemonic_fmt: "invalid", mnemonic_tail: "", cycles: (4, 0), pre_len: 0, op_len: 1, arg_len: 0, group: InsnGroup::Invalid },
        0x59 => Opcode { mnemonic_fmt: "invalid", mnemonic_tail: "", cycles: (4, 0), pre_len: 0, op_len: 1, arg_len: 0, group: InsnGroup::Invalid },
        0x5A => Opcode { mnemonic_fmt: "invalid", mnemonic_tail: "", cycles: (4, 0), pre_len: 0, op_len: 1, arg_len: 0, group: InsnGroup::Invalid },
        0x5B => Opcode { mnemonic_fmt: "invalid", mnemonic_tail: "", cycles: (4, 0), pre_len: 0, op_len: 1, arg_len: 0, group: InsnGroup::Invalid },
        0x5C => Opcode { mnemonic_fmt: "invalid", mnemonic_tail: "", cycles: (4, 0), pre_len: 0, op_len: 1, arg_len: 0, group: InsnGroup::Invalid },
        0x5D => Opcode { mnemonic_fmt: "invalid", mnemonic_tail: "", cycles: (4, 0), pre_len: 0, op_len: 1, arg_len: 0, group: InsnGroup::Invalid },
        0x5E => Opcode { mnemonic_fmt: "ld e, (iy+$", mnemonic_tail: ")", cycles: (19, 0), pre_len: 1, op_len: 1, arg_len: 1, group: InsnGroup::Regular },
        0x5F => Opcode { mnemonic_fmt: "invalid", mnemonic_tail: "", cycles: (4, 0), pre_len: 0, op_len: 1, arg_len: 0, group: InsnGroup::Invalid },
        0x60 => Opcode { mnemonic_fmt: "invalid", mnemonic_tail: "", cycles: (4, 0), pre_len: 0, op_len: 1, arg_len: 0, group: InsnGroup::Invalid },
        0x61 => Opcode { mnemonic_fmt: "invalid", mnemonic_tail: "", cycles: (4, 0), pre_len: 0, op_len: 1, arg_len: 0, group: InsnGroup::Invalid },
        0x62 => Opcode { mnemonic_fmt: "invalid", mnemonic_tail: "", cycles: (4, 0), pre_len: 0, op_len: 1, arg_len: 0, group: InsnGroup::Invalid },
        0x63 => Opcode { mnemonic_fmt: "invalid", mnemonic_tail: "", cycles: (4, 0), pre_len: 0, op_len: 1, arg_len: 0, group: InsnGroup::Invalid },
        0x64 => Opcode { mnemonic_fmt: "invalid", mnemonic_tail: "", cycles: (4, 0), pre_len: 0, op_len: 1, arg_len: 0, group: InsnGroup::Invalid },
        0x65 => Opcode { mnemonic_fmt: "invalid", mnemonic_tail: "", cycles: (4, 0), pre_len: 0, op_len: 1, arg_len: 0, group: InsnGroup::Invalid },
        0x66 => Opcode { mnemonic_fmt: "ld h, (iy+$", mnemonic_tail: ")", cycles: (19, 0), pre_len: 1, op_len: 1, arg_len: 1, group: InsnGroup::Regular },
        0x67 => Opcode { mnemonic_fmt: "invalid", mnemonic_tail: "", cycles: (4, 0), pre_len: 0, op_len: 1, arg_len: 0, group: InsnGroup::Invalid },
        0x68 => Opcode { mnemonic_fmt: "invalid", mnemonic_tail: "", cycles: (4, 0), pre_len: 0, op_len: 1, arg_len: 0, group: InsnGroup::Invalid },
        0x69 => Opcode { mnemonic_fmt: "invalid", mnemonic_tail: "", cycles: (4, 0), pre_len: 0, op_len: 1, arg_len: 0, group: InsnGroup::Invalid },
        0x6A => Opcode { mnemonic_fmt: "invalid", mnemonic_tail: "", cycles: (4, 0), pre_len: 0, op_len: 1, arg_len: 0, group: InsnGroup::Invalid },
        0x6B => Opcode { mnemonic_fmt: "invalid", mnemonic_tail: "", cycles: (4, 0), pre_len: 0, op_len: 1, arg_len: 0, group: InsnGroup::Invalid },
        0x6C => Opcode { mnemonic_fmt: "invalid", mnemonic_tail: "", cycles: (4, 0), pre_len: 0, op_len: 1, arg_len: 0, group: InsnGroup::Invalid },
        0x6D => Opcode { mnemonic_fmt: "invalid", mnemonic_tail: "", cycles: (4, 0), pre_len: 0, op_len: 1, arg_len: 0, group: InsnGroup::Invalid },
        0x6E => Opcode { mnemonic_fmt: "ld l, (iy+$", mnemonic_tail: ")", cycles: (19, 0), pre_len: 1, op_len: 1, arg_len: 1, group: InsnGroup::Regular },
        0x6F => Opcode { mnemonic_fmt: "invalid", mnemonic_tail: "", cycles: (4, 0), pre_len: 0, op_len: 1, arg_len: 0, group: InsnGroup::Invalid },
        0x70 => Opcode { mnemonic_fmt: "ld (iy+$", mnemonic_tail: "), b", cycles: (19, 0), pre_len: 1, op_len: 1, arg_len: 1, group: InsnGroup::Regular },
        0x71 => Opcode { mnemonic_fmt: "ld (iy+$", mnemonic_tail: "), c", cycles: (19, 0), pre_len: 1, op_len: 1, arg_len: 1, group: InsnGroup::Regular },
        0x72 => Opcode { mnemonic_fmt: "ld (iy+$", mnemonic_tail: "), d", cycles: (19, 0), pre_len: 1, op_len: 1, arg_len: 1, group: InsnGroup::Regular },
        0x73 => Opcode { mnemonic_fmt: "ld (iy+$", mnemonic_tail: "), e", cycles: (19, 0), pre_len: 1, op_len: 1, arg_len: 1, group: InsnGroup::Regular },
        0x74 => Opcode { mnemonic_fmt: "ld (iy+$", mnemonic_tail: "), h", cycles: (19, 0), pre_len: 1, op_len: 1, arg_len: 1, group: InsnGroup::Regular },
        0x75 => Opcode { mnemonic_fmt: "ld (iy+$", mnemonic_tail: "), l", cycles: (19, 0), pre_len: 1, op_len: 1, arg_len: 1, group: InsnGroup::Regular },
        0x76 => Opcode { mnemonic_fmt: "invalid", mnemonic_tail: "", cycles: (4, 0), pre_len: 0, op_len: 1, arg_len: 0, group: InsnGroup::Invalid },
        0x77 => Opcode { mnemonic_fmt: "ld (iy+$", mnemonic_tail: "), a", cycles: (19, 0), pre_len: 1, op_len: 1, arg_len: 1, group: InsnGroup::Regular },
        0x78 => Opcode { mnemonic_fmt: "invalid", mnemonic_tail: "", cycles: (4, 0), pre_len: 0, op_len: 1, arg_len: 0, group: InsnGroup::Invalid },
        0x79 => Opcode { mnemonic_fmt: "invalid", mnemonic_tail: "", cycles: (4, 0), pre_len: 0, op_len: 1, arg_len: 0, group: InsnGroup::Invalid },
        0x7A => Opcode { mnemonic_fmt: "invalid", mnemonic_tail: "", cycles: (4, 0), pre_len: 0, op_len: 1, arg_len: 0, group: InsnGroup::Invalid },
        0x7B => Opcode { mnemonic_fmt: "invalid", mnemonic_tail: "", cycles: (4, 0), pre_len: 0, op_len: 1, arg_len: 0, group: InsnGroup::Invalid },
        0x7C => Opcode { mnemonic_fmt: "invalid", mnemonic_tail: "", cycles: (4, 0), pre_len: 0, op_len: 1, arg_len: 0, group: InsnGroup::Invalid },
        0x7D => Opcode { mnemonic_fmt: "invalid", mnemonic_tail: "", cycles: (4, 0), pre_len: 0, op_len: 1, arg_len: 0, group: InsnGroup::Invalid },
        0x7E => Opcode { mnemonic_fmt: "ld a, (iy+$", mnemonic_tail: ")", cycles: (19, 0), pre_len: 1, op_len: 1, arg_len: 1, group: InsnGroup::Regular },
        0x7F => Opcode { mnemonic_fmt: "invalid", mnemonic_tail: "", cycles: (4, 0), pre_len: 0, op_len: 1, arg_len: 0, group: InsnGroup::Invalid },
        0x80 => Opcode { mnemonic_fmt: "invalid", mnemonic_tail: "", cycles: (4, 0), pre_len: 0, op_len: 1, arg_len: 0, group: InsnGroup::Invalid },
        0x81 => Opcode { mnemonic_fmt: "invalid", mnemonic_tail: "", cycles: (4, 0), pre_len: 0, op_len: 1, arg_len: 0, group: InsnGroup::Invalid },
        0x82 => Opcode { mnemonic_fmt: "invalid", mnemonic_tail: "", cycles: (4, 0), pre_len: 0, op_len: 1, arg_len: 0, group: InsnGroup::Invalid },
        0x83 => Opcode { mnemonic_fmt: "invalid", mnemonic_tail: "", cycles: (4, 0), pre_len: 0, op_len: 1, arg_len: 0, group: InsnGroup::Invalid },
        0x84 => Opcode { mnemonic_fmt: "invalid", mnemonic_tail: "", cycles: (4, 0), pre_len: 0, op_len: 1, arg_len: 0, group: InsnGroup::Invalid },
        0x85 => Opcode { mnemonic_fmt: "invalid", mnemonic_tail: "", cycles: (4, 0), pre_len: 0, op_len: 1, arg_len: 0, group: InsnGroup::Invalid },
        0x86 => Opcode { mnemonic_fmt: "add a, (iy+$", mnemonic_tail: ")", cycles: (19, 0), pre_len: 1, op_len: 1, arg_len: 1, group: InsnGroup::Regular },
        0x87 => Opcode { mnemonic_fmt: "invalid", mnemonic_tail: "", cycles: (4, 0), pre_len: 0, op_len: 1, arg_len: 0, group: InsnGroup::Invalid },
        0x88 => Opcode { mnemonic_fmt: "invalid", mnemonic_tail: "", cycles: (4, 0), pre_len: 0, op_len: 1, arg_len: 0, group: InsnGroup::Invalid },
        0x89 => Opcode { mnemonic_fmt: "invalid", mnemonic_tail: "", cycles: (4, 0), pre_len: 0, op_len: 1, arg_len: 0, group: InsnGroup::Invalid },
        0x8A => Opcode { mnemonic_fmt: "invalid", mnemonic_tail: "", cycles: (4, 0), pre_len: 0, op_len: 1, arg_len: 0, group: InsnGroup::Invalid },
        0x8B => Opcode { mnemonic_fmt: "invalid", mnemonic_tail: "", cycles: (4, 0), pre_len: 0, op_len: 1, arg_len: 0, group: InsnGroup::Invalid },
        0x8C => Opcode { mnemonic_fmt: "invalid", mnemonic_tail: "", cycles: (4, 0), pre_len: 0, op_len: 1, arg_len: 0, group: InsnGroup::Invalid },
        0x8D => Opcode { mnemonic_fmt: "invalid", mnemonic_tail: "", cycles: (4, 0), pre_len: 0, op_len: 1, arg_len: 0, group: InsnGroup::Invalid },
        0x8E => Opcode { mnemonic_fmt: "adc a, (iy+$", mnemonic_tail: ")", cycles: (19, 0), pre_len: 1, op_len: 1, arg_len: 1, group: InsnGroup::Regular },
        0x8F => Opcode { mnemonic_fmt: "invalid", mnemonic_tail: "", cycles: (4, 0), pre_len: 0, op_len: 1, arg_len: 0, group: InsnGroup::Invalid },
        0x90 => Opcode { mnemonic_fmt: "invalid", mnemonic_tail: "", cycles: (4, 0), pre_len: 0, op_len: 1, arg_len: 0, group: InsnGroup::Invalid },
        0x91 => Opcode { mnemonic_fmt: "invalid", mnemonic_tail: "", cycles: (4, 0), pre_len: 0, op_len: 1, arg_len: 0, group: InsnGroup::Invalid },
        0x92 => Opcode { mnemonic_fmt: "invalid", mnemonic_tail: "", cycles: (4, 0), pre_len: 0, op_len: 1, arg_len: 0, group: InsnGroup::Invalid },
        0x93 => Opcode { mnemonic_fmt: "invalid", mnemonic_tail: "", cycles: (4, 0), pre_len: 0, op_len: 1, arg_len: 0, group: InsnGroup::Invalid },
        0x94 => Opcode { mnemonic_fmt: "invalid", mnemonic_tail: "", cycles: (4, 0), pre_len: 0, op_len: 1, arg_len: 0, group: InsnGroup::Invalid },
        0x95 => Opcode { mnemonic_fmt: "invalid", mnemonic_tail: "", cycles: (4, 0), pre_len: 0, op_len: 1, arg_len: 0, group: InsnGroup::Invalid },
        0x96 => Opcode { mnemonic_fmt: "sub (iy+$", mnemonic_tail: ")", cycles: (19, 0), pre_len: 1, op_len: 1, arg_len: 1, group: InsnGroup::Regular },
        0x97 => Opcode { mnemonic_fmt: "invalid", mnemonic_tail: "", cycles: (4, 0), pre_len: 0, op_len: 1, arg_len: 0, group: InsnGroup::Invalid },
        0x98 => Opcode { mnemonic_fmt: "invalid", mnemonic_tail: "", cycles: (4, 0), pre_len: 0, op_len: 1, arg_len: 0, group: InsnGroup::Invalid },
        0x99 => Opcode { mnemonic_fmt: "invalid", mnemonic_tail: "", cycles: (4, 0), pre_len: 0, op_len: 1, arg_len: 0, group: InsnGroup::Invalid },
        0x9A => Opcode { mnemonic_fmt: "invalid", mnemonic_tail: "", cycles: (4, 0), pre_len: 0, op_len: 1, arg_len: 0, group: InsnGroup::Invalid },
        0x9B => Opcode { mnemonic_fmt: "invalid", mnemonic_tail: "", cycles: (4, 0), pre_len: 0, op_len: 1, arg_len: 0, group: InsnGroup::Invalid },
        0x9C => Opcode { mnemonic_fmt: "invalid", mnemonic_tail: "", cycles: (4, 0), pre_len: 0, op_len: 1, arg_len: 0, group: InsnGroup::Invalid },
        0x9D => Opcode { mnemonic_fmt: "invalid", mnemonic_tail: "", cycles: (4, 0), pre_len: 0, op_len: 1, arg_len: 0, group: InsnGroup::Invalid },
        0x9E => Opcode { mnemonic_fmt: "sbc a, (iy+$", mnemonic_tail: ")", cycles: (19, 0), pre_len: 1, op_len: 1, arg_len: 1, group: InsnGroup::Regular },
        0x9F => Opcode { mnemonic_fmt: "invalid", mnemonic_tail: "", cycles: (4, 0), pre_len: 0, op_len: 1, arg_len: 0, group: InsnGroup::Invalid },
        0xA0 => Opcode { mnemonic_fmt: "invalid", mnemonic_tail: "", cycles: (4, 0), pre_len: 0, op_len: 1, arg_len: 0, group: InsnGroup::Invalid },
        0xA1 => Opcode { mnemonic_fmt: "invalid", mnemonic_tail: "", cycles: (4, 0), pre_len: 0, op_len: 1, arg_len: 0, group: InsnGroup::Invalid },
        0xA2 => Opcode { mnemonic_fmt: "invalid", mnemonic_tail: "", cycles: (4, 0), pre_len: 0, op_len: 1, arg_len: 0, group: InsnGroup::Invalid },
        0xA3 => Opcode { mnemonic_fmt: "invalid", mnemonic_tail: "", cycles: (4, 0), pre_len: 0, op_len: 1, arg_len: 0, group: InsnGroup::Invalid },
        0xA4 => Opcode { mnemonic_fmt: "invalid", mnemonic_tail: "", cycles: (4, 0), pre_len: 0, op_len: 1, arg_len: 0, group: InsnGroup::Invalid },
        0xA5 => Opcode { mnemonic_fmt: "invalid", mnemonic_tail: "", cycles: (4, 0), pre_len: 0, op_len: 1, arg_len: 0, group: InsnGroup::Invalid },
        0xA6 => Opcode { mnemonic_fmt: "and (iy+$", mnemonic_tail: ")", cycles: (19, 0), pre_len: 1, op_len: 1, arg_len: 1, group: InsnGroup::Regular },
        0xA7 => Opcode { mnemonic_fmt: "invalid", mnemonic_tail: "", cycles: (4, 0), pre_len: 0, op_len: 1, arg_len: 0, group: InsnGroup::Invalid },
        0xA8 => Opcode { mnemonic_fmt: "invalid", mnemonic_tail: "", cycles: (4, 0), pre_len: 0, op_len: 1, arg_len: 0, group: InsnGroup::Invalid },
        0xA9 => Opcode { mnemonic_fmt: "invalid", mnemonic_tail: "", cycles: (4, 0), pre_len: 0, op_len: 1, arg_len: 0, group: InsnGroup::Invalid },
        0xAA => Opcode { mnemonic_fmt: "invalid", mnemonic_tail: "", cycles: (4, 0), pre_len: 0, op_len: 1, arg_len: 0, group: InsnGroup::Invalid },
        0xAB => Opcode { mnemonic_fmt: "invalid", mnemonic_tail: "", cycles: (4, 0), pre_len: 0, op_len: 1, arg_len: 0, group: InsnGroup::Invalid },
        0xAC => Opcode { mnemonic_fmt: "invalid", mnemonic_tail: "", cycles: (4, 0), pre_len: 0, op_len: 1, arg_len: 0, group: InsnGroup::Invalid },
        0xAD => Opcode { mnemonic_fmt: "invalid", mnemonic_tail: "", cycles: (4, 0), pre_len: 0, op_len: 1, arg_len: 0, group: InsnGroup::Invalid },
        0xAE => Opcode { mnemonic_fmt: "xor (iy+$", mnemonic_tail: ")", cycles: (19, 0), pre_len: 1, op_len: 1, arg_len: 1, group: InsnGroup::Regular },
        0xAF => Opcode { mnemonic_fmt: "invalid", mnemonic_tail: "", cycles: (4, 0), pre_len: 0, op_len: 1, arg_len: 0, group: InsnGroup::Invalid },
        0xB0 => Opcode { mnemonic_fmt: "invalid", mnemonic_tail: "", cycles: (4, 0), pre_len: 0, op_len: 1, arg_len: 0, group: InsnGroup::Invalid },
        0xB1 => Opcode { mnemonic_fmt: "invalid", mnemonic_tail: "", cycles: (4, 0), pre_len: 0, op_len: 1, arg_len: 0, group: InsnGroup::Invalid },
        0xB2 => Opcode { mnemonic_fmt: "invalid", mnemonic_tail: "", cycles: (4, 0), pre_len: 0, op_len: 1, arg_len: 0, group: InsnGroup::Invalid },
        0xB3 => Opcode { mnemonic_fmt: "invalid", mnemonic_tail: "", cycles: (4, 0), pre_len: 0, op_len: 1, arg_len: 0, group: InsnGroup::Invalid },
        0xB4 => Opcode { mnemonic_fmt: "invalid", mnemonic_tail: "", cycles: (4, 0), pre_len: 0, op_len: 1, arg_len: 0, group: InsnGroup::Invalid },
        0xB5 => Opcode { mnemonic_fmt: "invalid", mnemonic_tail: "", cycles: (4, 0), pre_len: 0, op_len: 1, arg_len: 0, group: InsnGroup::Invalid },
        0xB6 => Opcode { mnemonic_fmt: "or (iy+$", mnemonic_tail: ")", cycles: (19, 0), pre_len: 1, op_len: 1, arg_len: 1, group: InsnGroup::Regular },
        0xB7 => Opcode { mnemonic_fmt: "invalid", mnemonic_tail: "", cycles: (4, 0), pre_len: 0, op_len: 1, arg_len: 0, group: InsnGroup::Invalid },
        0xB8 => Opcode { mnemonic_fmt: "invalid", mnemonic_tail: "", cycles: (4, 0), pre_len: 0, op_len: 1, arg_len: 0, group: InsnGroup::Invalid },
        0xB9 => Opcode { mnemonic_fmt: "invalid", mnemonic_tail: "", cycles: (4, 0), pre_len: 0, op_len: 1, arg_len: 0, group: InsnGroup::Invalid },
        0xBA => Opcode { mnemonic_fmt: "invalid", mnemonic_tail: "", cycles: (4, 0), pre_len: 0, op_len: 1, arg_len: 0, group: InsnGroup::Invalid },
        0xBB => Opcode { mnemonic_fmt: "invalid", mnemonic_tail: "", cycles: (4, 0), pre_len: 0, op_len: 1, arg_len: 0, group: InsnGroup::Invalid },
        0xBC => Opcode { mnemonic_fmt: "invalid", mnemonic_tail: "", cycles: (4, 0), pre_len: 0, op_len: 1, arg_len: 0, group: InsnGroup::Invalid },
        0xBD => Opcode { mnemonic_fmt: "invalid", mnemonic_tail: "", cycles: (4, 0), pre_len: 0, op_len: 1, arg_len: 0, group: InsnGroup::Invalid },
        0xBE => Opcode { mnemonic_fmt: "cp (iy+$", mnemonic_tail: ")", cycles: (19, 0), pre_len: 1, op_len: 1, arg_len: 1, group: InsnGroup::Regular },
        0xBF => Opcode { mnemonic_fmt: "invalid", mnemonic_tail: "", cycles: (4, 0), pre_len: 0, op_len: 1, arg_len: 0, group: InsnGroup::Invalid },
        0xC0 => Opcode { mnemonic_fmt: "invalid", mnemonic_tail: "", cycles: (4, 0), pre_len: 0, op_len: 1, arg_len: 0, group: InsnGroup::Invalid },
        0xC1 => Opcode { mnemonic_fmt: "invalid", mnemonic_tail: "", cycles: (4, 0), pre_len: 0, op_len: 1, arg_len: 0, group: InsnGroup::Invalid },
        0xC2 => Opcode { mnemonic_fmt: "invalid", mnemonic_tail: "", cycles: (4, 0), pre_len: 0, op_len: 1, arg_len: 0, group: InsnGroup::Invalid },
        0xC3 => Opcode { mnemonic_fmt: "invalid", mnemonic_tail: "", cycles: (4, 0), pre_len: 0, op_len: 1, arg_len: 0, group: InsnGroup::Invalid },
        0xC4 => Opcode { mnemonic_fmt: "invalid", mnemonic_tail: "", cycles: (4, 0), pre_len: 0, op_len: 1, arg_len: 0, group: InsnGroup::Invalid },
        0xC5 => Opcode { mnemonic_fmt: "invalid", mnemonic_tail: "", cycles: (4, 0), pre_len: 0, op_len: 1, arg_len: 0, group: InsnGroup::Invalid },
        0xC6 => Opcode { mnemonic_fmt: "invalid", mnemonic_tail: "", cycles: (4, 0), pre_len: 0, op_len: 1, arg_len: 0, group: InsnGroup::Invalid },
        0xC7 => Opcode { mnemonic_fmt: "invalid", mnemonic_tail: "", cycles: (4, 0), pre_len: 0, op_len: 1, arg_len: 0, group: InsnGroup::Invalid },
        0xC8 => Opcode { mnemonic_fmt: "invalid", mnemonic_tail: "", cycles: (4, 0), pre_len: 0, op_len: 1, arg_len: 0, group: InsnGroup::Invalid },
        0xC9 => Opcode { mnemonic_fmt: "invalid", mnemonic_tail: "", cycles: (4, 0), pre_len: 0, op_len: 1, arg_len: 0, group: InsnGroup::Invalid },
        0xCA => Opcode { mnemonic_fmt: "invalid", mnemonic_tail: "", cycles: (4, 0), pre_len: 0, op_len: 1, arg_len: 0, group: InsnGroup::Invalid },
        0xCB => Opcode { mnemonic_fmt: "invalid", mnemonic_tail: "", cycles: (4, 0), pre_len: 0, op_len: 1, arg_len: 0, group: InsnGroup::Invalid },
        0xCC => Opcode { mnemonic_fmt: "invalid", mnemonic_tail: "", cycles: (4, 0), pre_len: 0, op_len: 1, arg_len: 0, group: InsnGroup::Invalid },
        0xCD => Opcode { mnemonic_fmt: "invalid", mnemonic_tail: "", cycles: (4, 0), pre_len: 0, op_len: 1, arg_len: 0, group: InsnGroup::Invalid },
        0xCE => Opcode { mnemonic_fmt: "invalid", mnemonic_tail: "", cycles: (4, 0), pre_len: 0, op_len: 1, arg_len: 0, group: InsnGroup::Invalid },
        0xCF => Opcode { mnemonic_fmt: "invalid", mnemonic_tail: "", cycles: (4, 0), pre_len: 0, op_len: 1, arg_len: 0, group: InsnGroup::Invalid },
        0xD0 => Opcode { mnemonic_fmt: "invalid", mnemonic_tail: "", cycles: (4, 0), pre_len: 0, op_len: 1, arg_len: 0, group: InsnGroup::Invalid },
        0xD1 => Opcode { mnemonic_fmt: "invalid", mnemonic_tail: "", cycles: (4, 0), pre_len: 0, op_len: 1, arg_len: 0, group: InsnGroup::Invalid },
        0xD2 => Opcode { mnemonic_fmt: "invalid", mnemonic_tail: "", cycles: (4, 0), pre_len: 0, op_len: 1, arg_len: 0, group: InsnGroup::Invalid },
        0xD3 => Opcode { mnemonic_fmt: "invalid", mnemonic_tail: "", cycles: (4, 0), pre_len: 0, op_len: 1, arg_len: 0, group: InsnGroup::Invalid },
        0xD4 => Opcode { mnemonic_fmt: "invalid", mnemonic_tail: "", cycles: (4, 0), pre_len: 0, op_len: 1, arg_len: 0, group: InsnGroup::Invalid },
        0xD5 => Opcode { mnemonic_fmt: "invalid", mnemonic_tail: "", cycles: (4, 0), pre_len: 0, op_len: 1, arg_len: 0, group: InsnGroup::Invalid },
        0xD6 => Opcode { mnemonic_fmt: "invalid", mnemonic_tail: "", cycles: (4, 0), pre_len: 0, op_len: 1, arg_len: 0, group: InsnGroup::Invalid },
        0xD7 => Opcode { mnemonic_fmt: "invalid", mnemonic_tail: "", cycles: (4, 0), pre_len: 0, op_len: 1, arg_len: 0, group: InsnGroup::Invalid },
        0xD8 => Opcode { mnemonic_fmt: "invalid", mnemonic_tail: "", cycles: (4, 0), pre_len: 0, op_len: 1, arg_len: 0, group: InsnGroup::Invalid },
        0xD9 => Opcode { mnemonic_fmt: "invalid", mnemonic_tail: "", cycles: (4, 0), pre_len: 0, op_len: 1, arg_len: 0, group: InsnGroup::Invalid },
        0xDA => Opcode { mnemonic_fmt: "invalid", mnemonic_tail: "", cycles: (4, 0), pre_len: 0, op_len: 1, arg_len: 0, group: InsnGroup::Invalid },
        0xDB => Opcode { mnemonic_fmt: "invalid", mnemonic_tail: "", cycles: (4, 0), pre_len: 0, op_len: 1, arg_len: 0, group: InsnGroup::Invalid },
        0xDC => Opcode { mnemonic_fmt: "invalid", mnemonic_tail: "", cycles: (4, 0), pre_len: 0, op_len: 1, arg_len: 0, group: InsnGroup::Invalid },
        0xDD => Opcode { mnemonic_fmt: "invalid", mnemonic_tail: "", cycles: (4, 0), pre_len: 0, op_len: 1, arg_len: 0, group: InsnGroup::Invalid },
        0xDE => Opcode { mnemonic_fmt: "invalid", mnemonic_tail: "", cycles: (4, 0), pre_len: 0, op_len: 1, arg_len: 0, group: InsnGroup::Invalid },
        0xDF => Opcode { mnemonic_fmt: "invalid", mnemonic_tail: "", cycles: (4, 0), pre_len: 0, op_len: 1, arg_len: 0, group: InsnGroup::Invalid },
        0xE0 => Opcode { mnemonic_fmt: "invalid", mnemonic_tail: "", cycles: (4, 0), pre_len: 0, op_len: 1, arg_len: 0, group: InsnGroup::Invalid },
        0xE1 => Opcode { mnemonic_fmt: "pop iy", mnemonic_tail: "", cycles: (14, 0), pre_len: 1, op_len: 1, arg_len: 0, group: InsnGroup::Regular },
        0xE2 => Opcode { mnemonic_fmt: "invalid", mnemonic_tail: "", cycles: (4, 0), pre_len: 0, op_len: 1, arg_len: 0, group: InsnGroup::Invalid },
        0xE3 => Opcode { mnemonic_fmt: "ex (sp), iy", mnemonic_tail: "", cycles: (23, 0), pre_len: 1, op_len: 1, arg_len: 0, group: InsnGroup::Regular },
        0xE4 => Opcode { mnemonic_fmt: "invalid", mnemonic_tail: "", cycles: (4, 0), pre_len: 0, op_len: 1, arg_len: 0, group: InsnGroup::Invalid },
        0xE5 => Opcode { mnemonic_fmt: "push iy", mnemonic_tail: "", cycles: (15, 0), pre_len: 1, op_len: 1, arg_len: 0, group: InsnGroup::Regular },
        0xE6 => Opcode { mnemonic_fmt: "invalid", mnemonic_tail: "", cycles: (4, 0), pre_len: 0, op_len: 1, arg_len: 0, group: InsnGroup::Invalid },
        0xE7 => Opcode { mnemonic_fmt: "invalid", mnemonic_tail: "", cycles: (4, 0), pre_len: 0, op_len: 1, arg_len: 0, group: InsnGroup::Invalid },
        0xE8 => Opcode { mnemonic_fmt: "invalid", mnemonic_tail: "", cycles: (4, 0), pre_len: 0, op_len: 1, arg_len: 0, group: InsnGroup::Invalid },
        0xE9 => Opcode { mnemonic_fmt: "jp (iy)", mnemonic_tail: "", cycles: (8, 0), pre_len: 1, op_len: 1, arg_len: 0, group: InsnGroup::Jump },
        0xEA => Opcode { mnemonic_fmt: "invalid", mnemonic_tail: "", cycles: (4, 0), pre_len: 0, op_len: 1, arg_len: 0, group: InsnGroup::Invalid },
        0xEB => Opcode { mnemonic_fmt: "invalid", mnemonic_tail: "", cycles: (4, 0), pre_len: 0, op_len: 1, arg_len: 0, group: InsnGroup::Invalid },
        0xEC => Opcode { mnemonic_fmt: "invalid", mnemonic_tail: "", cycles: (4, 0), pre_len: 0, op_len: 1, arg_len: 0, group: InsnGroup::Invalid },
        0xED => Opcode { mnemonic_fmt: "invalid", mnemonic_tail: "", cycles: (4, 0), pre_len: 0, op_len: 1, arg_len: 0, group: InsnGroup::Invalid },
        0xEE => Opcode { mnemonic_fmt: "invalid", mnemonic_tail: "", cycles: (4, 0), pre_len: 0, op_len: 1, arg_len: 0, group: InsnGroup::Invalid },
        0xEF => Opcode { mnemonic_fmt: "invalid", mnemonic_tail: "", cycles: (4, 0), pre_len: 0, op_len: 1, arg_len: 0, group: InsnGroup::Invalid },
        0xF0 => Opcode { mnemonic_fmt: "invalid", mnemonic_tail: "", cycles: (4, 0), pre_len: 0, op_len: 1, arg_len: 0, group: InsnGroup::Invalid },
        0xF1 => Opcode { mnemonic_fmt: "invalid", mnemonic_tail: "", cycles: (4, 0), pre_len: 0, op_len: 1, arg_len: 0, group: InsnGroup::Invalid },
        0xF2 => Opcode { mnemonic_fmt: "invalid", mnemonic_tail: "", cycles: (4, 0), pre_len: 0, op_len: 1, arg_len: 0, group: InsnGroup::Invalid },
        0xF3 => Opcode { mnemonic_fmt: "invalid", mnemonic_tail: "", cycles: (4, 0), pre_len: 0, op_len: 1, arg_len: 0, group: InsnGroup::Invalid },
        0xF4 => Opcode { mnemonic_fmt: "invalid", mnemonic_tail: "", cycles: (4, 0), pre_len: 0, op_len: 1, arg_len: 0, group: InsnGroup::Invalid },
        0xF5 => Opcode { mnemonic_fmt: "invalid", mnemonic_tail: "", cycles: (4, 0), pre_len: 0, op_len: 1, arg_len: 0, group: InsnGroup::Invalid },
        0xF6 => Opcode { mnemonic_fmt: "invalid", mnemonic_tail: "", cycles: (4, 0), pre_len: 0, op_len: 1, arg_len: 0, group: InsnGroup::Invalid },
        0xF7 => Opcode { mnemonic_fmt: "invalid", mnemonic_tail: "", cycles: (4, 0), pre_len: 0, op_len: 1, arg_len: 0, group: InsnGroup::Invalid },
        0xF8 => Opcode { mnemonic_fmt: "invalid", mnemonic_tail: "", cycles: (4, 0), pre_len: 0, op_len: 1, arg_len: 0, group: InsnGroup::Invalid },
        0xF9 => Opcode { mnemonic_fmt: "ld sp, iy", mnemonic_tail: "", cycles: (10, 0), pre_len: 1, op_len: 1, arg_len: 0, group: InsnGroup::Regular },
        0xFA => Opcode { mnemonic_fmt: "invalid", mnemonic_tail: "", cycles: (4, 0), pre_len: 0, op_len: 1, arg_len: 0, group: InsnGroup::Invalid },
        0xFB => Opcode { mnemonic_fmt: "invalid", mnemonic_tail: "", cycles: (4, 0), pre_len: 0, op_len: 1, arg_len: 0, group: InsnGroup::Invalid },
        0xFC => Opcode { mnemonic_fmt: "invalid", mnemonic_tail: "", cycles: (4, 0), pre_len: 0, op_len: 1, arg_len: 0, group: InsnGroup::Invalid },
        0xFD => Opcode { mnemonic_fmt: "invalid", mnemonic_tail: "", cycles: (4, 0), pre_len: 0, op_len: 1, arg_len: 0, group: InsnGroup::Invalid },
        0xFE => Opcode { mnemonic_fmt: "invalid", mnemonic_tail: "", cycles: (4, 0), pre_len: 0, op_len: 1, arg_len: 0, group: InsnGroup::Invalid },
        _ => Opcode { mnemonic_fmt: "invalid", mnemonic_tail: "", cycles: (4, 0), pre_len: 0, op_len: 1, arg_len: 0, group: InsnGroup::Invalid },
    }
}

/// The table of the byte that ends a `0xDD 0xCB d op` sequence (IX bit operations), indexed by opcode byte.
pub open spec fn spec_ddcb(b: u8) -> Opcode {
    match b {
        0x00 => Opcode { mnemonic_fmt: "rlc (ix+$", mnemonic_tail: "), b", cycles: (23, 0), pre_len: 2, op_len: 1, arg_len: 1, group: InsnGroup::Regular },
        0x01 => Opcode { mnemonic_fmt: "rlc (ix+$", mnemonic_tail: "), c", cycles: (23, 0), pre_len: 2, op_len: 1, arg_len: 1, group: InsnGroup::Regular },
        0x02 => Opcode { mnemonic_fmt: "rlc (ix+$", mnemonic_tail: "), d", cycles: (23, 0), pre_len: 2, op_len: 1, arg_len: 1, group: InsnGroup::Regular },
        0x03 => Opcode { mnemonic_fmt: "rlc (ix+$", mnemonic_tail: "), e", cycles: (23, 0), pre_len: 2, op_len: 1, arg_len: 1, group: InsnGroup::Regular },
        0x04 => Opcode { mnemonic_fmt: "rlc (ix+$", mnemonic_tail: "), h", cycles: (23, 0), pre_len: 2, op_len: 1, arg_len: 1, group: InsnGroup::Regular },
        0x05 => Opcode { mnemonic_fmt: "rlc (ix+$", mnemonic_tail: "), l", cycles: (23, 0), pre_len: 2, op_len: 1, arg_len: 1, group: InsnGroup::Regular },
        0x06 => Opcode { mnemonic_fmt: "rlc (ix+$", mnemonic_tail: ")", cycles: (23, 0), pre_len: 2, op_len: 1, arg_len: 1, group: InsnGroup::Regular },
        0x07 => Opcode { mnemonic_fmt: "rlc (ix+$", mnemonic_tail: "), a", cycles: (23, 0), pre_len: 2, op_len: 1, arg_len: 1, group: InsnGroup::Regular },
        0x08 => Opcode { mnemonic_fmt: "rrc (ix+$", mnemonic_tail: "), b", cycles: (23, 0), pre_len: 2, op_len: 1, arg_len: 1, group: InsnGroup::Regular },
        0x09 => Opcode { mnemonic_fmt: "rrc (ix+$", mnemonic_tail: "), c", cycles: (23, 0), pre_len: 2, op_len: 1, arg_len: 1, group: InsnGroup::Regular },
        0x0A => Opcode { mnemonic_fmt: "rrc (ix+$", mnemonic_tail: "), d", cycles: (23, 0), pre_len: 2, op_len: 1, arg_len: 1, group: InsnGroup::Regular },
        0x0B => Opcode { mnemonic_fmt: "rrc (ix+$", mnemonic_tail: "), e", cycles: (23, 0), pre_len: 2, op_len: 1, arg_len: 1, group: InsnGroup::Regular },
        0x0C => Opcode { mnemonic_fmt: "rrc (ix+$", mnemonic_tail: "), h", cycles: (23, 0), pre_len: 2, op_len: 1, arg_len: 1, group: InsnGroup::Regular },
        0x0D => Opcode { mnemonic_fmt: "rrc (ix+$", mnemonic_tail: "), l", cycles: (23, 0), pre_len: 2, op_len: 1, arg_len: 1, group: InsnGroup::Regular },
        0x0E => Opcode { mnemonic_fmt: "rrc (ix+$", mnemonic_tail: ")", cycles: (23, 0), pre_len: 2, op_len: 1, arg_len: 1, group: InsnGroup::Regular },
        0x0F => Opcode { mnemonic_fmt: "rrc (ix+$", mnemonic_tail: "), a", cycles: (23, 0), pre_len: 2, op_len: 1, arg_len: 1, group: InsnGroup::Regular },
        0x10 => Opcode { mnemonic_fmt: "rl (ix+$", mnemonic_tail: "), b", cycles: (23, 0), pre_len: 2, op_len: 1, arg_len: 1, group: InsnGroup::Regular },
        0x11 => Opcode { mnemonic_fmt: "rl (ix+$", mnemonic_tail: "), c", cycles: (23, 0), pre_len: 2, op_len: 1, arg_len: 1, group: InsnGroup::Regular },
        0x12 => Opcode { mnemonic_fmt: "rl (ix+$", mnemonic_tail: "), d", cycles: (23, 0), pre_len: 2, op_len: 1, arg_len: 1, group: InsnGroup::Regular },
        0x13 => Opcode { mnemonic_fmt: "rl (ix+$", mnemonic_tail: "), e", cycles: (23, 0), pre_len: 2, op_len: 1, arg_len: 1, group: InsnGroup::Regular },
        0x14 => Opcode { mnemonic_fmt: "rl (ix+$", mnemonic_tail: "), h", cycles: (23, 0), pre_len: 2, op_len: 1, arg_len: 1, group: InsnGroup::Regular },
        0x15 => Opcode { mnemonic_fmt: "rl (ix+$", mnemonic_tail: "), l", cycles: (23, 0), pre_len: 2, op_len: 1, arg_len: 1, group: InsnGroup::Regular },
        0x16 => Opcode { mnemonic_fmt: "rl (ix+$", mnemonic_tail: ")", cycles: (23, 0), pre_len: 2, op_len: 1, arg_len: 1, group: InsnGroup::Regular },
        0x17 => Opcode { mnemonic_fmt: "rl (ix+$", mnemonic_tail: "), a", cycles: (23, 0), pre_len: 2, op_len: 1, arg_len: 1, group: InsnGroup::Regular },
        0x18 => Opcode { mnemonic_fmt: "rr (ix+$", mnemonic_tail: "), b", cycles: (23, 0), pre_len: 2, op_len: 1, arg_len: 1, group: InsnGroup::Regular },
        0x19 => Opcode { mnemonic_fmt: "rr (ix+$", mnemonic_tail: "), c", cycles: (23, 0), pre_len: 2, op_len: 1, arg_len: 1, group: InsnGroup::Regular },
        0x1A => Opcode { mnemonic_fmt: "rr (ix+$", mnemonic_tail: "), d", cycles: (23, 0), pre_len: 2, op_len: 1, arg_len: 1, group: InsnGroup::Regular },
        0x1B => Opcode { mnemonic_fmt: "rr (ix+$", mnemonic_tail: "), e", cycles: (23, 0), pre_len: 2, op_len: 1, arg_len: 1, group: InsnGroup::Regular },
        0x1C => Opcode { mnemonic_fmt: "rr (ix+$", mnemonic_tail: "), h", cycles: (23, 0), pre_len: 2, op_len: 1, arg_len: 1, group: InsnGroup::Regular },
        0x1D => Opcode { mnemonic_fmt: "rr (ix+$", mnemonic_tail: "), l", cycles: (23, 0), pre_len: 2, op_len: 1, arg_len: 1, group: InsnGroup::Regular },
        0x1E => Opcode { mnemonic_fmt: "rr (ix+$", mnemonic_tail: ")", cycles: (23, 0), pre_len: 2, op_len: 1, arg_len: 1, group: InsnGroup::Regular },
        0x1F => Opcode { mnemonic_fmt: "rr (ix+$", mnemonic_tail: "), a", cycles: (23, 0), pre_len: 2, op_len: 1, arg_len: 1, group: InsnGroup::Regular },
        0x20 => Opcode { mnemonic_fmt: "sla (ix+$", mnemonic_tail: "), b", cycles: (23, 0), pre_len: 2, op_len: 1, arg_len: 1, group: InsnGroup::Regular },
        0x21 => Opcode { mnemonic_fmt: "sla (ix+$", mnemonic_tail: "), c", cycles: (23, 0), pre_len: 2, op_len: 1, arg_len: 1, group: InsnGroup::Regular },
        0x22 => Opcode { mnemonic_fmt: "sla (ix+$", mnemonic_tail: "), d", cycles: (23, 0), pre_len: 2, op_len: 1, arg_len: 1, group: InsnGroup::Regular },
        0x23 => Opcode { mnemonic_fmt: "sla (ix+$", mnemonic_tail: "), e", cycles: (23, 0), pre_len: 2, op_len: 1, arg_len: 1, group: InsnGroup::Regular },
        0x24 => Opcode { mnemonic_fmt: "sla (ix+$", mnemonic_tail: "), h", cycles: (23, 0), pre_len: 2, op_len: 1, arg_len: 1, group: InsnGroup::Regular },
        0x25 => Opcode { mnemonic_fmt: "sla (ix+$", mnemonic_tail: "), l", cycles: (23, 0), pre_len: 2, op_len: 1, arg_len: 1, group: InsnGroup::Regular },
        0x26 => Opcode { mnemonic_fmt: "sla (ix+$", mnemonic_tail: ")", cycles: (23, 0), pre_len: 2, op_len: 1, arg_len: 1, group: InsnGroup::Regular },
        0x27 => Opcode { mnemonic_fmt: "sla (ix+$", mnemonic_tail: "), a", cycles: (23, 0), pre_len: 2, op_len: 1, arg_len: 1, group: InsnGroup::Regular },
        0x28 => Opcode { mnemonic_fmt: "sra (ix+$", mnemonic_tail: "), b", cycles: (23, 0), pre_len: 2, op_len: 1, arg_len: 1, group: InsnGroup::Regular },
        0x29 => Opcode { mnemonic_fmt: "sra (ix+$", mnemonic_tail: "), c", cycles: (23, 0), pre_len: 2, op_len: 1, arg_len: 1, group: InsnGroup::Regular },
        0x2A => Opcode { mnemonic_fmt: "sra (ix+$", mnemonic_tail: "), d", cycles: (23, 0), pre_len: 2, op_len: 1, arg_len: 1, group: InsnGroup::Regular },
        0x2B => Opcode { mnemonic_fmt: "sra (ix+$", mnemonic_tail: "), e", cycles: (23, 0), pre_len: 2, op_len: 1, arg_len: 1, group: InsnGroup::Regular },
        0x2C => Opcode { mnemonic_fmt: "sra (ix+$", mnemonic_tail: "), h", cycles: (23, 0), pre_len: 2, op_len: 1, arg_len: 1, group: InsnGroup::Regular },
        0x2D => Opcode { mnemonic_fmt: "sra (ix+$", mnemonic_tail: "), l", cycles: (23, 0), pre_len: 2, op_len: 1, arg_len: 1, group: InsnGroup::Regular },
        0x2E => Opcode { mnemonic_fmt: "sra (ix+$", mnemonic_tail: ")", cycles: (23, 0), pre_len: 2, op_len: 1, arg_len: 1, group: InsnGroup::Regular },
        0x2F => Opcode { mnemonic_fmt: "sra (ix+$", mnemonic_tail: "), a", cycles: (23, 0), pre_len: 2, op_len: 1, arg_len: 1, group: InsnGroup::Regular },
        0x30 => Opcode { mnemonic_fmt: "sll (ix+$", mnemonic_tail: "), b", cycles: (23, 0), pre_len: 2, op_len: 1, arg_len: 1, group: InsnGroup::Regular },
        0x31 => Opcode { mnemonic_fmt: "sll (ix+$", mnemonic_tail: "), c", cycles: (23, 0), pre_len: 2, op_len: 1, arg_len: 1, group: InsnGroup::Regular },
        0x32 => Opcode { mnemonic_fmt: "sll (ix+$", mnemonic_tail: "), d", cycles: (23, 0), pre_len: 2, op_len: 1, arg_len: 1, group: InsnGroup::Regular },
        0x33 => Opcode { mnemonic_fmt: "sll (ix+$", mnemonic_tail: "), e", cycles: (23, 0), pre_len: 2, op_len: 1, arg_len: 1, group: InsnGroup::Regular },
        0x34 => Opcode { mnemonic_fmt: "sll (ix+$", mnemonic_tail: "), h", cycles: (23, 0), pre_len: 2, op_len: 1, arg_len: 1, group: InsnGroup::Regular },
        0x35 => Opcode { mnemonic_fmt: "sll (ix+$", mnemonic_tail: "), l", cycles: (23, 0), pre_len: 2, op_len: 1, arg_len: 1, group: InsnGroup::Regular },
        0x36 => Opcode { mnemonic_fmt: "sll (ix+$", mnemonic_tail: ")", cycles: (23, 0), pre_len: 2, op_len: 1, arg_len: 1, group: InsnGroup::Regular },
        0x37 => Opcode { mnemonic_fmt: "sll (ix+$", mnemonic_tail: "), a", cycles: (23, 0), pre_len: 2, op_len: 1, arg_len: 1, group: InsnGroup::Regular },
        0x38 => Opcode { mnemonic_fmt: "srl (ix+$", mnemonic_tail: "), b", cycles: (23, 0), pre_len: 2, op_len: 1, arg_len: 1, group: InsnGroup::Regular },
        0x39 => Opcode { mnemonic_fmt: "srl (ix+$", mnemonic_tail: "), c", cycles: (23, 0), pre_len: 2, op_len: 1, arg_len: 1, group: InsnGroup::Regular },
        0x3A => Opcode { mnemonic_fmt: "srl (ix+$", mnemonic_tail: "), d", cycles: (23, 0), pre_len: 2, op_len: 1, arg_len: 1, group: InsnGroup::Regular },
        0x3B => Opcode { mnemonic_fmt: "srl (ix+$", mnemonic_tail: "), e", cycles: (23, 0), pre_len: 2, op_len: 1, arg_len: 1, group: InsnGroup::Regular },
        0x3C => Opcode { mnemonic_fmt: "srl (ix+$", mnemonic_tail: "), h", cycles: (23, 0), pre_len: 2, op_len: 1, arg_len: 1, group: InsnGroup::Regular },
        0x3D => Opcode { mnemonic_fmt: "srl (ix+$", mnemonic_tail: "), l", cycles: (23, 0), pre_len: 2, op_len: 1, arg_len: 1, group: InsnGroup::Regular },
        0x3E => Opcode { mnemonic_fmt: "srl (ix+$", mnemonic_tail: ")", cycles: (23, 0), pre_len: 2, op_len: 1, arg_len: 1, group: InsnGroup::Regular },
        0x3F => Opcode { mnemonic_fmt: "srl (ix+$", mnemonic_tail: "), a", cycles: (23, 0), pre_len: 2, op_len: 1, arg_len: 1, group: InsnGroup::Regular },
        0x40 => Opcode { mnemonic_fmt: "bit 0, (ix+$", mnemonic_tail: ")", cycles: (20, 0), pre_len: 2, op_len: 1, arg_len: 1, group: InsnGroup::Regular },
        0x41 => Opcode { mnemonic_fmt: "bit 0, (ix+$", mnemonic_tail: ")", cycles: (20, 0), pre_len: 2, op_len: 1, arg_len: 1, group: InsnGroup::Regular },
        0x42 => Opcode { mnemonic_fmt: "bit 0, (ix+$", mnemonic_tail: ")", cycles: (20, 0), pre_len: 2, op_len: 1, arg_len: 1, group: InsnGroup::Regular },
        0x43 => Opcode { mnemonic_fmt: "bit 0, (ix+$", mnemonic_tail: ")", cycles: (20, 0), pre_len: 2, op_len: 1, arg_len: 1, group: InsnGroup::Regular },
        0x44 => Opcode { mnemonic_fmt: "bit 0, (ix+$", mnemonic_tail: ")", cycles: (20, 0), pre_len: 2, op_len: 1, arg_len: 1, group: InsnGroup::Regular },
        0x45 => Opcode { mnemonic_fmt: "bit 0, (ix+$", mnemonic_tail: ")", cycles: (20, 0), pre_len: 2, op_len: 1, arg_len: 1, group: InsnGroup::Regular },
        0x46 => Opcode { mnemonic_fmt: "bit 0, (ix+$", mnemonic_tail: ")", cycles: (20, 0), pre_len: 2, op_len: 1, arg_len: 1, group: InsnGroup::Regular },
        0x47 => Opcode { mnemonic_fmt: "bit 0, (ix+$", mnemonic_tail: ")", cycles: (20, 0), pre_len: 2, op_len: 1, arg_len: 1, group: InsnGroup::Regular },
        0x48 => Opcode { mnemonic_fmt: "bit 1, (ix+$", mnemonic_tail: ")", cycles: (20, 0), pre_len: 2, op_len: 1, arg_len: 1, group: InsnGroup::Regular },
        0x49 => Opcode { mnemonic_fmt: "bit 1, (ix+$", mnemonic_tail: ")", cycles: (20, 0), pre_len: 2, op_len: 1, arg_len: 1, group: InsnGroup::Regular },
        0x4A => Opcode { mnemonic_fmt: "bit 1, (ix+$", mnemonic_tail: ")", cycles: (20, 0), pre_len: 2, op_len: 1, arg_len: 1, group: InsnGroup::Regular },
        0x4B => Opcode { mnemonic_fmt: "bit 1, (ix+$", mnemonic_tail: ")", cycles: (20, 0), pre_len: 2, op_len: 1, arg_len: 1, group: InsnGroup::Regular },
        0x4C => Opcode { mnemonic_fmt: "bit 1, (ix+$", mnemonic_tail: ")", cycles: (20, 0), pre_len: 2, op_len: 1, arg_len: 1, group: InsnGroup::Regular },
        0x4D => Opcode { mnemonic_fmt: "bit 1, (ix+$", mnemonic_tail: ")", cycles: (20, 0), pre_len: 2, op_len: 1, arg_len: 1, group: InsnGroup::Regular },
        0x4E => Opcode { mnemonic_fmt: "bit 1, (ix+$", mnemonic_tail: ")", cycles: (20, 0), pre_len: 2, op_len: 1, arg_len: 1, group: InsnGroup::Regular },
        0x4F => Opcode { mnemonic_fmt: "bit 1, (ix+$", mnemonic_tail: ")", cycles: (20, 0), pre_len: 2, op_len: 1, arg_len: 1, group: InsnGroup::Regular },
        0x50 => Opcode { mnemonic_fmt: "bit 2, (ix+$", mnemonic_tail: ")", cycles: (20, 0), pre_len: 2, op_len: 1, arg_len: 1, group: InsnGroup::Regular },
        0x51 => Opcode { mnemonic_fmt: "bit 2, (ix+$", mnemonic_tail: ")", cycles: (20, 0), pre_len: 2, op_len: 1, arg_len: 1, group: InsnGroup::Regular },
        0x52 => Opcode { mnemonic_fmt: "bit 2, (ix+$", mnemonic_tail: ")", cycles: (20, 0), pre_len: 2, op_len: 1, arg_len: 1, group: InsnGroup::Regular },
        0x53 => Opcode { mnemonic_fmt: "bit 2, (ix+$", mnemonic_tail: ")", cycles: (20, 0), pre_len: 2, op_len: 1, arg_len: 1, group: InsnGroup::Regular },
        0x54 => Opcode { mnemonic_fmt: "bit 2, (ix+$", mnemonic_tail: ")", cycles: (20, 0), pre_len: 2, op_len: 1, arg_len: 1, group: InsnGroup::Regular },
        0x55 => Opcode { mnemonic_fmt: "bit 2, (ix+$", mnemonic_tail: ")", cycles: (20, 0), pre_len: 2, op_len: 1, arg_len: 1, group: InsnGroup::Regular },
        0x56 => Opcode { mnemonic_fmt: "bit 2, (ix+$", mnemonic_tail: ")", cycles: (20, 0), pre_len: 2, op_len: 1, arg_len: 1, group: InsnGroup::Regular },
        0x57 => Opcode { mnemonic_fmt: "bit 2, (ix+$", mnemonic_tail: ")", cycles: (20, 0), pre_len: 2, op_len: 1, arg_len: 1, group: InsnGroup::Regular },
        0x58 => Opcode { mnemonic_fmt: "bit 3, (ix+$", mnemonic_tail: ")", cycles: (20, 0), pre_len: 2, op_len: 1, arg_len: 1, group: InsnGroup::Regular },
        0x59 => Opcode { mnemonic_fmt: "bit 3, (ix+$", mnemonic_tail: ")", cycles: (20, 0), pre_len: 2, op_len: 1, arg_len: 1, group: InsnGroup::Regular },
        0x5A => Opcode { mnemonic_fmt: "bit 3, (ix+$", mnemonic_tail: ")", cycles: (20, 0), pre_len: 2, op_len: 1, arg_len: 1, group: InsnGroup::Regular },
        0x5B => Opcode { mnemonic_fmt: "bit 3, (ix+$", mnemonic_tail: ")", cycles: (20, 0), pre_len: 2, op_len: 1, arg_len: 1, group: InsnGroup::Regular },
        0x5C => Opcode { mnemonic_fmt: "bit 3, (ix+$", mnemonic_tail: ")", cycles: (20, 0), pre_len: 2, op_len: 1, arg_len: 1, group: InsnGroup::Regular },
        0x5D => Opcode { mnemonic_fmt: "bit 3, (ix+$", mnemonic_tail: ")", cycles: (20, 0), pre_len: 2, op_len: 1, arg_len: 1, group: InsnGroup::Regular },
        0x5E => Opcode { mnemonic_fmt: "bit 3, (ix+$", mnemonic_tail: ")", cycles: (20, 0), pre_len: 2, op_len: 1, arg_len: 1, group: InsnGroup::Regular },
        0x5F => Opcode { mnemonic_fmt: "bit 3, (ix+$", mnemonic_tail: ")", cycles: (20, 0), pre_len: 2, op_len: 1, arg_len: 1, group: InsnGroup::Regular },
        0x60 => Opcode { mnemonic_fmt: "bit 4, (ix+$", mnemonic_tail: ")", cycles: (20, 0), pre_len: 2, op_len: 1, arg_len: 1, group: InsnGroup::Regular },
        0x61 => Opcode { mnemonic_fmt: "bit 4, (ix+$", mnemonic_tail: ")", cycles: (20, 0), pre_len: 2, op_len: 1, arg_len: 1, group: InsnGroup::Regular },
        0x62 => Opcode { mnemonic_fmt: "bit 4, (ix+$", mnemonic_tail: ")", cycles: (20, 0), pre_len: 2, op_len: 1, arg_len: 1, group: InsnGroup::Regular },
        0x63 => Opcode { mnemonic_fmt: "bit 4, (ix+$", mnemonic_tail: ")", cycles: (20, 0), pre_len: 2, op_len: 1, arg_len: 1, group: InsnGroup::Regular },
        0x64 => Opcode { mnemonic_fmt: "bit 4, (ix+$", mnemonic_tail: ")", cycles: (20, 0), pre_len: 2, op_len: 1, arg_len: 1, group: InsnGroup::Regular },
        0x65 => Opcode { mnemonic_fmt: "bit 4, (ix+$", mnemonic_tail: ")", cycles: (20, 0), pre_len: 2, op_len: 1, arg_len: 1, group: InsnGroup::Regular },
        0x66 => Opcode { mnemonic_fmt: "bit 4, (ix+$", mnemonic_tail: ")", cycles: (20, 0), pre_len: 2, op_len: 1, arg_len: 1, group: InsnGroup::Regular },
        0x67 => Opcode { mnemonic_fmt: "bit 4, (ix+$", mnemonic_tail: ")", cycles: (20, 0), pre_len: 2, op_len: 1, arg_len: 1, group: InsnGroup::Regular },
        0x68 => Opcode { mnemonic_fmt: "bit 5, (ix+$", mnemonic_tail: ")", cycles: (20, 0), pre_len: 2, op_len: 1, arg_len: 1, group: InsnGroup::Regular },
        0x69 => Opcode { mnemonic_fmt: "bit 5, (ix+$", mnemonic_tail: ")", cycles: (20, 0), pre_len: 2, op_len: 1, arg_len: 1, group: InsnGroup::Regular },
        0x6A => Opcode { mnemonic_fmt: "bit 5, (ix+$", mnemonic_tail: ")", cycles: (20, 0), pre_len: 2, op_len: 1, arg_len: 1, group: InsnGroup::Regular },
        0x6B => Opcode { mnemonic_fmt: "bit 5, (ix+$", mnemonic_tail: ")", cycles: (20, 0), pre_len: 2, op_len: 1, arg_len: 1, group: InsnGroup::Regular },
        0x6C => Opcode { mnemonic_fmt: "bit 5, (ix+$", mnemonic_tail: ")", cycles: (20, 0), pre_len: 2, op_len: 1, arg_len: 1, group: InsnGroup::Regular },
        0x6D => Opcode { mnemonic_fmt: "bit 5, (ix+$", mnemonic_tail: ")", cycles: (20, 0), pre_len: 2, op_len: 1, arg_len: 1, group: InsnGroup::Regular },
        0x6E => Opcode { mnemonic_fmt: "bit 5, (ix+$", mnemonic_tail: ")", cycles: (20, 0), pre_len: 2, op_len: 1, arg_len: 1, group: InsnGroup::Regular },
        0x6F => Opcode { mnemonic_fmt: "bit 5, (ix+$", mnemonic_tail: ")", cycles: (20, 0), pre_len: 2, op_len: 1, arg_len: 1, group: InsnGroup::Regular },
        0x70 => Opcode { mnemonic_fmt: "bit 6, (ix+$", mnemonic_tail: ")", cycles: (20, 0), pre_len: 2, op_len: 1, arg_len: 1, group: InsnGroup::Regular },
        0x71 => Opcode { mnemonic_fmt: "bit 6, (ix+$", mnemonic_tail: ")", cycles: (20, 0), pre_len: 2, op_len: 1, arg_len: 1, group: InsnGroup::Regular },
        0x72 => Opcode { mnemonic_fmt: "bit 6, (ix+$", mnemonic_tail: ")", cycles: (20, 0), pre_len: 2, op_len: 1, arg_len: 1, group: InsnGroup::Regular },
        0x73 => Opcode { mnemonic_fmt: "bit 6, (ix+$", mnemonic_tail: ")", cycles: (20, 0), pre_len: 2, op_len: 1, arg_len: 1, group: InsnGroup::Regular },
        0x74 => Opcode { mnemonic_fmt: "bit 6, (ix+$", mnemonic_tail: ")", cycles: (20, 0), pre_len: 2, op_len: 1, arg_len: 1, group: InsnGroup::Regular },
        0x75 => Opcode { mnemonic_fmt: "bit 6, (ix+$", mnemonic_tail: ")", cycles: (20, 0), pre_len: 2, op_len: 1, arg_len: 1, group: InsnGroup::Regular },
        0x76 => Opcode { mnemonic_fmt: "bit 6, (ix+$", mnemonic_tail: ")", cycles: (20, 0), pre_len: 2, op_len: 1, arg_len: 1, group: InsnGroup::Regular },
        0x77 => Opcode { mnemonic_fmt: "bit 6, (ix+$", mnemonic_tail: ")", cycles: (20, 0), pre_len: 2, op_len: 1, arg_len: 1, group: InsnGroup::Regular },
        0x78 => Opcode { mnemonic_fmt: "bit 7, (ix+$", mnemonic_tail: ")", cycles: (20, 0), pre_len: 2, op_len: 1, arg_len: 1, group: InsnGroup::Regular },
        0x79 => Opcode { mnemonic_fmt: "bit 7, (ix+$", mnemonic_tail: ")", cycles: (20, 0), pre_len: 2, op_len: 1, arg_len: 1, group: InsnGroup::Regular },
        0x7A => Opcode { mnemonic_fmt: "bit 7, (ix+$", mnemonic_tail: ")", cycles: (20, 0), pre_len: 2, op_len: 1, arg_len: 1, group: InsnGroup::Regular },
        0x7B => Opcode { mnemonic_fmt: "bit 7, (ix+$", mnemonic_tail: ")", cycles: (20, 0), pre_len: 2, op_len: 1, arg_len: 1, group: InsnGroup::Regular },
        0x7C => Opcode { mnemonic_fmt: "bit 7, (ix+$", mnemonic_tail: ")", cycles: (20, 0), pre_len: 2, op_len: 1, arg_len: 1, group: InsnGroup::Regular },
        0x7D => Opcode { mnemonic_fmt: "bit 7, (ix+$", mnemonic_tail: ")", cycles: (20, 0), pre_len: 2, op_len: 1, arg_len: 1, group: InsnGroup::Regular },
        0x7E => Opcode { mnemonic_fmt: "bit 7, (ix+$", mnemonic_tail: ")", cycles: (20, 0), pre_len: 2, op_len: 1, arg_len: 1, group: InsnGroup::Regular },
        0x7F => Opcode { mnemonic_fmt: "bit 7, (ix+$", mnemonic_tail: ")", cycles: (20, 0), pre_len: 2, op_len: 1, arg_len: 1, group: InsnGroup::Regular },
        0x80 => Opcode { mnemonic_fmt: "res 0, (ix+$", mnemonic_tail: "), b", cycles: (23, 0), pre_len: 2, op_len: 1, arg_len: 1, group: InsnGroup::Regular },
        0x81 => Opcode { mnemonic_fmt: "res 0, (ix+$", mnemonic_tail: "), c", cycles: (23, 0), pre_len: 2, op_len: 1, arg_len: 1, group: InsnGroup::Regular },
        0x82 => Opcode { mnemonic_fmt: "res 0, (ix+$", mnemonic_tail: "), d", cycles: (23, 0), pre_len: 2, op_len: 1, arg_len: 1, group: InsnGroup::Regular },
        0x83 => Opcode { mnemonic_fmt: "res 0, (ix+$", mnemonic_tail: "), e", cycles: (23, 0), pre_len: 2, op_len: 1, arg_len: 1, group: InsnGroup::Regular },
        0x84 => Opcode { mnemonic_fmt: "res 0, (ix+$", mnemonic_tail: "), h", cycles: (23, 0), pre_len: 2, op_len: 1, arg_len: 1, group: InsnGroup::Regular },
        0x85 => Opcode { mnemonic_fmt: "res 0, (ix+$", mnemonic_tail: "), l", cycles: (23, 0), pre_len: 2, op_len: 1, arg_len: 1, group: InsnGroup::Regular },
        0x86 => Opcode { mnemonic_fmt: "res 0, (ix+$", mnemonic_tail: ")", cycles: (23, 0), pre_len: 2, op_len: 1, arg_len: 1, group: InsnGroup::Regular },
        0x87 => Opcode { mnemonic_fmt: "res 0, (ix+$", mnemonic_tail: "), a", cycles: (23, 0), pre_len: 2, op_len: 1, arg_len: 1, group: InsnGroup::Regular },
        0x88 => Opcode { mnemonic_fmt: "res 1, (ix+$", mnemonic_tail: "), b", cycles: (23, 0), pre_len: 2, op_len: 1, arg_len: 1, group: InsnGroup::Regular },
        0x89 => Opcode { mnemonic_fmt: "res 1, (ix+$", mnemonic_tail: "), c", cycles: (23, 0), pre_len: 2, op_len: 1, arg_len: 1, group: InsnGroup::Regular },
        0x8A => Opcode { mnemonic_fmt: "res 1, (ix+$", mnemonic_tail: "), d", cycles: (23, 0), pre_len: 2, op_len: 1, arg_len: 1, group: InsnGroup::Regular },
        0x8B => Opcode { mnemonic_fmt: "res 1, (ix+$", mnemonic_tail: "), e", cycles: (23, 0), pre_len: 2, op_len: 1, arg_len: 1, group: InsnGroup::Regular },
        0x8C => Opcode { mnemonic_fmt: "res 1, (ix+$", mnemonic_tail: "), h", cycles: (23, 0), pre_len: 2, op_len: 1, arg_len: 1, group: InsnGroup::Regular },
        0x8D => Opcode { mnemonic_fmt: "res 1, (ix+$", mnemonic_tail: "), l", cycles: (23, 0), pre_len: 2, op_len: 1, arg_len: 1, group: InsnGroup::Regular },
        0x8E => Opcode { mnemonic_fmt: "res 1, (ix+$", mnemonic_tail: ")", cycles: (23, 0), pre_len: 2, op_len: 1, arg_len: 1, group: InsnGroup::Regular },
        0x8F => Opcode { mnemonic_fmt: "res 1, (ix+$", mnemonic_tail: "), a", cycles: (23, 0), pre_len: 2, op_len: 1, arg_len: 1, group: InsnGroup::Regular },
        0x90 => Opcode { mnemonic_fmt: "res 2, (ix+$", mnemonic_tail: "), b", cycles: (23, 0), pre_len: 2, op_len: 1, arg_len: 1, group: InsnGroup::Regular },
        0x91 => Opcode { mnemonic_fmt: "res 2, (ix+$", mnemonic_tail: "), c", cycles: (23, 0), pre_len: 2, op_len: 1, arg_len: 1, group: InsnGroup::Regular },
        0x92 => Opcode { mnemonic_fmt: "res 2, (ix+$", mnemonic_tail: "), d", cycles: (23, 0), pre_len: 2, op_len: 1, arg_len: 1, group: InsnGroup::Regular },
        0x93 => Opcode { mnemonic_fmt: "res 2, (ix+$", mnemonic_tail: "), e", cycles: (23, 0), pre_len: 2, op_len: 1, arg_len: 1, group: InsnGroup::Regular },
        0x94 => Opcode { mnemonic_fmt: "res 2, (ix+$", mnemonic_tail: "), h", cycles: (23, 0), pre_len: 2, op_len: 1, arg_len: 1, group: InsnGroup::Regular },
        0x95 => Opcode { mnemonic_fmt: "res 2, (ix+$", mnemonic_tail: "), l", cycles: (23, 0), pre_len: 2, op_len: 1, arg_len: 1, group: InsnGroup::Regular },
        0x96 => Opcode { mnemonic_fmt: "res 2, (ix+$", mnemonic_tail: ")", cycles: (23, 0), pre_len: 2, op_len: 1, arg_len: 1, group: InsnGroup::Regular },
        0x97 => Opcode { mnemonic_fmt: "res 2, (ix+$", mnemonic_tail: "), a", cycles: (23, 0), pre_len: 2, op_len: 1, arg_len: 1, group: InsnGroup::Regular },
        0x98 => Opcode { mnemonic_fmt: "res 3, (ix+$", mnemonic_tail: "), b", cycles: (23, 0), pre_len: 2, op_len: 1, arg_len: 1, group: InsnGroup::Regular },
        0x99 => Opcode { mnemonic_fmt: "res 3, (ix+$", mnemonic_tail: "), c", cycles: (23, 0), pre_len: 2, op_len: 1, arg_len: 1, group: InsnGroup::Regular },
        0x9A => Opcode { mnemonic_fmt: "res 3, (ix+$", mnemonic_tail: "), d", cycles: (23, 0), pre_len: 2, op_len: 1, arg_len: 1, group: InsnGroup::Regular },
        0x9B => Opcode { mnemonic_fmt: "res 3, (ix+$", mnemonic_tail: "), e", cycles: (23, 0), pre_len: 2, op_len: 1, arg_len: 1, group: InsnGroup::Regular },
        0x9C => Opcode { mnemonic_fmt: "res 3, (ix+$", mnemonic_tail: "), h", cycles: (23, 0), pre_len: 2, op_len: 1, arg_len: 1, group: InsnGroup::Regular },
        0x9D => Opcode { mnemonic_fmt: "res 3, (ix+$", mnemonic_tail: "), l", cycles: (23, 0), pre_len: 2, op_len: 1, arg_len: 1, group: InsnGroup::Regular },
        0x9E => Opcode { mnemonic_fmt: "res 3, (ix+$", mnemonic_tail: ")", cycles: (23, 0), pre_len: 2, op_len: 1, arg_len: 1, group: InsnGroup::Regular },
        0x9F => Opcode { mnemonic_fmt: "res 3, (ix+$", mnemonic_tail: "), a", cycles: (23, 0), pre_len: 2, op_len: 1, arg_len: 1, group: InsnGroup::Regular },
        0xA0 => Opcode { mnemonic_fmt: "res 4, (ix+$", mnemonic_tail: "), b", cycles: (23, 0), pre_len: 2, op_len: 1, arg_len: 1, group: InsnGroup::Regular },
        0xA1 => Opcode { mnemonic_fmt: "res 4, (ix+$", mnemonic_tail: "), c", cycles: (23, 0), pre_len: 2, op_len: 1, arg_len: 1, group: InsnGroup::Regular },
        0xA2 => Opcode { mnemonic_fmt: "res 4, (ix+$", mnemonic_tail: "), d", cycles: (23, 0), pre_len: 2, op_len: 1, arg_len: 1, group: InsnGroup::Regular },
        0xA3 => Opcode { mnemonic_fmt: "res 4, (ix+$", mnemonic_tail: "), e", cycles: (23, 0), pre_len: 2, op_len: 1, arg_len: 1, group: InsnGroup::Regular },
        0xA4 => Opcode { mnemonic_fmt: "res 4, (ix+$", mnemonic_tail: "), h", cycles: (23, 0), pre_len: 2, op_len: 1, arg_len: 1, group: InsnGroup::Regular },
        0xA5 => Opcode { mnemonic_fmt: "res 4, (ix+$", mnemonic_tail: "), l", cycles: (23, 0), pre_len: 2, op_len: 1, arg_len: 1, group: InsnGroup::Regular },
        0xA6 => Opcode { mnemonic_fmt: "res 4, (ix+$", mnemonic_tail: ")", cycles: (23, 0), pre_len: 2, op_len: 1, arg_len: 1, group: InsnGroup::Regular },
        0xA7 => Opcode { mnemonic_fmt: "res 4, (ix+$", mnemonic_tail: "), a", cycles: (23, 0), pre_len: 2, op_len: 1, arg_len: 1, group: InsnGroup::Regular },
        0xA8 => Opcode { mnemonic_fmt: "res 5, (ix+$", mnemonic_tail: "), b", cycles: (23, 0), pre_len: 2, op_len: 1, arg_len: 1, group: InsnGroup::Regular },
        0xA9 => Opcode { mnemonic_fmt: "res 5, (ix+$", mnemonic_tail: "), c", cycles: (23, 0), pre_len: 2, op_len: 1, arg_len: 1, group: InsnGroup::Regular },
        0xAA => Opcode { mnemonic_fmt: "res 5, (ix+$", mnemonic_tail: "), d", cycles: (23, 0), pre_len: 2, op_len: 1, arg_len: 1, group: InsnGroup::Regular },
        0xAB => Opcode { mnemonic_fmt: "res 5, (ix+$", mnemonic_tail: "), e", cycles: (23, 0), pre_len: 2, op_len: 1, arg_len: 1, group: InsnGroup::Regular },
        0xAC => Opcode { mnemonic_fmt: "res 5, (ix+$", mnemonic_tail: "), h", cycles: (23, 0), pre_len: 2, op_len: 1, arg_len: 1, group: InsnGroup::Regular },
        0xAD => Opcode { mnemonic_fmt: "res 5, (ix+$", mnemonic_tail: "), l", cycles: (23, 0), pre_len: 2, op_len: 1, arg_len: 1, group: InsnGroup::Regular },
        0xAE => Opcode { mnemonic_fmt: "res 5, (ix+$", mnemonic_tail: ")", cycles: (23, 0), pre_len: 2, op_len: 1, arg_len: 1, group: InsnGroup::Regular },
        0xAF => Opcode { mnemonic_fmt: "res 5, (ix+$", mnemonic_tail: "), a", cycles: (23, 0), pre_len: 2, op_len: 1, arg_len: 1, group: InsnGroup::Regular },
        0xB0 => Opcode { mnemonic_fmt: "res 6, (ix+$", mnemonic_tail: "), b", cycles: (23, 0), pre_len: 2, op_len: 1, arg_len: 1, group: InsnGroup::Regular },
        0xB1 => Opcode { mnemonic_fmt: "res 6, (ix+$", mnemonic_tail: "), c", cycles: (23, 0), pre_len: 2, op_len: 1, arg_len: 1, group: InsnGroup::Regular },
        0xB2 => Opcode { mnemonic_fmt: "res 6, (ix+$", mnemonic_tail: "), d", cycles: (23, 0), pre_len: 2, op_len: 1, arg_len: 1, group: InsnGroup::Regular },
        0xB3 => Opcode { mnemonic_fmt: "res 6, (ix+$", mnemonic_tail: "), e", cycles: (23, 0), pre_len: 2, op_len: 1, arg_len: 1, group: InsnGroup::Regular },
        0xB4 => Opcode { mnemonic_fmt: "res 6, (ix+$", mnemonic_tail: "), h", cycles: (23, 0), pre_len: 2, op_len: 1, arg_len: 1, group: InsnGroup::Regular },
        0xB5 => Opcode { mnemonic_fmt: "res 6, (ix+$", mnemonic_tail: "), l", cycles: (23, 0), pre_len: 2, op_len: 1, arg_len: 1, group: InsnGroup::Regular },
        0xB6 => Opcode { mnemonic_fmt: "res 6, (ix+$", mnemonic_tail: ")", cycles: (23, 0), pre_len: 2, op_len: 1, arg_len: 1, group: InsnGroup::Regular },
        0xB7 => Opcode { mnemonic_fmt: "res 6, (ix+$", mnemonic_tail: "), a", cycles: (23, 0), pre_len: 2, op_len: 1, arg_len: 1, group: InsnGroup::Regular },
        0xB8 => Opcode { mnemonic_fmt: "res 7, (ix+$", mnemonic_tail: "), b", cycles: (23, 0), pre_len: 2, op_len: 1, arg_len: 1, group: InsnGroup::Regular },
        0xB9 => Opcode { mnemonic_fmt: "res 7, (ix+$", mnemonic_tail: "), c", cycles: (23, 0), pre_len: 2, op_len: 1, arg_len: 1, group: InsnGroup::Regular },
        0xBA => Opcode { mnemonic_fmt: "res 7, (ix+$", mnemonic_tail: "), d", cycles: (23, 0), pre_len: 2, op_len: 1, arg_len: 1, group: InsnGroup::Regular },
        0xBB => Opcode { mnemonic_fmt: "res 7, (ix+$", mnemonic_tail: "), e", cycles: (23, 0), pre_len: 2, op_len: 1, arg_len: 1, group: InsnGroup::Regular },
        0xBC => Opcode { mnemonic_fmt: "res 7, (ix+$", mnemonic_tail: "), h", cycles: (23, 0), pre_len: 2, op_len: 1, arg_len: 1, group: InsnGroup::Regular },
        0xBD => Opcode { mnemonic_fmt: "res 7, (ix+$", mnemonic_tail: "), l", cycles: (23, 0), pre_len: 2, op_len: 1, arg_len: 1, group: InsnGroup::Regular },
        0xBE => Opcode { mnemonic_fmt: "res 7, (ix+$", mnemonic_tail: ")", cycles: (23, 0), pre_len: 2, op_len: 1, arg_len: 1, group: InsnGroup::Regular },
        0xBF => Opcode { mnemonic_fmt: "res 7, (ix+$", mnemonic_tail: "), a", cycles: (23, 0), pre_len: 2, op_len: 1, arg_len: 1, group: InsnGroup::Regular },
        0xC0 => Opcode { mnemonic_fmt: "set 0, (ix+$", mnemonic_tail: "), b", cycles: (23, 0), pre_len: 2, op_len: 1, arg_len: 1, group: InsnGroup::Regular },
        0xC1 => Opcode { mnemonic_fmt: "set 0, (ix+$", mnemonic_tail: "), c", cycles: (23, 0), pre_len: 2, op_len: 1, arg_len: 1, group: InsnGroup::Regular },
        0xC2 => Opcode { mnemonic_fmt: "set 0, (ix+$", mnemonic_tail: "), d", cycles: (23, 0), pre_len: 2, op_len: 1, arg_len: 1, group: InsnGroup::Regular },
        0xC3 => Opcode { mnemonic_fmt: "set 0, (ix+$", mnemonic_tail: "), e", cycles: (23, 0), pre_len: 2, op_len: 1, arg_len: 1, group: InsnGroup::Regular },
        0xC4 => Opcode { mnemonic_fmt: "set 0, (ix+$", mnemonic_tail: "), h", cycles: (23, 0), pre_len: 2, op_len: 1, arg_len: 1, group: InsnGroup::Regular },
        0xC5 => Opcode { mnemonic_fmt: "set 0, (ix+$", mnemonic_tail: "), l", cycles: (23, 0), pre_len: 2, op_len: 1, arg_len: 1, group: InsnGroup::Regular },
        0xC6 => Opcode { mnemonic_fmt: "set 0, (ix+$", mnemonic_tail: ")", cycles: (23, 0), pre_len: 2, op_len: 1, arg_len: 1, group: InsnGroup::Regular },
        0xC7 => Opcode { mnemonic_fmt: "set 0, (ix+$", mnemonic_tail: "), a", cycles: (23, 0), pre_len: 2, op_len: 1, arg_len: 1, group: InsnGroup::Regular },
        0xC8 => Opcode { mnemonic_fmt: "set 1, (ix+$", mnemonic_tail: "), b", cycles: (23, 0), pre_len: 2, op_len: 1, arg_len: 1, group: InsnGroup::Regular },
        0xC9 => Opcode { mnemonic_fmt: "set 1, (ix+$", mnemonic_tail: "), c", cycles: (23, 0), pre_len: 2, op_len: 1, arg_len: 1, group: InsnGroup::Regular },
        0xCA => Opcode { mnemonic_fmt: "set 1, (ix+$", mnemonic_tail: "), d", cycles: (23, 0), pre_len: 2, op_len: 1, arg_len: 1, group: InsnGroup::Regular },
        0xCB => Opcode { mnemonic_fmt: "set 1, (ix+$", mnemonic_tail: "), e", cycles: (23, 0), pre_len: 2, op_len: 1, arg_len: 1, group: InsnGroup::Regular },
        0xCC => Opcode { mnemonic_fmt: "set 1, (ix+$", mnemonic_tail: "), h", cycles: (23, 0), pre_len: 2, op_len: 1, arg_len: 1, group: InsnGroup::Regular },
        0xCD => Opcode { mnemonic_fmt: "set 1, (ix+$", mnemonic_tail: "), l", cycles: (23, 0), pre_len: 2, op_len: 1, arg_len: 1, group: InsnGroup::Regular },
        0xCE => Opcode { mnemonic_fmt: "set 1, (ix+$", mnemonic_tail: ")", cycles: (23, 0), pre_len: 2, op_len: 1, arg_len: 1, group: InsnGroup::Regular },
        0xCF => Opcode { mnemonic_fmt: "set 1, (ix+$", mnemonic_tail: "), a", cycles: (23, 0), pre_len: 2, op_len: 1, arg_len: 1, group: InsnGroup::Regular },
        0xD0 => Opcode { mnemonic_fmt: "set 2, (ix+$", mnemonic_tail: "), b", cycles: (23, 0), pre_len: 2, op_len: 1, arg_len: 1, group: InsnGroup::Regular },
        0xD1 => Opcode { mnemonic_fmt: "set 2, (ix+$", mnemonic_tail: "), c", cycles: (23, 0), pre_len: 2, op_len: 1, arg_len: 1, group: InsnGroup::Regular },
        0xD2 => Opcode { mnemonic_fmt: "set 2, (ix+$", mnemonic_tail: "), d", cycles: (23, 0), pre_len: 2, op_len: 1, arg_len: 1, group: InsnGroup::Regular },
        0xD3 => Opcode { mnemonic_fmt: "set 2, (ix+$", mnemonic_tail: "), e", cycles: (23, 0), pre_len: 2, op_len: 1, arg_len: 1, group: InsnGroup::Regular },
        0xD4 => Opcode { mnemonic_fmt: "set 2, (ix+$", mnemonic_tail: "), h", cycles: (23, 0), pre_len: 2, op_len: 1, arg_len: 1, group: InsnGroup::Regular },
        0xD5 => Opcode { mnemonic_fmt: "set 2, (ix+$", mnemonic_tail: "), l", cycles: (23, 0), pre_len: 2, op_len: 1, arg_len: 1, group: InsnGroup::Regular },
        0xD6 => Opcode { mnemonic_fmt: "set 2, (ix+$", mnemonic_tail: ")", cycles: (23, 0), pre_len: 2, op_len: 1, arg_len: 1, group: InsnGroup::Regular },
        0xD7 => Opcode { mnemonic_fmt: "set 2, (ix+$", mnemonic_tail: "), a", cycles: (23, 0), pre_len: 2, op_len: 1, arg_len: 1, group: InsnGroup::Regular },
        0xD8 => Opcode { mnemonic_fmt: "set 3, (ix+$", mnemonic_tail: "), b", cycles: (23, 0), pre_len: 2, op_len: 1, arg_len: 1, group: InsnGroup::Regular },
        0xD9 => Opcode { mnemonic_fmt: "set 3, (ix+$", mnemonic_tail: "), c", cycles: (23, 0), pre_len: 2, op_len: 1, arg_len: 1, group: InsnGroup::Regular },
        0xDA => Opcode { mnemonic_fmt: "set 3, (ix+$", mnemonic_tail: "), d", cycles: (23, 0), pre_len: 2, op_len: 1, arg_len: 1, group: InsnGroup::Regular },
        0xDB => Opcode { mnemonic_fmt: "set 3, (ix+$", mnemonic_tail: "), e", cycles: (23, 0), pre_len: 2, op_len: 1, arg_len: 1, group: InsnGroup::Regular },
        0xDC => Opcode { mnemonic_fmt: "set 3, (ix+$", mnemonic_tail: "), h", cycles: (23, 0), pre_len: 2, op_len: 1, arg_len: 1, group: InsnGroup::Regular },
        0xDD => Opcode { mnemonic_fmt: "set 3, (ix+$", mnemonic_tail: "), l", cycles: (23, 0), pre_len: 2, op_len: 1, arg_len: 1, group: InsnGroup::Regular },
        0xDE => Opcode { mnemonic_fmt: "set 3, (ix+$", mnemonic_tail: ")", cycles: (23, 0), pre_len: 2, op_len: 1, arg_len: 1, group: InsnGroup::Regular },
        0xDF => Opcode { mnemonic_fmt: "set 3, (ix+$", mnemonic_tail: "), a", cycles: (23, 0), pre_len: 2, op_len: 1, arg_len: 1, group: InsnGroup::Regular },
        0xE0 => Opcode { mnemonic_fmt: "set 4, (ix+$", mnemonic_tail: "), b", cycles: (23, 0), pre_len: 2, op_len: 1, arg_len: 1, group: InsnGroup::Regular },
        0xE1 => Opcode { mnemonic_fmt: "set 4, (ix+$", mnemonic_tail: "), c", cycles: (23, 0), pre_len: 2, op_len: 1, arg_len: 1, group: InsnGroup::Regular },
        0xE2 => Opcode { mnemonic_fmt: "set 4, (ix+$", mnemonic_tail: "), d", cycles: (23, 0), pre_len: 2, op_len: 1, arg_len: 1, group: InsnGroup::Regular },
        0xE3 => Opcode { mnemonic_fmt: "set 4, (ix+$", mnemonic_tail: "), e", cycles: (23, 0), pre_len: 2, op_len: 1, arg_len: 1, group: InsnGroup::Regular },
        0xE4 => Opcode { mnemonic_fmt: "set 4, (ix+$", mnemonic_tail: "), h", cycles: (23, 0), pre_len: 2, op_len: 1, arg_len: 1, group: InsnGroup::Regular },
        0xE5 => Opcode { mnemonic_fmt: "set 4, (ix+$", mnemonic_tail: "), l", cycles: (23, 0), pre_len: 2, op_len: 1, arg_len: 1, group: InsnGroup::Regular },
        0xE6 => Opcode { mnemonic_fmt: "set 4, (ix+$", mnemonic_tail: ")", cycles: (23, 0), pre_len: 2, op_len: 1, arg_len: 1, group: InsnGroup::Regular },
        0xE7 => Opcode { mnemonic_fmt: "set 4, (ix+$", mnemonic_tail: "), a", cycles: (23, 0), pre_len: 2, op_len: 1, arg_len: 1, group: InsnGroup::Regular },
        0xE8 => Opcode { mnemonic_fmt: "set 5, (ix+$", mnemonic_tail: "), b", cycles: (23, 0), pre_len: 2, op_len: 1, arg_len: 1, group: InsnGroup::Regular },
        0xE9 => Opcode { mnemonic_fmt: "set 5, (ix+$", mnemonic_tail: "), c", cycles: (23, 0), pre_len: 2, op_len: 1, arg_len: 1, group: InsnGroup::Regular },
        0xEA => Opcode { mnemonic_fmt: "set 5, (ix+$", mnemonic_tail: "), d", cycles: (23, 0), pre_len: 2, op_len: 1, arg_len: 1, group: InsnGroup::Regular },
        0xEB => Opcode { mnemonic_fmt: "set 5, (ix+$", mnemonic_tail: "), e", cycles: (23, 0), pre_len: 2, op_len: 1, arg_len: 1, group: InsnGroup::Regular },
        0xEC => Opcode { mnemonic_fmt: "set 5, (ix+$", mnemonic_tail: "), h", cycles: (23, 0), pre_len: 2, op_len: 1, arg_len: 1, group: InsnGroup::Regular },
        0xED => Opcode { mnemonic_fmt: "set 5, (ix+$", mnemonic_tail: "), l", cycles: (23, 0), pre_len: 2, op_len: 1, arg_len: 1, group: InsnGroup::Regular },
        0xEE => Opcode { mnemonic_fmt: "set 5, (ix+$", mnemonic_tail: ")", cycles: (23, 0), pre_len: 2, op_len: 1, arg_len: 1, group: InsnGroup::Regular },
        0xEF => Opcode { mnemonic_fmt: "set 5, (ix+$", mnemonic_tail: "), a", cycles: (23, 0), pre_len: 2, op_len: 1, arg_len: 1, group: InsnGroup::Regular },
        0xF0 => Opcode { mnemonic_fmt: "set 6, (ix+$", mnemonic_tail: "), b", cycles: (23, 0), pre_len: 2, op_len: 1, arg_len: 1, group: InsnGroup::Regular },
        0xF1 => Opcode { mnemonic_fmt: "set 6, (ix+$", mnemonic_tail: "), c", cycles: (23, 0), pre_len: 2, op_len: 1, arg_len: 1, group: InsnGroup::Regular },
        0xF2 => Opcode { mnemonic_fmt: "set 6, (ix+$", mnemonic_tail: "), d", cycles: (23, 0), pre_len: 2, op_len: 1, arg_len: 1, group: InsnGroup::Regular },
        0xF3 => Opcode { mnemonic_fmt: "set 6, (ix+$", mnemonic_tail: "), e", cycles: (23, 0), pre_len: 2, op_len: 1, arg_len: 1, group: InsnGroup::Regular },
        0xF4 => Opcode { mnemonic_fmt: "set 6, (ix+$", mnemonic_tail: "), h", cycles: (23, 0), pre_len: 2, op_len: 1, arg_len: 1, group: InsnGroup::Regular },
        0xF5 => Opcode { mnemonic_fmt: "set 6, (ix+$", mnemonic_tail: "), l", cycles: (23, 0), pre_len: 2, op_len: 1, arg_len: 1, group: InsnGroup::Regular },
        0xF6 => Opcode { mnemonic_fmt: "set 6, (ix+$", mnemonic_tail: ")", cycles: (23, 0), pre_len: 2, op_len: 1, arg_len: 1, group: InsnGroup::Regular },
        0xF7 => Opcode { mnemonic_fmt: "set 6, (ix+$", mnemonic_tail: "), a", cycles: (23, 0), pre_len: 2, op_len: 1, arg_len: 1, group: InsnGroup::Regular },
        0xF8 => Opcode { mnemonic_fmt: "set 7, (ix+$", mnemonic_tail: "), b", cycles: (23, 0), pre_len: 2, op_len: 1, arg_len: 1, group: InsnGroup::Regular },
        0xF9 => Opcode { mnemonic_fmt: "set 7, (ix+$", mnemonic_tail: "), c", cycles: (23, 0), pre_len: 2, op_len: 1, arg_len: 1, group: InsnGroup::Regular },
        0xFA => Opcode { mnemonic_fmt: "set 7, (ix+$", mnemonic_tail: "), d", cycles: (23, 0), pre_len: 2, op_len: 1, arg_len: 1, group: InsnGroup::Regular },
        0xFB => Opcode { mnemonic_fmt: "set 7, (ix+$", mnemonic_tail: "), e", cycles: (23, 0), pre_len: 2, op_len: 1, arg_len: 1, group: InsnGroup::Regular },
        0xFC => Opcode { mnemonic_fmt: "set 7, (ix+$", mnemonic_tail: "), h", cycles: (23, 0), pre_len: 2, op_len: 1, arg_len: 1, group: InsnGroup::Regular },
        0xFD => Opcode { mnemonic_fmt: "set 7, (ix+$", mnemonic_tail: "), l", cycles: (23, 0), pre_len: 2, op_len: 1, arg_len: 1, group: InsnGroup::Regular },
        0xFE => Opcode { mnemonic_fmt: "set 7, (ix+$", mnemonic_tail: ")", cycles: (23, 0), pre_len: 2, op_len: 1, arg_len: 1, group: InsnGroup::Regular },
        _ => Opcode { mnemonic_fmt: "set 7, (ix+$", mnemonic_tail: "), a", cycles: (23, 0), pre_len: 2, op_len: 1, arg_len: 1, group: InsnGroup::Regular },
    }
}

/// Looks up an entry of the table of the byte that ends a `0xDD 0xCB d op` sequence (IX bit operations).
pub fn lookup_ddcb(b: u8) -> (r: Opcode)
    ensures
        r == spec_ddcb(b),
{
    match b {
        0x00 => Opcode { mnemonic_fmt: "rlc (ix+$", mnemonic_tail: "), b", cycles: (23, 0), pre_len: 2, op_len: 1, arg_len: 1, group: InsnGroup::Regular },
        0x01 => Opcode { mnemonic_fmt: "rlc (ix+$", mnemonic_tail: "), c", cycles: (23, 0), pre_len: 2, op_len: 1, arg_len: 1, group: InsnGroup::Regular },
        0x02 => Opcode { mnemonic_fmt: "rlc (ix+$", mnemonic_tail: "), d", cycles: (23, 0), pre_len: 2, op_len: 1, arg_len: 1, group: InsnGroup::Regular },
        0x03 => Opcode { mnemonic_fmt: "rlc (ix+$", mnemonic_tail: "), e", cycles: (23, 0), pre_len: 2, op_len: 1, arg_len: 1, group: InsnGroup::Regular },
        0x04 => Opcode { mnemonic_fmt: "rlc (ix+$", mnemonic_tail: "), h", cycles: (23, 0), pre_len: 2, op_len: 1, arg_len: 1, group: InsnGroup::Regular },
        0x05 => Opcode { mnemonic_fmt: "rlc (ix+$", mnemonic_tail: "), l", cycles: (23, 0), pre_len: 2, op_len: 1, arg_len: 1, group: InsnGroup::Regular },
        0x06 => Opcode { mnemonic_fmt: "rlc (ix+$", mnemonic_tail: ")", cycles: (23, 0), pre_len: 2, op_len: 1, arg_len: 1, group: InsnGroup::Regular },
        0x07 => Opcode { mnemonic_fmt: "rlc (ix+$", mnemonic_tail: "), a", cycles: (23, 0), pre_len: 2, op_len: 1, arg_len: 1, group: InsnGroup::Regular },
        0x08 => Opcode { mnemonic_fmt: "rrc (ix+$", mnemonic_tail: "), b", cycles: (23, 0), pre_len: 2, op_len: 1, arg_len: 1, group: InsnGroup::Regular },
        0x09 => Opcode { mnemonic_fmt: "rrc (ix+$", mnemonic_tail: "), c", cycles: (23, 0), pre_len: 2, op_len: 1, arg_len: 1, group: InsnGroup::Regular },
        0x0A => Opcode { mnemonic_fmt: "rrc (ix+$", mnemonic_tail: "), d", cycles: (23, 0), pre_len: 2, op_len: 1, arg_len: 1, group: InsnGroup::Regular },
        0x0B => Opcode { mnemonic_fmt: "rrc (ix+$", mnemonic_tail: "), e", cycles: (23, 0), pre_len: 2, op_len: 1, arg_len: 1, group: InsnGroup::Regular },
        0x0C => Opcode { mnemonic_fmt: "rrc (ix+$", mnemonic_tail: "), h", cycles: (23, 0), pre_len: 2, op_len: 1, arg_len: 1, group: InsnGroup::Regular },
        0x0D => Opcode { mnemonic_fmt: "rrc (ix+$", mnemonic_tail: "), l", cycles: (23, 0), pre_len: 2, op_len: 1, arg_len: 1, group: InsnGroup::Regular },
        0x0E => Opcode { mnemonic_fmt: "rrc (ix+$", mnemonic_tail: ")", cycles: (23, 0), pre_len: 2, op_len: 1, arg_len: 1, group: InsnGroup::Regular },
        0x0F => Opcode { mnemonic_fmt: "rrc (ix+$", mnemonic_tail: "), a", cycles: (23, 0), pre_len: 2, op_len: 1, arg_len: 1, group: InsnGroup::Regular },
        0x10 => Opcode { mnemonic_fmt: "rl (ix+$", mnemonic_tail: "), b", cycles: (23, 0), pre_len: 2, op_len: 1, arg_len: 1, group: InsnGroup::Regular },
        0x11 => Opcode { mnemonic_fmt: "rl (ix+$", mnemonic_tail: "), c", cycles: (23, 0), pre_len: 2, op_len: 1, arg_len: 1, group: InsnGroup::Regular },
        0x12 => Opcode { mnemonic_fmt: "rl (ix+$", mnemonic_tail: "), d", cycles: (23, 0), pre_len: 2, op_len: 1, arg_len: 1, group: InsnGroup::Regular },
        0x13 => Opcode { mnemonic_fmt: "rl (ix+$", mnemonic_tail: "), e", cycles: (23, 0), pre_len: 2, op_len: 1, arg_len: 1, group: InsnGroup::Regular },
        0x14 => Opcode { mnemonic_fmt: "rl (ix+$", mnemonic_tail: "), h", cycles: (23, 0), pre_len: 2, op_len: 1, arg_len: 1, group: InsnGroup::Regular },
        0x15 => Opcode { mnemonic_fmt: "rl (ix+$", mnemonic_tail: "), l", cycles: (23, 0), pre_len: 2, op_len: 1, arg_len: 1, group: InsnGroup::Regular },
        0x16 => Opcode { mnemonic_fmt: "rl (ix+$", mnemonic_tail: ")", cycles: (23, 0), pre_len: 2, op_len: 1, arg_len: 1, group: InsnGroup::Regular },
        0x17 => Opcode { mnemonic_fmt: "rl (ix+$", mnemonic_tail: "), a", cycles: (23, 0), pre_len: 2, op_len: 1, arg_len: 1, group: InsnGroup::Regular },
        0x18 => Opcode { mnemonic_fmt: "rr (ix+$", mnemonic_tail: "), b", cycles: (23, 0), pre_len: 2, op_len: 1, arg_len: 1, group: InsnGroup::Regular },
        0x19 => Opcode { mnemonic_fmt: "rr (ix+$", mnemonic_tail: "), c", cycles: (23, 0), pre_len: 2, op_len: 1, arg_len: 1, group: InsnGroup::Regular },
        0x1A => Opcode { mnemonic_fmt: "rr (ix+$", mnemonic_tail: "), d", cycles: (23, 0), pre_len: 2, op_len: 1, arg_len: 1, group: InsnGroup::Regular },
        0x1B => Opcode { mnemonic_fmt: "rr (ix+$", mnemonic_tail: "), e", cycles: (23, 0), pre_len: 2, op_len: 1, arg_len: 1, group: InsnGroup::Regular },
        0x1C => Opcode { mnemonic_fmt: "rr (ix+$", mnemonic_tail: "), h", cycles: (23, 0), pre_len: 2, op_len: 1, arg_len: 1, group: InsnGroup::Regular },
        0x1D => Opcode { mnemonic_fmt: "rr (ix+$", mnemonic_tail: "), l", cycles: (23, 0), pre_len: 2, op_len: 1, arg_len: 1, group: InsnGroup::Regular },
        0x1E => Opcode { mnemonic_fmt: "rr (ix+$", mnemonic_tail: ")", cycles: (23, 0), pre_len: 2, op_len: 1, arg_len: 1, group: InsnGroup::Regular },
        0x1F => Opcode { mnemonic_fmt: "rr (ix+$", mnemonic_tail: "), a", cycles: (23, 0), pre_len: 2, op_len: 1, arg_len: 1, group: InsnGroup::Regular },
        0x20 => Opcode { mnemonic_fmt: "sla (ix+$", mnemonic_tail: "), b", cycles: (23, 0), pre_len: 2, op_len: 1, arg_len: 1, group: InsnGroup::Regular },
        0x21 => Opcode { mnemonic_fmt: "sla (ix+$", mnemonic_tail: "), c", cycles: (23, 0), pre_len: 2, op_len: 1, arg_len: 1, group: InsnGroup::Regular },
        0x22 => Opcode { mnemonic_fmt: "sla (ix+$", mnemonic_tail: "), d", cycles: (23, 0), pre_len: 2, op_len: 1, arg_len: 1, group: InsnGroup::Regular },
        0x23 => Opcode { mnemonic_fmt: "sla (ix+$", mnemonic_tail: "), e", cycles: (23, 0), pre_len: 2, op_len: 1, arg_len: 1, group: InsnGroup::Regular },
        0x24 => Opcode { mnemonic_fmt: "sla (ix+$", mnemonic_tail: "), h", cycles: (23, 0), pre_len: 2, op_len: 1, arg_len: 1, group: InsnGroup::Regular },
        0x25 => Opcode { mnemonic_fmt: "sla (ix+$", mnemonic_tail: "), l", cycles: (23, 0), pre_len: 2, op_len: 1, arg_len: 1, group: InsnGroup::Regular },
        0x26 => Opcode { mnemonic_fmt: "sla (ix+$", mnemonic_tail: ")", cycles: (23, 0), pre_len: 2, op_len: 1, arg_len: 1, group: InsnGroup::Regular },
        0x27 => Opcode { mnemonic_fmt: "sla (ix+$", mnemonic_tail: "), a", cycles: (23, 0), pre_len: 2, op_len: 1, arg_len: 1, group: InsnGroup::Regular },
        0x28 => Opcode { mnemonic_fmt: "sra (ix+$", mnemonic_tail: "), b", cycles: (23, 0), pre_len: 2, op_len: 1, arg_len: 1, group: InsnGroup::Regular },
        0x29 => Opcode { mnemonic_fmt: "sra (ix+$", mnemonic_tail: "), c", cycles: (23, 0), pre_len: 2, op_len: 1, arg_len: 1, group: InsnGroup::Regular },
        0x2A => Opcode { mnemonic_fmt: "sra (ix+$", mnemonic_tail: "), d", cycles: (23, 0), pre_len: 2, op_len: 1, arg_len: 1, group: InsnGroup::Regular },
        0x2B => Opcode { mnemonic_fmt: "sra (ix+$", mnemonic_tail: "), e", cycles: (23, 0), pre_len: 2, op_len: 1, arg_len: 1, group: InsnGroup::Regular },
        0x2C => Opcode { mnemonic_fmt: "sra (ix+$", mnemonic_tail: "), h", cycles: (23, 0), pre_len: 2, op_len: 1, arg_len: 1, group: InsnGroup::Regular },
        0x2D => Opcode { mnemonic_fmt: "sra (ix+$", mnemonic_tail: "), l", cycles: (23, 0), pre_len: 2, op_len: 1, arg_len: 1, group: InsnGroup::Regular },
        0x2E => Opcode { mnemonic_fmt: "sra (ix+$", mnemonic_tail: ")", cycles: (23, 0), pre_len: 2, op_len: 1, arg_len: 1, group: InsnGroup::Regular },
        0x2F => Opcode { mnemonic_fmt: "sra (ix+$", mnemonic_tail: "), a", cycles: (23, 0), pre_len: 2, op_len: 1, arg_len: 1, group: InsnGroup::Regular },
        0x30 => Opcode { mnemonic_fmt: "sll (ix+$", mnemonic_tail: "), b", cycles: (23, 0), pre_len: 2, op_len: 1, arg_len: 1, group: InsnGroup::Regular },
        0x31 => Opcode { mnemonic_fmt: "sll (ix+$", mnemonic_tail: "), c", cycles: (23, 0), pre_len: 2, op_len: 1, arg_len: 1, group: InsnGroup::Regular },
        0x32 => Opcode { mnemonic_fmt: "sll (ix+$", mnemonic_tail: "), d", cycles: (23, 0), pre_len: 2, op_len: 1, arg_len: 1, group: InsnGroup::Regular },
        0x33 => Opcode { mnemonic_fmt: "sll (ix+$", mnemonic_tail: "), e", cycles: (23, 0), pre_len: 2, op_len: 1, arg_len: 1, group: InsnGroup::Regular },
        0x34 => Opcode { mnemonic_fmt: "sll (ix+$", mnemonic_tail: "), h", cycles: (23, 0), pre_len: 2, op_len: 1, arg_len: 1, group: InsnGroup::Regular },
        0x35 => Opcode { mnemonic_fmt: "sll (ix+$", mnemonic_tail: "), l", cycles: (23, 0), pre_len: 2, op_len: 1, arg_len: 1, group: InsnGroup::Regular },
        0x36 => Opcode { mnemonic_fmt: "sll (ix+$", mnemonic_tail: ")", cycles: (23, 0), pre_len: 2, op_len: 1, arg_len: 1, group: InsnGroup::Regular },
        0x37 => Opcode { mnemonic_fmt: "sll (ix+$", mnemonic_tail: "), a", cycles: (23, 0), pre_len: 2, op_len: 1, arg_len: 1, group: InsnGroup::Regular },
        0x38 => Opcode { mnemonic_fmt: "srl (ix+$", mnemonic_tail: "), b", cycles: (23, 0), pre_len: 2, op_len: 1, arg_len: 1, group: InsnGroup::Regular },
        0x39 => Opcode { mnemonic_fmt: "srl (ix+$", mnemonic_tail: "), c", cycles: (23, 0), pre_len: 2, op_len: 1, arg_len: 1, group: InsnGroup::Regular },
        0x3A => Opcode { mnemonic_fmt: "srl (ix+$", mnemonic_tail: "), d", cycles: (23, 0), pre_len: 2, op_len: 1, arg_len: 1, group: InsnGroup::Regular },
        0x3B => Opcode { mnemonic_fmt: "srl (ix+$", mnemonic_tail: "), e", cycles: (23, 0), pre_len: 2, op_len: 1, arg_len: 1, group: InsnGroup::Regular },
        0x3C => Opcode { mnemonic_fmt: "srl (ix+$", mnemonic_tail: "), h", cycles: (23, 0), pre_len: 2, op_len: 1, arg_len: 1, group: InsnGroup::Regular },
        0x3D => Opcode { mnemonic_fmt: "srl (ix+$", mnemonic_tail: "), l", cycles: (23, 0), pre_len: 2, op_len: 1, arg_len: 1, group: InsnGroup::Regular },
        0x3E => Opcode { mnemonic_fmt: "srl (ix+$", mnemonic_tail: ")", cycles: (23, 0), pre_len: 2, op_len: 1, arg_len: 1, group: InsnGroup::Regular },
        0x3F => Opcode { mnemonic_fmt: "srl (ix+$", mnemonic_tail: "), a", cycles: (23, 0), pre_len: 2, op_len: 1, arg_len: 1, group: InsnGroup::Regular },
        0x40 => Opcode { mnemonic_fmt: "bit 0, (ix+$", mnemonic_tail: ")", cycles: (20, 0), pre_len: 2, op_len: 1, arg_len: 1, group: InsnGroup::Regular },
        0x41 => Opcode { mnemonic_fmt: "bit 0, (ix+$", mnemonic_tail: ")", cycles: (20, 0), pre_len: 2, op_len: 1, arg_len: 1, group: InsnGroup::Regular },
        0x42 => Opcode { mnemonic_fmt: "bit 0, (ix+$", mnemonic_tail: ")", cycles: (20, 0), pre_len: 2, op_len: 1, arg_len: 1, group: InsnGroup::Regular },
        0x43 => Opcode { mnemonic_fmt: "bit 0, (ix+$", mnemonic_tail: ")", cycles: (20, 0), pre_len: 2, op_len: 1, arg_len: 1, group: InsnGroup::Regular },
        0x44 => Opcode { mnemonic_fmt: "bit 0, (ix+$", mnemonic_tail: ")", cycles: (20, 0), pre_len: 2, op_len: 1, arg_len: 1, group: InsnGroup::Regular },
        0x45 => Opcode { mnemonic_fmt: "bit 0, (ix+$", mnemonic_tail: ")", cycles: (20, 0), pre_len: 2, op_len: 1, arg_len: 1, group: InsnGroup::Regular },
        0x46 => Opcode { mnemonic_fmt: "bit 0, (ix+$", mnemonic_tail: ")", cycles: (20, 0), pre_len: 2, op_len: 1, arg_len: 1, group: InsnGroup::Regular },
        0x47 => Opcode { mnemonic_fmt: "bit 0, (ix+$", mnemonic_tail: ")", cycles: (20, 0), pre_len: 2, op_len: 1, arg_len: 1, group: InsnGroup::Regular },
        0x48 => Opcode { mnemonic_fmt: "bit 1, (ix+$", mnemonic_tail: ")", cycles: (20, 0), pre_len: 2, op_len: 1, arg_len: 1, group: InsnGroup::Regular },
        0x49 => Opcode { mnemonic_fmt: "bit 1, (ix+$", mnemonic_tail: ")", cycles: (20, 0), pre_len: 2, op_len: 1, arg_len: 1, group: InsnGroup::Regular },
        0x4A => Opcode { mnemonic_fmt: "bit 1, (ix+$", mnemonic_tail: ")", cycles: (20, 0), pre_len: 2, op_len: 1, arg_len: 1, group: InsnGroup::Regular },
        0x4B => Opcode { mnemonic_fmt: "bit 1, (ix+$", mnemonic_tail: ")", cycles: (20, 0), pre_len: 2, op_len: 1, arg_len: 1, group: InsnGroup::Regular },
        0x4C => Opcode { mnemonic_fmt: "bit 1, (ix+$", mnemonic_tail: ")", cycles: (20, 0), pre_len: 2, op_len: 1, arg_len: 1, group: InsnGroup::Regular },
        0x4D => Opcode { mnemonic_fmt: "bit 1, (ix+$", mnemonic_tail: ")", cycles: (20, 0), pre_len: 2, op_len: 1, arg_len: 1, group: InsnGroup::Regular },
        0x4E => Opcode { mnemonic_fmt: "bit 1, (ix+$", mnemonic_tail: ")", cycles: (20, 0), pre_len: 2, op_len: 1, arg_len: 1, group: InsnGroup::Regular },
        0x4F => Opcode { mnemonic_fmt: "bit 1, (ix+$", mnemonic_tail: ")", cycles: (20, 0), pre_len: 2, op_len: 1, arg_len: 1, group: InsnGroup::Regular },
        0x50 => Opcode { mnemonic_fmt: "bit 2, (ix+$", mnemonic_tail: ")", cycles: (20, 0), pre_len: 2, op_len: 1, arg_len: 1, group: InsnGroup::Regular },
        0x51 => Opcode { mnemonic_fmt: "bit 2, (ix+$", mnemonic_tail: ")", cycles: (20, 0), pre_len: 2, op_len: 1, arg_len: 1, group: InsnGroup::Regular },
        0x52 => Opcode { mnemonic_fmt: "bit 2, (ix+$", mnemonic_tail: ")", cycles: (20, 0), pre_len: 2, op_len: 1, arg_len: 1, group: InsnGroup::Regular },
        0x53 => Opcode { mnemonic_fmt: "bit 2, (ix+$", mnemonic_tail: ")", cycles: (20, 0), pre_len: 2, op_len: 1, arg_len: 1, group: InsnGroup::Regular },
        0x54 => Opcode { mnemonic_fmt: "bit 2, (ix+$", mnemonic_tail: ")", cycles: (20, 0), pre_len: 2, op_len: 1, arg_len: 1, group: InsnGroup::Regular },
        0x55 => Opcode { mnemonic_fmt: "bit 2, (ix+$", mnemonic_tail: ")", cycles: (20, 0), pre_len: 2, op_len: 1, arg_len: 1, group: InsnGroup::Regular },
        0x56 => Opcode { mnemonic_fmt: "bit 2, (ix+$", mnemonic_tail: ")", cycles: (20, 0), pre_len: 2, op_len: 1, arg_len: 1, group: InsnGroup::Regular },
        0x57 => Opcode { mnemonic_fmt: "bit 2, (ix+$", mnemonic_tail: ")", cycles: (20, 0), pre_len: 2, op_len: 1, arg_len: 1, group: InsnGroup::Regular },
        0x58 => Opcode { mnemonic_fmt: "bit 3, (ix+$", mnemonic_tail: ")", cycles: (20, 0), pre_len: 2, op_len: 1, arg_len: 1, group: InsnGroup::Regular },
        0x59 => Opcode { mnemonic_fmt: "bit 3, (ix+$", mnemonic_tail: ")", cycles: (20, 0), pre_len: 2, op_len: 1, arg_len: 1, group: InsnGroup::Regular },
        0x5A => Opcode { mnemonic_fmt: "bit 3, (ix+$", mnemonic_tail: ")", cycles: (20, 0), pre_len: 2, op_len: 1, arg_len: 1, group: InsnGroup::Regular },
        0x5B => Opcode { mnemonic_fmt: "bit 3, (ix+$", mnemonic_tail: ")", cycles: (20, 0), pre_len: 2, op_len: 1, arg_len: 1, group: InsnGroup::Regular },
        0x5C => Opcode { mnemonic_fmt: "bit 3, (ix+$", mnemonic_tail: ")", cycles: (20, 0), pre_len: 2, op_len: 1, arg_len: 1, group: InsnGroup::Regular },
        0x5D => Opcode { mnemonic_fmt: "bit 3, (ix+$", mnemonic_tail: ")", cycles: (20, 0), pre_len: 2, op_len: 1, arg_len: 1, group: InsnGroup::Regular },
        0x5E => Opcode { mnemonic_fmt: "bit 3, (ix+$", mnemonic_tail: ")", cycles: (20, 0), pre_len: 2, op_len: 1, arg_len: 1, group: InsnGroup::Regular },
        0x5F => Opcode { mnemonic_fmt: "bit 3, (ix+$", mnemonic_tail: ")", cycles: (20, 0), pre_len: 2, op_len: 1, arg_len: 1, group: InsnGroup::Regular },
        0x60 => Opcode { mnemonic_fmt: "bit 4, (ix+$", mnemonic_tail: ")", cycles: (20, 0), pre_len: 2, op_len: 1, arg_len: 1, group: InsnGroup::Regular },
        0x61 => Opcode { mnemonic_fmt: "bit 4, (ix+$", mnemonic_tail: ")", cycles: (20, 0), pre_len: 2, op_len: 1, arg_len: 1, group: InsnGroup::Regular },
        0x62 => Opcode { mnemonic_fmt: "bit 4, (ix+$", mnemonic_tail: ")", cycles: (20, 0), pre_len: 2, op_len: 1, arg_len: 1, group: InsnGroup::Regular },
        0x63 => Opcode { mnemonic_fmt: "bit 4, (ix+$", mnemonic_tail: ")", cycles: (20, 0), pre_len: 2, op_len: 1, arg_len: 1, group: InsnGroup::Regular },
        0x64 => Opcode { mnemonic_fmt: "bit 4, (ix+$", mnemonic_tail: ")", cycles: (20, 0), pre_len: 2, op_len: 1, arg_len: 1, group: InsnGroup::Regular },
        0x65 => Opcode { mnemonic_fmt: "bit 4, (ix+$", mnemonic_tail: ")", cycles: (20, 0), pre_len: 2, op_len: 1, arg_len: 1, group: InsnGroup::Regular },
        0x66 => Opcode { mnemonic_fmt: "bit 4, (ix+$", mnemonic_tail: ")", cycles: (20, 0), pre_len: 2, op_len: 1, arg_len: 1, group: InsnGroup::Regular },
        0x67 => Opcode { mnemonic_fmt: "bit 4, (ix+$", mnemonic_tail: ")", cycles: (20, 0), pre_len: 2, op_len: 1, arg_len: 1, group: InsnGroup::Regular },
        0x68 => Opcode { mnemonic_fmt: "bit 5, (ix+$", mnemonic_tail: ")", cycles: (20, 0), pre_len: 2, op_len: 1, arg_len: 1, group: InsnGroup::Regular },
        0x69 => Opcode { mnemonic_fmt: "bit 5, (ix+$", mnemonic_tail: ")", cycles: (20, 0), pre_len: 2, op_len: 1, arg_len: 1, group: InsnGroup::Regular },
        0x6A => Opcode { mnemonic_fmt: "bit 5, (ix+$", mnemonic_tail: ")", cycles: (20, 0), pre_len: 2, op_len: 1, arg_len: 1, group: InsnGroup::Regular },
        0x6B => Opcode { mnemonic_fmt: "bit 5, (ix+$", mnemonic_tail: ")", cycles: (20, 0), pre_len: 2, op_len: 1, arg_len: 1, group: InsnGroup::Regular },
        0x6C => Opcode { mnemonic_fmt: "bit 5, (ix+$", mnemonic_tail: ")", cycles: (20, 0), pre_len: 2, op_len: 1, arg_len: 1, group: InsnGroup::Regular },
        0x6D => Opcode { mnemonic_fmt: "bit 5, (ix+$", mnemonic_tail: ")", cycles: (20, 0), pre_len: 2, op_len: 1, arg_len: 1, group: InsnGroup::Regular },
        0x6E => Opcode { mnemonic_fmt: "bit 5, (ix+$", mnemonic_tail: ")", cycles: (20, 0), pre_len: 2, op_len: 1, arg_len: 1, group: InsnGroup::Regular },
        0x6F => Opcode { mnemonic_fmt: "bit 5, (ix+$", mnemonic_tail: ")", cycles: (20, 0), pre_len: 2, op_len: 1, arg_len: 1, group: InsnGroup::Regular },
        0x70 => Opcode { mnemonic_fmt: "bit 6, (ix+$", mnemonic_tail: ")", cycles: (20, 0), pre_len: 2, op_len: 1, arg_len: 1, group: InsnGroup::Regular },
        0x71 => Opcode { mnemonic_fmt: "bit 6, (ix+$", mnemonic_tail: ")", cycles: (20, 0), pre_len: 2, op_len: 1, arg_len: 1, group: InsnGroup::Regular },
        0x72 => Opcode { mnemonic_fmt: "bit 6, (ix+$", mnemonic_tail: ")", cycles: (20, 0), pre_len: 2, op_len: 1, arg_len: 1, group: InsnGroup::Regular },
        0x73 => Opcode { mnemonic_fmt: "bit 6, (ix+$", mnemonic_tail: ")", cycles: (20, 0), pre_len: 2, op_len: 1, arg_len: 1, group: InsnGroup::Regular },
        0x74 => Opcode { mnemonic_fmt: "bit 6, (ix+$", mnemonic_tail: ")", cycles: (20, 0), pre_len: 2, op_len: 1, arg_len: 1, group: InsnGroup::Regular },
        0x75 => Opcode { mnemonic_fmt: "bit 6, (ix+$", mnemonic_tail: ")", cycles: (20, 0), pre_len: 2, op_len: 1, arg_len: 1, group: InsnGroup::Regular },
        0x76 => Opcode { mnemonic_fmt: "bit 6, (ix+$", mnemonic_tail: ")", cycles: (20, 0), pre_len: 2, op_len: 1, arg_len: 1, group: InsnGroup::Regular },
        0x77 => Opcode { mnemonic_fmt: "bit 6, (ix+$", mnemonic_tail: ")", cycles: (20, 0), pre_len: 2, op_len: 1, arg_len: 1, group: InsnGroup::Regular },
        0x78 => Opcode { mnemonic_fmt: "bit 7, (ix+$", mnemonic_tail: ")", cycles: (20, 0), pre_len: 2, op_len: 1, arg_len: 1, group: InsnGroup::Regular },
        0x79 => Opcode { mnemonic_fmt: "bit 7, (ix+$", mnemonic_tail: ")", cycles: (20, 0), pre_len: 2, op_len: 1, arg_len: 1, group: InsnGroup::Regular },
        0x7A => Opcode { mnemonic_fmt: "bit 7, (ix+$", mnemonic_tail: ")", cycles: (20, 0), pre_len: 2, op_len: 1, arg_len: 1, group: InsnGroup::Regular },
        0x7B => Opcode { mnemonic_fmt: "bit 7, (ix+$", mnemonic_tail: ")", cycles: (20, 0), pre_len: 2, op_len: 1, arg_len: 1, group: InsnGroup::Regular },
        0x7C => Opcode { mnemonic_fmt: "bit 7, (ix+$", mnemonic_tail: ")", cycles: (20, 0), pre_len: 2, op_len: 1, arg_len: 1, group: InsnGroup::Regular },
        0x7D => Opcode { mnemonic_fmt: "bit 7, (ix+$", mnemonic_tail: ")", cycles: (20, 0), pre_len: 2, op_len: 1, arg_len: 1, group: InsnGroup::Regular },
        0x7E => Opcode { mnemonic_fmt: "bit 7, (ix+$", mnemonic_tail: ")", cycles: (20, 0), pre_len: 2, op_len: 1, arg_len: 1, group: InsnGroup::Regular },
        0x7F => Opcode { mnemonic_fmt: "bit 7, (ix+$", mnemonic_tail: ")", cycles: (20, 0), pre_len: 2, op_len: 1, arg_len: 1, group: InsnGroup::Regular },
        0x80 => Opcode { mnemonic_fmt: "res 0, (ix+$", mnemonic_tail: "), b", cycles: (23, 0), pre_len: 2, op_len: 1, arg_len: 1, group: InsnGroup::Regular },
        0x81 => Opcode { mnemonic_fmt: "res 0, (ix+$", mnemonic_tail: "), c", cycles: (23, 0), pre_len: 2, op_len: 1, arg_len: 1, group: InsnGroup::Regular },
        0x82 => Opcode { mnemonic_fmt: "res 0, (ix+$", mnemonic_tail: "), d", cycles: (23, 0), pre_len: 2, op_len: 1, arg_len: 1, group: InsnGroup::Regular },
        0x83 => Opcode { mnemonic_fmt: "res 0, (ix+$", mnemonic_tail: "), e", cycles: (23, 0), pre_len: 2, op_len: 1, arg_len: 1, group: InsnGroup::Regular },
        0x84 => Opcode { mnemonic_fmt: "res 0, (ix+$", mnemonic_tail: "), h", cycles: (23, 0), pre_len: 2, op_len: 1, arg_len: 1, group: InsnGroup::Regular },
        0x85 => Opcode { mnemonic_fmt: "res 0, (ix+$", mnemonic_tail: "), l", cycles: (23, 0), pre_len: 2, op_len: 1, arg_len: 1, group: InsnGroup::Regular },
        0x86 => Opcode { mnemonic_fmt: "res 0, (ix+$", mnemonic_tail: ")", cycles: (23, 0), pre_len: 2, op_len: 1, arg_len: 1, group: InsnGroup::Regular },
        0x87 => Opcode { mnemonic_fmt: "res 0, (ix+$", mnemonic_tail: "), a", cycles: (23, 0), pre_len: 2, op_len: 1, arg_len: 1, group: InsnGroup::Regular },
        0x88 => Opcode { mnemonic_fmt: "res 1, (ix+$", mnemonic_tail: "), b", cycles: (23, 0), pre_len: 2, op_len: 1, arg_len: 1, group: InsnGroup::Regular },
        0x89 => Opcode { mnemonic_fmt: "res 1, (ix+$", mnemonic_tail: "), c", cycles: (23, 0), pre_len: 2, op_len: 1, arg_len: 1, group: InsnGroup::Regular },
        0x8A => Opcode { mnemonic_fmt: "res 1, (ix+$", mnemonic_tail: "), d", cycles: (23, 0), pre_len: 2, op_len: 1, arg_len: 1, group: InsnGroup::Regular },
        0x8B => Opcode { mnemonic_fmt: "res 1, (ix+$", mnemonic_tail: "), e", cycles: (23, 0), pre_len: 2, op_len: 1, arg_len: 1, group: InsnGroup::Regular },
        0x8C => Opcode { mnemonic_fmt: "res 1, (ix+$", mnemonic_tail: "), h", cycles: (23, 0), pre_len: 2, op_len: 1, arg_len: 1, group: InsnGroup::Regular },
        0x8D => Opcode { mnemonic_fmt: "res 1, (ix+$", mnemonic_tail: "), l", cycles: (23, 0), pre_len: 2, op_len: 1, arg_len: 1, group: InsnGroup::Regular },
        0x8E => Opcode { mnemonic_fmt: "res 1, (ix+$", mnemonic_tail: ")", cycles: (23, 0), pre_len: 2, op_len: 1, arg_len: 1, group: InsnGroup::Regular },
        0x8F => Opcode { mnemonic_fmt: "res 1, (ix+$", mnemonic_tail: "), a", cycles: (23, 0), pre_len: 2, op_len: 1, arg_len: 1, group: InsnGroup::Regular },
        0x90 => Opcode { mnemonic_fmt: "res 2, (ix+$", mnemonic_tail: "), b", cycles: (23, 0), pre_len: 2, op_len: 1, arg_len: 1, group: InsnGroup::Regular },
        0x91 => Opcode { mnemonic_fmt: "res 2, (ix+$", mnemonic_tail: "), c", cycles: (23, 0), pre_len: 2, op_len: 1, arg_len: 1, group: InsnGroup::Regular },
        0x92 => Opcode { mnemonic_fmt: "res 2, (ix+$", mnemonic_tail: "), d", cycles: (23, 0), pre_len: 2, op_len: 1, arg_len: 1, group: InsnGroup::Regular },
        0x93 => Opcode { mnemonic_fmt: "res 2, (ix+$", mnemonic_tail: "), e", cycles: (23, 0), pre_len: 2, op_len: 1, arg_len: 1, group: InsnGroup::Regular },
        0x94 => Opcode { mnemonic_fmt: "res 2, (ix+$", mnemonic_tail: "), h", cycles: (23, 0), pre_len: 2, op_len: 1, arg_len: 1, group: InsnGroup::Regular },
        0x95 => Opcode { mnemonic_fmt: "res 2, (ix+$", mnemonic_tail: "), l", cycles: (23, 0), pre_len: 2, op_len: 1, arg_len: 1, group: InsnGroup::Regular },
        0x96 => Opcode { mnemonic_fmt: "res 2, (ix+$", mnemonic_tail: ")", cycles: (23, 0), pre_len: 2, op_len: 1, arg_len: 1, group: InsnGroup::Regular },
        0x97 => Opcode { mnemonic_fmt: "res 2, (ix+$", mnemonic_tail: "), a", cycles: (23, 0), pre_len: 2, op_len: 1, arg_len: 1, group: InsnGroup::Regular },
        0x98 => Opcode { mnemonic_fmt: "res 3, (ix+$", mnemonic_tail: "), b", cycles: (23, 0), pre_len: 2, op_len: 1, arg_len: 1, group: InsnGroup::Regular },
        0x99 => Opcode { mnemonic_fmt: "res 3, (ix+$", mnemonic_tail: "), c", cycles: (23, 0), pre_len: 2, op_len: 1, arg_len: 1, group: InsnGroup::Regular },
        0x9A => Opcode { mnemonic_fmt: "res 3, (ix+$", mnemonic_tail: "), d", cycles: (23, 0), pre_len: 2, op_len: 1, arg_len: 1, group: InsnGroup::Regular },
        0x9B => Opcode { mnemonic_fmt: "res 3, (ix+$", mnemonic_tail: "), e", cycles: (23, 0), pre_len: 2, op_len: 1, arg_len: 1, group: InsnGroup::Regular },
        0x9C => Opcode { mnemonic_fmt: "res 3, (ix+$", mnemonic_tail: "), h", cycles: (23, 0), pre_len: 2, op_len: 1, arg_len: 1, group: InsnGroup::Regular },
        0x9D => Opcode { mnemonic_fmt: "res 3, (ix+$", mnemonic_tail: "), l", cycles: (23, 0), pre_len: 2, op_len: 1, arg_len: 1, group: InsnGroup::Regular },
        0x9E => Opcode { mnemonic_fmt: "res 3, (ix+$", mnemonic_tail: ")", cycles: (23, 0), pre_len: 2, op_len: 1, arg_len: 1, group: InsnGroup::Regular },
        0x9F => Opcode { mnemonic_fmt: "res 3, (ix+$", mnemonic_tail: "), a", cycles: (23, 0), pre_len: 2, op_len: 1, arg_len: 1, group: InsnGroup::Regular },
        0xA0 => Opcode { mnemonic_fmt: "res 4, (ix+$", mnemonic_tail: "), b", cycles: (23, 0), pre_len: 2, op_len: 1, arg_len: 1, group: InsnGroup::Regular },
        0xA1 => Opcode { mnemonic_fmt: "res 4, (ix+$", mnemonic_tail: "), c", cycles: (23, 0), pre_len: 2, op_len: 1, arg_len: 1, group: InsnGroup::Regular },
        0xA2 => Opcode { mnemonic_fmt: "res 4, (ix+$", mnemonic_tail: "), d", cycles: (23, 0), pre_len: 2, op_len: 1, arg_len: 1, group: InsnGroup::Regular },
        0xA3 => Opcode { mnemonic_fmt: "res 4, (ix+$", mnemonic_tail: "), e", cycles: (23, 0), pre_len: 2, op_len: 1, arg_len: 1, group: InsnGroup::Regular },
        0xA4 => Opcode { mnemonic_fmt: "res 4, (ix+$", mnemonic_tail: "), h", cycles: (23, 0), pre_len: 2, op_len: 1, arg_len: 1, group: InsnGroup::Regular },
        0xA5 => Opcode { mnemonic_fmt: "res 4, (ix+$", mnemonic_tail: "), l", cycles: (23, 0), pre_len: 2, op_len: 1, arg_len: 1, group: InsnGroup::Regular },
        0xA6 => Opcode { mnemonic_fmt: "res 4, (ix+$", mnemonic_tail: ")", cycles: (23, 0), pre_len: 2, op_len: 1, arg_len: 1, group: InsnGroup::Regular },
        0xA7 => Opcode { mnemonic_fmt: "res 4, (ix+$", mnemonic_tail: "), a", cycles: (23, 0), pre_len: 2, op_len: 1, arg_len: 1, group: InsnGroup::Regular },
        0xA8 => Opcode { mnemonic_fmt: "res 5, (ix+$", mnemonic_tail: "), b", cycles: (23, 0), pre_len: 2, op_len: 1, arg_len: 1, group: InsnGroup::Regular },
        0xA9 => Opcode { mnemonic_fmt: "res 5, (ix+$", mnemonic_tail: "), c", cycles: (23, 0), pre_len: 2, op_len: 1, arg_len: 1, group: InsnGroup::Regular },
        0xAA => Opcode { mnemonic_fmt: "res 5, (ix+$", mnemonic_tail: "), d", cycles: (23, 0), pre_len: 2, op_len: 1, arg_len: 1, group: InsnGroup::Regular },
        0xAB => Opcode { mnemonic_fmt: "res 5, (ix+$", mnemonic_tail: "), e", cycles: (23, 0), pre_len: 2, op_len: 1, arg_len: 1, group: InsnGroup::Regular },
        0xAC => Opcode { mnemonic_fmt: "res 5, (ix+$", mnemonic_tail: "), h", cycles: (23, 0), pre_len: 2, op_len: 1, arg_len: 1, group: InsnGroup::Regular },
        0xAD => Opcode { mnemonic_fmt: "res 5, (ix+$", mnemonic_tail: "), l", cycles: (23, 0), pre_len: 2, op_len: 1, arg_len: 1, group: InsnGroup::Regular },
        0xAE => Opcode { mnemonic_fmt: "res 5, (ix+$", mnemonic_tail: ")", cycles: (23, 0), pre_len: 2, op_len: 1, arg_len: 1, group: InsnGroup::Regular },
        0xAF => Opcode { mnemonic_fmt: "res 5, (ix+$", mnemonic_tail: "), a", cycles: (23, 0), pre_len: 2, op_len: 1, arg_len: 1, group: InsnGroup::Regular },
        0xB0 => Opcode { mnemonic_fmt: "res 6, (ix+$", mnemonic_tail: "), b", cycles: (23, 0), pre_len: 2, op_len: 1, arg_len: 1, group: InsnGroup::Regular },
        0xB1 => Opcode { mnemonic_fmt: "res 6, (ix+$", mnemonic_tail: "), c", cycles: (23, 0), pre_len: 2, op_len: 1, arg_len: 1, group: InsnGroup::Regular },
        0xB2 => Opcode { mnemonic_fmt: "res 6, (ix+$", mnemonic_tail: "), d", cycles: (23, 0), pre_len: 2, op_len: 1, arg_len: 1, group: InsnGroup::Regular },
        0xB3 => Opcode { mnemonic_fmt: "res 6, (ix+$", mnemonic_tail: "), e", cycles: (23, 0), pre_len: 2, op_len: 1, arg_len: 1, group: InsnGroup::Regular },
        0xB4 => Opcode { mnemonic_fmt: "res 6, (ix+$", mnemonic_tail: "), h", cycles: (23, 0), pre_len: 2, op_len: 1, arg_len: 1, group: InsnGroup::Regular },
        0xB5 => Opcode { mnemonic_fmt: "res 6, (ix+$", mnemonic_tail: "), l", cycles: (23, 0), pre_len: 2, op_len: 1, arg_len: 1, group: InsnGroup::Regular },
        0xB6 => Opcode { mnemonic_fmt: "res 6, (ix+$", mnemonic_tail: ")", cycles: (23, 0), pre_len: 2, op_len: 1, arg_len: 1, group: InsnGroup::Regular },
        0xB7 => Opcode { mnemonic_fmt: "res 6, (ix+$", mnemonic_tail: "), a", cycles: (23, 0), pre_len: 2, op_len: 1, arg_len: 1, group: InsnGroup::Regular },
        0xB8 => Opcode { mnemonic_fmt: "res 7, (ix+$", mnemonic_tail: "), b", cycles: (23, 0), pre_len: 2, op_len: 1, arg_len: 1, group: InsnGroup::Regular },
        0xB9 => Opcode { mnemonic_fmt: "res 7, (ix+$", mnemonic_tail: "), c", cycles: (23, 0), pre_len: 2, op_len: 1, arg_len: 1, group: InsnGroup::Regular },
        0xBA => Opcode { mnemonic_fmt: "res 7, (ix+$", mnemonic_tail: "), d", cycles: (23, 0), pre_len: 2, op_len: 1, arg_len: 1, group: InsnGroup::Regular },
        0xBB => Opcode { mnemonic_fmt: "res 7, (ix+$", mnemonic_tail: "), e", cycles: (23, 0), pre_len: 2, op_len: 1, arg_len: 1, group: InsnGroup::Regular },
        0xBC => Opcode { mnemonic_fmt: "res 7, (ix+$", mnemonic_tail: "), h", cycles: (23, 0), pre_len: 2, op_len: 1, arg_len: 1, group: InsnGroup::Regular },
        0xBD => Opcode { mnemonic_fmt: "res 7, (ix+$", mnemonic_tail: "), l", cycles: (23, 0), pre_len: 2, op_len: 1, arg_len: 1, group: InsnGroup::Regular },
        0xBE => Opcode { mnemonic_fmt: "res 7, (ix+$", mnemonic_tail: ")", cycles: (23, 0), pre_len: 2, op_len: 1, arg_len: 1, group: InsnGroup::Regular },
        0xBF => Opcode { mnemonic_fmt: "res 7, (ix+$", mnemonic_tail: "), a", cycles: (23, 0), pre_len: 2, op_len: 1, arg_len: 1, group: InsnGroup::Regular },
        0xC0 => Opcode { mnemonic_fmt: "set 0, (ix+$", mnemonic_tail: "), b", cycles: (23, 0), pre_len: 2, op_len: 1, arg_len: 1, group: InsnGroup::Regular },
        0xC1 => Opcode { mnemonic_fmt: "set 0, (ix+$", mnemonic_tail: "), c", cycles: (23, 0), pre_len: 2, op_len: 1, arg_len: 1, group: InsnGroup::Regular },
        0xC2 => Opcode { mnemonic_fmt: "set 0, (ix+$", mnemonic_tail: "), d", cycles: (23, 0), pre_len: 2, op_len: 1, arg_len: 1, group: InsnGroup::Regular },
        0xC3 => Opcode { mnemonic_fmt: "set 0, (ix+$", mnemonic_tail: "), e", cycles: (23, 0), pre_len: 2, op_len: 1, arg_len: 1, group: InsnGroup::Regular },
        0xC4 => Opcode { mnemonic_fmt: "set 0, (ix+$", mnemonic_tail: "), h", cycles: (23, 0), pre_len: 2, op_len: 1, arg_len: 1, group: InsnGroup::Regular },
        0xC5 => Opcode { mnemonic_fmt: "set 0, (ix+$", mnemonic_tail: "), l", cycles: (23, 0), pre_len: 2, op_len: 1, arg_len: 1, group: InsnGroup::Regular },
        0xC6 => Opcode { mnemonic_fmt: "set 0, (ix+$", mnemonic_tail: ")", cycles: (23, 0), pre_len: 2, op_len: 1, arg_len: 1, group: InsnGroup::Regular },
        0xC7 => Opcode { mnemonic_fmt: "set 0, (ix+$", mnemonic_tail: "), a", cycles: (23, 0), pre_len: 2, op_len: 1, arg_len: 1, group: InsnGroup::Regular },
        0xC8 => Opcode { mnemonic_fmt: "set 1, (ix+$", mnemonic_tail: "), b", cycles: (23, 0), pre_len: 2, op_len: 1, arg_len: 1, group: InsnGroup::Regular },
        0xC9 => Opcode { mnemonic_fmt: "set 1, (ix+$", mnemonic_tail: "), c", cycles: (23, 0), pre_len: 2, op_len: 1, arg_len: 1, group: InsnGroup::Regular },
        0xCA => Opcode { mnemonic_fmt: "set 1, (ix+$", mnemonic_tail: "), d", cycles: (23, 0), pre_len: 2, op_len: 1, arg_len: 1, group: InsnGroup::Regular },
        0xCB => Opcode { mnemonic_fmt: "set 1, (ix+$", mnemonic_tail: "), e", cycles: (23, 0), pre_len: 2, op_len: 1, arg_len: 1, group: InsnGroup::Regular },
        0xCC => Opcode { mnemonic_fmt: "set 1, (ix+$", mnemonic_tail: "), h", cycles: (23, 0), pre_len: 2, op_len: 1, arg_len: 1, group: InsnGroup::Regular },
        0xCD => Opcode { mnemonic_fmt: "set 1, (ix+$", mnemonic_tail: "), l", cycles: (23, 0), pre_len: 2, op_len: 1, arg_len: 1, group: InsnGroup::Regular },
        0xCE => Opcode { mnemonic_fmt: "set 1, (ix+$", mnemonic_tail: ")", cycles: (23, 0), pre_len: 2, op_len: 1, arg_len: 1, group: InsnGroup::Regular },
        0xCF => Opcode { mnemonic_fmt: "set 1, (ix+$", mnemonic_tail: "), a", cycles: (23, 0), pre_len: 2, op_len: 1, arg_len: 1, group: InsnGroup::Regular },
        0xD0 => Opcode { mnemonic_fmt: "set 2, (ix+$", mnemonic_tail: "), b", cycles: (23, 0), pre_len: 2, op_len: 1, arg_len: 1, group: InsnGroup::Regular },
        0xD1 => Opcode { mnemonic_fmt: "set 2, (ix+$", mnemonic_tail: "), c", cycles: (23, 0), pre_len: 2, op_len: 1, arg_len: 1, group: InsnGroup::Regular },
        0xD2 => Opcode { mnemonic_fmt: "set 2, (ix+$", mnemonic_tail: "), d", cycles: (23, 0), pre_len: 2, op_len: 1, arg_len: 1, group: InsnGroup::Regular },
        0xD3 => Opcode { mnemonic_fmt: "set 2, (ix+$", mnemonic_tail: "), e", cycles: (23, 0), pre_len: 2, op_len: 1, arg_len: 1, group: InsnGroup::Regular },
        0xD4 => Opcode { mnemonic_fmt: "set 2, (ix+$", mnemonic_tail: "), h", cycles: (23, 0), pre_len: 2, op_len: 1, arg_len: 1, group: InsnGroup::Regular },
        0xD5 => Opcode { mnemonic_fmt: "set 2, (ix+$", mnemonic_tail: "), l", cycles: (23, 0), pre_len: 2, op_len: 1, arg_len: 1, group: InsnGroup::Regular },
        0xD6 => Opcode { mnemonic_fmt: "set 2, (ix+$", mnemonic_tail: ")", cycles: (23, 0), pre_len: 2, op_len: 1, arg_len: 1, group: InsnGroup::Regular },
        0xD7 => Opcode { mnemonic_fmt: "set 2, (ix+$", mnemonic_tail: "), a", cycles: (23, 0), pre_len: 2, op_len: 1, arg_len: 1, group: InsnGroup::Regular },
        0xD8 => Opcode { mnemonic_fmt: "set 3, (ix+$", mnemonic_tail: "), b", cycles: (23, 0), pre_len: 2, op_len: 1, arg_len: 1, group: InsnGroup::Regular },
        0xD9 => Opcode { mnemonic_fmt: "set 3, (ix+$", mnemonic_tail: "), c", cycles: (23, 0), pre_len: 2, op_len: 1, arg_len: 1, group: InsnGroup::Regular },
        0xDA => Opcode { mnemonic_fmt: "set 3, (ix+$", mnemonic_tail: "), d", cycles: (23, 0), pre_len: 2, op_len: 1, arg_len: 1, group: InsnGroup::Regular },
        0xDB => Opcode { mnemonic_fmt: "set 3, (ix+$", mnemonic_tail: "), e", cycles: (23, 0), pre_len: 2, op_len: 1, arg_len: 1, group: InsnGroup::Regular },
        0xDC => Opcode { mnemonic_fmt: "set 3, (ix+$", mnemonic_tail: "), h", cycles: (23, 0), pre_len: 2, op_len: 1, arg_len: 1, group: InsnGroup::Regular },
        0xDD => Opcode { mnemonic_fmt: "set 3, (ix+$", mnemonic_tail: "), l", cycles: (23, 0), pre_len: 2, op_len: 1, arg_len: 1, group: InsnGroup::Regular },
        0xDE => Opcode { mnemonic_fmt: "set 3, (ix+$", mnemonic_tail: ")", cycles: (23, 0), pre_len: 2, op_len: 1, arg_len: 1, group: InsnGroup::Regular },
        0xDF => Opcode { mnemonic_fmt: "set 3, (ix+$", mnemonic_tail: "), a", cycles: (23, 0), pre_len: 2, op_len: 1, arg_len: 1, group: InsnGroup::Regular },
        0xE0 => Opcode { mnemonic_fmt: "set 4, (ix+$", mnemonic_tail: "), b", cycles: (23, 0), pre_len: 2, op_len: 1, arg_len: 1, group: InsnGroup::Regular },
        0xE1 => Opcode { mnemonic_fmt: "set 4, (ix+$", mnemonic_tail: "), c", cycles: (23, 0), pre_len: 2, op_len: 1, arg_len: 1, group: InsnGroup::Regular },
        0xE2 => Opcode { mnemonic_fmt: "set 4, (ix+$", mnemonic_tail: "), d", cycles: (23, 0), pre_len: 2, op_len: 1, arg_len: 1, group: InsnGroup::Regular },
        0xE3 => Opcode { mnemonic_fmt: "set 4, (ix+$", mnemonic_tail: "), e", cycles: (23, 0), pre_len: 2, op_len: 1, arg_len: 1, group: InsnGroup::Regular },
        0xE4 => Opcode { mnemonic_fmt: "set 4, (ix+$", mnemonic_tail: "), h", cycles: (23, 0), pre_len: 2, op_len: 1, arg_len: 1, group: InsnGroup::Regular },
        0xE5 => Opcode { mnemonic_fmt: "set 4, (ix+$", mnemonic_tail: "), l", cycles: (23, 0), pre_len: 2, op_len: 1, arg_len: 1, group: InsnGroup::Regular },
        0xE6 => Opcode { mnemonic_fmt: "set 4, (ix+$", mnemonic_tail: ")", cycles: (23, 0), pre_len: 2, op_len: 1, arg_len: 1, group: InsnGroup::Regular },
        0xE7 => Opcode { mnemonic_fmt: "set 4, (ix+$", mnemonic_tail: "), a", cycles: (23, 0), pre_len: 2, op_len: 1, arg_len: 1, group: InsnGroup::Regular },
        0xE8 => Opcode { mnemonic_fmt: "set 5, (ix+$", mnemonic_tail: "), b", cycles: (23, 0), pre_len: 2, op_len: 1, arg_len: 1, group: InsnGroup::Regular },
        0xE9 => Opcode { mnemonic_fmt: "set 5, (ix+$", mnemonic_tail: "), c", cycles: (23, 0), pre_len: 2, op_len: 1, arg_len: 1, group: InsnGroup::Regular },
        0xEA => Opcode { mnemonic_fmt: "set 5, (ix+$", mnemonic_tail: "), d", cycles: (23, 0), pre_len: 2, op_len: 1, arg_len: 1, group: InsnGroup::Regular },
        0xEB => Opcode { mnemonic_fmt: "set 5, (ix+$", mnemonic_tail: "), e", cycles: (23, 0), pre_len: 2, op_len: 1, arg_len: 1, group: InsnGroup::Regular },
        0xEC => Opcode { mnemonic_fmt: "set 5, (ix+$", mnemonic_tail: "), h", cycles: (23, 0), pre_len: 2, op_len: 1, arg_len: 1, group: InsnGroup::Regular },
        0xED => Opcode { mnemonic_fmt: "set 5, (ix+$", mnemonic_tail: "), l", cycles: (23, 0), pre_len: 2, op_len: 1, arg_len: 1, group: InsnGroup::Regular },
        0xEE => Opcode { mnemonic_fmt: "set 5, (ix+$", mnemonic_tail: ")", cycles: (23, 0), pre_len: 2, op_len: 1, arg_len: 1, group: InsnGroup::Regular },
        0xEF => Opcode { mnemonic_fmt: "set 5, (ix+$", mnemonic_tail: "), a", cycles: (23, 0), pre_len: 2, op_len: 1, arg_len: 1, group: InsnGroup::Regular },
        0xF0 => Opcode { mnemonic_fmt: "set 6, (ix+$", mnemonic_tail: "), b", cycles: (23, 0), pre_len: 2, op_len: 1, arg_len: 1, group: InsnGroup::Regular },
        0xF1 => Opcode { mnemonic_fmt: "set 6, (ix+$", mnemonic_tail: "), c", cycles: (23, 0), pre_len: 2, op_len: 1, arg_len: 1, group: InsnGroup::Regular },
        0xF2 => Opcode { mnemonic_fmt: "set 6, (ix+$", mnemonic_tail: "), d", cycles: (23, 0), pre_len: 2, op_len: 1, arg_len: 1, group: InsnGroup::Regular },
        0xF3 => Opcode { mnemonic_fmt: "set 6, (ix+$", mnemonic_tail: "), e", cycles: (23, 0), pre_len: 2, op_len: 1, arg_len: 1, group: InsnGroup::Regular },
        0xF4 => Opcode { mnemonic_fmt: "set 6, (ix+$", mnemonic_tail: "), h", cycles: (23, 0), pre_len: 2, op_len: 1, arg_len: 1, group: InsnGroup::Regular },
        0xF5 => Opcode { mnemonic_fmt: "set 6, (ix+$", mnemonic_tail: "), l", cycles: (23, 0), pre_len: 2, op_len: 1, arg_len: 1, group: InsnGroup::Regular },
        0xF6 => Opcode { mnemonic_fmt: "set 6, (ix+$", mnemonic_tail: ")", cycles: (23, 0), pre_len: 2, op_len: 1, arg_len: 1, group: InsnGroup::Regular },
        0xF7 => Opcode { mnemonic_fmt: "set 6, (ix+$", mnemonic_tail: "), a", cycles: (23, 0), pre_len: 2, op_len: 1, arg_len: 1, group: InsnGroup::Regular },
        0xF8 => Opcode { mnemonic_fmt: "set 7, (ix+$", mnemonic_tail: "), b", cycles: (23, 0), pre_len: 2, op_len: 1, arg_len: 1, group: InsnGroup::Regular },
        0xF9 => Opcode { mnemonic_fmt: "set 7, (ix+$", mnemonic_tail: "), c", cycles: (23, 0), pre_len: 2, op_len: 1, arg_len: 1, group: InsnGroup::Regular },
        0xFA => Opcode { mnemonic_fmt: "set 7, (ix+$", mnemonic_tail: "), d", cycles: (23, 0), pre_len: 2, op_len: 1, arg_len: 1, group: InsnGroup::Regular },
        0xFB => Opcode { mnemonic_fmt: "set 7, (ix+$", mnemonic_tail: "), e", cycles: (23, 0), pre_len: 2, op_len: 1, arg_len: 1, group: InsnGroup::Regular },
        0xFC => Opcode { mnemonic_fmt: "set 7, (ix+$", mnemonic_tail: "), h", cycles: (23, 0), pre_len: 2, op_len: 1, arg_len: 1, group: InsnGroup::Regular },
        0xFD => Opcode { mnemonic_fmt: "set 7, (ix+$", mnemonic_tail: "), l", cycles: (23, 0), pre_len: 2, op_len: 1, arg_len: 1, group: InsnGroup::Regular },
        0xFE => Opcode { mnemonic_fmt: "set 7, (ix+$", mnemonic_tail: ")", cycles: (23, 0), pre_len: 2, op_len: 1, arg_len: 1, group: InsnGroup::Regular },
        _ => Opcode { mnemonic_fmt: "set 7, (ix+$", mnemonic_tail: "), a", cycles: (23, 0), pre_len: 2, op_len: 1, arg_len: 1, group: InsnGroup::Regular },
    }
}

/// The table of the byte that ends a `0xFD 0xCB d op` sequence (IY bit operations), indexed by opcode byte.
pub open spec fn spec_fdcb(b: u8) -> Opcode {
    match b {
        0x00 => Opcode { mnemonic_fmt: "rlc (iy+$", mnemonic_tail: "), b", cycles: (23, 0), pre_len: 2, op_len: 1, arg_len: 1, group: InsnGroup::Regular },
        0x01 => Opcode { mnemonic_fmt: "rlc (iy+$", mnemonic_tail: "), c", cycles: (23, 0), pre_len: 2, op_len: 1, arg_len: 1, group: InsnGroup::Regular },
        0x02 => Opcode { mnemonic_fmt: "rlc (iy+$", mnemonic_tail: "), d", cycles: (23, 0), pre_len: 2, op_len: 1, arg_len: 1, group: InsnGroup::Regular },
        0x03 => Opcode { mnemonic_fmt: "rlc (iy+$", mnemonic_tail: "), e", cycles: (23, 0), pre_len: 2, op_len: 1, arg_len: 1, group: InsnGroup::Regular },
        0x04 => Opcode { mnemonic_fmt: "rlc (iy+$", mnemonic_tail: "), h", cycles: (23, 0), pre_len: 2, op_len: 1, arg_len: 1, group: InsnGroup::Regular },
        0x05 => Opcode { mnemonic_fmt: "rlc (iy+$", mnemonic_tail: "), l", cycles: (23, 0), pre_len: 2, op_len: 1, arg_len: 1, group: InsnGroup::Regular },
        0x06 => Opcode { mnemonic_fmt: "rlc (iy+$", mnemonic_tail: ")", cycles: (23, 0), pre_len: 2, op_len: 1, arg_len: 1, group: InsnGroup::Regular },
        0x07 => Opcode { mnemonic_fmt: "rlc (iy+$", mnemonic_tail: "), a", cycles: (23, 0), pre_len: 2, op_len: 1, arg_len: 1, group: InsnGroup::Regular },
        0x08 => Opcode { mnemonic_fmt: "rrc (iy+$", mnemonic_tail: "), b", cycles: (23, 0), pre_len: 2, op_len: 1, arg_len: 1, group: InsnGroup::Regular },
        0x09 => Opcode { mnemonic_fmt: "rrc (iy+$", mnemonic_tail: "), c", cycles: (23, 0), pre_len: 2, op_len: 1, arg_len: 1, group: InsnGroup::Regular },
        0x0A => Opcode { mnemonic_fmt: "rrc (iy+$", mnemonic_tail: "), d", cycles: (23, 0), pre_len: 2, op_len: 1, arg_len: 1, group: InsnGroup::Regular },
        0x0B => Opcode { mnemonic_fmt: "rrc (iy+$", mnemonic_tail: "), e", cycles: (23, 0), pre_len: 2, op_len: 1, arg_len: 1, group: InsnGroup::Regular },
        0x0C => Opcode { mnemonic_fmt: "rrc (iy+$", mnemonic_tail: "), h", cycles: (23, 0), pre_len: 2, op_len: 1, arg_len: 1, group: InsnGroup::Regular },
        0x0D => Opcode { mnemonic_fmt: "rrc (iy+$", mnemonic_tail: "), l", cycles: (23, 0), pre_len: 2, op_len: 1, arg_len: 1, group: InsnGroup::Regular },
        0x0E => Opcode { mnemonic_fmt: "rrc (iy+$", mnemonic_tail: ")", cycles: (23, 0), pre_len: 2, op_len: 1, arg_len: 1, group: InsnGroup::Regular },
        0x0F => Opcode { mnemonic_fmt: "rrc (iy+$", mnemonic_tail: "), a", cycles: (23, 0), pre_len: 2, op_len: 1, arg_len: 1, group: InsnGroup::Regular },
        0x10 => Opcode { mnemonic_fmt: "rl (iy+$", mnemonic_tail: "), b", cycles: (23, 0), pre_len: 2, op_len: 1, arg_len: 1, group: InsnGroup::Regular },
        0x11 => Opcode { mnemonic_fmt: "rl (iy+$", mnemonic_tail: "), c", cycles: (23, 0), pre_len: 2, op_len: 1, arg_len: 1, group: InsnGroup::Regular },
        0x12 => Opcode { mnemonic_fmt: "rl (iy+$", mnemonic_tail: "), d", cycles: (23, 0), pre_len: 2, op_len: 1, arg_len: 1, group: InsnGroup::Regular },
        0x13 => Opcode { mnemonic_fmt: "rl (iy+$", mnemonic_tail: "), e", cycles: (23, 0), pre_len: 2, op_len: 1, arg_len: 1, group: InsnGroup::Regular },
        0x14 => Opcode { mnemonic_fmt: "rl (iy+$", mnemonic_tail: "), h", cycles: (23, 0), pre_len: 2, op_len: 1, arg_len: 1, group: InsnGroup::Regular },
        0x15 => Opcode { mnemonic_fmt: "rl (iy+$", mnemonic_tail: "), l", cycles: (23, 0), pre_len: 2, op_len: 1, arg_len: 1, group: InsnGroup::Regular },
        0x16 => Opcode { mnemonic_fmt: "rl (iy+$", mnemonic_tail: ")", cycles: (23, 0), pre_len: 2, op_len: 1, arg_len: 1, group: InsnGroup::Regular },
        0x17 => Opcode { mnemonic_fmt: "rl (iy+$", mnemonic_tail: "), a", cycles: (23, 0), pre_len: 2, op_len: 1, arg_len: 1, group: InsnGroup::Regular },
        0x18 => Opcode { mnemonic_fmt: "rr (iy+$", mnemonic_tail: "), b", cycles: (23, 0), pre_len: 2, op_len: 1, arg_len: 1, group: InsnGroup::Regular },
        0x19 => Opcode { mnemonic_fmt: "rr (iy+$", mnemonic_tail: "), c", cycles: (23, 0), pre_len: 2, op_len: 1, arg_len: 1, group: InsnGroup::Regular },
        0x1A => Opcode { mnemonic_fmt: "rr (iy+$", mnemonic_tail: "), d", cycles: (23, 0), pre_len: 2, op_len: 1, arg_len: 1, group: InsnGroup::Regular },
        0x1B => Opcode { mnemonic_fmt: "rr (iy+$", mnemonic_tail: "), e", cycles: (23, 0), pre_len: 2, op_len: 1, arg_len: 1, group: InsnGroup::Regular },
        0x1C => Opcode { mnemonic_fmt: "rr (iy+$", mnemonic_tail: "), h", cycles: (23, 0), pre_len: 2, op_len: 1, arg_len: 1, group: InsnGroup::Regular },
        0x1D => Opcode { mnemonic_fmt: "rr (iy+$", mnemonic_tail: "), l", cycles: (23, 0), pre_len: 2, op_len: 1, arg_len: 1, group: InsnGroup::Regular },
        0x1E => Opcode { mnemonic_fmt: "rr (iy+$", mnemonic_tail: ")", cycles: (23, 0), pre_len: 2, op_len: 1, arg_len: 1, group: InsnGroup::Regular },
        0x1F => Opcode { mnemonic_fmt: "rr (iy+$", mnemonic_tail: "), a", cycles: (23, 0), pre_len: 2, op_len: 1, arg_len: 1, group: InsnGroup::Regular },
        0x20 => Opcode { mnemonic_fmt: "sla (iy+$", mnemonic_tail: "), b", cycles: (23, 0), pre_len: 2, op_len: 1, arg_len: 1, group: InsnGroup::Regular },
        0x21 => Opcode { mnemonic_fmt: "sla (iy+$", mnemonic_tail: "), c", cycles: (23, 0), pre_len: 2, op_len: 1, arg_len: 1, group: InsnGroup::Regular },
        0x22 => Opcode { mnemonic_fmt: "sla (iy+$", mnemonic_tail: "), d", cycles: (23, 0), pre_len: 2, op_len: 1, arg_len: 1, group: InsnGroup::Regular },
        0x23 => Opcode { mnemonic_fmt: "sla (iy+$", mnemonic_tail: "), e", cycles: (23, 0), pre_len: 2, op_len: 1, arg_len: 1, group: InsnGroup::Regular },
        0x24 => Opcode { mnemonic_fmt: "sla (iy+$", mnemonic_tail: "), h", cycles: (23, 0), pre_len: 2, op_len: 1, arg_len: 1, group: InsnGroup::Regular },
        0x25 => Opcode { mnemonic_fmt: "sla (iy+$", mnemonic_tail: "), l", cycles: (23, 0), pre_len: 2, op_len: 1, arg_len: 1, group: InsnGroup::Regular },
        0x26 => Opcode { mnemonic_fmt: "sla (iy+$", mnemonic_tail: ")", cycles: (23, 0), pre_len: 2, op_len: 1, arg_len: 1, group: InsnGroup::Regular },
        0x27 => Opcode { mnemonic_fmt: "sla (iy+$", mnemonic_tail: "), a", cycles: (23, 0), pre_len: 2, op_len: 1, arg_len: 1, group: InsnGroup::Regular },
        0x28 => Opcode { mnemonic_fmt: "sra (iy+$", mnemonic_tail: "), b", cycles: (23, 0), pre_len: 2, op_len: 1, arg_len: 1, group: InsnGroup::Regular },
        0x29 => Opcode { mnemonic_fmt: "sra (iy+$", mnemonic_tail: "), c", cycles: (23, 0), pre_len: 2, op_len: 1, arg_len: 1, group: InsnGroup::Regular },
        0x2A => Opcode { mnemonic_fmt: "sra (iy+$", mnemonic_tail: "), d", cycles: (23, 0), pre_len: 2, op_len: 1, arg_len: 1, group: InsnGroup::Regular },
        0x2B => Opcode { mnemonic_fmt: "sra (iy+$", mnemonic_tail: "), e", cycles: (23, 0), pre_len: 2, op_len: 1, arg_len: 1, group: InsnGroup::Regular },
        0x2C => Opcode { mnemonic_fmt: "sra (iy+$", mnemonic_tail: "), h", cycles: (23, 0), pre_len: 2, op_len: 1, arg_len: 1, group: InsnGroup::Regular },
        0x2D => Opcode { mnemonic_fmt: "sra (iy+$", mnemonic_tail: "), l", cycles: (23, 0), pre_len: 2, op_len: 1, arg_len: 1, group: InsnGroup::Regular },
        0x2E => Opcode { mnemonic_fmt: "sra (iy+$", mnemonic_tail: ")", cycles: (23, 0), pre_len: 2, op_len: 1, arg_len: 1, group: InsnGroup::Regular },
        0x2F => Opcode { mnemonic_fmt: "sra (iy+$", mnemonic_tail: "), a", cycles: (23, 0), pre_len: 2, op_len: 1, arg_len: 1, group: InsnGroup::Regular },
        0x30 => Opcode { mnemonic_fmt: "sll (iy+$", mnemonic_tail: "), b", cycles: (23, 0), pre_len: 2, op_len: 1, arg_len: 1, group: InsnGroup::Regular },
        0x31 => Opcode { mnemonic_fmt: "sll (iy+$", mnemonic_tail: "), c", cycles: (23, 0), pre_len: 2, op_len: 1, arg_len: 1, group: InsnGroup::Regular },
        0x32 => Opcode { mnemonic_fmt: "sll (iy+$", mnemonic_tail: "), d", cycles: (23, 0), pre_len: 2, op_len: 1, arg_len: 1, group: InsnGroup::Regular },
        0x33 => Opcode { mnemonic_fmt: "sll (iy+$", mnemonic_tail: "), e", cycles: (23, 0), pre_len: 2, op_len: 1, arg_len: 1, group: InsnGroup::Regular },
        0x34 => Opcode { mnemonic_fmt: "sll (iy+$", mnemonic_tail: "), h", cycles: (23, 0), pre_len: 2, op_len: 1, arg_len: 1, group: InsnGroup::Regular },
        0x35 => Opcode { mnemonic_fmt: "sll (iy+$", mnemonic_tail: "), l", cycles: (23, 0), pre_len: 2, op_len: 1, arg_len: 1, group: InsnGroup::Regular },
        0x36 => Opcode { mnemonic_fmt: "sll (iy+$", mnemonic_tail: ")", cycles: (23, 0), pre_len: 2, op_len: 1, arg_len: 1, group: InsnGroup::Regular },
        0x37 => Opcode { mnemonic_fmt: "sll (iy+$", mnemonic_tail: "), a", cycles: (23, 0), pre_len: 2, op_len: 1, arg_len: 1, group: InsnGroup::Regular },
        0x38 => Opcode { mnemonic_fmt: "srl (iy+$", mnemonic_tail: "), b", cycles: (23, 0), pre_len: 2, op_len: 1, arg_len: 1, group: InsnGroup::Regular },
        0x39 => Opcode { mnemonic_fmt: "srl (iy+$", mnemonic_tail: "), c", cycles: (23, 0), pre_len: 2, op_len: 1, arg_len: 1, group: InsnGroup::Regular },
        0x3A => Opcode { mnemonic_fmt: "srl (iy+$", mnemonic_tail: "), d", cycles: (23, 0), pre_len: 2, op_len: 1, arg_len: 1, group: InsnGroup::Regular },
        0x3B => Opcode { mnemonic_fmt: "srl (iy+$", mnemonic_tail: "), e", cycles: (23, 0), pre_len: 2, op_len: 1, arg_len: 1, group: InsnGroup::Regular },
        0x3C => Opcode { mnemonic_fmt: "srl (iy+$", mnemonic_tail: "), h", cycles: (23, 0), pre_len: 2, op_len: 1, arg_len: 1, group: InsnGroup::Regular },
        0x3D => Opcode { mnemonic_fmt: "srl (iy+$", mnemonic_tail: "), l", cycles: (23, 0), pre_len: 2, op_len: 1, arg_len: 1, group: InsnGroup::Regular },
        0x3E => Opcode { mnemonic_fmt: "srl (iy+$", mnemonic_tail: ")", cycles: (23, 0), pre_len: 2, op_len: 1, arg_len: 1, group: InsnGroup::Regular },
        0x3F => Opcode { mnemonic_fmt: "srl (iy+$", mnemonic_tail: "), a", cycles: (23, 0), pre_len: 2, op_len: 1, arg_len: 1, group: InsnGroup::Regular },
        0x40 => Opcode { mnemonic_fmt: "bit 0, (iy+$", mnemonic_tail: ")", cycles: (20, 0), pre_len: 2, op_len: 1, arg_len: 1, group: InsnGroup::Regular },
        0x41 => Opcode { mnemonic_fmt: "bit 0, (iy+$", mnemonic_tail: ")", cycles: (20, 0), pre_len: 2, op_len: 1, arg_len: 1, group: InsnGroup::Regular },
        0x42 => Opcode { mnemonic_fmt: "bit 0, (iy+$", mnemonic_tail: ")", cycles: (20, 0), pre_len: 2, op_len: 1, arg_len: 1, group: InsnGroup::Regular },
        0x43 => Opcode { mnemonic_fmt: "bit 0, (iy+$", mnemonic_tail: ")", cycles: (20, 0), pre_len: 2, op_len: 1, arg_len: 1, group: InsnGroup::Regular },
        0x44 => Opcode { mnemonic_fmt: "bit 0, (iy+$", mnemonic_tail: ")", cycles: (20, 0), pre_len: 2, op_len: 1, arg_len: 1, group: InsnGroup::Regular },
        0x45 => Opcode { mnemonic_fmt: "bit 0, (iy+$", mnemonic_tail: ")", cycles: (20, 0), pre_len: 2, op_len: 1, arg_len: 1, group: InsnGroup::Regular },
        0x46 => Opcode { mnemonic_fmt: "bit 0, (iy+$", mnemonic_tail: ")", cycles: (20, 0), pre_len: 2, op_len: 1, arg_len: 1, group: InsnGroup::Regular },
        0x47 => Opcode { mnemonic_fmt: "bit 0, (iy+$", mnemonic_tail: ")", cycles: (20, 0), pre_len: 2, op_len: 1, arg_len: 1, group: InsnGroup::Regular },
        0x48 => Opcode { mnemonic_fmt: "bit 1, (iy+$", mnemonic_tail: ")", cycles: (20, 0), pre_len: 2, op_len: 1, arg_len: 1, group: InsnGroup::Regular },
        0x49 => Opcode { mnemonic_fmt: "bit 1, (iy+$", mnemonic_tail: ")", cycles: (20, 0), pre_len: 2, op_len: 1, arg_len: 1, group: InsnGroup::Regular },
        0x4A => Opcode { mnemonic_fmt: "bit 1, (iy+$", mnemonic_tail: ")", cycles: (20, 0), pre_len: 2, op_len: 1, arg_len: 1, group: InsnGroup::Regular },
        0x4B => Opcode { mnemonic_fmt: "bit 1, (iy+$", mnemonic_tail: ")", cycles: (20, 0), pre_len: 2, op_len: 1, arg_len: 1, group: InsnGroup::Regular },
        0x4C => Opcode { mnemonic_fmt: "bit 1, (iy+$", mnemonic_tail: ")", cycles: (20, 0), pre_len: 2, op_len: 1, arg_len: 1, group: InsnGroup::Regular },
        0x4D => Opcode { mnemonic_fmt: "bit 1, (iy+$", mnemonic_tail: ")", cycles: (20, 0), pre_len: 2, op_len: 1, arg_len: 1, group: InsnGroup::Regular },
        0x4E => Opcode { mnemonic_fmt: "bit 1, (iy+$", mnemonic_tail: ")", cycles: (20, 0), pre_len: 2, op_len: 1, arg_len: 1, group: InsnGroup::Regular },
        0x4F => Opcode { mnemonic_fmt: "bit 1, (iy+$", mnemonic_tail: ")", cycles: (20, 0), pre_len: 2, op_len: 1, arg_len: 1, group: InsnGroup::Regular },
        0x50 => Opcode { mnemonic_fmt: "bit 2, (iy+$", mnemonic_tail: ")", cycles: (20, 0), pre_len: 2, op_len: 1, arg_len: 1, group: InsnGroup::Regular },
        0x51 => Opcode { mnemonic_fmt: "bit 2, (iy+$", mnemonic_tail: ")", cycles: (20, 0), pre_len: 2, op_len: 1, arg_len: 1, group: InsnGroup::Regular },
        0x52 => Opcode { mnemonic_fmt: "bit 2, (iy+$", mnemonic_tail: ")", cycles: (20, 0), pre_len: 2, op_len: 1, arg_len: 1, group: InsnGroup::Regular },
        0x53 => Opcode { mnemonic_fmt: "bit 2, (iy+$", mnemonic_tail: ")", cycles: (20, 0), pre_len: 2, op_len: 1, arg_len: 1, group: InsnGroup::Regular },
        0x54 => Opcode { mnemonic_fmt: "bit 2, (iy+$", mnemonic_tail: ")", cycles: (20, 0), pre_len: 2, op_len: 1, arg_len: 1, group: InsnGroup::Regular },
        0x55 => Opcode { mnemonic_fmt: "bit 2, (iy+$", mnemonic_tail: ")", cycles: (20, 0), pre_len: 2, op_len: 1, arg_len: 1, group: InsnGroup::Regular },
        0x56 => Opcode { mnemonic_fmt: "bit 2, (iy+$", mnemonic_tail: ")", cycles: (20, 0), pre_len: 2, op_len: 1, arg_len: 1, group: InsnGroup::Regular },
        0x57 => Opcode { mnemonic_fmt: "bit 2, (iy+$", mnemonic_tail: ")", cycles: (20, 0), pre_len: 2, op_len: 1, arg_len: 1, group: InsnGroup::Regular },
        0x58 => Opcode { mnemonic_fmt: "bit 3, (iy+$", mnemonic_tail: ")", cycles: (20, 0), pre_len: 2, op_len: 1, arg_len: 1, group: InsnGroup::Regular },
        0x59 => Opcode { mnemonic_fmt: "bit 3, (iy+$", mnemonic_tail: ")", cycles: (20, 0), pre_len: 2, op_len: 1, arg_len: 1, group: InsnGroup::Regular },
        0x5A => Opcode { mnemonic_fmt: "bit 3, (iy+$", mnemonic_tail: ")", cycles: (20, 0), pre_len: 2, op_len: 1, arg_len: 1, group: InsnGroup::Regular },
        0x5B => Opcode { mnemonic_fmt: "bit 3, (iy+$", mnemonic_tail: ")", cycles: (20, 0), pre_len: 2, op_len: 1, arg_len: 1, group: InsnGroup::Regular },
        0x5C => Opcode { mnemonic_fmt: "bit 3, (iy+$", mnemonic_tail: ")", cycles: (20, 0), pre_len: 2, op_len: 1, arg_len: 1, group: InsnGroup::Regular },
        0x5D => Opcode { mnemonic_fmt: "bit 3, (iy+$", mnemonic_tail: ")", cycles: (20, 0), pre_len: 2, op_len: 1, arg_len: 1, group: InsnGroup::Regular },
        0x5E => Opcode { mnemonic_fmt: "bit 3, (iy+$", mnemonic_tail: ")", cycles: (20, 0), pre_len: 2, op_len: 1, arg_len: 1, group: InsnGroup::Regular },
        0x5F => Opcode { mnemonic_fmt: "bit 3, (iy+$", mnemonic_tail: ")", cycles: (20, 0), pre_len: 2, op_len: 1, arg_len: 1, group: InsnGroup::Regular },
        0x60 => Opcode { mnemonic_fmt: "bit 4, (iy+$", mnemonic_tail: ")", cycles: (20, 0), pre_len: 2, op_len: 1, arg_len: 1, group: InsnGroup::Regular },
        0x61 => Opcode { mnemonic_fmt: "bit 4, (iy+$", mnemonic_tail: ")", cycles: (20, 0), pre_len: 2, op_len: 1, arg_len: 1, group: InsnGroup::Regular },
        0x62 => Opcode { mnemonic_fmt: "bit 4, (iy+$", mnemonic_tail: ")", cycles: (20, 0), pre_len: 2, op_len: 1, arg_len: 1, group: InsnGroup::Regular },
        0x63 => Opcode { mnemonic_fmt: "bit 4, (iy+$", mnemonic_tail: ")", cycles: (20, 0), pre_len: 2, op_len: 1, arg_len: 1, group: InsnGroup::Regular },
        0x64 => Opcode { mnemonic_fmt: "bit 4, (iy+$", mnemonic_tail: ")", cycles: (20, 0), pre_len: 2, op_len: 1, arg_len: 1, group: InsnGroup::Regular },
        0x65 => Opcode { mnemonic_fmt: "bit 4, (iy+$", mnemonic_tail: ")", cycles: (20, 0), pre_len: 2, op_len: 1, arg_len: 1, group: InsnGroup::Regular },
        0x66 => Opcode { mnemonic_fmt: "bit 4, (iy+$", mnemonic_tail: ")", cycles: (20, 0), pre_len: 2, op_len: 1, arg_len: 1, group: InsnGroup::Regular },
        0x67 => Opcode { mnemonic_fmt: "bit 4, (iy+$", mnemonic_tail: ")", cycles: (20, 0), pre_len: 2, op_len: 1, arg_len: 1, group: InsnGroup::Regular },
        0x68 => Opcode { mnemonic_fmt: "bit 5, (iy+$", mnemonic_tail: ")", cycles: (20, 0), pre_len: 2, op_len: 1, arg_len: 1, group: InsnGroup::Regular },
        0x69 => Opcode { mnemonic_fmt: "bit 5, (iy+$", mnemonic_tail: ")", cycles: (20, 0), pre_len: 2, op_len: 1, arg_len: 1, group: InsnGroup::Regular },
        0x6A => Opcode { mnemonic_fmt: "bit 5, (iy+$", mnemonic_tail: ")", cycles: (20, 0), pre_len: 2, op_len: 1, arg_len: 1, group: InsnGroup::Regular },
        0x6B => Opcode { mnemonic_fmt: "bit 5, (iy+$", mnemonic_tail: ")", cycles: (20, 0), pre_len: 2, op_len: 1, arg_len: 1, group: InsnGroup::Regular },
        0x6C => Opcode { mnemonic_fmt: "bit 5, (iy+$", mnemonic_tail: ")", cycles: (20, 0), pre_len: 2, op_len: 1, arg_len: 1, group: InsnGroup::Regular },
        0x6D => Opcode { mnemonic_fmt: "bit 5, (iy+$", mnemonic_tail: ")", cycles: (20, 0), pre_len: 2, op_len: 1, arg_len: 1, group: InsnGroup::Regular },
        0x6E => Opcode { mnemonic_fmt: "bit 5, (iy+$", mnemonic_tail: ")", cycles: (20, 0), pre_len: 2, op_len: 1, arg_len: 1, group: InsnGroup::Regular },
        0x6F => Opcode { mnemonic_fmt: "bit 5, (iy+$", mnemonic_tail: ")", cycles: (20, 0), pre_len: 2, op_len: 1, arg_len: 1, group: InsnGroup::Regular },
        0x70 => Opcode { mnemonic_fmt: "bit 6, (iy+$", mnemonic_tail: ")", cycles: (20, 0), pre_len: 2, op_len: 1, arg_len: 1, group: InsnGroup::Regular },
        0x71 => Opcode { mnemonic_fmt: "bit 6, (iy+$", mnemonic_tail: ")", cycles: (20, 0), pre_len: 2, op_len: 1, arg_len: 1, group: InsnGroup::Regular },
        0x72 => Opcode { mnemonic_fmt: "bit 6, (iy+$", mnemonic_tail: ")", cycles: (20, 0), pre_len: 2, op_len: 1, arg_len: 1, group: InsnGroup::Regular },
        0x73 => Opcode { mnemonic_fmt: "bit 6, (iy+$", mnemonic_tail: ")", cycles: (20, 0), pre_len: 2, op_len: 1, arg_len: 1, group: InsnGroup::Regular },
        0x74 => Opcode { mnemonic_fmt: "bit 6, (iy+$", mnemonic_tail: ")", cycles: (20, 0), pre_len: 2, op_len: 1, arg_len: 1, group: InsnGroup::Regular },
        0x75 => Opcode { mnemonic_fmt: "bit 6, (iy+$", mnemonic_tail: ")", cycles: (20, 0), pre_len: 2, op_len: 1, arg_len: 1, group: InsnGroup::Regular },
        0x76 => Opcode { mnemonic_fmt: "bit 6, (iy+$", mnemonic_tail: ")", cycles: (20, 0), pre_len: 2, op_len: 1, arg_len: 1, group: InsnGroup::Regular },
        0x77 => Opcode { mnemonic_fmt: "bit 6, (iy+$", mnemonic_tail: ")", cycles: (20, 0), pre_len: 2, op_len: 1, arg_len: 1, group: InsnGroup::Regular },
        0x78 => Opcode { mnemonic_fmt: "bit 7, (iy+$", mnemonic_tail: ")", cycles: (20, 0), pre_len: 2, op_len: 1, arg_len: 1, group: InsnGroup::Regular },
        0x79 => Opcode { mnemonic_fmt: "bit 7, (iy+$", mnemonic_tail: ")", cycles: (20, 0), pre_len: 2, op_len: 1, arg_len: 1, group: InsnGroup::Regular },
        0x7A => Opcode { mnemonic_fmt: "bit 7, (iy+$", mnemonic_tail: ")", cycles: (20, 0), pre_len: 2, op_len: 1, arg_len: 1, group: InsnGroup::Regular },
        0x7B => Opcode { mnemonic_fmt: "bit 7, (iy+$", mnemonic_tail: ")", cycles: (20, 0), pre_len: 2, op_len: 1, arg_len: 1, group: InsnGroup::Regular },
        0x7C => Opcode { mnemonic_fmt: "bit 7, (iy+$", mnemonic_tail: ")", cycles: (20, 0), pre_len: 2, op_len: 1, arg_len: 1, group: InsnGroup::Regular },
        0x7D => Opcode { mnemonic_fmt: "bit 7, (iy+$", mnemonic_tail: ")", cycles: (20, 0), pre_len: 2, op_len: 1, arg_len: 1, group: InsnGroup::Regular },
        0x7E => Opcode { mnemonic_fmt: "bit 7, (iy+$", mnemonic_tail: ")", cycles: (20, 0), pre_len: 2, op_len: 1, arg_len: 1, group: InsnGroup::Regular },
        0x7F => Opcode { mnemonic_fmt: "bit 7, (iy+$", mnemonic_tail: ")", cycles: (20, 0), pre_len: 2, op_len: 1, arg_len: 1, group: InsnGroup::Regular },
        0x80 => Opcode { mnemonic_fmt: "res 0, (iy+$", mnemonic_tail: "), b", cycles: (23, 0), pre_len: 2, op_len: 1, arg_len: 1, group: InsnGroup::Regular },
        0x81 => Opcode { mnemonic_fmt: "res 0, (iy+$", mnemonic_tail: "), c", cycles: (23, 0), pre_len: 2, op_len: 1, arg_len: 1, group: InsnGroup::Regular },
        0x82 => Opcode { mnemonic_fmt: "res 0, (iy+$", mnemonic_tail: "), d", cycles: (23, 0), pre_len: 2, op_len: 1, arg_len: 1, group: InsnGroup::Regular },
        0x83 => Opcode { mnemonic_fmt: "res 0, (iy+$", mnemonic_tail: "), e", cycles: (23, 0), pre_len: 2, op_len: 1, arg_len: 1, group: InsnGroup::Regular },
        0x84 => Opcode { mnemonic_fmt: "res 0, (iy+$", mnemonic_tail: "), h", cycles: (23, 0), pre_len: 2, op_len: 1, arg_len: 1, group: InsnGroup::Regular },
        0x85 => Opcode { mnemonic_fmt: "res 0, (iy+$", mnemonic_tail: "), l", cycles: (23, 0), pre_len: 2, op_len: 1, arg_len: 1, group: InsnGroup::Regular },
        0x86 => Opcode { mnemonic_fmt: "res 0, (iy+$", mnemonic_tail: ")", cycles: (23, 0), pre_len: 2, op_len: 1, arg_len: 1, group: InsnGroup::Regular },
        0x87 => Opcode { mnemonic_fmt: "res 0, (iy+$", mnemonic_tail: "), a", cycles: (23, 0), pre_len: 2, op_len: 1, arg_len: 1, group: InsnGroup::Regular },
        0x88 => Opcode { mnemonic_fmt: "res 1, (iy+$", mnemonic_tail: "), b", cycles: (23, 0), pre_len: 2, op_len: 1, arg_len: 1, group: InsnGroup::Regular },
        0x89 => Opcode { mnemonic_fmt: "res 1, (iy+$", mnemonic_tail: "), c", cycles: (23, 0), pre_len: 2, op_len: 1, arg_len: 1, group: InsnGroup::Regular },
        0x8A => Opcode { mnemonic_fmt: "res 1, (iy+$", mnemonic_tail: "), d", cycles: (23, 0), pre_len: 2, op_len: 1, arg_len: 1, group: InsnGroup::Regular },
        0x8B => Opcode { mnemonic_fmt: "res 1, (iy+$", mnemonic_tail: "), e", cycles: (23, 0), pre_len: 2, op_len: 1, arg_len: 1, group: InsnGroup::Regular },
        0x8C => Opcode { mnemonic_fmt: "res 1, (iy+$", mnemonic_tail: "), h", cycles: (23, 0), pre_len: 2, op_len: 1, arg_len: 1, group: InsnGroup::Regular },
        0x8D => Opcode { mnemonic_fmt: "res 1, (iy+$", mnemonic_tail: "), l", cycles: (23, 0), pre_len: 2, op_len: 1, arg_len: 1, group: InsnGroup::Regular },
        0x8E => Opcode { mnemonic_fmt: "res 1, (iy+$", mnemonic_tail: ")", cycles: (23, 0), pre_len: 2, op_len: 1, arg_len: 1, group: InsnGroup::Regular },
        0x8F => Opcode { mnemonic_fmt: "res 1, (iy+$", mnemonic_tail: "), a", cycles: (23, 0), pre_len: 2, op_len: 1, arg_len: 1, group: InsnGroup::Regular },
        0x90 => Opcode { mnemonic_fmt: "res 2, (iy+$", mnemonic_tail: "), b", cycles: (23, 0), pre_len: 2, op_len: 1, arg_len: 1, group: InsnGroup::Regular },
        0x91 => Opcode { mnemonic_fmt: "res 2, (iy+$", mnemonic_tail: "), c", cycles: (23, 0), pre_len: 2, op_len: 1, arg_len: 1, group: InsnGroup::Regular },
        0x92 => Opcode { mnemonic_fmt: "res 2, (iy+$", mnemonic_tail: "), d", cycles: (23, 0), pre_len: 2, op_len: 1, arg_len: 1, group: InsnGroup::Regular },
        0x93 => Opcode { mnemonic_fmt: "res 2, (iy+$", mnemonic_tail: "), e", cycles: (23, 0), pre_len: 2, op_len: 1, arg_len: 1, group: InsnGroup::Regular },
        0x94 => Opcode { mnemonic_fmt: "res 2, (iy+$", mnemonic_tail: "), h", cycles: (23, 0), pre_len: 2, op_len: 1, arg_len: 1, group: InsnGroup::Regular },
        0x95 => Opcode { mnemonic_fmt: "res 2, (iy+$", mnemonic_tail: "), l", cycles: (23, 0), pre_len: 2, op_len: 1, arg_len: 1, group: InsnGroup::Regular },
        0x96 => Opcode { mnemonic_fmt: "res 2, (iy+$", mnemonic_tail: ")", cycles: (23, 0), pre_len: 2, op_len: 1, arg_len: 1, group: InsnGroup::Regular },
        0x97 => Opcode { mnemonic_fmt: "res 2, (iy+$", mnemonic_tail: "), a", cycles: (23, 0), pre_len: 2, op_len: 1, arg_len: 1, group: InsnGroup::Regular },
        0x98 => Opcode { mnemonic_fmt: "res 3, (iy+$", mnemonic_tail: "), b", cycles: (23, 0), pre_len: 2, op_len: 1, arg_len: 1, group: InsnGroup::Regular },
        0x99 => Opcode { mnemonic_fmt: "res 3, (iy+$", mnemonic_tail: "), c", cycles: (23, 0), pre_len: 2, op_len: 1, arg_len: 1, group: InsnGroup::Regular },
        0x9A => Opcode { mnemonic_fmt: "res 3, (iy+$", mnemonic_tail: "), d", cycles: (23, 0), pre_len: 2, op_len: 1, arg_len: 1, group: InsnGroup::Regular },
        0x9B => Opcode { mnemonic_fmt: "res 3, (iy+$", mnemonic_tail: "), e", cycles: (23, 0), pre_len: 2, op_len: 1, arg_len: 1, group: InsnGroup::Regular },
        0x9C => Opcode { mnemonic_fmt: "res 3, (iy+$", mnemonic_tail: "), h", cycles: (23, 0), pre_len: 2, op_len: 1, arg_len: 1, group: InsnGroup::Regular },
        0x9D => Opcode { mnemonic_fmt: "res 3, (iy+$", mnemonic_tail: "), l", cycles: (23, 0), pre_len: 2, op_len: 1, arg_len: 1, group: InsnGroup::Regular },
        0x9E => Opcode { mnemonic_fmt: "res 3, (iy+$", mnemonic_tail: ")", cycles: (23, 0), pre_len: 2, op_len: 1, arg_len: 1, group: InsnGroup::Regular },
        0x9F => Opcode { mnemonic_fmt: "res 3, (iy+$", mnemonic_tail: "), a", cycles: (23, 0), pre_len: 2, op_len: 1, arg_len: 1, group: InsnGroup::Regular },
        0xA0 => Opcode { mnemonic_fmt: "res 4, (iy+$", mnemonic_tail: "), b", cycles: (23, 0), pre_len: 2, op_len: 1, arg_len: 1, group: InsnGroup::Regular },
        0xA1 => Opcode { mnemonic_fmt: "res 4, (iy+$", mnemonic_tail: "), c", cycles: (23, 0), pre_len: 2, op_len: 1, arg_len: 1, group: InsnGroup::Regular },
        0xA2 => Opcode { mnemonic_fmt: "res 4, (iy+$", mnemonic_tail: "), d", cycles: (23, 0), pre_len: 2, op_len: 1, arg_len: 1, group: InsnGroup::Regular },
        0xA3 => Opcode { mnemonic_fmt: "res 4, (iy+$", mnemonic_tail: "), e", cycles: (23, 0), pre_len: 2, op_len: 1, arg_len: 1, group: InsnGroup::Regular },
        0xA4 => Opcode { mnemonic_fmt: "res 4, (iy+$", mnemonic_tail: "), h", cycles: (23, 0), pre_len: 2, op_len: 1, arg_len: 1, group: InsnGroup::Regular },
        0xA5 => Opcode { mnemonic_fmt: "res 4, (iy+$", mnemonic_tail: "), l", cycles: (23, 0), pre_len: 2, op_len: 1, arg_len: 1, group: InsnGroup::Regular },
        0xA6 => Opcode { mnemonic_fmt: "res 4, (iy+$", mnemonic_tail: ")", cycles: (23, 0), pre_len: 2, op_len: 1, arg_len: 1, group: InsnGroup::Regular },
        0xA7 => Opcode { mnemonic_fmt: "res 4, (iy+$", mnemonic_tail: "), a", cycles: (23, 0), pre_len: 2, op_len: 1, arg_len: 1, group: InsnGroup::Regular },
        0xA8 => Opcode { mnemonic_fmt: "res 5, (iy+$", mnemonic_tail: "), b", cycles: (23, 0), pre_len: 2, op_len: 1, arg_len: 1, group: InsnGroup::Regular },
        0xA9 => Opcode { mnemonic_fmt: "res 5, (iy+$", mnemonic_tail: "), c", cycles: (23, 0), pre_len: 2, op_len: 1, arg_len: 1, group: InsnGroup::Regular },
        0xAA => Opcode { mnemonic_fmt: "res 5, (iy+$", mnemonic_tail: "), d", cycles: (23, 0), pre_len: 2, op_len: 1, arg_len: 1, group: InsnGroup::Regular },
        0xAB => Opcode { mnemonic_fmt: "res 5, (iy+$", mnemonic_tail: "), e", cycles: (23, 0), pre_len: 2, op_len: 1, arg_len: 1, group: InsnGroup::Regular },
        0xAC => Opcode { mnemonic_fmt: "res 5, (iy+$", mnemonic_tail: "), h", cycles: (23, 0), pre_len: 2, op_len: 1, arg_len: 1, group: InsnGroup::Regular },
        0xAD => Opcode { mnemonic_fmt: "res 5, (iy+$", mnemonic_tail: "), l", cycles: (23, 0), pre_len: 2, op_len: 1, arg_len: 1, group: InsnGroup::Regular },
        0xAE => Opcode { mnemonic_fmt: "res 5, (iy+$", mnemonic_tail: ")", cycles: (23, 0), pre_len: 2, op_len: 1, arg_len: 1, group: InsnGroup::Regular },
        0xAF => Opcode { mnemonic_fmt: "res 5, (iy+$", mnemonic_tail: "), a", cycles: (23, 0), pre_len: 2, op_len: 1, arg_len: 1, group: InsnGroup::Regular },
        0xB0 => Opcode { mnemonic_fmt: "res 6, (iy+$", mnemonic_tail: "), b", cycles: (23, 0), pre_len: 2, op_len: 1, arg_len: 1, group: InsnGroup::Regular },
        0xB1 => Opcode { mnemonic_fmt: "res 6, (iy+$", mnemonic_tail: "), c", cycles: (23, 0), pre_len: 2, op_len: 1, arg_len: 1, group: InsnGroup::Regular },
        0xB2 => Opcode { mnemonic_fmt: "res 6, (iy+$", mnemonic_tail: "), d", cycles: (23, 0), pre_len: 2, op_len: 1, arg_len: 1, group: InsnGroup::Regular },
        0xB3 => Opcode { mnemonic_fmt: "res 6, (iy+$", mnemonic_tail: "), e", cycles: (23, 0), pre_len: 2, op_len: 1, arg_len: 1, group: InsnGroup::Regular },
        0xB4 => Opcode { mnemonic_fmt: "res 6, (iy+$", mnemonic_tail: "), h", cycles: (23, 0), pre_len: 2, op_len: 1, arg_len: 1, group: InsnGroup::Regular },
        0xB5 => Opcode { mnemonic_fmt: "res 6, (iy+$", mnemonic_tail: "), l", cycles: (23, 0), pre_len: 2, op_len: 1, arg_len: 1, group: InsnGroup::Regular },
        0xB6 => Opcode { mnemonic_fmt: "res 6, (iy+$", mnemonic_tail: ")", cycles: (23, 0), pre_len: 2, op_len: 1, arg_len: 1, group: InsnGroup::Regular },
        0xB7 => Opcode { mnemonic_fmt: "res 6, (iy+$", mnemonic_tail: "), a", cycles: (23, 0), pre_len: 2, op_len: 1, arg_len: 1, group: InsnGroup::Regular },
        0xB8 => Opcode { mnemonic_fmt: "res 7, (iy+$", mnemonic_tail: "), b", cycles: (23, 0), pre_len: 2, op_len: 1, arg_len: 1, group: InsnGroup::Regular },
        0xB9 => Opcode { mnemonic_fmt: "res 7, (iy+$", mnemonic_tail: "), c", cycles: (23, 0), pre_len: 2, op_len: 1, arg_len: 1, group: InsnGroup::Regular },
        0xBA => Opcode { mnemonic_fmt: "res 7, (iy+$", mnemonic_tail: "), d", cycles: (23, 0), pre_len: 2, op_len: 1, arg_len: 1, group: InsnGroup::Regular },
        0xBB => Opcode { mnemonic_fmt: "res 7, (iy+$", mnemonic_tail: "), e", cycles: (23, 0), pre_len: 2, op_len: 1, arg_len: 1, group: InsnGroup::Regular },
        0xBC => Opcode { mnemonic_fmt: "res 7, (iy+$", mnemonic_tail: "), h", cycles: (23, 0), pre_len: 2, op_len: 1, arg_len: 1, group: InsnGroup::Regular },
        0xBD => Opcode { mnemonic_fmt: "res 7, (iy+$", mnemonic_tail: "), l", cycles: (23, 0), pre_len: 2, op_len: 1, arg_len: 1, group: InsnGroup::Regular },
        0xBE => Opcode { mnemonic_fmt: "res 7, (iy+$", mnemonic_tail: ")", cycles: (23, 0), pre_len: 2, op_len: 1, arg_len: 1, group: InsnGroup::Regular },
        0xBF => Opcode { mnemonic_fmt: "res 7, (iy+$", mnemonic_tail: "), a", cycles: (23, 0), pre_len: 2, op_len: 1, arg_len: 1, group: InsnGroup::Regular },
        0xC0 => Opcode { mnemonic_fmt: "set 0, (iy+$", mnemonic_tail: "), b", cycles: (23, 0), pre_len: 2, op_len: 1, arg_len: 1, group: InsnGroup::Regular },
        0xC1 => Opcode { mnemonic_fmt: "set 0, (iy+$", mnemonic_tail: "), c", cycles: (23, 0), pre_len: 2, op_len: 1, arg_len: 1, group: InsnGroup::Regular },
        0xC2 => Opcode { mnemonic_fmt: "set 0, (iy+$", mnemonic_tail: "), d", cycles: (23, 0), pre_len: 2, op_len: 1, arg_len: 1, group: InsnGroup::Regular },
        0xC3 => Opcode { mnemonic_fmt: "set 0, (iy+$", mnemonic_tail: "), e", cycles: (23, 0), pre_len: 2, op_len: 1, arg_len: 1, group: InsnGroup::Regular },
        0xC4 => Opcode { mnemonic_fmt: "set 0, (iy+$", mnemonic_tail: "), h", cycles: (23, 0), pre_len: 2, op_len: 1, arg_len: 1, group: InsnGroup::Regular },
        0xC5 => Opcode { mnemonic_fmt: "set 0, (iy+$", mnemonic_tail: "), l", cycles: (23, 0), pre_len: 2, op_len: 1, arg_len: 1, group: InsnGroup::Regular },
        0xC6 => Opcode { mnemonic_fmt: "set 0, (iy+$", mnemonic_tail: ")", cycles: (23, 0), pre_len: 2, op_len: 1, arg_len: 1, group: InsnGroup::Regular },
        0xC7 => Opcode { mnemonic_fmt: "set 0, (iy+$", mnemonic_tail: "), a", cycles: (23, 0), pre_len: 2, op_len: 1, arg_len: 1, group: InsnGroup::Regular },
        0xC8 => Opcode { mnemonic_fmt: "set 1, (iy+$", mnemonic_tail: "), b", cycles: (23, 0), pre_len: 2, op_len: 1, arg_len: 1, group: InsnGroup::Regular },
        0xC9 => Opcode { mnemonic_fmt: "set 1, (iy+$", mnemonic_tail: "), c", cycles: (23, 0), pre_len: 2, op_len: 1, arg_len: 1, group: InsnGroup::Regular },
        0xCA => Opcode { mnemonic_fmt: "set 1, (iy+$", mnemonic_tail: "), d", cycles: (23, 0), pre_len: 2, op_len: 1, arg_len: 1, group: InsnGroup::Regular },
        0xCB => Opcode { mnemonic_fmt: "set 1, (iy+$", mnemonic_tail: "), e", cycles: (23, 0), pre_len: 2, op_len: 1, arg_len: 1, group: InsnGroup::Regular },
        0xCC => Opcode { mnemonic_fmt: "set 1, (iy+$", mnemonic_tail: "), h", cycles: (23, 0), pre_len: 2, op_len: 1, arg_len: 1, group: InsnGroup::Regular },
        0xCD => Opcode { mnemonic_fmt: "set 1, (iy+$", mnemonic_tail: "), l", cycles: (23, 0), pre_len: 2, op_len: 1, arg_len: 1, group: InsnGroup::Regular },
        0xCE => Opcode { mnemonic_fmt: "set 1, (iy+$", mnemonic_tail: ")", cycles: (23, 0), pre_len: 2, op_len: 1, arg_len: 1, group: InsnGroup::Regular },
        0xCF => Opcode { mnemonic_fmt: "set 1, (iy+$", mnemonic_tail: "), a", cycles: (23, 0), pre_len: 2, op_len: 1, arg_len: 1, group: InsnGroup::Regular },
        0xD0 => Opcode { mnemonic_fmt: "set 2, (iy+$", mnemonic_tail: "), b", cycles: (23, 0), pre_len: 2, op_len: 1, arg_len: 1, group: InsnGroup::Regular },
        0xD1 => Opcode { mnemonic_fmt: "set 2, (iy+$", mnemonic_tail: "), c", cycles: (23, 0), pre_len: 2, op_len: 1, arg_len: 1, group: InsnGroup::Regular },
        0xD2 => Opcode { mnemonic_fmt: "set 2, (iy+$", mnemonic_tail: "), d", cycles: (23, 0), pre_len: 2, op_len: 1, arg_len: 1, group: InsnGroup::Regular },
        0xD3 => Opcode { mnemonic_fmt: "set 2, (iy+$", mnemonic_tail: "), e", cycles: (23, 0), pre_len: 2, op_len: 1, arg_len: 1, group: InsnGroup::Regular },
        0xD4 => Opcode { mnemonic_fmt: "set 2, (iy+$", mnemonic_tail: "), h", cycles: (23, 0), pre_len: 2, op_len: 1, arg_len: 1, group: InsnGroup::Regular },
        0xD5 => Opcode { mnemonic_fmt: "set 2, (iy+$", mnemonic_tail: "), l", cycles: (23, 0), pre_len: 2, op_len: 1, arg_len: 1, group: InsnGroup::Regular },
        0xD6 => Opcode { mnemonic_fmt: "set 2, (iy+$", mnemonic_tail: ")", cycles: (23, 0), pre_len: 2, op_len: 1, arg_len: 1, group: InsnGroup::Regular },
        0xD7 => Opcode { mnemonic_fmt: "set 2, (iy+$", mnemonic_tail: "), a", cycles: (23, 0), pre_len: 2, op_len: 1, arg_len: 1, group: InsnGroup::Regular },
        0xD8 => Opcode { mnemonic_fmt: "set 3, (iy+$", mnemonic_tail: "), b", cycles: (23, 0), pre_len: 2, op_len: 1, arg_len: 1, group: InsnGroup::Regular },
        0xD9 => Opcode { mnemonic_fmt: "set 3, (iy+$", mnemonic_tail: "), c", cycles: (23, 0), pre_len: 2, op_len: 1, arg_len: 1, group: InsnGroup::Regular },
        0xDA => Opcode { mnemonic_fmt: "set 3, (iy+$", mnemonic_tail: "), d", cycles: (23, 0), pre_len: 2, op_len: 1, arg_len: 1, group: InsnGroup::Regular },
        0xDB => Opcode { mnemonic_fmt: "set 3, (iy+$", mnemonic_tail: "), e", cycles: (23, 0), pre_len: 2, op_len: 1, arg_len: 1, group: InsnGroup::Regular },
        0xDC => Opcode { mnemonic_fmt: "set 3, (iy+$", mnemonic_tail: "), h", cycles: (23, 0), pre_len: 2, op_len: 1, arg_len: 1, group: InsnGroup::Regular },
        0xDD => Opcode { mnemonic_fmt: "set 3, (iy+$", mnemonic_tail: "), l", cycles: (23, 0), pre_len: 2, op_len: 1, arg_len: 1, group: InsnGroup::Regular },
        0xDE => Opcode { mnemonic_fmt: "set 3, (iy+$", mnemonic_tail: ")", cycles: (23, 0), pre_len: 2, op_len: 1, arg_len: 1, group: InsnGroup::Regular },
        0xDF => Opcode { mnemonic_fmt: "set 3, (iy+$", mnemonic_tail: "), a", cycles: (23, 0), pre_len: 2, op_len: 1, arg_len: 1, group: InsnGroup::Regular },
        0xE0 => Opcode { mnemonic_fmt: "set 4, (iy+$", mnemonic_tail: "), b", cycles: (23, 0), pre_len: 2, op_len: 1, arg_len: 1, group: InsnGroup::Regular },
        0xE1 => Opcode { mnemonic_fmt: "set 4, (iy+$", mnemonic_tail: "), c", cycles: (23, 0), pre_len: 2, op_len: 1, arg_len: 1, group: InsnGroup::Regular },
        0xE2 => Opcode { mnemonic_fmt: "set 4, (iy+$", mnemonic_tail: "), d", cycles: (23, 0), pre_len: 2, op_len: 1, arg_len: 1, group: InsnGroup::Regular },
        0xE3 => Opcode { mnemonic_fmt: "set 4, (iy+$", mnemonic_tail: "), e", cycles: (23, 0), pre_len: 2, op_len: 1, arg_len: 1, group: InsnGroup::Regular },
        0xE4 => Opcode { mnemonic_fmt: "set 4, (iy+$", mnemonic_tail: "), h", cycles: (23, 0), pre_len: 2, op_len: 1, arg_len: 1, group: InsnGroup::Regular },
        0xE5 => Opcode { mnemonic_fmt: "set 4, (iy+$", mnemonic_tail: "), l", cycles: (23, 0), pre_len: 2, op_len: 1, arg_len: 1, group: InsnGroup::Regular },
        0xE6 => Opcode { mnemonic_fmt: "set 4, (iy+$", mnemonic_tail: ")", cycles: (23, 0), pre_len: 2, op_len: 1, arg_len: 1, group: InsnGroup::Regular },
        0xE7 => Opcode { mnemonic_fmt: "set 4, (iy+$", mnemonic_tail: "), a", cycles: (23, 0), pre_len: 2, op_len: 1, arg_len: 1, group: InsnGroup::Regular },
        0xE8 => Opcode { mnemonic_fmt: "set 5, (iy+$", mnemonic_tail: "), b", cycles: (23, 0), pre_len: 2, op_len: 1, arg_len: 1, group: InsnGroup::Regular },
        0xE9 => Opcode { mnemonic_fmt: "set 5, (iy+$", mnemonic_tail: "), c", cycles: (23, 0), pre_len: 2, op_len: 1, arg_len: 1, group: InsnGroup::Regular },
        0xEA => Opcode { mnemonic_fmt: "set 5, (iy+$", mnemonic_tail: "), d", cycles: (23, 0), pre_len: 2, op_len: 1, arg_len: 1, group: InsnGroup::Regular },
        0xEB => Opcode { mnemonic_fmt: "set 5, (iy+$", mnemonic_tail: "), e", cycles: (23, 0), pre_len: 2, op_len: 1, arg_len: 1, group: InsnGroup::Regular },
        0xEC => Opcode { mnemonic_fmt: "set 5, (iy+$", mnemonic_tail: "), h", cycles: (23, 0), pre_len: 2, op_len: 1, arg_len: 1, group: InsnGroup::Regular },
        0xED => Opcode { mnemonic_fmt: "set 5, (iy+$", mnemonic_tail: "), l", cycles: (23, 0), pre_len: 2, op_len: 1, arg_len: 1, group: InsnGroup::Regular },
        0xEE => Opcode { mnemonic_fmt: "set 5, (iy+$", mnemonic_tail: ")", cycles: (23, 0), pre_len: 2, op_len: 1, arg_len: 1, group: InsnGroup::Regular },
        0xEF => Opcode { mnemonic_fmt: "set 5, (iy+$", mnemonic_tail: "), a", cycles: (23, 0), pre_len: 2, op_len: 1, arg_len: 1, group: InsnGroup::Regular },
        0xF0 => Opcode { mnemonic_fmt: "set 6, (iy+$", mnemonic_tail: "), b", cycles: (23, 0), pre_len: 2, op_len: 1, arg_len: 1, group: InsnGroup::Regular },
        0xF1 => Opcode { mnemonic_fmt: "set 6, (iy+$", mnemonic_tail: "), c", cycles: (23, 0), pre_len: 2, op_len: 1, arg_len: 1, group: InsnGroup::Regular },
        0xF2 => Opcode { mnemonic_fmt: "set 6, (iy+$", mnemonic_tail: "), d", cycles: (23, 0), pre_len: 2, op_len: 1, arg_len: 1, group: InsnGroup::Regular },
        0xF3 => Opcode { mnemonic_fmt: "set 6, (iy+$", mnemonic_tail: "), e", cycles: (23, 0), pre_len: 2, op_len: 1, arg_len: 1, group: InsnGroup::Regular },
        0xF4 => Opcode { mnemonic_fmt: "set 6, (iy+$", mnemonic_tail: "), h", cycles: (23, 0), pre_len: 2, op_len: 1, arg_len: 1, group: InsnGroup::Regular },
        0xF5 => Opcode { mnemonic_fmt: "set 6, (iy+$", mnemonic_tail: "), l", cycles: (23, 0), pre_len: 2, op_len: 1, arg_len: 1, group: InsnGroup::Regular },
        0xF6 => Opcode { mnemonic_fmt: "set 6, (iy+$", mnemonic_tail: ")", cycles: (23, 0), pre_len: 2, op_len: 1, arg_len: 1, group: InsnGroup::Regular },
        0xF7 => Opcode { mnemonic_fmt: "set 6, (iy+$", mnemonic_tail: "), a", cycles: (23, 0), pre_len: 2, op_len: 1, arg_len: 1, group: InsnGroup::Regular },
        0xF8 => Opcode { mnemonic_fmt: "set 7, (iy+$", mnemonic_tail: "), b", cycles: (23, 0), pre_len: 2, op_len: 1, arg_len: 1, group: InsnGroup::Regular },
        0xF9 => Opcode { mnemonic_fmt: "set 7, (iy+$", mnemonic_tail: "), c", cycles: (23, 0), pre_len: 2, op_len: 1, arg_len: 1, group: InsnGroup::Regular },
        0xFA => Opcode { mnemonic_fmt: "set 7, (iy+$", mnemonic_tail: "), d", cycles: (23, 0), pre_len: 2, op_len: 1, arg_len: 1, group: InsnGroup::Regular },
        0xFB => Opcode { mnemonic_fmt: "set 7, (iy+$", mnemonic_tail: "), e", cycles: (23, 0), pre_len: 2, op_len: 1, arg_len: 1, group: InsnGroup::Regular },
        0xFC => Opcode { mnemonic_fmt: "set 7, (iy+$", mnemonic_tail: "), h", cycles: (23, 0), pre_len: 2, op_len: 1, arg_len: 1, group: InsnGroup::Regular },
        0xFD => Opcode { mnemonic_fmt: "set 7, (iy+$", mnemonic_tail: "), l", cycles: (23, 0), pre_len: 2, op_len: 1, arg_len: 1, group: InsnGroup::Regular },
        0xFE => Opcode { mnemonic_fmt: "set 7, (iy+$", mnemonic_tail: ")", cycles: (23, 0), pre_len: 2, op_len: 1, arg_len: 1, group: InsnGroup::Regular },
        _ => Opcode { mnemonic_fmt: "set 7, (iy+$", mnemonic_tail: "), a", cycles: (23, 0), pre_len: 2, op_len: 1, arg_len: 1, group: InsnGroup::Regular },
    }
}

/// Looks up an entry of the table of the byte that ends a `0xFD 0xCB d op` sequence (IY bit operations).
pub fn lookup_fdcb(b: u8) -> (r: Opcode)
    ensures
        r == spec_fdcb(b),
{
    match b {
        0x00 => Opcode { mnemonic_fmt: "rlc (iy+$", mnemonic_tail: "), b", cycles: (23, 0), pre_len: 2, op_len: 1, arg_len: 1, group: InsnGroup::Regular },
        0x01 => Opcode { mnemonic_fmt: "rlc (iy+$", mnemonic_tail: "), c", cycles: (23, 0), pre_len: 2, op_len: 1, arg_len: 1, group: InsnGroup::Regular },
        0x02 => Opcode { mnemonic_fmt: "rlc (iy+$", mnemonic_tail: "), d", cycles: (23, 0), pre_len: 2, op_len: 1, arg_len: 1, group: InsnGroup::Regular },
        0x03 => Opcode { mnemonic_fmt: "rlc (iy+$", mnemonic_tail: "), e", cycles: (23, 0), pre_len: 2, op_len: 1, arg_len: 1, group: InsnGroup::Regular },
        0x04 => Opcode { mnemonic_fmt: "rlc (iy+$", mnemonic_tail: "), h", cycles: (23, 0), pre_len: 2, op_len: 1, arg_len: 1, group: InsnGroup::Regular },
        0x05 => Opcode { mnemonic_fmt: "rlc (iy+$", mnemonic_tail: "), l", cycles: (23, 0), pre_len: 2, op_len: 1, arg_len: 1, group: InsnGroup::Regular },
        0x06 => Opcode { mnemonic_fmt: "rlc (iy+$", mnemonic_tail: ")", cycles: (23, 0), pre_len: 2, op_len: 1, arg_len: 1, group: InsnGroup::Regular },
        0x07 => Opcode { mnemonic_fmt: "rlc (iy+$", mnemonic_tail: "), a", cycles: (23, 0), pre_len: 2, op_len: 1, arg_len: 1, group: InsnGroup::Regular },
        0x08 => Opcode { mnemonic_fmt: "rrc (iy+$", mnemonic_tail: "), b", cycles: (23, 0), pre_len: 2, op_len: 1, arg_len: 1, group: InsnGroup::Regular },
        0x09 => Opcode { mnemonic_fmt: "rrc (iy+$", mnemonic_tail: "), c", cycles: (23, 0), pre_len: 2, op_len: 1, arg_len: 1, group: InsnGroup::Regular },
        0x0A => Opcode { mnemonic_fmt: "rrc (iy+$", mnemonic_tail: "), d", cycles: (23, 0), pre_len: 2, op_len: 1, arg_len: 1, group: InsnGroup::Regular },
        0x0B => Opcode { mnemonic_fmt: "rrc (iy+$", mnemonic_tail: "), e", cycles: (23, 0), pre_len: 2, op_len: 1, arg_len: 1, group: InsnGroup::Regular },
        0x0C => Opcode { mnemonic_fmt: "rrc (iy+$", mnemonic_tail: "), h", cycles: (23, 0), pre_len: 2, op_len: 1, arg_len: 1, group: InsnGroup::Regular },
        0x0D => Opcode { mnemonic_fmt: "rrc (iy+$", mnemonic_tail: "), l", cycles: (23, 0), pre_len: 2, op_len: 1, arg_len: 1, group: InsnGroup::Regular },
        0x0E => Opcode { mnemonic_fmt: "rrc (iy+$", mnemonic_tail: ")", cycles: (23, 0), pre_len: 2, op_len: 1, arg_len: 1, group: InsnGroup::Regular },
        0x0F => Opcode { mnemonic_fmt: "rrc (iy+$", mnemonic_tail: "), a", cycles: (23, 0), pre_len: 2, op_len: 1, arg_len: 1, group: InsnGroup::Regular },
        0x10 => Opcode { mnemonic_fmt: "rl (iy+$", mnemonic_tail: "), b", cycles: (23, 0), pre_len: 2, op_len: 1, arg_len: 1, group: InsnGroup::Regular },
        0x11 => Opcode { mnemonic_fmt: "rl (iy+$", mnemonic_tail: "), c", cycles: (23, 0), pre_len: 2, op_len: 1, arg_len: 1, group: InsnGroup::Regular },
        0x12 => Opcode { mnemonic_fmt: "rl (iy+$", mnemonic_tail: "), d", cycles: (23, 0), pre_len: 2, op_len: 1, arg_len: 1, group: InsnGroup::Regular },
        0x13 => Opcode { mnemonic_fmt: "rl (iy+$", mnemonic_tail: "), e", cycles: (23, 0), pre_len: 2, op_len: 1, arg_len: 1, group: InsnGroup::Regular },
        0x14 => Opcode { mnemonic_fmt: "rl (iy+$", mnemonic_tail: "), h", cycles: (23, 0), pre_len: 2, op_len: 1, arg_len: 1, group: InsnGroup::Regular },
        0x15 => Opcode { mnemonic_fmt: "rl (iy+$", mnemonic_tail: "), l", cycles: (23, 0), pre_len: 2, op_len: 1, arg_len: 1, group: InsnGroup::Regular },
        0x16 => Opcode { mnemonic_fmt: "rl (iy+$", mnemonic_tail: ")", cycles: (23, 0), pre_len: 2, op_len: 1, arg_len: 1, group: InsnGroup::Regular },
        0x17 => Opcode { mnemonic_fmt: "rl (iy+$", mnemonic_tail: "), a", cycles: (23, 0), pre_len: 2, op_len: 1, arg_len: 1, group: InsnGroup::Regular },
        0x18 => Opcode { mnemonic_fmt: "rr (iy+$", mnemonic_tail: "), b", cycles: (23, 0), pre_len: 2, op_len: 1, arg_len: 1, group: InsnGroup::Regular },
        0x19 => Opcode { mnemonic_fmt: "rr (iy+$", mnemonic_tail: "), c", cycles: (23, 0), pre_len: 2, op_len: 1, arg_len: 1, group: InsnGroup::Regular },
        0x1A => Opcode { mnemonic_fmt: "rr (iy+$", mnemonic_tail: "), d", cycles: (23, 0), pre_len: 2, op_len: 1, arg_len: 1, group: InsnGroup::Regular },
        0x1B => Opcode { mnemonic_fmt: "rr (iy+$", mnemonic_tail: "), e", cycles: (23, 0), pre_len: 2, op_len: 1, arg_len: 1, group: InsnGroup::Regular },
        0x1C => Opcode { mnemonic_fmt: "rr (iy+$", mnemonic_tail: "), h", cycles: (23, 0), pre_len: 2, op_len: 1, arg_len: 1, group: InsnGroup::Regular },
        0x1D => Opcode { mnemonic_fmt: "rr (iy+$", mnemonic_tail: "), l", cycles: (23, 0), pre_len: 2, op_len: 1, arg_len: 1, group: InsnGroup::Regular },
        0x1E => Opcode { mnemonic_fmt: "rr (iy+$", mnemonic_tail: ")", cycles: (23, 0), pre_len: 2, op_len: 1, arg_len: 1, group: InsnGroup::Regular },
        0x1F => Opcode { mnemonic_fmt: "rr (iy+$", mnemonic_tail: "), a", cycles: (23, 0), pre_len: 2, op_len: 1, arg_len: 1, group: InsnGroup::Regular },
        0x20 => Opcode { mnemonic_fmt: "sla (iy+$", mnemonic_tail: "), b", cycles: (23, 0), pre_len: 2, op_len: 1, arg_len: 1, group: InsnGroup::Regular },
        0x21 => Opcode { mnemonic_fmt: "sla (iy+$", mnemonic_tail: "), c", cycles: (23, 0), pre_len: 2, op_len: 1, arg_len: 1, group: InsnGroup::Regular },
        0x22 => Opcode { mnemonic_fmt: "sla (iy+$", mnemonic_tail: "), d", cycles: (23, 0), pre_len: 2, op_len: 1, arg_len: 1, group: InsnGroup::Regular },
        0x23 => Opcode { mnemonic_fmt: "sla (iy+$", mnemonic_tail: "), e", cycles: (23, 0), pre_len: 2, op_len: 1, arg_len: 1, group: InsnGroup::Regular },
        0x24 => Opcode { mnemonic_fmt: "sla (iy+$", mnemonic_tail: "), h", cycles: (23, 0), pre_len: 2, op_len: 1, arg_len: 1, group: InsnGroup::Regular },
        0x25 => Opcode { mnemonic_fmt: "sla (iy+$", mnemonic_tail: "), l", cycles: (23, 0), pre_len: 2, op_len: 1, arg_len: 1, group: InsnGroup::Regular },
        0x26 => Opcode { mnemonic_fmt: "sla (iy+$", mnemonic_tail: ")", cycles: (23, 0), pre_len: 2, op_len: 1, arg_len: 1, group: InsnGroup::Regular },
        0x27 => Opcode { mnemonic_fmt: "sla (iy+$", mnemonic_tail: "), a", cycles: (23, 0), pre_len: 2, op_len: 1, arg_len: 1, group: InsnGroup::Regular },
        0x28 => Opcode { mnemonic_fmt: "sra (iy+$", mnemonic_tail: "), b", cycles: (23, 0), pre_len: 2, op_len: 1, arg_len: 1, group: InsnGroup::Regular },
        0x29 => Opcode { mnemonic_fmt: "sra (iy+$", mnemonic_tail: "), c", cycles: (23, 0), pre_len: 2, op_len: 1, arg_len: 1, group: InsnGroup::Regular },
        0x2A => Opcode { mnemonic_fmt: "sra (iy+$", mnemonic_tail: "), d", cycles: (23, 0), pre_len: 2, op_len: 1, arg_len: 1, group: InsnGroup::Regular },
        0x2B => Opcode { mnemonic_fmt: "sra (iy+$", mnemonic_tail: "), e", cycles: (23, 0), pre_len: 2, op_len: 1, arg_len: 1, group: InsnGroup::Regular },
        0x2C => Opcode { mnemonic_fmt: "sra (iy+$", mnemonic_tail: "), h", cycles: (23, 0), pre_len: 2, op_len: 1, arg_len: 1, group: InsnGroup::Regular },
        0x2D => Opcode { mnemonic_fmt: "sra (iy+$", mnemonic_tail: "), l", cycles: (23, 0), pre_len: 2, op_len: 1, arg_len: 1, group: InsnGroup::Regular },
        0x2E => Opcode { mnemonic_fmt: "sra (iy+$", mnemonic_tail: ")", cycles: (23, 0), pre_len: 2, op_len: 1, arg_len: 1, group: InsnGroup::Regular },
        0x2F => Opcode { mnemonic_fmt: "sra (iy+$", mnemonic_tail: "), a", cycles: (23, 0), pre_len: 2, op_len: 1, arg_len: 1, group: InsnGroup::Regular },
        0x30 => Opcode { mnemonic_fmt: "sll (iy+$", mnemonic_tail: "), b", cycles: (23, 0), pre_len: 2, op_len: 1, arg_len: 1, group: InsnGroup::Regular },
        0x31 => Opcode { mnemonic_fmt: "sll (iy+$", mnemonic_tail: "), c", cycles: (23, 0), pre_len: 2, op_len: 1, arg_len: 1, group: InsnGroup::Regular },
        0x32 => Opcode { mnemonic_fmt: "sll (iy+$", mnemonic_tail: "), d", cycles: (23, 0), pre_len: 2, op_len: 1, arg_len: 1, group: InsnGroup::Regular },
        0x33 => Opcode { mnemonic_fmt: "sll (iy+$", mnemonic_tail: "), e", cycles: (23, 0), pre_len: 2, op_len: 1, arg_len: 1, group: InsnGroup::Regular },
        0x34 => Opcode { mnemonic_fmt: "sll (iy+$", mnemonic_tail: "), h", cycles: (23, 0), pre_len: 2, op_len: 1, arg_len: 1, group: InsnGroup::Regular },
        0x35 => Opcode { mnemonic_fmt: "sll (iy+$", mnemonic_tail: "), l", cycles: (23, 0), pre_len: 2, op_len: 1, arg_len: 1, group: InsnGroup::Regular },
        0x36 => Opcode { mnemonic_fmt: "sll (iy+$", mnemonic_tail: ")", cycles: (23, 0), pre_len: 2, op_len: 1, arg_len: 1, group: InsnGroup::Regular },
        0x37 => Opcode { mnemonic_fmt: "sll (iy+$", mnemonic_tail: "), a", cycles: (23, 0), pre_len: 2, op_len: 1, arg_len: 1, group: InsnGroup::Regular },
        0x38 => Opcode { mnemonic_fmt: "srl (iy+$", mnemonic_tail: "), b", cycles: (23, 0), pre_len: 2, op_len: 1, arg_len: 1, group: InsnGroup::Regular },
        0x39 => Opcode { mnemonic_fmt: "srl (iy+$", mnemonic_tail: "), c", cycles: (23, 0), pre_len: 2, op_len: 1, arg_len: 1, group: InsnGroup::Regular },
        0x3A => Opcode { mnemonic_fmt: "srl (iy+$", mnemonic_tail: "), d", cycles: (23, 0), pre_len: 2, op_len: 1, arg_len: 1, group: InsnGroup::Regular },
        0x3B => Opcode { mnemonic_fmt: "srl (iy+$", mnemonic_tail: "), e", cycles: (23, 0), pre_len: 2, op_len: 1, arg_len: 1, group: InsnGroup::Regular },
        0x3C => Opcode { mnemonic_fmt: "srl (iy+$", mnemonic_tail: "), h", cycles: (23, 0), pre_len: 2, op_len: 1, arg_len: 1, group: InsnGroup::Regular },
        0x3D => Opcode { mnemonic_fmt: "srl (iy+$", mnemonic_tail: "), l", cycles: (23, 0), pre_len: 2, op_len: 1, arg_len: 1, group: InsnGroup::Regular },
        0x3E => Opcode { mnemonic_fmt: "srl (iy+$", mnemonic_tail: ")", cycles: (23, 0), pre_len: 2, op_len: 1, arg_len: 1, group: InsnGroup::Regular },
        0x3F => Opcode { mnemonic_fmt: "srl (iy+$", mnemonic_tail: "), a", cycles: (23, 0), pre_len: 2, op_len: 1, arg_len: 1, group: InsnGroup::Regular },
        0x40 => Opcode { mnemonic_fmt: "bit 0, (iy+$", mnemonic_tail: ")", cycles: (20, 0), pre_len: 2, op_len: 1, arg_len: 1, group: InsnGroup::Regular },
        0x41 => Opcode { mnemonic_fmt: "bit 0, (iy+$", mnemonic_tail: ")", cycles: (20, 0), pre_len: 2, op_len: 1, arg_len: 1, group: InsnGroup::Regular },
        0x42 => Opcode { mnemonic_fmt: "bit 0, (iy+$", mnemonic_tail: ")", cycles: (20, 0), pre_len: 2, op_len: 1, arg_len: 1, group: InsnGroup::Regular },
        0x43 => Opcode { mnemonic_fmt: "bit 0, (iy+$", mnemonic_tail: ")", cycles: (20, 0), pre_len: 2, op_len: 1, arg_len: 1, group: InsnGroup::Regular },
        0x44 => Opcode { mnemonic_fmt: "bit 0, (iy+$", mnemonic_tail: ")", cycles: (20, 0), pre_len: 2, op_len: 1, arg_len: 1, group: InsnGroup::Regular },
        0x45 => Opcode { mnemonic_fmt: "bit 0, (iy+$", mnemonic_tail: ")", cycles: (20, 0), pre_len: 2, op_len: 1, arg_len: 1, group: InsnGroup::Regular },
        0x46 => Opcode { mnemonic_fmt: "bit 0, (iy+$", mnemonic_tail: ")", cycles: (20, 0), pre_len: 2, op_len: 1, arg_len: 1, group: InsnGroup::Regular },
        0x47 => Opcode { mnemonic_fmt: "bit 0, (iy+$", mnemonic_tail: ")", cycles: (20, 0), pre_len: 2, op_len: 1, arg_len: 1, group: InsnGroup::Regular },
        0x48 => Opcode { mnemonic_fmt: "bit 1, (iy+$", mnemonic_tail: ")", cycles: (20, 0), pre_len: 2, op_len: 1, arg_len: 1, group: InsnGroup::Regular },
        0x49 => Opcode { mnemonic_fmt: "bit 1, (iy+$", mnemonic_tail: ")", cycles: (20, 0), pre_len: 2, op_len: 1, arg_len: 1, group: InsnGroup::Regular },
        0x4A => Opcode { mnemonic_fmt: "bit 1, (iy+$", mnemonic_tail: ")", cycles: (20, 0), pre_len: 2, op_len: 1, arg_len: 1, group: InsnGroup::Regular },
        0x4B => Opcode { mnemonic_fmt: "bit 1, (iy+$", mnemonic_tail: ")", cycles: (20, 0), pre_len: 2, op_len: 1, arg_len: 1, group: InsnGroup::Regular },
        0x4C => Opcode { mnemonic_fmt: "bit 1, (iy+$", mnemonic_tail: ")", cycles: (20, 0), pre_len: 2, op_len: 1, arg_len: 1, group: InsnGroup::Regular },
        0x4D => Opcode { mnemonic_fmt: "bit 1, (iy+$", mnemonic_tail: ")", cycles: (20, 0), pre_len: 2, op_len: 1, arg_len: 1, group: InsnGroup::Regular },
        0x4E => Opcode { mnemonic_fmt: "bit 1, (iy+$", mnemonic_tail: ")", cycles: (20, 0), pre_len: 2, op_len: 1, arg_len: 1, group: InsnGroup::Regular },
        0x4F => Opcode { mnemonic_fmt: "bit 1, (iy+$", mnemonic_tail: ")", cycles: (20, 0), pre_len: 2, op_len: 1, arg_len: 1, group: InsnGroup::Regular },
        0x50 => Opcode { mnemonic_fmt: "bit 2, (iy+$", mnemonic_tail: ")", cycles: (20, 0), pre_len: 2, op_len: 1, arg_len: 1, group: InsnGroup::Regular },
        0x51 => Opcode { mnemonic_fmt: "bit 2, (iy+$", mnemonic_tail: ")", cycles: (20, 0), pre_len: 2, op_len: 1, arg_len: 1, group: InsnGroup::Regular },
        0x52 => Opcode { mnemonic_fmt: "bit 2, (iy+$", mnemonic_tail: ")", cycles: (20, 0), pre_len: 2, op_len: 1, arg_len: 1, group: InsnGroup::Regular },
        0x53 => Opcode { mnemonic_fmt: "bit 2, (iy+$", mnemonic_tail: ")", cycles: (20, 0), pre_len: 2, op_len: 1, arg_len: 1, group: InsnGroup::Regular },
        0x54 => Opcode { mnemonic_fmt: "bit 2, (iy+$", mnemonic_tail: ")", cycles: (20, 0), pre_len: 2, op_len: 1, arg_len: 1, group: InsnGroup::Regular },
        0x55 => Opcode { mnemonic_fmt: "bit 2, (iy+$", mnemonic_tail: ")", cycles: (20, 0), pre_len: 2, op_len: 1, arg_len: 1, group: InsnGroup::Regular },
        0x56 => Opcode { mnemonic_fmt: "bit 2, (iy+$", mnemonic_tail: ")", cycles: (20, 0), pre_len: 2, op_len: 1, arg_len: 1, group: InsnGroup::Regular },
        0x57 => Opcode { mnemonic_fmt: "bit 2, (iy+$", mnemonic_tail: ")", cycles: (20, 0), pre_len: 2, op_len: 1, arg_len: 1, group: InsnGroup::Regular },
        0x58 => Opcode { mnemonic_fmt: "bit 3, (iy+$", mnemonic_tail: ")", cycles: (20, 0), pre_len: 2, op_len: 1, arg_len: 1, group: InsnGroup::Regular },
        0x59 => Opcode { mnemonic_fmt: "bit 3, (iy+$", mnemonic_tail: ")", cycles: (20, 0), pre_len: 2, op_len: 1, arg_len: 1, group: InsnGroup::Regular },
        0x5A => Opcode { mnemonic_fmt: "bit 3, (iy+$", mnemonic_tail: ")", cycles: (20, 0), pre_len: 2, op_len: 1, arg_len: 1, group: InsnGroup::Regular },
        0x5B => Opcode { mnemonic_fmt: "bit 3, (iy+$", mnemonic_tail: ")", cycles: (20, 0), pre_len: 2, op_len: 1, arg_len: 1, group: InsnGroup::Regular },
        0x5C => Opcode { mnemonic_fmt: "bit 3, (iy+$", mnemonic_tail: ")", cycles: (20, 0), pre_len: 2, op_len: 1, arg_len: 1, group: InsnGroup::Regular },
        0x5D => Opcode { mnemonic_fmt: "bit 3, (iy+$", mnemonic_tail: ")", cycles: (20, 0), pre_len: 2, op_len: 1, arg_len: 1, group: InsnGroup::Regular },
        0x5E => Opcode { mnemonic_fmt: "bit 3, (iy+$", mnemonic_tail: ")", cycles: (20, 0), pre_len: 2, op_len: 1, arg_len: 1, group: InsnGroup::Regular },
        0x5F => Opcode { mnemonic_fmt: "bit 3, (iy+$", mnemonic_tail: ")", cycles: (20, 0), pre_len: 2, op_len: 1, arg_len: 1, group: InsnGroup::Regular },
        0x60 => Opcode { mnemonic_fmt: "bit 4, (iy+$", mnemonic_tail: ")", cycles: (20, 0), pre_len: 2, op_len: 1, arg_len: 1, group: InsnGroup::Regular },
        0x61 => Opcode { mnemonic_fmt: "bit 4, (iy+$", mnemonic_tail: ")", cycles: (20, 0), pre_len: 2, op_len: 1, arg_len: 1, group: InsnGroup::Regular },
        0x62 => Opcode { mnemonic_fmt: "bit 4, (iy+$", mnemonic_tail: ")", cycles: (20, 0), pre_len: 2, op_len: 1, arg_len: 1, group: InsnGroup::Regular },
        0x63 => Opcode { mnemonic_fmt: "bit 4, (iy+$", mnemonic_tail: ")", cycles: (20, 0), pre_len: 2, op_len: 1, arg_len: 1, group: InsnGroup::Regular },
        0x64 => Opcode { mnemonic_fmt: "bit 4, (iy+$", mnemonic_tail: ")", cycles: (20, 0), pre_len: 2, op_len: 1, arg_len: 1, group: InsnGroup::Regular },
        0x65 => Opcode { mnemonic_fmt: "bit 4, (iy+$", mnemonic_tail: ")", cycles: (20, 0), pre_len: 2, op_len: 1, arg_len: 1, group: InsnGroup::Regular },
        0x66 => Opcode { mnemonic_fmt: "bit 4, (iy+$", mnemonic_tail: ")", cycles: (20, 0), pre_len: 2, op_len: 1, arg_len: 1, group: InsnGroup::Regular },
        0x67 => Opcode { mnemonic_fmt: "bit 4, (iy+$", mnemonic_tail: ")", cycles: (20, 0), pre_len: 2, op_len: 1, arg_len: 1, group: InsnGroup::Regular },
        0x68 => Opcode { mnemonic_fmt: "bit 5, (iy+$", mnemonic_tail: ")", cycles: (20, 0), pre_len: 2, op_len: 1, arg_len: 1, group: InsnGroup::Regular },
        0x69 => Opcode { mnemonic_fmt: "bit 5, (iy+$", mnemonic_tail: ")", cycles: (20, 0), pre_len: 2, op_len: 1, arg_len: 1, group: InsnGroup::Regular },
        0x6A => Opcode { mnemonic_fmt: "bit 5, (iy+$", mnemonic_tail: ")", cycles: (20, 0), pre_len: 2, op_len: 1, arg_len: 1, group: InsnGroup::Regular },
        0x6B => Opcode { mnemonic_fmt: "bit 5, (iy+$", mnemonic_tail: ")", cycles: (20, 0), pre_len: 2, op_len: 1, arg_len: 1, group: InsnGroup::Regular },
        0x6C => Opcode { mnemonic_fmt: "bit 5, (iy+$", mnemonic_tail: ")", cycles: (20, 0), pre_len: 2, op_len: 1, arg_len: 1, group: InsnGroup::Regular },
        0x6D => Opcode { mnemonic_fmt: "bit 5, (iy+$", mnemonic_tail: ")", cycles: (20, 0), pre_len: 2, op_len: 1, arg_len: 1, group: InsnGroup::Regular },
        0x6E => Opcode { mnemonic_fmt: "bit 5, (iy+$", mnemonic_tail: ")", cycles: (20, 0), pre_len: 2, op_len: 1, arg_len: 1, group: InsnGroup::Regular },
        0x6F => Opcode { mnemonic_fmt: "bit 5, (iy+$", mnemonic_tail: ")", cycles: (20, 0), pre_len: 2, op_len: 1, arg_len: 1, group: InsnGroup::Regular },
        0x70 => Opcode { mnemonic_fmt: "bit 6, (iy+$", mnemonic_tail: ")", cycles: (20, 0), pre_len: 2, op_len: 1, arg_len: 1, group: InsnGroup::Regular },
        0x71 => Opcode { mnemonic_fmt: "bit 6, (iy+$", mnemonic_tail: ")", cycles: (20, 0), pre_len: 2, op_len: 1, arg_len: 1, group: InsnGroup::Regular },
        0x72 => Opcode { mnemonic_fmt: "bit 6, (iy+$", mnemonic_tail: ")", cycles: (20, 0), pre_len: 2, op_len: 1, arg_len: 1, group: InsnGroup::Regular },
        0x73 => Opcode { mnemonic_fmt: "bit 6, (iy+$", mnemonic_tail: ")", cycles: (20, 0), pre_len: 2, op_len: 1, arg_len: 1, group: InsnGroup::Regular },
        0x74 => Opcode { mnemonic_fmt: "bit 6, (iy+$", mnemonic_tail: ")", cycles: (20, 0), pre_len: 2, op_len: 1, arg_len: 1, group: InsnGroup::Regular },
        0x75 => Opcode { mnemonic_fmt: "bit 6, (iy+$", mnemonic_tail: ")", cycles: (20, 0), pre_len: 2, op_len: 1, arg_len: 1, group: InsnGroup::Regular },
        0x76 => Opcode { mnemonic_fmt: "bit 6, (iy+$", mnemonic_tail: ")", cycles: (20, 0), pre_len: 2, op_len: 1, arg_len: 1, group: InsnGroup::Regular },
        0x77 => Opcode { mnemonic_fmt: "bit 6, (iy+$", mnemonic_tail: ")", cycles: (20, 0), pre_len: 2, op_len: 1, arg_len: 1, group: InsnGroup::Regular },
        0x78 => Opcode { mnemonic_fmt: "bit 7, (iy+$", mnemonic_tail: ")", cycles: (20, 0), pre_len: 2, op_len: 1, arg_len: 1, group: InsnGroup::Regular },
        0x79 => Opcode { mnemonic_fmt: "bit 7, (iy+$", mnemonic_tail: ")", cycles: (20, 0), pre_len: 2, op_len: 1, arg_len: 1, group: InsnGroup::Regular },
        0x7A => Opcode { mnemonic_fmt: "bit 7, (iy+$", mnemonic_tail: ")", cycles: (20, 0), pre_len: 2, op_len: 1, arg_len: 1, group: InsnGroup::Regular },
        0x7B => Opcode { mnemonic_fmt: "bit 7, (iy+$", mnemonic_tail: ")", cycles: (20, 0), pre_len: 2, op_len: 1, arg_len: 1, group: InsnGroup::Regular },
        0x7C => Opcode { mnemonic_fmt: "bit 7, (iy+$", mnemonic_tail: ")", cycles: (20, 0), pre_len: 2, op_len: 1, arg_len: 1, group: InsnGroup::Regular },
        0x7D => Opcode { mnemonic_fmt: "bit 7, (iy+$", mnemonic_tail: ")", cycles: (20, 0), pre_len: 2, op_len: 1, arg_len: 1, group: InsnGroup::Regular },
        0x7E => Opcode { mnemonic_fmt: "bit 7, (iy+$", mnemonic_tail: ")", cycles: (20, 0), pre_len: 2, op_len: 1, arg_len: 1, group: InsnGroup::Regular },
        0x7F => Opcode { mnemonic_fmt: "bit 7, (iy+$", mnemonic_tail: ")", cycles: (20, 0), pre_len: 2, op_len: 1, arg_len: 1, group: InsnGroup::Regular },
        0x80 => Opcode { mnemonic_fmt: "res 0, (iy+$", mnemonic_tail: "), b", cycles: (23, 0), pre_len: 2, op_len: 1, arg_len: 1, group: InsnGroup::Regular },
        0x81 => Opcode { mnemonic_fmt: "res 0, (iy+$", mnemonic_tail: "), c", cycles: (23, 0), pre_len: 2, op_len: 1, arg_len: 1, group: InsnGroup::Regular },
        0x82 => Opcode { mnemonic_fmt: "res 0, (iy+$", mnemonic_tail: "), d", cycles: (23, 0), pre_len: 2, op_len: 1, arg_len: 1, group: InsnGroup::Regular },
        0x83 => Opcode { mnemonic_fmt: "res 0, (iy+$", mnemonic_tail: "), e", cycles: (23, 0), pre_len: 2, op_len: 1, arg_len: 1, group: InsnGroup::Regular },
        0x84 => Opcode { mnemonic_fmt: "res 0, (iy+$", mnemonic_tail: "), h", cycles: (23, 0), pre_len: 2, op_len: 1, arg_len: 1, group: InsnGroup::Regular },
        0x85 => Opcode { mnemonic_fmt: "res 0, (iy+$", mnemonic_tail: "), l", cycles: (23, 0), pre_len: 2, op_len: 1, arg_len: 1, group: InsnGroup::Regular },
        0x86 => Opcode { mnemonic_fmt: "res 0, (iy+$", mnemonic_tail: ")", cycles: (23, 0), pre_len: 2, op_len: 1, arg_len: 1, group: InsnGroup::Regular },
        0x87 => Opcode { mnemonic_fmt: "res 0, (iy+$", mnemonic_tail: "), a", cycles: (23, 0), pre_len: 2, op_len: 1, arg_len: 1, group: InsnGroup::Regular },
        0x88 => Opcode { mnemonic_fmt: "res 1, (iy+$", mnemonic_tail: "), b", cycles: (23, 0), pre_len: 2, op_len: 1, arg_len: 1, group: InsnGroup::Regular },
        0x89 => Opcode { mnemonic_fmt: "res 1, (iy+$", mnemonic_tail: "), c", cycles: (23, 0), pre_len: 2, op_len: 1, arg_len: 1, group: InsnGroup::Regular },
        0x8A => Opcode { mnemonic_fmt: "res 1, (iy+$", mnemonic_tail: "), d", cycles: (23, 0), pre_len: 2, op_len: 1, arg_len: 1, group: InsnGroup::Regular },
        0x8B => Opcode { mnemonic_fmt: "res 1, (iy+$", mnemonic_tail: "), e", cycles: (23, 0), pre_len: 2, op_len: 1, arg_len: 1, group: InsnGroup::Regular },
        0x8C => Opcode { mnemonic_fmt: "res 1, (iy+$", mnemonic_tail: "), h", cycles: (23, 0), pre_len: 2, op_len: 1, arg_len: 1, group: InsnGroup::Regular },
        0x8D => Opcode { mnemonic_fmt: "res 1, (iy+$", mnemonic_tail: "), l", cycles: (23, 0), pre_len: 2, op_len: 1, arg_len: 1, group: InsnGroup::Regular },
        0x8E => Opcode { mnemonic_fmt: "res 1, (iy+$", mnemonic_tail: ")", cycles: (23, 0), pre_len: 2, op_len: 1, arg_len: 1, group: InsnGroup::Regular },
        0x8F => Opcode { mnemonic_fmt: "res 1, (iy+$", mnemonic_tail: "), a", cycles: (23, 0), pre_len: 2, op_len: 1, arg_len: 1, group: InsnGroup::Regular },
        0x90 => Opcode { mnemonic_fmt: "res 2, (iy+$", mnemonic_tail: "), b", cycles: (23, 0), pre_len: 2, op_len: 1, arg_len: 1, group: InsnGroup::Regular },
        0x91 => Opcode { mnemonic_fmt: "res 2, (iy+$", mnemonic_tail: "), c", cycles: (23, 0), pre_len: 2, op_len: 1, arg_len: 1, group: InsnGroup::Regular },
        0x92 => Opcode { mnemonic_fmt: "res 2, (iy+$", mnemonic_tail: "), d", cycles: (23, 0), pre_len: 2, op_len: 1, arg_len: 1, group: InsnGroup::Regular },
        0x93 => Opcode { mnemonic_fmt: "res 2, (iy+$", mnemonic_tail: "), e", cycles: (23, 0), pre_len: 2, op_len: 1, arg_len: 1, group: InsnGroup::Regular },
        0x94 => Opcode { mnemonic_fmt: "res 2, (iy+$", mnemonic_tail: "), h", cycles: (23, 0), pre_len: 2, op_len: 1, arg_len: 1, group: InsnGroup::Regular },
        0x95 => Opcode { mnemonic_fmt: "res 2, (iy+$", mnemonic_tail: "), l", cycles: (23, 0), pre_len: 2, op_len: 1, arg_len: 1, group: InsnGroup::Regular },
        0x96 => Opcode { mnemonic_fmt: "res 2, (iy+$", mnemonic_tail: ")", cycles: (23, 0), pre_len: 2, op_len: 1, arg_len: 1, group: InsnGroup::Regular },
        0x97 => Opcode { mnemonic_fmt: "res 2, (iy+$", mnemonic_tail: "), a", cycles: (23, 0), pre_len: 2, op_len: 1, arg_len: 1, group: InsnGroup::Regular },
        0x98 => Opcode { mnemonic_fmt: "res 3, (iy+$", mnemonic_tail: "), b", cycles: (23, 0), pre_len: 2, op_len: 1, arg_len: 1, group: InsnGroup::Regular },
        0x99 => Opcode { mnemonic_fmt: "res 3, (iy+$", mnemonic_tail: "), c", cycles: (23, 0), pre_len: 2, op_len: 1, arg_len: 1, group: InsnGroup::Regular },
        0x9A => Opcode { mnemonic_fmt: "res 3, (iy+$", mnemonic_tail: "), d", cycles: (23, 0), pre_len: 2, op_len: 1, arg_len: 1, group: InsnGroup::Regular },
        0x9B => Opcode { mnemonic_fmt: "res 3, (iy+$", mnemonic_tail: "), e", cycles: (23, 0), pre_len: 2, op_len: 1, arg_len: 1, group: InsnGroup::Regular },
        0x9C => Opcode { mnemonic_fmt: "res 3, (iy+$", mnemonic_tail: "), h", cycles: (23, 0), pre_len: 2, op_len: 1, arg_len: 1, group: InsnGroup::Regular },
        0x9D => Opcode { mnemonic_fmt: "res 3, (iy+$", mnemonic_tail: "), l", cycles: (23, 0), pre_len: 2, op_len: 1, arg_len: 1, group: InsnGroup::Regular },
        0x9E => Opcode { mnemonic_fmt: "res 3, (iy+$", mnemonic_tail: ")", cycles: (23, 0), pre_len: 2, op_len: 1, arg_len: 1, group: InsnGroup::Regular },
        0x9F => Opcode { mnemonic_fmt: "res 3, (iy+$", mnemonic_tail: "), a", cycles: (23, 0), pre_len: 2, op_len: 1, arg_len: 1, group: InsnGroup::Regular },
        0xA0 => Opcode { mnemonic_fmt: "res 4, (iy+$", mnemonic_tail: "), b", cycles: (23, 0), pre_len: 2, op_len: 1, arg_len: 1, group: InsnGroup::Regular },
        0xA1 => Opcode { mnemonic_fmt: "res 4, (iy+$", mnemonic_tail: "), c", cycles: (23, 0), pre_len: 2, op_len: 1, arg_len: 1, group: InsnGroup::Regular },
        0xA2 => Opcode { mnemonic_fmt: "res 4, (iy+$", mnemonic_tail: "), d", cycles: (23, 0), pre_len: 2, op_len: 1, arg_len: 1, group: InsnGroup::Regular },
        0xA3 => Opcode { mnemonic_fmt: "res 4, (iy+$", mnemonic_tail: "), e", cycles: (23, 0), pre_len: 2, op_len: 1, arg_len: 1, group: InsnGroup::Regular },
        0xA4 => Opcode { mnemonic_fmt: "res 4, (iy+$", mnemonic_tail: "), h", cycles: (23, 0), pre_len: 2, op_len: 1, arg_len: 1, group: InsnGroup::Regular },
        0xA5 => Opcode { mnemonic_fmt: "res 4, (iy+$", mnemonic_tail: "), l", cycles: (23, 0), pre_len: 2, op_len: 1, arg_len: 1, group: InsnGroup::Regular },
        0xA6 => Opcode { mnemonic_fmt: "res 4, (iy+$", mnemonic_tail: ")", cycles: (23, 0), pre_len: 2, op_len: 1, arg_len: 1, group: InsnGroup::Regular },
        0xA7 => Opcode { mnemonic_fmt: "res 4, (iy+$", mnemonic_tail: "), a", cycles: (23, 0), pre_len: 2, op_len: 1, arg_len: 1, group: InsnGroup::Regular },
        0xA8 => Opcode { mnemonic_fmt: "res 5, (iy+$", mnemonic_tail: "), b", cycles: (23, 0), pre_len: 2, op_len: 1, arg_len: 1, group: InsnGroup::Regular },
        0xA9 => Opcode { mnemonic_fmt: "res 5, (iy+$", mnemonic_tail: "), c", cycles: (23, 0), pre_len: 2, op_len: 1, arg_len: 1, group: InsnGroup::Regular },
        0xAA => Opcode { mnemonic_fmt: "res 5, (iy+$", mnemonic_tail: "), d", cycles: (23, 0), pre_len: 2, op_len: 1, arg_len: 1, group: InsnGroup::Regular },
        0xAB => Opcode { mnemonic_fmt: "res 5, (iy+$", mnemonic_tail: "), e", cycles: (23, 0), pre_len: 2, op_len: 1, arg_len: 1, group: InsnGroup::Regular },
        0xAC => Opcode { mnemonic_fmt: "res 5, (iy+$", mnemonic_tail: "), h", cycles: (23, 0), pre_len: 2, op_len: 1, arg_len: 1, group: InsnGroup::Regular },
        0xAD => Opcode { mnemonic_fmt: "res 5, (iy+$", mnemonic_tail: "), l", cycles: (23, 0), pre_len: 2, op_len: 1, arg_len: 1, group: InsnGroup::Regular },
        0xAE => Opcode { mnemonic_fmt: "res 5, (iy+$", mnemonic_tail: ")", cycles: (23, 0), pre_len: 2, op_len: 1, arg_len: 1, group: InsnGroup::Regular },
        0xAF => Opcode { mnemonic_fmt: "res 5, (iy+$", mnemonic_tail: "), a", cycles: (23, 0), pre_len: 2, op_len: 1, arg_len: 1, group: InsnGroup::Regular },
        0xB0 => Opcode { mnemonic_fmt: "res 6, (iy+$", mnemonic_tail: "), b", cycles: (23, 0), pre_len: 2, op_len: 1, arg_len: 1, group: InsnGroup::Regular },
        0xB1 => Opcode { mnemonic_fmt: "res 6, (iy+$", mnemonic_tail: "), c", cycles: (23, 0), pre_len: 2, op_len: 1, arg_len: 1, group: InsnGroup::Regular },
        0xB2 => Opcode { mnemonic_fmt: "res 6, (iy+$", mnemonic_tail: "), d", cycles: (23, 0), pre_len: 2, op_len: 1, arg_len: 1, group: InsnGroup::Regular },
        0xB3 => Opcode { mnemonic_fmt: "res 6, (iy+$", mnemonic_tail: "), e", cycles: (23, 0), pre_len: 2, op_len: 1, arg_len: 1, group: InsnGroup::Regular },
        0xB4 => Opcode { mnemonic_fmt: "res 6, (iy+$", mnemonic_tail: "), h", cycles: (23, 0), pre_len: 2, op_len: 1, arg_len: 1, group: InsnGroup::Regular },
        0xB5 => Opcode { mnemonic_fmt: "res 6, (iy+$", mnemonic_tail: "), l", cycles: (23, 0), pre_len: 2, op_len: 1, arg_len: 1, group: InsnGroup::Regular },
        0xB6 => Opcode { mnemonic_fmt: "res 6, (iy+$", mnemonic_tail: ")", cycles: (23, 0), pre_len: 2, op_len: 1, arg_len: 1, group: InsnGroup::Regular },
        0xB7 => Opcode { mnemonic_fmt: "res 6, (iy+$", mnemonic_tail: "), a", cycles: (23, 0), pre_len: 2, op_len: 1, arg_len: 1, group: InsnGroup::Regular },
        0xB8 => Opcode { mnemonic_fmt: "res 7, (iy+$", mnemonic_tail: "), b", cycles: (23, 0), pre_len: 2, op_len: 1, arg_len: 1, group: InsnGroup::Regular },
        0xB9 => Opcode { mnemonic_fmt: "res 7, (iy+$", mnemonic_tail: "), c", cycles: (23, 0), pre_len: 2, op_len: 1, arg_len: 1, group: InsnGroup::Regular },
        0xBA => Opcode { mnemonic_fmt: "res 7, (iy+$", mnemonic_tail: "), d", cycles: (23, 0), pre_len: 2, op_len: 1, arg_len: 1, group: InsnGroup::Regular },
        0xBB => Opcode { mnemonic_fmt: "res 7, (iy+$", mnemonic_tail: "), e", cycles: (23, 0), pre_len: 2, op_len: 1, arg_len: 1, group: InsnGroup::Regular },
        0xBC => Opcode { mnemonic_fmt: "res 7, (iy+$", mnemonic_tail: "), h", cycles: (23, 0), pre_len: 2, op_len: 1, arg_len: 1, group: InsnGroup::Regular },
        0xBD => Opcode { mnemonic_fmt: "res 7, (iy+$", mnemonic_tail: "), l", cycles: (23, 0), pre_len: 2, op_len: 1, arg_len: 1, group: InsnGroup::Regular },
        0xBE => Opcode { mnemonic_fmt: "res 7, (iy+$", mnemonic_tail: ")", cycles: (23, 0), pre_len: 2, op_len: 1, arg_len: 1, group: InsnGroup::Regular },
        0xBF => Opcode { mnemonic_fmt: "res 7, (iy+$", mnemonic_tail: "), a", cycles: (23, 0), pre_len: 2, op_len: 1, arg_len: 1, group: InsnGroup::Regular },
        0xC0 => Opcode { mnemonic_fmt: "set 0, (iy+$", mnemonic_tail: "), b", cycles: (23, 0), pre_len: 2, op_len: 1, arg_len: 1, group: InsnGroup::Regular },
        0xC1 => Opcode { mnemonic_fmt: "set 0, (iy+$", mnemonic_tail: "), c", cycles: (23, 0), pre_len: 2, op_len: 1, arg_len: 1, group: InsnGroup::Regular },
        0xC2 => Opcode { mnemonic_fmt: "set 0, (iy+$", mnemonic_tail: "), d", cycles: (23, 0), pre_len: 2, op_len: 1, arg_len: 1, group: InsnGroup::Regular },
        0xC3 => Opcode { mnemonic_fmt: "set 0, (iy+$", mnemonic_tail: "), e", cycles: (23, 0), pre_len: 2, op_len: 1, arg_len: 1, group: InsnGroup::Regular },
        0xC4 => Opcode { mnemonic_fmt: "set 0, (iy+$", mnemonic_tail: "), h", cycles: (23, 0), pre_len: 2, op_len: 1, arg_len: 1, group: InsnGroup::Regular },
        0xC5 => Opcode { mnemonic_fmt: "set 0, (iy+$", mnemonic_tail: "), l", cycles: (23, 0), pre_len: 2, op_len: 1, arg_len: 1, group: InsnGroup::Regular },
        0xC6 => Opcode { mnemonic_fmt: "set 0, (iy+$", mnemonic_tail: ")", cycles: (23, 0), pre_len: 2, op_len: 1, arg_len: 1, group: InsnGroup::Regular },
        0xC7 => Opcode { mnemonic_fmt: "set 0, (iy+$", mnemonic_tail: "), a", cycles: (23, 0), pre_len: 2, op_len: 1, arg_len: 1, group: InsnGroup::Regular },
        0xC8 => Opcode { mnemonic_fmt: "set 1, (iy+$", mnemonic_tail: "), b", cycles: (23, 0), pre_len: 2, op_len: 1, arg_len: 1, group: InsnGroup::Regular },
        0xC9 => Opcode { mnemonic_fmt: "set 1, (iy+$", mnemonic_tail: "), c", cycles: (23, 0), pre_len: 2, op_len: 1, arg_len: 1, group: InsnGroup::Regular },
        0xCA => Opcode { mnemonic_fmt: "set 1, (iy+$", mnemonic_tail: "), d", cycles: (23, 0), pre_len: 2, op_len: 1, arg_len: 1, group: InsnGroup::Regular },
        0xCB => Opcode { mnemonic_fmt: "set 1, (iy+$", mnemonic_tail: "), e", cycles: (23, 0), pre_len: 2, op_len: 1, arg_len: 1, group: InsnGroup::Regular },
        0xCC => Opcode { mnemonic_fmt: "set 1, (iy+$", mnemonic_tail: "), h", cycles: (23, 0), pre_len: 2, op_len: 1, arg_len: 1, group: InsnGroup::Regular },
        0xCD => Opcode { mnemonic_fmt: "set 1, (iy+$", mnemonic_tail: "), l", cycles: (23, 0), pre_len: 2, op_len: 1, arg_len: 1, group: InsnGroup::Regular },
        0xCE => Opcode { mnemonic_fmt: "set 1, (iy+$", mnemonic_tail: ")", cycles: (23, 0), pre_len: 2, op_len: 1, arg_len: 1, group: InsnGroup::Regular },
        0xCF => Opcode { mnemonic_fmt: "set 1, (iy+$", mnemonic_tail: "), a", cycles: (23, 0), pre_len: 2, op_len: 1, arg_len: 1, group: InsnGroup::Regular },
        0xD0 => Opcode { mnemonic_fmt: "set 2, (iy+$", mnemonic_tail: "), b", cycles: (23, 0), pre_len: 2, op_len: 1, arg_len: 1, group: InsnGroup::Regular },
        0xD1 => Opcode { mnemonic_fmt: "set 2, (iy+$", mnemonic_tail: "), c", cycles: (23, 0), pre_len: 2, op_len: 1, arg_len: 1, group: InsnGroup::Regular },
        0xD2 => Opcode { mnemonic_fmt: "set 2, (iy+$", mnemonic_tail: "), d", cycles: (23, 0), pre_len: 2, op_len: 1, arg_len: 1, group: InsnGroup::Regular },
        0xD3 => Opcode { mnemonic_fmt: "set 2, (iy+$", mnemonic_tail: "), e", cycles: (23, 0), pre_len: 2, op_len: 1, arg_len: 1, group: InsnGroup::Regular },
        0xD4 => Opcode { mnemonic_fmt: "set 2, (iy+$", mnemonic_tail: "), h", cycles: (23, 0), pre_len: 2, op_len: 1, arg_len: 1, group: InsnGroup::Regular },
        0xD5 => Opcode { mnemonic_fmt: "set 2, (iy+$", mnemonic_tail: "), l", cycles: (23, 0), pre_len: 2, op_len: 1, arg_len: 1, group: InsnGroup::Regular },
        0xD6 => Opcode { mnemonic_fmt: "set 2, (iy+$", mnemonic_tail: ")", cycles: (23, 0), pre_len: 2, op_len: 1, arg_len: 1, group: InsnGroup::Regular },
        0xD7 => Opcode { mnemonic_fmt: "set 2, (iy+$", mnemonic_tail: "), a", cycles: (23, 0), pre_len: 2, op_len: 1, arg_len: 1, group: InsnGroup::Regular },
        0xD8 => Opcode { mnemonic_fmt: "set 3, (iy+$", mnemonic_tail: "), b", cycles: (23, 0), pre_len: 2, op_len: 1, arg_len: 1, group: InsnGroup::Regular },
        0xD9 => Opcode { mnemonic_fmt: "set 3, (iy+$", mnemonic_tail: "), c", cycles: (23, 0), pre_len: 2, op_len: 1, arg_len: 1, group: InsnGroup::Regular },
        0xDA => Opcode { mnemonic_fmt: "set 3, (iy+$", mnemonic_tail: "), d", cycles: (23, 0), pre_len: 2, op_len: 1, arg_len: 1, group: InsnGroup::Regular },
        0xDB => Opcode { mnemonic_fmt: "set 3, (iy+$", mnemonic_tail: "), e", cycles: (23, 0), pre_len: 2, op_len: 1, arg_len: 1, group: InsnGroup::Regular },
        0xDC => Opcode { mnemonic_fmt: "set 3, (iy+$", mnemonic_tail: "), h", cycles: (23, 0), pre_len: 2, op_len: 1, arg_len: 1, group: InsnGroup::Regular },
        0xDD => Opcode { mnemonic_fmt: "set 3, (iy+$", mnemonic_tail: "), l", cycles: (23, 0), pre_len: 2, op_len: 1, arg_len: 1, group: InsnGroup::Regular },
        0xDE => Opcode { mnemonic_fmt: "set 3, (iy+$", mnemonic_tail: ")", cycles: (23, 0), pre_len: 2, op_len: 1, arg_len: 1, group: InsnGroup::Regular },
        0xDF => Opcode { mnemonic_fmt: "set 3, (iy+$", mnemonic_tail: "), a", cycles: (23, 0), pre_len: 2, op_len: 1, arg_len: 1, group: InsnGroup::Regular },
        0xE0 => Opcode { mnemonic_fmt: "set 4, (iy+$", mnemonic_tail: "), b", cycles: (23, 0), pre_len: 2, op_len: 1, arg_len: 1, group: InsnGroup::Regular },
        0xE1 => Opcode { mnemonic_fmt: "set 4, (iy+$", mnemonic_tail: "), c", cycles: (23, 0), pre_len: 2, op_len: 1, arg_len: 1, group: InsnGroup::Regular },
        0xE2 => Opcode { mnemonic_fmt: "set 4, (iy+$", mnemonic_tail: "), d", cycles: (23, 0), pre_len: 2, op_len: 1, arg_len: 1, group: InsnGroup::Regular },
        0xE3 => Opcode { mnemonic_fmt: "set 4, (iy+$", mnemonic_tail: "), e", cycles: (23, 0), pre_len: 2, op_len: 1, arg_len: 1, group: InsnGroup::Regular },
        0xE4 => Opcode { mnemonic_fmt: "set 4, (iy+$", mnemonic_tail: "), h", cycles: (23, 0), pre_len: 2, op_len: 1, arg_len: 1, group: InsnGroup::Regular },
        0xE5 => Opcode { mnemonic_fmt: "set 4, (iy+$", mnemonic_tail: "), l", cycles: (23, 0), pre_len: 2, op_len: 1, arg_len: 1, group: InsnGroup::Regular },
        0xE6 => Opcode { mnemonic_fmt: "set 4, (iy+$", mnemonic_tail: ")", cycles: (23, 0), pre_len: 2, op_len: 1, arg_len: 1, group: InsnGroup::Regular },
        0xE7 => Opcode { mnemonic_fmt: "set 4, (iy+$", mnemonic_tail: "), a", cycles: (23, 0), pre_len: 2, op_len: 1, arg_len: 1, group: InsnGroup::Regular },
        0xE8 => Opcode { mnemonic_fmt: "set 5, (iy+$", mnemonic_tail: "), b", cycles: (23, 0), pre_len: 2, op_len: 1, arg_len: 1, group: InsnGroup::Regular },
        0xE9 => Opcode { mnemonic_fmt: "set 5, (iy+$", mnemonic_tail: "), c", cycles: (23, 0), pre_len: 2, op_len: 1, arg_len: 1, group: InsnGroup::Regular },
        0xEA => Opcode { mnemonic_fmt: "set 5, (iy+$", mnemonic_tail: "), d", cycles: (23, 0), pre_len: 2, op_len: 1, arg_len: 1, group: InsnGroup::Regular },
        0xEB => Opcode { mnemonic_fmt: "set 5, (iy+$", mnemonic_tail: "), e", cycles: (23, 0), pre_len: 2, op_len: 1, arg_len: 1, group: InsnGroup::Regular },
        0xEC => Opcode { mnemonic_fmt: "set 5, (iy+$", mnemonic_tail: "), h", cycles: (23, 0), pre_len: 2, op_len: 1, arg_len: 1, group: InsnGroup::Regular },
        0xED => Opcode { mnemonic_fmt: "set 5, (iy+$", mnemonic_tail: "), l", cycles: (23, 0), pre_len: 2, op_len: 1, arg_len: 1, group: InsnGroup::Regular },
        0xEE => Opcode { mnemonic_fmt: "set 5, (iy+$", mnemonic_tail: ")", cycles: (23, 0), pre_len: 2, op_len: 1, arg_len: 1, group: InsnGroup::Regular },
        0xEF => Opcode { mnemonic_fmt: "set 5, (iy+$", mnemonic_tail: "), a", cycles: (23, 0), pre_len: 2, op_len: 1, arg_len: 1, group: InsnGroup::Regular },
        0xF0 => Opcode { mnemonic_fmt: "set 6, (iy+$", mnemonic_tail: "), b", cycles: (23, 0), pre_len: 2, op_len: 1, arg_len: 1, group: InsnGroup::Regular },
        0xF1 => Opcode { mnemonic_fmt: "set 6, (iy+$", mnemonic_tail: "), c", cycles: (23, 0), pre_len: 2, op_len: 1, arg_len: 1, group: InsnGroup::Regular },
        0xF2 => Opcode { mnemonic_fmt: "set 6, (iy+$", mnemonic_tail: "), d", cycles: (23, 0), pre_len: 2, op_len: 1, arg_len: 1, group: InsnGroup::Regular },
        0xF3 => Opcode { mnemonic_fmt: "set 6, (iy+$", mnemonic_tail: "), e", cycles: (23, 0), pre_len: 2, op_len: 1, arg_len: 1, group: InsnGroup::Regular },
        0xF4 => Opcode { mnemonic_fmt: "set 6, (iy+$", mnemonic_tail: "), h", cycles: (23, 0), pre_len: 2, op_len: 1, arg_len: 1, group: InsnGroup::Regular },
        0xF5 => Opcode { mnemonic_fmt: "set 6, (iy+$", mnemonic_tail: "), l", cycles: (23, 0), pre_len: 2, op_len: 1, arg_len: 1, group: InsnGroup::Regular },
        0xF6 => Opcode { mnemonic_fmt: "set 6, (iy+$", mnemonic_tail: ")", cycles: (23, 0), pre_len: 2, op_len: 1, arg_len: 1, group: InsnGroup::Regular },
        0xF7 => Opcode { mnemonic_fmt: "set 6, (iy+$", mnemonic_tail: "), a", cycles: (23, 0), pre_len: 2, op_len: 1, arg_len: 1, group: InsnGroup::Regular },
        0xF8 => Opcode { mnemonic_fmt: "set 7, (iy+$", mnemonic_tail: "), b", cycles: (23, 0), pre_len: 2, op_len: 1, arg_len: 1, group: InsnGroup::Regular },
        0xF9 => Opcode { mnemonic_fmt: "set 7, (iy+$", mnemonic_tail: "), c", cycles: (23, 0), pre_len: 2, op_len: 1, arg_len: 1, group: InsnGroup::Regular },
        0xFA => Opcode { mnemonic_fmt: "set 7, (iy+$", mnemonic_tail: "), d", cycles: (23, 0), pre_len: 2, op_len: 1, arg_len: 1, group: InsnGroup::Regular },
        0xFB => Opcode { mnemonic_fmt: "set 7, (iy+$", mnemonic_tail: "), e", cycles: (23, 0), pre_len: 2, op_len: 1, arg_len: 1, group: InsnGroup::Regular },
        0xFC => Opcode { mnemonic_fmt: "set 7, (iy+$", mnemonic_tail: "), h", cycles: (23, 0), pre_len: 2, op_len: 1, arg_len: 1, group: InsnGroup::Regular },
        0xFD => Opcode { mnemonic_fmt: "set 7, (iy+$", mnemonic_tail: "), l", cycles: (23, 0), pre_len: 2, op_len: 1, arg_len: 1, group: InsnGroup::Regular },
        0xFE => Opcode { mnemonic_fmt: "set 7, (iy+$", mnemonic_tail: ")", cycles: (23, 0), pre_len: 2, op_len: 1, arg_len: 1, group: InsnGroup::Regular },
        _ => Opcode { mnemonic_fmt: "set 7, (iy+$", mnemonic_tail: "), a", cycles: (23, 0), pre_len: 2, op_len: 1, arg_len: 1, group: InsnGroup::Regular },
    }
}

} // verus!
