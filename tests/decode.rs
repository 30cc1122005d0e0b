use dis_z80::{disass_hex_string, disass_insn, disass_stream, DecodeError, Insn, InsnGroup, Opcode};
use dis_z80::decode::{read_operand, resolve_prefix, Table};

fn decode(bytes: &[u8]) -> Result<Insn, DecodeError> {
    disass_insn(&bytes.to_vec(), 0, 0)
}

#[test]
fn nop_round_trip() {
    let i = disass_insn(&vec![0x00], 0, 0x0000).unwrap();
    assert_eq!(i.mnemonic, "nop");
    assert_eq!(i.opcode.size(), 1);
    assert_eq!(i.bytes, vec![0x00]);
    assert_eq!(i.opcode.cycles.0, 4);
    assert_eq!(i.opcode.group, InsnGroup::Regular);
    assert_eq!(i.address, 0);
    assert_eq!(i.arg, 0);
}

#[test]
fn little_endian_operand() {
    let i = decode(&[0x01, 0x34, 0x12]).unwrap();
    assert_eq!(i.arg, 0x1234);
    assert!(i.mnemonic.contains("1234"));
    assert_eq!(i.mnemonic, "ld bc, $1234");
    assert_eq!(i.bytes, vec![0x01, 0x34, 0x12]);
}

#[test]
fn one_byte_operand_two_digits() {
    let i = decode(&[0x3E, 0x0A]).unwrap();
    assert_eq!(i.mnemonic, "ld a, $0a");
    assert_eq!(i.arg, 0x0A);
    assert_eq!(i.opcode.size(), 2);
}

#[test]
fn two_byte_operand_keeps_leading_zeros() {
    let i = decode(&[0xC3, 0x05, 0x00]).unwrap();
    assert_eq!(i.mnemonic, "jp $0005");
    assert_eq!(i.opcode.group, InsnGroup::Jump);
}

#[test]
fn operand_inside_template() {
    let i = decode(&[0x32, 0x00, 0x80]).unwrap();
    assert_eq!(i.mnemonic, "ld ($8000), a");
    assert_eq!(i.opcode.cycles, (13, 0));
}

#[test]
fn compound_prefix_dd_cb() {
    let i = decode(&[0xDD, 0xCB, 0x05, 0x06]).unwrap();
    assert_eq!(i.mnemonic, "rlc (ix+$05)");
    assert_eq!(i.opcode.size(), 4);
    assert_eq!(i.bytes, vec![0xDD, 0xCB, 0x05, 0x06]);
    assert_eq!(i.arg, 0x05);
    let b = decode(&[0xDD, 0xCB, 0x10, 0x46]).unwrap();
    assert_eq!(b.mnemonic, "bit 0, (ix+$10)");
    assert_eq!(b.opcode.size(), 4);
}

#[test]
fn compound_prefix_fd_cb() {
    let i = decode(&[0xFD, 0xCB, 0x7F, 0xFE]).unwrap();
    assert_eq!(i.mnemonic, "set 7, (iy+$7f)");
    assert_eq!(i.opcode.size(), 4);
}

#[test]
fn compound_prefix_every_opcode_takes_four_bytes() {
    for op in 0..=255u8 {
        let i = decode(&[0xDD, 0xCB, 0x01, op]).unwrap();
        assert_eq!(i.bytes.len(), 4);
        let j = decode(&[0xFD, 0xCB, 0x01, op]).unwrap();
        assert_eq!(j.bytes.len(), 4);
    }
}

#[test]
fn compound_prefix_without_opcode_is_truncated_prefix() {
    assert_eq!(decode(&[0xDD, 0xCB]).unwrap_err(), DecodeError::TruncatedPrefix);
    assert_eq!(decode(&[0xFD, 0xCB, 0x01]).unwrap_err(), DecodeError::TruncatedPrefix);
}

#[test]
fn final_prefix_is_truncated_prefix() {
    for p in [0xCBu8, 0xDD, 0xED, 0xFD] {
        assert_eq!(decode(&[p]).unwrap_err(), DecodeError::TruncatedPrefix);
        let s = vec![0x00, p];
        assert_eq!(disass_insn(&s, 1, 0).unwrap_err(), DecodeError::TruncatedPrefix);
    }
}

#[test]
fn missing_operand_is_truncated_operand() {
    assert_eq!(decode(&[0x01, 0x34]).unwrap_err(), DecodeError::TruncatedOperand);
    assert_eq!(decode(&[0x3E]).unwrap_err(), DecodeError::TruncatedOperand);
    assert_eq!(decode(&[0xED, 0x43, 0x00]).unwrap_err(), DecodeError::TruncatedOperand);
}

#[test]
fn unprefixed_bytes_use_main_table() {
    for b in 0..=255u8 {
        if [0xCB, 0xDD, 0xED, 0xFD].contains(&b) {
            continue;
        }
        let i = decode(&[b, 0x11, 0x22]).unwrap();
        assert_eq!(i.opcode.pre_len, 0);
        assert_eq!(i.bytes[0], b);
        assert_eq!(i.bytes.len(), 1 + i.opcode.arg_len as usize);
    }
    assert_eq!(decode(&[0x76]).unwrap().mnemonic, "halt");
    assert_eq!(decode(&[0xC9]).unwrap().opcode.group, InsnGroup::Ret);
    assert_eq!(decode(&[0xFF]).unwrap().mnemonic, "rst $38");
    assert_eq!(decode(&[0xFF]).unwrap().opcode.group, InsnGroup::Int);
}

#[test]
fn conditional_instructions_carry_extra_cycles() {
    let i = decode(&[0x20, 0xFE]).unwrap();
    assert_eq!(i.mnemonic, "jr nz, $fe");
    assert_eq!(i.opcode.cycles, (7, 5));
    assert_eq!(i.opcode.group, InsnGroup::BranchRelCond);
    let c = decode(&[0xCC, 0x00, 0x10]).unwrap();
    assert_eq!(c.mnemonic, "call z, $1000");
    assert_eq!(c.opcode.group, InsnGroup::CallCond);
}

#[test]
fn single_prefix_tables() {
    assert_eq!(decode(&[0xCB, 0x47]).unwrap().mnemonic, "bit 0, a");
    assert_eq!(decode(&[0xED, 0xB0]).unwrap().mnemonic, "ldir");
    assert_eq!(decode(&[0xED, 0x4D]).unwrap().opcode.group, InsnGroup::Iret);
    let e = decode(&[0xED, 0x43, 0x34, 0x12]).unwrap();
    assert_eq!(e.mnemonic, "ld ($1234), bc");
    assert_eq!(e.bytes.len(), 4);
    assert_eq!(decode(&[0xDD, 0x21, 0x00, 0x40]).unwrap().mnemonic, "ld ix, $4000");
    assert_eq!(decode(&[0xFD, 0x7E, 0x03]).unwrap().mnemonic, "ld a, (iy+$03)");
    assert_eq!(decode(&[0xDD, 0xE9]).unwrap().opcode.group, InsnGroup::Jump);
}

#[test]
fn undefined_bytes_decode_as_invalid_of_size_one() {
    for s in [[0xEDu8, 0x00], [0xDD, 0x00], [0xFD, 0xDD], [0xED, 0xFF]] {
        let i = decode(&s).unwrap();
        assert_eq!(i.opcode.group, InsnGroup::Invalid);
        assert_eq!(i.opcode.size(), 1);
        assert_eq!(i.bytes, vec![s[0]]);
    }
}

#[test]
fn address_does_not_change_the_decoding() {
    let s = vec![0x00, 0xDD, 0x36, 0x05, 0x2A];
    let a = disass_insn(&s, 1, 0x0000).unwrap();
    let b = disass_insn(&s, 1, 0x8000).unwrap();
    assert_eq!(a.address, 0x0000);
    assert_eq!(b.address, 0x8000);
    assert_eq!(a.mnemonic, b.mnemonic);
    assert_eq!(a.bytes, b.bytes);
    assert_eq!(a.arg, b.arg);
    assert_eq!(a.arg, 0x2A05);
    assert_eq!(a.opcode.mnemonic_fmt, b.opcode.mnemonic_fmt);
}

#[test]
fn walk_tiles_the_stream() {
    let s = vec![0x00, 0x01, 0x34, 0x12, 0xDD, 0xCB, 0x02, 0x16, 0xED, 0x00, 0xC9];
    let v = disass_stream(&s, 0x100).unwrap();
    let total: usize = v.iter().map(|i| i.bytes.len()).sum();
    assert_eq!(total, s.len());
    let joined: Vec<u8> = v.iter().flat_map(|i| i.bytes.clone()).collect();
    assert_eq!(joined, s);
    let addrs: Vec<usize> = v.iter().map(|i| i.address).collect();
    assert_eq!(addrs, vec![0x100, 0x101, 0x104, 0x108, 0x109, 0x10A]);
    assert_eq!(v[2].mnemonic, "rl (ix+$02)");
    assert_eq!(v[5].mnemonic, "ret");
}

#[test]
fn walk_of_empty_stream_is_empty() {
    assert!(disass_stream(&Vec::new(), 0).unwrap().is_empty());
}

#[test]
fn walk_stops_at_first_error() {
    assert_eq!(disass_stream(&vec![0x00, 0x01, 0x34], 0).unwrap_err(), DecodeError::TruncatedOperand);
    assert_eq!(disass_stream(&vec![0x00, 0xFD], 0).unwrap_err(), DecodeError::TruncatedPrefix);
}

#[test]
fn walk_address_wraps() {
    let v = disass_stream(&vec![0x00, 0x00], usize::MAX).unwrap();
    assert_eq!(v[0].address, usize::MAX);
    assert_eq!(v[1].address, 0);
}

#[test]
fn hex_string_is_decoded_and_walked() {
    let v = disass_hex_string("003e41C9", 0x200).unwrap();
    assert_eq!(v.len(), 3);
    assert_eq!(v[1].mnemonic, "ld a, $41");
    assert_eq!(v[1].address, 0x201);
    assert_eq!(v[2].mnemonic, "ret");
    assert_eq!(v[2].address, 0x203);
    assert!(disass_hex_string("", 0).unwrap().is_empty());
}

#[test]
fn bad_hex_string_is_invalid_hex() {
    assert_eq!(disass_hex_string("0g", 0).unwrap_err(), DecodeError::InvalidHex);
    assert_eq!(disass_hex_string("001", 0).unwrap_err(), DecodeError::InvalidHex);
    assert_eq!(disass_hex_string("é0", 0).unwrap_err(), DecodeError::InvalidHex);
}

#[test]
fn hex_string_errors_from_decoding_pass_through() {
    assert_eq!(disass_hex_string("01ff", 0).unwrap_err(), DecodeError::TruncatedOperand);
}

#[test]
fn opcode_constructors() {
    let o = Opcode::new("ld a, $", "", (7, 0), 0, 1, 1, InsnGroup::Regular);
    assert_eq!(o.size(), 2);
    assert_eq!(o.mnemonic_fmt, "ld a, $");
    let b = Opcode::base();
    assert_eq!(b.size(), 0);
    assert_eq!(b.group, InsnGroup::Invalid);
    assert_eq!(b.mnemonic_fmt, "");
    let i = Insn::base();
    assert_eq!(i.address, 0);
    assert!(i.mnemonic.is_empty());
    assert!(i.bytes.is_empty());
    assert_eq!(i.arg, 0);
}

#[test]
fn prefix_resolution() {
    assert_eq!(resolve_prefix(&vec![0x00], 0), (Table::Main, 0));
    assert_eq!(resolve_prefix(&vec![0xED, 0x00], 0), (Table::Ed, 1));
    assert_eq!(resolve_prefix(&vec![0xDD, 0xCB, 0x00, 0x06], 0), (Table::DdCb, 3));
    assert_eq!(resolve_prefix(&vec![0xFD, 0xCB], 0), (Table::FdCb, 3));
    assert_eq!(resolve_prefix(&vec![0xFD], 0), (Table::Fd, 1));
    assert_eq!(resolve_prefix(&vec![0xCB, 0xCB], 1), (Table::Cb, 1));
}

#[test]
fn operand_reading() {
    let s = vec![0x01, 0x34, 0x12];
    assert_eq!(read_operand(&s, 1, 0), 0);
    assert_eq!(read_operand(&s, 1, 1), 0x34);
    assert_eq!(read_operand(&s, 1, 2), 0x1234);
    assert_eq!(read_operand(&vec![0xFF, 0xFF], 0, 2), 0xFFFF);
}
