use ckb_vm_definitions::instructions as insts;
use ckb_vm_definitions::registers::RA;
use mop_fusion::fetch::{Error, InstructionTable};
use mop_fusion::instruction::{
    add_immediates, extract_opcode, i_immediate, instruction_length, r4type_new, rd, rs1, rs2,
    u_immediate, utype_new, with_length,
};
use mop_fusion::mop::{fuse, needs_lookahead, Decoder};

fn head(op: u16, rd: u8, len: u8) -> u64 {
    (op as u64 & 0xff) | ((rd as u64) << 8) | ((op as u64 >> 8) << 16) | (((len as u64) >> 1) << 24)
}

fn utype(op: u16, rd: u8, imm: i32, len: u8) -> u64 {
    head(op, rd, len) | ((imm as u32 as u64) << 32)
}

fn itype(op: u16, rd: u8, rs1: u8, imm: i32, len: u8) -> u64 {
    head(op, rd, len) | ((rs1 as u64) << 32) | (((imm as u32 as u64) & 0xff_ffff) << 40)
}

fn rtype(op: u16, rd: u8, rs1: u8, rs2: u8, len: u8) -> u64 {
    head(op, rd, len) | ((rs1 as u64) << 32) | ((rs2 as u64) << 40)
}

fn r4type(op: u16, rd: u8, rs1: u8, rs2: u8, rs3: u8, len: u8) -> u64 {
    rtype(op, rd, rs1, rs2, len) | ((rs3 as u64) << 48)
}

fn table(words: &[(u64, u64)]) -> InstructionTable {
    let mut t = InstructionTable::new();
    for &(pc, w) in words {
        t.insert(pc, w);
    }
    t
}

fn decode_at(open: bool, words: &[(u64, u64)], pc: u64) -> Result<u64, Error> {
    let mut t = table(words);
    Decoder::new(open).decode(&mut t, pc)
}

const RA8: u8 = RA as u8;

#[test]
fn encoding_fields_read_back() {
    let w = itype(insts::OP_JALR, 1, 5, -32, 4);
    assert_eq!(extract_opcode(w), insts::OP_JALR);
    assert_eq!(rd(w), 1);
    assert_eq!(rs1(w), 5);
    assert_eq!(i_immediate(w), -32);
    assert_eq!(instruction_length(w), 4);
    let u = utype(insts::OP_LUI, 7, -4096, 2);
    assert_eq!(u_immediate(u), -4096);
    assert_eq!(instruction_length(u), 2);
    let r = rtype(insts::OP_MUL, 3, 1, 2, 4);
    assert_eq!(rs2(r), 2);
}

#[test]
fn constructors_match_layout() {
    assert_eq!(utype_new(insts::OP_FAR_JUMP_ABS, 5, 0x1020), utype(insts::OP_FAR_JUMP_ABS, 5, 0x1020, 0));
    assert_eq!(utype_new(insts::OP_LUI, 9, -1), utype(insts::OP_LUI, 9, -1, 0));
    assert_eq!(r4type_new(insts::OP_WIDE_MUL, 3, 1, 2, 4), r4type(insts::OP_WIDE_MUL, 3, 1, 2, 4, 0));
    assert_eq!(with_length(0x1d, 8), 0x1d | (4 << 24));
}

#[test]
fn immediates_wrap_at_32_bits() {
    assert_eq!(add_immediates(0x1000, 0x20), 0x1020);
    assert_eq!(add_immediates(i32::MIN, -1), i32::MAX);
    assert_eq!(add_immediates(0x7fff_f000, 0x7ff), 0x7fff_f7ff);
}

#[test]
fn far_jump_absolute_fuses() {
    let b1 = utype(insts::OP_LUI, 5, 0x1000, 4);
    let b2 = itype(insts::OP_JALR, RA8, 5, 0x20, 4);
    let r = decode_at(true, &[(0x100, b1), (0x104, b2)], 0x100).unwrap();
    assert_eq!(r, utype(insts::OP_FAR_JUMP_ABS, 5, 0x1020, 8));
    assert_eq!(extract_opcode(r), insts::OP_FAR_JUMP_ABS);
    assert_eq!(rd(r), 5);
    assert_eq!(u_immediate(r), 0x1020);
    assert_eq!(instruction_length(r), 8);
}

#[test]
fn far_jump_relative_fuses() {
    let b1 = utype(insts::OP_AUIPC, 6, -0x2000, 4);
    let b2 = itype(insts::OP_JALR, RA8, 6, -4, 2);
    let r = fuse(b1, b2);
    assert_eq!(r, utype(insts::OP_FAR_JUMP_REL, 6, -0x2004, 6));
    assert_eq!(instruction_length(r), 6);
}

#[test]
fn far_jump_needs_link_register_and_chained_source() {
    let b1 = utype(insts::OP_LUI, 5, 0x1000, 4);
    assert_eq!(fuse(b1, itype(insts::OP_JALR, 0, 5, 0x20, 4)), b1);
    assert_eq!(fuse(b1, itype(insts::OP_JALR, RA8, 6, 0x20, 4)), b1);
    let b1 = utype(insts::OP_AUIPC, 5, 0x1000, 4);
    assert_eq!(fuse(b1, itype(insts::OP_JALR, RA8, 7, 0x20, 4)), b1);
}

#[test]
fn constant_load_fuses() {
    let b1 = utype(insts::OP_LUI, 10, 0x12345000, 4);
    let b2 = itype(insts::OP_ADDIW, 10, 10, 0x678, 4);
    let r = decode_at(true, &[(0, b1), (4, b2)], 0).unwrap();
    assert_eq!(r, utype(insts::OP_LD_SIGN_EXTENDED_32_CONSTANT, 10, 0x12345678, 8));
}

#[test]
fn constant_load_wraps_like_addiw() {
    let b1 = utype(insts::OP_LUI, 10, i32::MIN, 4);
    let b2 = itype(insts::OP_ADDIW, 10, 10, -1, 4);
    assert_eq!(fuse(b1, b2), utype(insts::OP_LD_SIGN_EXTENDED_32_CONSTANT, 10, i32::MAX, 8));
}

#[test]
fn constant_load_needs_same_register() {
    let b1 = utype(insts::OP_LUI, 10, 0x1000, 4);
    assert_eq!(fuse(b1, itype(insts::OP_ADDIW, 11, 10, 1, 4)), b1);
    assert_eq!(fuse(b1, itype(insts::OP_ADDIW, 10, 11, 1, 4)), b1);
    assert_eq!(fuse(b1, itype(insts::OP_ADDIW, 11, 11, 1, 4)), b1);
}

#[test]
fn auipc_does_not_start_constant_load() {
    let b1 = utype(insts::OP_AUIPC, 10, 0x1000, 4);
    assert_eq!(fuse(b1, itype(insts::OP_ADDIW, 10, 10, 1, 4)), b1);
}

#[test]
fn wide_multiply_signed_fuses() {
    let b1 = rtype(insts::OP_MULH, 3, 1, 2, 4);
    let b2 = rtype(insts::OP_MUL, 4, 1, 2, 4);
    let r = decode_at(true, &[(0x200, b1), (0x204, b2)], 0x200).unwrap();
    assert_eq!(r, r4type(insts::OP_WIDE_MUL, 3, 1, 2, 4, 8));
    assert_eq!(extract_opcode(r), insts::OP_WIDE_MUL);
    assert_eq!(rd(r), 3);
    assert_eq!(rs1(r), 1);
    assert_eq!(rs2(r), 2);
}

#[test]
fn wide_multiply_unsigned_and_divides_fuse() {
    let r = fuse(rtype(insts::OP_MULHU, 3, 1, 2, 4), rtype(insts::OP_MUL, 4, 1, 2, 2));
    assert_eq!(r, r4type(insts::OP_WIDE_MULU, 3, 1, 2, 4, 6));
    let r = fuse(rtype(insts::OP_DIV, 5, 6, 7, 4), rtype(insts::OP_REM, 8, 6, 7, 4));
    assert_eq!(r, r4type(insts::OP_WIDE_DIV, 5, 6, 7, 8, 8));
    let r = fuse(rtype(insts::OP_DIVU, 5, 6, 7, 2), rtype(insts::OP_REMU, 8, 6, 7, 2));
    assert_eq!(r, r4type(insts::OP_WIDE_DIVU, 5, 6, 7, 8, 4));
}

#[test]
fn wide_pairs_need_matching_partner() {
    let mulh = rtype(insts::OP_MULH, 3, 1, 2, 4);
    assert_eq!(fuse(mulh, rtype(insts::OP_MUL, 4, 2, 1, 4)), mulh);
    assert_eq!(fuse(mulh, rtype(insts::OP_MUL, 4, 1, 5, 4)), mulh);
    assert_eq!(fuse(mulh, rtype(insts::OP_REM, 4, 1, 2, 4)), mulh);
    let div = rtype(insts::OP_DIV, 3, 1, 2, 4);
    assert_eq!(fuse(div, rtype(insts::OP_REMU, 4, 1, 2, 4)), div);
    let divu = rtype(insts::OP_DIVU, 3, 1, 2, 4);
    assert_eq!(fuse(divu, rtype(insts::OP_REM, 4, 1, 2, 4)), divu);
}

#[test]
fn hazard_on_first_source_blocks_fusion() {
    let b1 = rtype(insts::OP_MULH, 1, 1, 2, 4);
    let b2 = rtype(insts::OP_MUL, 4, 1, 2, 4);
    let r = decode_at(true, &[(0, b1), (4, b2)], 0).unwrap();
    assert_eq!(r, b1);
    assert_eq!(instruction_length(r), 4);
}

#[test]
fn hazard_on_second_source_blocks_fusion() {
    for op in [insts::OP_MULH, insts::OP_MULHU, insts::OP_DIV, insts::OP_DIVU] {
        let b1 = rtype(op, 2, 1, 2, 4);
        assert!(!needs_lookahead(b1));
        assert_eq!(fuse(b1, rtype(insts::OP_MUL, 4, 1, 2, 4)), b1);
        assert_eq!(fuse(b1, rtype(insts::OP_REM, 4, 1, 2, 4)), b1);
        assert_eq!(fuse(b1, rtype(insts::OP_REMU, 4, 1, 2, 4)), b1);
    }
}

#[test]
fn hazard_head_is_not_looked_past() {
    let b1 = rtype(insts::OP_DIV, 2, 2, 3, 4);
    assert_eq!(decode_at(true, &[(0, b1)], 0), Ok(b1));
}

#[test]
fn lui_followed_by_other_instruction_is_kept() {
    let b1 = utype(insts::OP_LUI, 5, 0x1000, 4);
    let b2 = rtype(insts::OP_ADD, 5, 5, 6, 4);
    let r = decode_at(true, &[(0, b1), (4, b2)], 0).unwrap();
    assert_eq!(r, b1);
    assert_eq!(instruction_length(r), 4);
}

#[test]
fn non_head_passes_through_without_lookahead() {
    let b1 = rtype(insts::OP_ADD, 5, 5, 6, 4);
    assert!(!needs_lookahead(b1));
    assert_eq!(decode_at(true, &[(0x40, b1)], 0x40), Ok(b1));
}

#[test]
fn disabled_decoder_passes_through() {
    let b1 = utype(insts::OP_LUI, 5, 0x1000, 4);
    let b2 = itype(insts::OP_JALR, RA8, 5, 0x20, 4);
    assert_eq!(decode_at(false, &[(0, b1), (4, b2)], 0), Ok(b1));
    assert!(!Decoder::new(false).is_open());
    assert!(Decoder::new(true).is_open());
    assert!(!Decoder::default().is_open());
}

#[test]
fn first_decode_error_propagates() {
    assert_eq!(decode_at(true, &[], 0x10), Err(Error::MemOutOfBound));
}

#[test]
fn second_decode_error_propagates() {
    let b1 = utype(insts::OP_LUI, 5, 0x1000, 4);
    assert_eq!(decode_at(true, &[(0, b1)], 0), Err(Error::MemOutOfBound));
}

#[test]
fn lookahead_uses_first_length() {
    let b1 = utype(insts::OP_LUI, 5, 0x1000, 2);
    let b2 = itype(insts::OP_JALR, RA8, 5, 0x20, 4);
    let r = decode_at(true, &[(0x10, b1), (0x12, b2)], 0x10).unwrap();
    assert_eq!(r, utype(insts::OP_FAR_JUMP_ABS, 5, 0x1020, 6));
    assert_eq!(decode_at(true, &[(0x10, b1), (0x14, b2)], 0x10), Err(Error::MemOutOfBound));
}

#[test]
fn lookahead_wraps_at_end_of_address_space() {
    let b1 = utype(insts::OP_LUI, 5, 0x1000, 4);
    let b2 = itype(insts::OP_JALR, RA8, 5, 0x20, 4);
    let r = decode_at(true, &[(u64::MAX - 1, b1), (2, b2)], u64::MAX - 1).unwrap();
    assert_eq!(instruction_length(r), 8);
}

#[test]
fn decoding_twice_gives_the_same_result() {
    let b1 = rtype(insts::OP_MULH, 3, 1, 2, 4);
    let b2 = rtype(insts::OP_MUL, 4, 1, 2, 4);
    let mut t = table(&[(0, b1), (4, b2)]);
    let d = Decoder::new(true);
    let first = d.decode(&mut t, 0);
    let second = d.decode(&mut t, 0);
    assert_eq!(first, second);
    assert_eq!(d.decode(&mut t, 4), Ok(b2));
}

#[test]
fn fused_length_is_sum_of_lengths() {
    for (l1, l2) in [(2u8, 2u8), (2, 4), (4, 2), (4, 4), (14, 16)] {
        let r = fuse(rtype(insts::OP_DIVU, 5, 6, 7, l1), rtype(insts::OP_REMU, 8, 6, 7, l2));
        assert_eq!(instruction_length(r), l1 + l2);
    }
}

#[test]
fn table_keeps_first_entry_at_an_address() {
    let b1 = rtype(insts::OP_ADD, 1, 2, 3, 4);
    let b2 = rtype(insts::OP_SUB, 1, 2, 3, 4);
    assert_eq!(decode_at(false, &[(8, b1), (8, b2)], 8), Ok(b1));
}

#[test]
fn invalid_first_instruction_propagates() {
    let mut t = InstructionTable::new();
    t.insert_invalid(0x30, 0xdead_beef);
    let r = Decoder::new(true).decode(&mut t, 0x30);
    assert_eq!(r, Err(Error::InvalidInstruction { pc: 0x30, instruction: 0xdead_beef }));
}

#[test]
fn invalid_second_instruction_propagates() {
    let mut t = InstructionTable::new();
    t.insert(0x30, rtype(insts::OP_MULHU, 3, 1, 2, 4));
    t.insert_invalid(0x34, 0xffff_ffff);
    let r = Decoder::new(true).decode(&mut t, 0x30);
    assert_eq!(r, Err(Error::InvalidInstruction { pc: 0x34, instruction: 0xffff_ffff }));
}

#[test]
fn invalid_second_instruction_unread_without_fusion() {
    let mut t = InstructionTable::new();
    let b1 = rtype(insts::OP_MULHU, 3, 1, 2, 4);
    t.insert(0x30, b1);
    t.insert_invalid(0x34, 0xffff_ffff);
    assert_eq!(Decoder::new(false).decode(&mut t, 0x30), Ok(b1));
}

#[test]
fn fused_fields_read_back() {
    let r = fuse(utype(insts::OP_LUI, 31, -0x1000, 4), itype(insts::OP_ADDIW, 31, 31, -2048, 4));
    assert_eq!(extract_opcode(r), insts::OP_LD_SIGN_EXTENDED_32_CONSTANT);
    assert_eq!(rd(r), 31);
    assert_eq!(u_immediate(r), -0x1800);
    let r = fuse(rtype(insts::OP_DIV, 10, 11, 12, 4), rtype(insts::OP_REM, 13, 11, 12, 4));
    assert_eq!((rd(r), rs1(r), rs2(r)), (10, 11, 12));
    assert_eq!((r >> 48) & 0xff, 13);
}
