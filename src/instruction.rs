//! The 64-bit internal form of a decoded instruction.
//!
//! Byte 0 holds the low byte of the opcode, byte 1 the destination register,
//! byte 2 the high byte of the opcode, and the low four bits of byte 3 half
//! of the instruction's length in bytes. The upper four bytes hold, by form:
//! source registers 1, 2 and 3 in bytes 4, 5 and 6 (R- and R4-form); source
//! register 1 in byte 4 and a 24-bit signed immediate in bytes 5 to 7
//! (I-form); or a 32-bit signed immediate in bytes 4 to 7 (U-form).
use vstd::prelude::*;

verus! {

/// A decoded instruction in its internal 64-bit form.
pub type Instruction = u64;

/// A combined 16-bit opcode.
pub type InstructionOpcode = u16;

/// The index of a general-purpose register.
pub type RegisterIndex = u8;

/// The opcode: byte 0 as its low byte, byte 2 as its high byte.
pub open spec fn spec_opcode(i: Instruction) -> InstructionOpcode {
    (((i >> 8u64) & 0xff00u64) | (i & 0xffu64)) as u16
}

/// The length in bytes: twice the low four bits of byte 3.
pub open spec fn spec_length(i: Instruction) -> u8 {
    ((((i >> 24u64) & 0x0fu64) << 1u64)) as u8
}

/// The destination register, byte 1.
pub open spec fn spec_rd(i: Instruction) -> RegisterIndex {
    ((i >> 8u64) & 0xffu64) as u8
}

/// Source register 1, byte 4.
pub open spec fn spec_rs1(i: Instruction) -> RegisterIndex {
    ((i >> 32u64) & 0xffu64) as u8
}

/// Source register 2, byte 5.
pub open spec fn spec_rs2(i: Instruction) -> RegisterIndex {
    ((i >> 40u64) & 0xffu64) as u8
}

/// Source register 3 of an R4-form word (the second destination of a wide
/// operation), byte 6.
pub open spec fn spec_rs3(i: Instruction) -> RegisterIndex {
    ((i >> 48u64) & 0xffu64) as u8
}

/// The value of the 32-bit two's complement pattern `u`.
pub open spec fn signed32(u: int) -> int {
    if u >= 0x8000_0000 {
        u - 0x1_0000_0000
    } else {
        u
    }
}

/// The value of the 24-bit two's complement pattern `u`.
pub open spec fn signed24(u: int) -> int {
    if u >= 0x80_0000 {
        u - 0x100_0000
    } else {
        u
    }
}

/// The signed immediate of a U-form word: bytes 4 to 7.
pub open spec fn spec_u_immediate(i: Instruction) -> i32 {
    signed32((i >> 32u64) as int) as i32
}

/// The signed immediate of an I-form word: bytes 5 to 7.
pub open spec fn spec_i_immediate(i: Instruction) -> i32 {
    signed24((i >> 40u64) as int) as i32
}

/// The 32-bit two's complement pattern of `imm`.
pub open spec fn immediate_bits(imm: i32) -> u64 {
    if imm < 0 {
        (imm + 0x1_0000_0000) as u64
    } else {
        imm as u64
    }
}

/// The sum of two immediates, wrapping at 32 bits.
pub open spec fn immediate_sum(a: i32, b: i32) -> i32 {
    signed32((a + b) % 0x1_0000_0000) as i32
}

/// The opcode and destination bytes of a word, with a zero length field.
pub open spec fn spec_head(op: InstructionOpcode, rd: RegisterIndex) -> u64 {
    ((op as u64) & 0xffu64) | ((rd as u64) << 8u64) | (((op as u64) >> 8u64) << 16u64)
}

/// A U-form word with a zero length field.
pub open spec fn spec_utype(op: InstructionOpcode, rd: RegisterIndex, imm: i32) -> Instruction {
    spec_head(op, rd) | (immediate_bits(imm) << 32u64)
}

/// An R4-form word with a zero length field.
pub open spec fn spec_r4type(
    op: InstructionOpcode,
    rd: RegisterIndex,
    rs1: RegisterIndex,
    rs2: RegisterIndex,
    rs3: RegisterIndex,
) -> Instruction {
    spec_head(op, rd) | ((rs1 as u64) << 32u64) | ((rs2 as u64) << 40u64) | ((rs3 as u64) << 48u64)
}

/// `w` with `len` bytes, halved, written into its length field.
pub open spec fn spec_with_length(w: Instruction, len: u8) -> Instruction {
    w | (((len as u64) >> 1u64) << 24u64)
}

/// The opcode of `i`.
pub fn extract_opcode(i: Instruction) -> (r: InstructionOpcode)
    ensures
        r == spec_opcode(i),
{
    (((i >> 8u64) & 0xff00u64) | (i & 0xffu64)) as u16
}

/// The length of `i` in bytes: always even, and at most 30.
pub fn instruction_length(i: Instruction) -> (r: u8)
    ensures
        r == spec_length(i),
        r % 2 == 0,
        r <= 30,
{
    let h = (i >> 24u64) & 0x0fu64;
    assert(h <= 15) by (bit_vector)
        requires
            h == (i >> 24u64) & 0x0fu64,
    ;
    assert(h << 1u64 == 2 * h) by (bit_vector)
        requires
            h <= 15,
    ;
    (h << 1u64) as u8
}

/// The destination register of `i`.
pub fn rd(i: Instruction) -> (r: RegisterIndex)
    ensures
        r == spec_rd(i),
{
    ((i >> 8u64) & 0xffu64) as u8
}

/// Source register 1 of `i`.
pub fn rs1(i: Instruction) -> (r: RegisterIndex)
    ensures
        r == spec_rs1(i),
{
    ((i >> 32u64) & 0xffu64) as u8
}

/// Source register 2 of `i`.
pub fn rs2(i: Instruction) -> (r: RegisterIndex)
    ensures
        r == spec_rs2(i),
{
    ((i >> 40u64) & 0xffu64) as u8
}

/// The signed immediate of the U-form word `i`.
pub fn u_immediate(i: Instruction) -> (r: i32)
    ensures
        r == spec_u_immediate(i),
{
    let u = i >> 32u64;
    assert(u < 0x1_0000_0000) by (bit_vector)
        requires
            u == i >> 32u64,
    ;
    if u >= 0x8000_0000u64 {
        (u as i64 - 0x1_0000_0000i64) as i32
    } else {
        u as i32
    }
}

/// The signed immediate of the I-form word `i`.
pub fn i_immediate(i: Instruction) -> (r: i32)
    ensures
        r == spec_i_immediate(i),
{
    let u = i >> 40u64;
    assert(u < 0x100_0000) by (bit_vector)
        requires
            u == i >> 40u64,
    ;
    if u >= 0x80_0000u64 {
        (u as i64 - 0x100_0000i64) as i32
    } else {
        u as i32
    }
}

/// The sum of two immediates, wrapping at 32 bits as a word add does.
pub fn add_immediates(a: i32, b: i32) -> (r: i32)
    ensures
        r == immediate_sum(a, b),
{
    a.wrapping_add(b)
}

/// A U-form word with a zero length field.
pub fn utype_new(op: InstructionOpcode, rd: RegisterIndex, imm: i32) -> (r: Instruction)
    ensures
        r == spec_utype(op, rd, imm),
{
    let bits: u64 = if imm < 0 {
        (imm as i64 + 0x1_0000_0000i64) as u64
    } else {
        imm as u64
    };
    ((op as u64) & 0xffu64) | ((rd as u64) << 8u64) | (((op as u64) >> 8u64) << 16u64) | (bits
        << 32u64)
}

/// An R4-form word with a zero length field; `rs3` is the second
/// destination of a wide operation.
pub fn r4type_new(
    op: InstructionOpcode,
    rd: RegisterIndex,
    rs1: RegisterIndex,
    rs2: RegisterIndex,
    rs3: RegisterIndex,
) -> (r: Instruction)
    ensures
        r == spec_r4type(op, rd, rs1, rs2, rs3),
{
    ((op as u64) & 0xffu64) | ((rd as u64) << 8u64) | (((op as u64) >> 8u64) << 16u64) | ((
    rs1 as u64) << 32u64) | ((rs2 as u64) << 40u64) | ((rs3 as u64) << 48u64)
}

/// `w` with the length `len` in bytes, halved, written into its length field.
pub fn with_length(w: Instruction, len: u8) -> (r: Instruction)
    ensures
        r == spec_with_length(w, len),
{
    w | (((len as u64) >> 1u64) << 24u64)
}

} // verus!
