//! Macro-operation fusion: recognising adjacent instruction pairs that form a
//! common idiom and replacing them by one synthetic instruction.
use vstd::prelude::*;

use crate::fetch::{Error, PrimitiveDecoder};
use crate::instruction::{
    add_immediates, extract_opcode, i_immediate, immediate_bits, immediate_sum,
    instruction_length, r4type_new, rd, rs1, rs2, spec_i_immediate, spec_length, spec_opcode,
    spec_r4type, spec_rd, spec_rs1, spec_rs2, spec_rs3, spec_u_immediate, spec_utype,
    spec_with_length, u_immediate, utype_new, with_length, Instruction, InstructionOpcode,
};
use crate::opcodes::{opcodes, ops};

verus! {

/// The opcodes that begin a fusible pair.
pub open spec fn is_fusion_head(op: InstructionOpcode) -> bool {
    op == ops().lui || op == ops().auipc || op == ops().mulh || op == ops().mulhu || op
        == ops().div || op == ops().divu
}

/// The wide opcode that a multiply-high or divide head and its partner fuse
/// into, if the two opcodes form such a pair.
pub open spec fn wide_opcode(o1: InstructionOpcode, o2: InstructionOpcode) -> Option<
    InstructionOpcode,
> {
    if o1 == ops().mulh && o2 == ops().mul {
        Some(ops().wide_mul)
    } else if o1 == ops().mulhu && o2 == ops().mul {
        Some(ops().wide_mulu)
    } else if o1 == ops().div && o2 == ops().rem {
        Some(ops().wide_div)
    } else if o1 == ops().divu && o2 == ops().remu {
        Some(ops().wide_divu)
    } else {
        None
    }
}

/// The head of a multiply or divide pair writes one of its own sources, so
/// its partner would read an overwritten value.
pub open spec fn has_hazard(b1: Instruction) -> bool {
    spec_rd(b1) == spec_rs1(b1) || spec_rd(b1) == spec_rs2(b1)
}

/// Whether a decoder has to look at the next instruction after `b1`: `b1` is
/// a fusion head, and not a multiply or divide head with a hazard.
pub open spec fn spec_needs_lookahead(b1: Instruction) -> bool {
    let op = spec_opcode(b1);
    op == ops().lui || op == ops().auipc || ((op == ops().mulh || op == ops().mulhu || op
        == ops().div || op == ops().divu) && !has_hazard(b1))
}

/// An upper-immediate load (absolute, or relative to the pc) followed by a
/// jump through the register it loaded, linking into the link register.
pub open spec fn is_far_jump(b1: Instruction, b2: Instruction, head: InstructionOpcode) -> bool {
    spec_opcode(b1) == head && spec_opcode(b2) == ops().jalr && spec_rs1(b2) == spec_rd(b1)
        && spec_rd(b2) == ops().ra
}

/// An upper-immediate load followed by an add-immediate-word of that register
/// into itself.
pub open spec fn is_constant_load(b1: Instruction, b2: Instruction) -> bool {
    spec_opcode(b1) == ops().lui && spec_opcode(b2) == ops().addiw && spec_rs1(b2) == spec_rd(b2)
        && spec_rd(b2) == spec_rd(b1)
}

/// A multiply-high or divide head without hazard, followed by its partner on
/// the same two sources.
pub open spec fn is_wide_pair(b1: Instruction, b2: Instruction) -> bool {
    wide_opcode(spec_opcode(b1), spec_opcode(b2)) is Some && !has_hazard(b1) && spec_rs1(b1)
        == spec_rs1(b2) && spec_rs2(b1) == spec_rs2(b2)
}

/// Whether the pair `b1`, `b2` fuses.
pub open spec fn fusable(b1: Instruction, b2: Instruction) -> bool {
    is_far_jump(b1, b2, ops().lui) || is_constant_load(b1, b2) || is_far_jump(b1, b2, ops().auipc)
        || is_wide_pair(b1, b2)
}

/// The combined length of a pair.
pub open spec fn pair_length(b1: Instruction, b2: Instruction) -> u8 {
    (spec_length(b1) + spec_length(b2)) as u8
}

/// The sum of the head's upper immediate and the second instruction's
/// immediate, wrapping at 32 bits.
pub open spec fn pair_immediate(b1: Instruction, b2: Instruction) -> i32 {
    immediate_sum(spec_u_immediate(b1), spec_i_immediate(b2))
}

/// What `b1` followed by `b2` decodes to: the synthetic instruction where the
/// pair fuses, with the pair's combined length; `b1` itself otherwise.
pub open spec fn spec_fuse(b1: Instruction, b2: Instruction) -> Instruction {
    if is_far_jump(b1, b2, ops().lui) {
        spec_with_length(
            spec_utype(ops().far_jump_abs, spec_rd(b1), pair_immediate(b1, b2)),
            pair_length(b1, b2),
        )
    } else if is_constant_load(b1, b2) {
        spec_with_length(
            spec_utype(ops().ld_sign_extended_32_constant, spec_rd(b1), pair_immediate(b1, b2)),
            pair_length(b1, b2),
        )
    } else if is_far_jump(b1, b2, ops().auipc) {
        spec_with_length(
            spec_utype(ops().far_jump_rel, spec_rd(b1), pair_immediate(b1, b2)),
            pair_length(b1, b2),
        )
    } else if is_wide_pair(b1, b2) {
        spec_with_length(
            spec_r4type(
                wide_opcode(spec_opcode(b1), spec_opcode(b2))->Some_0,
                spec_rd(b1),
                spec_rs1(b1),
                spec_rs2(b1),
                spec_rd(b2),
            ),
            pair_length(b1, b2),
        )
    } else {
        b1
    }
}

/// Whether decoding has to look at the instruction after `b1`.
pub fn needs_lookahead(b1: Instruction) -> (r: bool)
    ensures
        r == spec_needs_lookahead(b1),
{
    let ops = opcodes();
    let op = extract_opcode(b1);
    if op == ops.lui || op == ops.auipc {
        true
    } else if op == ops.mulh || op == ops.mulhu || op == ops.div || op == ops.divu {
        let d = rd(b1);
        d != rs1(b1) && d != rs2(b1)
    } else {
        false
    }
}

/// Fuses the instruction `b1` with the instruction `b2` that follows it, or
/// returns `b1` unchanged where the pair is not a fusible idiom.
pub fn fuse(b1: Instruction, b2: Instruction) -> (r: Instruction)
    ensures
        r == spec_fuse(b1, b2),
{
    let ops = opcodes();
    let o1 = extract_opcode(b1);
    let o2 = extract_opcode(b2);
    let d1 = rd(b1);
    let d2 = rd(b2);
    if o1 == ops.lui || o1 == ops.auipc {
        let jump = o2 == ops.jalr && rs1(b2) == d1 && d2 == ops.ra;
        let load = o1 == ops.lui && o2 == ops.addiw && rs1(b2) == d2 && d2 == d1;
        if !jump && !load {
            return b1;
        }
        let op = if !jump {
            ops.ld_sign_extended_32_constant
        } else if o1 == ops.lui {
            ops.far_jump_abs
        } else {
            ops.far_jump_rel
        };
        let imm = add_immediates(u_immediate(b1), i_immediate(b2));
        let len = instruction_length(b1) + instruction_length(b2);
        return with_length(utype_new(op, d1, imm), len);
    }
    let wide = if o1 == ops.mulh && o2 == ops.mul {
        ops.wide_mul
    } else if o1 == ops.mulhu && o2 == ops.mul {
        ops.wide_mulu
    } else if o1 == ops.div && o2 == ops.rem {
        ops.wide_div
    } else if o1 == ops.divu && o2 == ops.remu {
        ops.wide_divu
    } else {
        return b1;
    };
    let s1 = rs1(b1);
    let s2 = rs2(b1);
    if d1 == s1 || d1 == s2 || s1 != rs1(b2) || s2 != rs2(b2) {
        return b1;
    }
    let len = instruction_length(b1) + instruction_length(b2);
    with_length(r4type_new(wide, d1, s1, s2, d2), len)
}

/// The address of the instruction that follows `b1` at `pc`, wrapping
/// around the end of the address space.
pub open spec fn next_pc(pc: u64, b1: Instruction) -> u64 {
    ((pc + spec_length(b1)) % 0x1_0000_0000_0000_0000) as u64
}

/// A decoder that fuses adjacent instruction pairs when fusion is enabled,
/// and passes single instructions through otherwise.
pub struct Decoder {
    open: bool,
}

impl Decoder {
    /// Whether fusion is enabled.
    pub closed spec fn enabled(&self) -> bool {
        self.open
    }

    /// What decoding at `pc` of `memory` yields: a decode failure of the
    /// first instruction, or of the second where it is looked at; the fused
    /// pair where fusion is enabled and the pair fuses; the first instruction
    /// otherwise.
    pub open spec fn spec_decode<M: PrimitiveDecoder>(&self, memory: &M, pc: u64) -> Result<
        Instruction,
        Error,
    > {
        match memory.spec_decode(pc) {
            Err(e) => Err(e),
            Ok(b1) => if !self.enabled() || !spec_needs_lookahead(b1) {
                Ok(b1)
            } else {
                match memory.spec_decode(next_pc(pc, b1)) {
                    Err(e) => Err(e),
                    Ok(b2) => Ok(spec_fuse(b1, b2)),
                }
            },
        }
    }

    /// The addresses that decoding at `pc` of `memory` reads: `pc`, and the
    /// address after the first instruction only where that is a fusion head
    /// that needs its partner.
    pub open spec fn spec_reads<M: PrimitiveDecoder>(&self, memory: &M, pc: u64) -> Seq<u64> {
        match memory.spec_decode(pc) {
            Ok(b1) => if self.enabled() && spec_needs_lookahead(b1) {
                seq![pc, next_pc(pc, b1)]
            } else {
                seq![pc]
            },
            Err(_) => seq![pc],
        }
    }

    pub fn new(open: bool) -> (r: Decoder)
        ensures
            r.enabled() == open,
    {
        Decoder { open }
    }

    /// Whether fusion is enabled.
    pub fn is_open(&self) -> (r: bool)
        ensures
            r == self.enabled(),
    {
        self.open
    }

    /// Decodes the instruction at `pc`, fused with the one that follows where
    /// fusion is enabled and the two form a fusible idiom.
    pub fn decode<M: PrimitiveDecoder>(&self, memory: &mut M, pc: u64) -> (r: Result<
        Instruction,
        Error,
    >)
        ensures
            r == self.spec_decode(old(memory), pc),
            final(memory).fetches() == old(memory).fetches() + self.spec_reads(old(memory), pc),
            forall|p: u64| #[trigger]
                final(memory).spec_decode(p) == old(memory).spec_decode(p),
    {
        let b1 = match memory.decode_instruction(pc) {
            Ok(b) => b,
            Err(e) => {
                assert(memory.fetches() =~= old(memory).fetches() + seq![pc]);
                return Err(e);
            },
        };
        if !self.open || !needs_lookahead(b1) {
            assert(memory.fetches() =~= old(memory).fetches() + seq![pc]);
            return Ok(b1);
        }
        let s1 = instruction_length(b1);
        let b2 = memory.decode_instruction(pc.wrapping_add(s1 as u64));
        assert(memory.fetches() =~= old(memory).fetches() + seq![pc, next_pc(pc, b1)]);
        match b2 {
            Ok(b2) => Ok(fuse(b1, b2)),
            Err(e) => Err(e),
        }
    }
}

impl Default for Decoder {
    /// A decoder with fusion disabled.
    fn default() -> (r: Decoder)
        ensures
            !r.enabled(),
    {
        Decoder { open: false }
    }
}

/// Decoding is a function of what the memory holds: two memories that decode
/// alike at every address give the same result and are read at the same
/// addresses.
pub proof fn lemma_decode_deterministic<M1: PrimitiveDecoder, M2: PrimitiveDecoder>(
    d: &Decoder,
    m1: &M1,
    m2: &M2,
    pc: u64,
)
    requires
        forall|p: u64| #[trigger] m1.spec_decode(p) == m2.spec_decode(p),
    ensures
        d.spec_decode(m1, pc) == d.spec_decode(m2, pc),
        d.spec_reads(m1, pc) == d.spec_reads(m2, pc),
{
    let b1 = m1.spec_decode(pc);
    assert(m2.spec_decode(pc) == b1);
    if let Ok(i) = b1 {
        assert(m1.spec_decode(next_pc(pc, i)) == m2.spec_decode(next_pc(pc, i)));
    }
}

/// Where the first instruction is no fusion head, or fusion is disabled,
/// decoding yields exactly what the primitive decoder yields, and reads only
/// the first address.
pub proof fn lemma_pass_through<M: PrimitiveDecoder>(d: &Decoder, m: &M, pc: u64)
    requires
        !d.enabled() || m.spec_decode(pc) is Err || !is_fusion_head(
            spec_opcode(m.spec_decode(pc)->Ok_0),
        ),
    ensures
        d.spec_decode(m, pc) == m.spec_decode(pc),
        d.spec_reads(m, pc) == seq![pc],
{
}

/// The length field of `w`, with the length `len` written into it, reads
/// back as `len`, where the field was clear and `len` is even and fits.
proof fn lemma_length_round_trip(w: u64, len: u8)
    requires
        (w >> 24u64) & 0xffu64 == 0,
        len % 2 == 0,
        len <= 30,
    ensures
        spec_length(spec_with_length(w, len)) == len,
{
    let l = len as u64;
    assert(l % 2 == 0 && l <= 30);
    assert(((((w | ((l >> 1u64) << 24u64)) >> 24u64) & 0x0fu64) << 1u64) == l) by (bit_vector)
        requires
            (w >> 24u64) & 0xffu64 == 0,
            l % 2 == 0,
            l <= 30,
    ;
}

/// The length field of a word built from an opcode and registers is clear.
proof fn lemma_length_field_clear(
    op: InstructionOpcode,
    rd: u8,
    rs1: u8,
    rs2: u8,
    rs3: u8,
    imm: i32,
)
    ensures
        (spec_utype(op, rd, imm) >> 24u64) & 0xffu64 == 0,
        (spec_r4type(op, rd, rs1, rs2, rs3) >> 24u64) & 0xffu64 == 0,
{
    let (o, d, a, b, c) = (op as u64, rd as u64, rs1 as u64, rs2 as u64, rs3 as u64);
    let x = immediate_bits(imm);
    assert((((o & 0xffu64) | (d << 8u64) | ((o >> 8u64) << 16u64) | (x << 32u64)) >> 24u64)
        & 0xffu64 == 0) by (bit_vector)
        requires
            o < 0x1_0000,
            d < 0x100,
    ;
    assert((((o & 0xffu64) | (d << 8u64) | ((o >> 8u64) << 16u64) | (a << 32u64) | (b << 40u64)
        | (c << 48u64)) >> 24u64) & 0xffu64 == 0) by (bit_vector)
        requires
            o < 0x1_0000,
            d < 0x100,
    ;
}

/// A fused instruction's length field holds the combined length of the two
/// instructions it replaces, wherever that sum fits the field.
pub proof fn lemma_fused_length(b1: Instruction, b2: Instruction)
    requires
        fusable(b1, b2),
        spec_length(b1) + spec_length(b2) <= 30,
    ensures
        spec_length(spec_fuse(b1, b2)) == spec_length(b1) + spec_length(b2),
{
    let l1 = (b1 >> 24u64) & 0x0fu64;
    let l2 = (b2 >> 24u64) & 0x0fu64;
    assert(l1 <= 15 && l2 <= 15) by (bit_vector)
        requires
            l1 == (b1 >> 24u64) & 0x0fu64,
            l2 == (b2 >> 24u64) & 0x0fu64,
    ;
    assert((l1 << 1u64) == 2 * l1 && (l2 << 1u64) == 2 * l2) by (bit_vector)
        requires
            l1 <= 15,
            l2 <= 15,
    ;
    let len = pair_length(b1, b2);
    let imm = pair_immediate(b1, b2);
    let rd1 = spec_rd(b1);
    let wop = wide_opcode(spec_opcode(b1), spec_opcode(b2))->Some_0;
    lemma_length_field_clear(ops().far_jump_abs, rd1, 0, 0, 0, imm);
    lemma_length_field_clear(ops().far_jump_rel, rd1, 0, 0, 0, imm);
    lemma_length_field_clear(ops().ld_sign_extended_32_constant, rd1, 0, 0, 0, imm);
    lemma_length_field_clear(wop, rd1, spec_rs1(b1), spec_rs2(b1), spec_rd(b2), imm);
    lemma_length_round_trip(spec_utype(ops().far_jump_abs, rd1, imm), len);
    lemma_length_round_trip(spec_utype(ops().far_jump_rel, rd1, imm), len);
    lemma_length_round_trip(spec_utype(ops().ld_sign_extended_32_constant, rd1, imm), len);
    lemma_length_round_trip(spec_r4type(wop, rd1, spec_rs1(b1), spec_rs2(b1), spec_rd(b2)), len);
}

/// A multiply-high or divide head that writes one of its own sources never
/// fuses, whatever follows it, and decoding does not look past it.
pub proof fn lemma_hazard_excluded<M: PrimitiveDecoder>(d: &Decoder, m: &M, pc: u64, b1: Instruction)
    requires
        m.spec_decode(pc) == Ok::<Instruction, Error>(b1),
        spec_opcode(b1) == ops().mulh || spec_opcode(b1) == ops().mulhu || spec_opcode(b1)
            == ops().div || spec_opcode(b1) == ops().divu,
        has_hazard(b1),
    ensures
        forall|b2: Instruction| #[trigger] spec_fuse(b1, b2) == b1,
        d.spec_decode(m, pc) == Ok::<Instruction, Error>(b1),
        d.spec_reads(m, pc) == seq![pc],
{
}

/// Where the pair at `pc` does not fuse, decoding yields the first
/// instruction bit for bit, with its own length.
pub proof fn lemma_mismatch_keeps_head<M: PrimitiveDecoder>(
    d: &Decoder,
    m: &M,
    pc: u64,
    b1: Instruction,
    b2: Instruction,
)
    requires
        m.spec_decode(pc) == Ok::<Instruction, Error>(b1),
        m.spec_decode(next_pc(pc, b1)) == Ok::<Instruction, Error>(b2),
        !fusable(b1, b2),
    ensures
        d.spec_decode(m, pc) == Ok::<Instruction, Error>(b1),
        spec_fuse(b1, b2) == b1,
        spec_length(spec_fuse(b1, b2)) == spec_length(b1),
{
}

/// The fields of a U-form word read back as written.
proof fn lemma_utype_fields(op: InstructionOpcode, rd: u8, imm: i32)
    ensures
        spec_opcode(spec_utype(op, rd, imm)) == op,
        spec_rd(spec_utype(op, rd, imm)) == rd,
        spec_u_immediate(spec_utype(op, rd, imm)) == imm,
{
    let (o, d) = (op as u64, rd as u64);
    let x = immediate_bits(imm);
    assert(x < 0x1_0000_0000);
    let w = spec_utype(op, rd, imm);
    assert(w == (o & 0xffu64) | (d << 8u64) | ((o >> 8u64) << 16u64) | (x << 32u64));
    assert(((w >> 8u64) & 0xff00u64) | (w & 0xffu64) == o && (w >> 8u64) & 0xffu64 == d && w
        >> 32u64 == x) by (bit_vector)
        requires
            w == (o & 0xffu64) | (d << 8u64) | ((o >> 8u64) << 16u64) | (x << 32u64),
            o < 0x1_0000,
            d < 0x100,
            x < 0x1_0000_0000,
    ;
}

/// The fields of an R4-form word read back as written.
proof fn lemma_r4type_fields(op: InstructionOpcode, rd: u8, rs1: u8, rs2: u8, rs3: u8)
    ensures
        spec_opcode(spec_r4type(op, rd, rs1, rs2, rs3)) == op,
        spec_rd(spec_r4type(op, rd, rs1, rs2, rs3)) == rd,
        spec_rs1(spec_r4type(op, rd, rs1, rs2, rs3)) == rs1,
        spec_rs2(spec_r4type(op, rd, rs1, rs2, rs3)) == rs2,
        spec_rs3(spec_r4type(op, rd, rs1, rs2, rs3)) == rs3,
{
    let (o, d, a, b, c) = (op as u64, rd as u64, rs1 as u64, rs2 as u64, rs3 as u64);
    let w = spec_r4type(op, rd, rs1, rs2, rs3);
    assert(((w >> 8u64) & 0xff00u64) | (w & 0xffu64) == o && (w >> 8u64) & 0xffu64 == d && (w
        >> 32u64) & 0xffu64 == a && (w >> 40u64) & 0xffu64 == b && (w >> 48u64) & 0xffu64 == c)
        by (bit_vector)
        requires
            w == (o & 0xffu64) | (d << 8u64) | ((o >> 8u64) << 16u64) | (a << 32u64) | (b
                << 40u64) | (c << 48u64),
            o < 0x1_0000,
            d < 0x100,
            a < 0x100,
            b < 0x100,
            c < 0x100,
    ;
}

/// Writing a length leaves the opcode and operand fields of a word alone.
proof fn lemma_length_keeps_fields(w: Instruction, len: u8)
    ensures
        spec_opcode(spec_with_length(w, len)) == spec_opcode(w),
        spec_rd(spec_with_length(w, len)) == spec_rd(w),
        spec_rs1(spec_with_length(w, len)) == spec_rs1(w),
        spec_rs2(spec_with_length(w, len)) == spec_rs2(w),
        spec_rs3(spec_with_length(w, len)) == spec_rs3(w),
        spec_u_immediate(spec_with_length(w, len)) == spec_u_immediate(w),
{
    let l = len as u64;
    let v = spec_with_length(w, len);
    assert(((v >> 8u64) & 0xff00u64) | (v & 0xffu64) == ((w >> 8u64) & 0xff00u64) | (w & 0xffu64)
        && (v >> 8u64) & 0xffu64 == (w >> 8u64) & 0xffu64 && v >> 32u64 == w >> 32u64 && (v
        >> 40u64) & 0xffu64 == (w >> 40u64) & 0xffu64 && (v >> 48u64) & 0xffu64 == (w >> 48u64)
        & 0xffu64 && (v >> 32u64) & 0xffu64 == (w >> 32u64) & 0xffu64) by (bit_vector)
        requires
            v == w | ((l >> 1u64) << 24u64),
            l < 0x100,
    ;
}

/// The operand fields of a fused instruction: a far jump or constant load
/// targets the head's register with the sum of both immediates; a wide
/// operation keeps the head's destination and sources and takes the second
/// instruction's destination as its second destination.
pub proof fn lemma_fused_fields(b1: Instruction, b2: Instruction)
    ensures
        is_far_jump(b1, b2, ops().lui) ==> spec_opcode(spec_fuse(b1, b2)) == ops().far_jump_abs,
        is_far_jump(b1, b2, ops().auipc) ==> spec_opcode(spec_fuse(b1, b2)) == ops().far_jump_rel,
        is_constant_load(b1, b2) ==> spec_opcode(spec_fuse(b1, b2))
            == ops().ld_sign_extended_32_constant,
        is_far_jump(b1, b2, ops().lui) || is_far_jump(b1, b2, ops().auipc) || is_constant_load(
            b1,
            b2,
        ) ==> spec_rd(spec_fuse(b1, b2)) == spec_rd(b1) && spec_u_immediate(spec_fuse(b1, b2))
            == pair_immediate(b1, b2),
        is_wide_pair(b1, b2) ==> spec_opcode(spec_fuse(b1, b2)) == wide_opcode(
            spec_opcode(b1),
            spec_opcode(b2),
        )->Some_0 && spec_rd(spec_fuse(b1, b2)) == spec_rd(b1) && spec_rs1(spec_fuse(b1, b2))
            == spec_rs1(b1) && spec_rs2(spec_fuse(b1, b2)) == spec_rs2(b1)
            && spec_rs3(spec_fuse(b1, b2)) == spec_rd(b2),
{
    let len = pair_length(b1, b2);
    let imm = pair_immediate(b1, b2);
    let rd1 = spec_rd(b1);
    if is_far_jump(b1, b2, ops().lui) || is_far_jump(b1, b2, ops().auipc) || is_constant_load(
        b1,
        b2,
    ) {
        let op = if is_far_jump(b1, b2, ops().lui) {
            ops().far_jump_abs
        } else if is_constant_load(b1, b2) {
            ops().ld_sign_extended_32_constant
        } else {
            ops().far_jump_rel
        };
        assert(spec_fuse(b1, b2) == spec_with_length(spec_utype(op, rd1, imm), len));
        lemma_utype_fields(op, rd1, imm);
        lemma_length_keeps_fields(spec_utype(op, rd1, imm), len);
    } else if is_wide_pair(b1, b2) {
        let wop = wide_opcode(spec_opcode(b1), spec_opcode(b2))->Some_0;
        let w = spec_r4type(wop, rd1, spec_rs1(b1), spec_rs2(b1), spec_rd(b2));
        lemma_r4type_fields(wop, rd1, spec_rs1(b1), spec_rs2(b1), spec_rd(b2));
        lemma_length_keeps_fields(w, len);
    }
}

} // verus!
