//! The opcode numbers and register indices that fusion reads and writes.
use vstd::prelude::*;

use ckb_vm_definitions::instructions as insts;
use ckb_vm_definitions::registers::RA;

use crate::instruction::{InstructionOpcode, RegisterIndex};

verus! {

/// The opcodes that take part in fusion, and the link register.
#[derive(Clone, Copy)]
pub struct Opcodes {
    pub lui: InstructionOpcode,
    pub auipc: InstructionOpcode,
    pub jalr: InstructionOpcode,
    pub addiw: InstructionOpcode,
    pub mul: InstructionOpcode,
    pub mulh: InstructionOpcode,
    pub mulhu: InstructionOpcode,
    pub div: InstructionOpcode,
    pub divu: InstructionOpcode,
    pub rem: InstructionOpcode,
    pub remu: InstructionOpcode,
    pub far_jump_abs: InstructionOpcode,
    pub far_jump_rel: InstructionOpcode,
    pub ld_sign_extended_32_constant: InstructionOpcode,
    pub wide_mul: InstructionOpcode,
    pub wide_mulu: InstructionOpcode,
    pub wide_div: InstructionOpcode,
    pub wide_divu: InstructionOpcode,
    pub ra: RegisterIndex,
}

/// The values of the opcode table.
pub open spec fn ops() -> Opcodes {
    Opcodes {
        lui: 0x1d,
        auipc: 0x07,
        jalr: 0x17,
        addiw: 0x03,
        mul: 0x20,
        mulh: 0x21,
        mulhu: 0x23,
        div: 0x0e,
        divu: 0x0f,
        rem: 0x27,
        remu: 0x28,
        far_jump_abs: 0x74,
        far_jump_rel: 0x73,
        ld_sign_extended_32_constant: 0x75,
        wide_mul: 0x6e,
        wide_mulu: 0x6f,
        wide_div: 0x71,
        wide_divu: 0x72,
        ra: 1,
    }
}

/// Relies on the constants `OP_LUI` to `OP_LD_SIGN_EXTENDED_32_CONSTANT` of
/// `ckb_vm_definitions::instructions` and on `ckb_vm_definitions::registers::RA`:
/// their values.
#[verifier::external_body]
pub(crate) fn opcodes() -> (r: Opcodes)
    ensures
        r == ops(),
{
    Opcodes {
        lui: insts::OP_LUI, auipc: insts::OP_AUIPC, jalr: insts::OP_JALR, addiw: insts::OP_ADDIW,
        mul: insts::OP_MUL, mulh: insts::OP_MULH, mulhu: insts::OP_MULHU, div: insts::OP_DIV,
        divu: insts::OP_DIVU, rem: insts::OP_REM, remu: insts::OP_REMU,
        far_jump_abs: insts::OP_FAR_JUMP_ABS, far_jump_rel: insts::OP_FAR_JUMP_REL,
        ld_sign_extended_32_constant: insts::OP_LD_SIGN_EXTENDED_32_CONSTANT,
        wide_mul: insts::OP_WIDE_MUL, wide_mulu: insts::OP_WIDE_MULU,
        wide_div: insts::OP_WIDE_DIV, wide_divu: insts::OP_WIDE_DIVU, ra: RA as u8,
    }
}

} // verus!
