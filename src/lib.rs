//! Macro-operation fusion for a RISC-V instruction decoder.
//!
//! A fusing decoder recognises adjacent pairs of instructions that together
//! form a common idiom (a far jump, a sign-extended 32-bit constant load, a
//! widening multiply or divide) and hands back one synthetic instruction in
//! their place, whose length field covers both.
pub mod fetch;
pub mod instruction;
pub mod opcodes;
pub mod mop;
