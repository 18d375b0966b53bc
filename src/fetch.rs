//! The primitive decoder that fusion builds on: one instruction at a time,
//! from the memory it reads.
use vstd::prelude::*;

use crate::instruction::Instruction;

verus! {

/// Why an instruction could not be decoded.
#[derive(Clone, Copy, Debug, PartialEq, Eq, Structural)]
pub enum Error {
    /// The address lies outside the memory.
    MemOutOfBound,
    /// The bytes at `pc` are no legal instruction.
    InvalidInstruction { pc: u64, instruction: u32 },
}

/// Decodes a single instruction at an address of the memory it reads.
///
/// Decoding is deterministic: what it yields at an address is a function of
/// the memory, which decoding does not change. Each call is recorded, so that
/// callers can state which addresses they read.
pub trait PrimitiveDecoder {
    /// What decoding at `pc` yields.
    spec fn spec_decode(&self, pc: u64) -> Result<Instruction, Error>;

    /// The addresses decoded so far, in order.
    spec fn fetches(&self) -> Seq<u64>;

    fn decode_instruction(&mut self, pc: u64) -> (r: Result<Instruction, Error>)
        ensures
            r == old(self).spec_decode(pc),
            final(self).fetches() == old(self).fetches().push(pc),
            forall|p: u64| #[trigger] final(self).spec_decode(p) == old(self).spec_decode(p),
    ;
}

/// The first outcome recorded at `pc` in `entries`.
pub open spec fn lookup(entries: Seq<(u64, Result<Instruction, Error>)>, pc: u64) -> Option<
    Result<Instruction, Error>,
>
    decreases entries.len(),
{
    if entries.len() == 0 {
        None
    } else if entries[0].0 == pc {
        Some(entries[0].1)
    } else {
        lookup(entries.drop_first(), pc)
    }
}

/// A memory of already decoded instructions, each recorded at its address
/// with what decoding there yields: an instruction, or the bits of an
/// illegal encoding. An address with nothing recorded lies outside the
/// memory.
pub struct InstructionTable {
    entries: Vec<(u64, Result<Instruction, Error>)>,
    fetched: Ghost<Seq<u64>>,
}

impl InstructionTable {
    /// The recorded outcomes, in the order they were added.
    pub closed spec fn entries(&self) -> Seq<(u64, Result<Instruction, Error>)> {
        self.entries@
    }

    /// An empty table.
    pub fn new() -> (r: InstructionTable)
        ensures
            r.entries() == Seq::<(u64, Result<Instruction, Error>)>::empty(),
            r.fetches() == Seq::<u64>::empty(),
    {
        InstructionTable { entries: Vec::new(), fetched: Ghost(Seq::empty()) }
    }

    /// Records `instruction` at `pc`, after any instruction already recorded
    /// there, which keeps precedence.
    pub fn insert(&mut self, pc: u64, instruction: Instruction)
        ensures
            final(self).entries() == old(self).entries().push((pc, Ok(instruction))),
            final(self).fetches() == old(self).fetches(),
    {
        self.entries.push((pc, Ok(instruction)));
    }

    /// Records at `pc` the illegal encoding `bits`, after anything already
    /// recorded there, which keeps precedence.
    pub fn insert_invalid(&mut self, pc: u64, bits: u32)
        ensures
            final(self).entries() == old(self).entries().push(
                (pc, Err(Error::InvalidInstruction { pc, instruction: bits })),
            ),
            final(self).fetches() == old(self).fetches(),
    {
        self.entries.push((pc, Err(Error::InvalidInstruction { pc, instruction: bits })));
    }
}

impl PrimitiveDecoder for InstructionTable {
    open spec fn spec_decode(&self, pc: u64) -> Result<Instruction, Error> {
        match lookup(self.entries(), pc) {
            Some(outcome) => outcome,
            None => Err(Error::MemOutOfBound),
        }
    }

    closed spec fn fetches(&self) -> Seq<u64> {
        self.fetched@
    }

    fn decode_instruction(&mut self, pc: u64) -> (r: Result<Instruction, Error>) {
        self.fetched = Ghost(self.fetched@.push(pc));
        let n = self.entries.len();
        let mut k: usize = 0;
        assert(self.entries@.subrange(0, n as int) =~= self.entries@);
        while k < n
            invariant
                self.entries@ == old(self).entries@,
                self.fetched@ == old(self).fetched@.push(pc),
                n == self.entries@.len(),
                k <= n,
                lookup(self.entries@, pc) == lookup(self.entries@.subrange(k as int, n as int), pc),
            decreases n - k,
        {
            let (at, outcome) = self.entries[k];
            let ghost rest = self.entries@.subrange(k as int, n as int);
            assert(rest.drop_first() =~= self.entries@.subrange(k + 1, n as int));
            assert(rest[0] == (at, outcome));
            if at == pc {
                return outcome;
            }
            k = k + 1;
        }
        assert(self.entries@.subrange(n as int, n as int).len() == 0);
        Err(Error::MemOutOfBound)
    }
}

} // verus!
