//! The processor state and the fetch-decode-execute engine.
//!
//! A [`Machine`] owns three 8-bit general registers, a 16-bit instruction
//! pointer, an 8-bit flags register, and a flat memory buffer of at most
//! 65,535 bytes that holds the program. Each cycle fetches the byte at the
//! instruction pointer, advances the pointer by exactly one, and applies the
//! decoded instruction. The only way a run ends is an out-of-bounds fetch:
//! there is no halt instruction.
//!
//! All register arithmetic wraps modulo 256; the carry flag exists in the
//! flag layout but is never written by any instruction.

use vstd::prelude::*;

use crate::arch::Flags;
use crate::arch::Instruction;
use crate::arch::cmp_update;
use crate::arch::flag_set;
use crate::arch::lemma_cmp_flags;
use crate::arch::spec_decode;
use crate::arch::with_flag;

verus! {

/// 8-bit ALU addition: the sum modulo 256.
pub open spec fn wrap_add(x: u8, y: u8) -> u8 {
    ((x + y) % 256) as u8
}

/// 8-bit ALU subtraction: the difference modulo 256.
pub open spec fn wrap_sub(x: u8, y: u8) -> u8 {
    ((x - y + 256) % 256) as u8
}

/// The general-register and flag state of a machine, as one mathematical
/// value; the instruction pointer and the memory are tracked separately.
pub struct Regs {
    pub a: u8,
    pub b: u8,
    pub c: u8,
    pub flags: u8,
}

/// The register and flag state after one instruction executes on `r`.
/// This is the semantics table of the instruction set: moves copy a
/// register, increments and arithmetic wrap modulo 256, compares rewrite
/// the three comparison flags, and `NOP` and `DUMP` change nothing.
pub open spec fn exec_effect(i: Instruction, r: Regs) -> Regs {
    match i {
        Instruction::NOP => r,
        Instruction::MOVAB => Regs { a: r.b, b: r.b, c: r.c, flags: r.flags },
        Instruction::MOVBA => Regs { a: r.a, b: r.a, c: r.c, flags: r.flags },
        Instruction::MOVAC => Regs { a: r.c, b: r.b, c: r.c, flags: r.flags },
        Instruction::MOVBC => Regs { a: r.a, b: r.c, c: r.c, flags: r.flags },
        Instruction::MOVCA => Regs { a: r.a, b: r.b, c: r.a, flags: r.flags },
        Instruction::MOVCB => Regs { a: r.a, b: r.b, c: r.b, flags: r.flags },
        Instruction::INCA => Regs { a: wrap_add(r.a, 1), b: r.b, c: r.c, flags: r.flags },
        Instruction::INCB => Regs { a: r.a, b: wrap_add(r.b, 1), c: r.c, flags: r.flags },
        Instruction::INCC => Regs { a: r.a, b: r.b, c: wrap_add(r.c, 1), flags: r.flags },
        Instruction::CMPAB => Regs { a: r.a, b: r.b, c: r.c, flags: cmp_update(r.flags, r.a, r.b) },
        Instruction::CMPAC => Regs { a: r.a, b: r.b, c: r.c, flags: cmp_update(r.flags, r.a, r.c) },
        Instruction::CMPBC => Regs { a: r.a, b: r.b, c: r.c, flags: cmp_update(r.flags, r.b, r.c) },
        Instruction::ADDAB => Regs { a: wrap_add(r.a, r.b), b: r.b, c: r.c, flags: r.flags },
        Instruction::ADDAC => Regs { a: wrap_add(r.a, r.c), b: r.b, c: r.c, flags: r.flags },
        Instruction::ADDBC => Regs { a: r.a, b: wrap_add(r.b, r.c), c: r.c, flags: r.flags },
        Instruction::ADDBA => Regs { a: r.a, b: wrap_add(r.b, r.a), c: r.c, flags: r.flags },
        Instruction::ADDCA => Regs { a: r.a, b: r.b, c: wrap_add(r.c, r.a), flags: r.flags },
        Instruction::ADDCB => Regs { a: r.a, b: r.b, c: wrap_add(r.c, r.b), flags: r.flags },
        Instruction::SUBAB => Regs { a: wrap_sub(r.a, r.b), b: r.b, c: r.c, flags: r.flags },
        Instruction::SUBAC => Regs { a: wrap_sub(r.a, r.c), b: r.b, c: r.c, flags: r.flags },
        Instruction::SUBBA => Regs { a: r.a, b: wrap_sub(r.b, r.a), c: r.c, flags: r.flags },
        Instruction::SUBBC => Regs { a: r.a, b: wrap_sub(r.b, r.c), c: r.c, flags: r.flags },
        Instruction::SUBCA => Regs { a: r.a, b: r.b, c: wrap_sub(r.c, r.a), flags: r.flags },
        Instruction::SUBCB => Regs { a: r.a, b: r.b, c: wrap_sub(r.c, r.b), flags: r.flags },
        Instruction::DUMP => r,
    }
}

/// No instruction writes the carry flag: it is defined in the flag layout,
/// and arithmetic overflow is silent. Every instruction — the compares
/// included — leaves the carry bit exactly as it found it.
pub proof fn lemma_carry_never_written(i: Instruction, r: Regs)
    ensures
        flag_set(exec_effect(i, r).flags, Flags::AluCarry) == flag_set(r.flags, Flags::AluCarry),
{
    match i {
        Instruction::CMPAB => lemma_cmp_flags(r.flags, r.a, r.b),
        Instruction::CMPAC => lemma_cmp_flags(r.flags, r.a, r.c),
        Instruction::CMPBC => lemma_cmp_flags(r.flags, r.b, r.c),
        _ => {},
    }
}

/// A snapshot of the whole visible machine state, as the diagnostic `DUMP`
/// instruction records it. The instruction pointer has already advanced past
/// the `DUMP` opcode when the snapshot is taken.
#[derive(Clone, Copy, Debug, PartialEq, Eq, Structural)]
pub struct DumpRecord {
    pub reg_a8: u8,
    pub reg_b8: u8,
    pub reg_c8: u8,
    pub reg_flags: u8,
    pub reg_ic: u16,
}

/// The snapshot a `DUMP` leaves when the registers hold `r` and the
/// instruction pointer has advanced to `ic`.
pub open spec fn dump_of(r: Regs, ic: u16) -> DumpRecord {
    DumpRecord { reg_a8: r.a, reg_b8: r.b, reg_c8: r.c, reg_flags: r.flags, reg_ic: ic }
}

/// What one fetch-decode-execute cycle did.
#[derive(Clone, Copy, Debug, PartialEq, Eq, Structural)]
pub enum StepResult {
    /// The instruction pointer was past the end of memory: the fetch faulted
    /// and the machine did not change. This is the only termination of a run.
    Fault,
    /// An instruction was fetched and executed.
    Ran,
    /// A `DUMP` instruction was fetched and executed: the caller should emit
    /// a diagnostic snapshot of the machine.
    Dumped,
}

/// The register state after running from `r` with memory `mem`, starting at
/// instruction pointer `ic`, until the fetch faults past the end of memory.
pub open spec fn run_regs(r: Regs, mem: Seq<u8>, ic: int) -> Regs
    decreases mem.len() - ic,
{
    if ic < 0 || ic >= mem.len() {
        r
    } else {
        run_regs(exec_effect(spec_decode(mem[ic]), r), mem, ic + 1)
    }
}

/// The diagnostic snapshots, in program order, that a run from `r` with
/// memory `mem` emits from instruction pointer `ic` until the fetch faults.
pub open spec fn run_dumps(r: Regs, mem: Seq<u8>, ic: int) -> Seq<DumpRecord>
    decreases mem.len() - ic,
{
    if ic < 0 || ic >= mem.len() {
        Seq::empty()
    } else {
        let rest = run_dumps(exec_effect(spec_decode(mem[ic]), r), mem, ic + 1);
        if spec_decode(mem[ic]) is DUMP {
            seq![dump_of(r, (ic + 1) as u16)] + rest
        } else {
            rest
        }
    }
}

/// The complete processor state, for use by the emulator.
pub struct Machine {
    /// Represented as REG_A8 in instructions, also referred to as the Accumulator.
    pub reg_a8: u8,
    /// Represented as REG_B8 in instructions, also referred to as the Data Register.
    pub reg_b8: u8,
    /// Represented as REG_C8 in instructions, also referred to as the Counter.
    pub reg_c8: u8,
    /// Represented as REG_IC in instructions, also referred to as the Instruction Pointer.
    pub reg_ic: u16,
    /// Represented as REG_FLAGS in instructions, also referred to as the Flags Register.
    pub reg_flags: u8,
    /// The entire working memory of the system, at most 65,535 bytes.
    pub memory: Vec<u8>,
}

/// 8-bit ALU addition with wrapping (modulo 256) semantics, shared by the
/// increment and all six ADD instructions.
pub fn alu_add(x: u8, y: u8) -> (r: u8)
    ensures
        r == wrap_add(x, y),
{
    x.wrapping_add(y)
}

/// 8-bit ALU subtraction with wrapping (modulo 256) semantics, shared by all
/// six SUB instructions.
pub fn alu_sub(x: u8, y: u8) -> (r: u8)
    ensures
        r == wrap_sub(x, y),
{
    x.wrapping_sub(y)
}

impl Machine {
    /// The memory buffer fits the 16-bit instruction pointer: every address
    /// the pointer can hold either fetches or faults, and advancing past the
    /// last byte never overflows the pointer.
    pub open spec fn wf(self) -> bool {
        self.memory@.len() <= 0xFFFF
    }

    /// The general-register and flag state of this machine.
    pub open spec fn regs(self) -> Regs {
        Regs { a: self.reg_a8, b: self.reg_b8, c: self.reg_c8, flags: self.reg_flags }
    }

    /// The diagnostic snapshot of the current machine state.
    pub open spec fn spec_snapshot(self) -> DumpRecord {
        DumpRecord {
            reg_a8: self.reg_a8,
            reg_b8: self.reg_b8,
            reg_c8: self.reg_c8,
            reg_flags: self.reg_flags,
            reg_ic: self.reg_ic,
        }
    }

    /// Builds a machine around the given memory image with every register
    /// zeroed. The image is interpreted positionally as opcodes from offset 0.
    pub fn new(mem: Vec<u8>) -> (m: Machine)
        requires
            mem@.len() <= 0xFFFF,
        ensures
            m.wf(),
            m.reg_a8 == 0,
            m.reg_b8 == 0,
            m.reg_c8 == 0,
            m.reg_ic == 0,
            m.reg_flags == 0,
            m.memory@ == mem@,
    {
        Machine {
            reg_a8: 0b_0000_0000,
            reg_b8: 0b_0000_0000,
            reg_c8: 0b_0000_0000,
            reg_ic: 0b_0000_0000,
            reg_flags: 0b_0000_0000,
            memory: mem,
        }
    }

    /// Sets or clears the single bit of `flag` in the flags register,
    /// leaving every other bit and the rest of the machine unchanged.
    pub fn set_flag(&mut self, flag: Flags, value: bool)
        ensures
            final(self).reg_flags == with_flag(old(self).reg_flags, flag, value),
            final(self).reg_a8 == old(self).reg_a8,
            final(self).reg_b8 == old(self).reg_b8,
            final(self).reg_c8 == old(self).reg_c8,
            final(self).reg_ic == old(self).reg_ic,
            final(self).memory@ == old(self).memory@,
    {
        let m: u8 = flag.mask();
        if value {
            self.reg_flags = self.reg_flags | m;
        } else {
            self.reg_flags = self.reg_flags & !m;
        }
    }

    /// Reads the single bit of `flag` from the flags register.
    pub fn flag(&self, flag: Flags) -> (b: bool)
        ensures
            b == flag_set(self.reg_flags, flag),
    {
        (self.reg_flags & flag.mask()) != 0
    }

    /// Takes the diagnostic snapshot of the current machine state.
    pub fn snapshot(&self) -> (d: DumpRecord)
        ensures
            d == self.spec_snapshot(),
    {
        DumpRecord {
            reg_a8: self.reg_a8,
            reg_b8: self.reg_b8,
            reg_c8: self.reg_c8,
            reg_flags: self.reg_flags,
            reg_ic: self.reg_ic,
        }
    }

    /// One fetch-decode-execute cycle.
    ///
    /// When the instruction pointer is past the end of memory the fetch
    /// faults and nothing changes. Otherwise the pointer advances by exactly
    /// one — whatever the opcode — and the decoded instruction's effect is
    /// applied to the registers; the result says whether that instruction
    /// was a `DUMP`, whose snapshot the caller emits.
    pub fn step(&mut self) -> (r: StepResult)
        requires
            old(self).wf(),
        ensures
            final(self).wf(),
            final(self).memory@ == old(self).memory@,
            (r is Fault) <==> old(self).reg_ic as int >= old(self).memory@.len(),
            r is Fault ==> *final(self) == *old(self),
            !(r is Fault) ==> final(self).reg_ic == old(self).reg_ic + 1,
            !(r is Fault) ==> final(self).regs() == exec_effect(
                spec_decode(old(self).memory@[old(self).reg_ic as int]),
                old(self).regs(),
            ),
            (r is Dumped) <==> ((old(self).reg_ic as int) < old(self).memory@.len()
                && spec_decode(old(self).memory@[old(self).reg_ic as int]) is DUMP),
    {
        let ic: usize = self.reg_ic as usize;
        if ic >= self.memory.len() {
            return StepResult::Fault;
        }
        let opcode: Instruction = Instruction::from(self.memory[ic]);
        self.reg_ic = self.reg_ic + 1;

        match opcode {
            Instruction::NOP => StepResult::Ran,

            Instruction::MOVAB => {
                self.reg_a8 = self.reg_b8;
                StepResult::Ran
            },
            Instruction::MOVBA => {
                self.reg_b8 = self.reg_a8;
                StepResult::Ran
            },
            Instruction::MOVAC => {
                self.reg_a8 = self.reg_c8;
                StepResult::Ran
            },
            Instruction::MOVBC => {
                self.reg_b8 = self.reg_c8;
                StepResult::Ran
            },
            Instruction::MOVCA => {
                self.reg_c8 = self.reg_a8;
                StepResult::Ran
            },
            Instruction::MOVCB => {
                self.reg_c8 = self.reg_b8;
                StepResult::Ran
            },

            Instruction::INCA => {
                self.reg_a8 = alu_add(self.reg_a8, 1);
                StepResult::Ran
            },
            Instruction::INCB => {
                self.reg_b8 = alu_add(self.reg_b8, 1);
                StepResult::Ran
            },
            Instruction::INCC => {
                self.reg_c8 = alu_add(self.reg_c8, 1);
                StepResult::Ran
            },

            Instruction::CMPAB => {
                let gt: bool = self.reg_a8 > self.reg_b8;
                let eq: bool = self.reg_a8 == self.reg_b8;
                let lt: bool = self.reg_a8 < self.reg_b8;
                self.set_flag(Flags::CmpGreater, gt);
                self.set_flag(Flags::CmpEqual, eq);
                self.set_flag(Flags::CmpLess, lt);
                StepResult::Ran
            },
            Instruction::CMPAC => {
                let gt: bool = self.reg_a8 > self.reg_c8;
                let eq: bool = self.reg_a8 == self.reg_c8;
                let lt: bool = self.reg_a8 < self.reg_c8;
                self.set_flag(Flags::CmpGreater, gt);
                self.set_flag(Flags::CmpEqual, eq);
                self.set_flag(Flags::CmpLess, lt);
                StepResult::Ran
            },
            Instruction::CMPBC => {
                let gt: bool = self.reg_b8 > self.reg_c8;
                let eq: bool = self.reg_b8 == self.reg_c8;
                let lt: bool = self.reg_b8 < self.reg_c8;
                self.set_flag(Flags::CmpGreater, gt);
                self.set_flag(Flags::CmpEqual, eq);
                self.set_flag(Flags::CmpLess, lt);
                StepResult::Ran
            },

            Instruction::ADDAB => {
                self.reg_a8 = alu_add(self.reg_a8, self.reg_b8);
                StepResult::Ran
            },
            Instruction::ADDAC => {
                self.reg_a8 = alu_add(self.reg_a8, self.reg_c8);
                StepResult::Ran
            },
            Instruction::ADDBC => {
                self.reg_b8 = alu_add(self.reg_b8, self.reg_c8);
                StepResult::Ran
            },
            Instruction::ADDBA => {
                self.reg_b8 = alu_add(self.reg_b8, self.reg_a8);
                StepResult::Ran
            },
            Instruction::ADDCA => {
                self.reg_c8 = alu_add(self.reg_c8, self.reg_a8);
                StepResult::Ran
            },
            Instruction::ADDCB => {
                self.reg_c8 = alu_add(self.reg_c8, self.reg_b8);
                StepResult::Ran
            },

            Instruction::SUBAB => {
                self.reg_a8 = alu_sub(self.reg_a8, self.reg_b8);
                StepResult::Ran
            },
            Instruction::SUBAC => {
                self.reg_a8 = alu_sub(self.reg_a8, self.reg_c8);
                StepResult::Ran
            },
            Instruction::SUBBA => {
                self.reg_b8 = alu_sub(self.reg_b8, self.reg_a8);
                StepResult::Ran
            },
            Instruction::SUBBC => {
                self.reg_b8 = alu_sub(self.reg_b8, self.reg_c8);
                StepResult::Ran
            },
            Instruction::SUBCA => {
                self.reg_c8 = alu_sub(self.reg_c8, self.reg_a8);
                StepResult::Ran
            },
            Instruction::SUBCB => {
                self.reg_c8 = alu_sub(self.reg_c8, self.reg_b8);
                StepResult::Ran
            },

            Instruction::DUMP => StepResult::Dumped,
        }
    }

    /// Runs fetch-decode-execute cycles until the fetch faults past the end
    /// of memory — the only termination this instruction set has — and
    /// returns the diagnostic snapshots that the `DUMP` instructions along
    /// the way asked for, in program order.
    pub fn exec(&mut self) -> (dumps: Vec<DumpRecord>)
        requires
            old(self).wf(),
        ensures
            final(self).wf(),
            final(self).memory@ == old(self).memory@,
            final(self).regs() == run_regs(old(self).regs(), old(self).memory@, old(self).reg_ic as int),
            dumps@ == run_dumps(old(self).regs(), old(self).memory@, old(self).reg_ic as int),
            final(self).reg_ic == if old(self).reg_ic as int >= old(self).memory@.len() {
                old(self).reg_ic
            } else {
                (old(self).memory@.len() as u16)
            },
    {
        let mut dumps: Vec<DumpRecord> = Vec::new();
        proof {
            assert(dumps@ + run_dumps(self.regs(), self.memory@, self.reg_ic as int) =~= run_dumps(
                self.regs(),
                self.memory@,
                self.reg_ic as int,
            ));
        }
        loop
            invariant
                self.wf(),
                self.memory@ == old(self).memory@,
                run_regs(self.regs(), self.memory@, self.reg_ic as int) == run_regs(
                    old(self).regs(),
                    old(self).memory@,
                    old(self).reg_ic as int,
                ),
                dumps@ + run_dumps(self.regs(), self.memory@, self.reg_ic as int) == run_dumps(
                    old(self).regs(),
                    old(self).memory@,
                    old(self).reg_ic as int,
                ),
                old(self).reg_ic as int >= old(self).memory@.len() ==> self.reg_ic == old(self).reg_ic,
                (old(self).reg_ic as int) < old(self).memory@.len() ==> self.reg_ic as int <= old(self).memory@.len(),
            decreases self.memory@.len() - self.reg_ic,
        {
            let ghost prev: Machine = *self;
            match self.step() {
                StepResult::Fault => {
                    proof {
                        assert(dumps@ + Seq::<DumpRecord>::empty() =~= dumps@);
                    }
                    return dumps;
                },
                StepResult::Ran => {},
                StepResult::Dumped => {
                    let d: DumpRecord = self.snapshot();
                    proof {
                        assert(dumps@.push(d) =~= dumps@ + seq![dump_of(prev.regs(), self.reg_ic)]);
                    }
                    dumps.push(d);
                },
            }
        }
    }
}

} // verus!
