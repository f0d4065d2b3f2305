//! Architecture definition: the instruction set and the flag-register layout.
//!
//! Instruction opcodes are always one byte. Every byte value decodes to some
//! instruction: bytes that are not assigned to a named opcode decode to the
//! diagnostic [`Instruction::DUMP`] variant, a deliberate fallback rather than
//! an error path.

use vstd::prelude::*;

verus! {

/// The instruction set of the processor, a closed set of one-byte opcodes.
///
/// * `NOP` - `0x00` - no-op, used for padding, testing, or delays
/// * `MOV**` - `0x01`..`0x06` - register-to-register moves
/// * `INC*` - `0x07`..`0x09` - increment a register
/// * `CMP**` - `0x0A`..`0x0C` - compare two registers into the flags
/// * `ADD**` - `0x0D`..`0x12` - add one register into another
/// * `SUB**` - `0x13`..`0x18` - subtract one register from another
/// * `DUMP` - `0xFF` - diagnostic snapshot of all registers and flags
#[derive(Clone, Copy, Debug, PartialEq, Eq, Structural)]
pub enum Instruction {
    /// `NOP` - `0x00` - No-op instruction.
    NOP,
    /// `MOVAB` - `0x01` - Moves REG_B8 into REG_A8.
    MOVAB,
    /// `MOVBA` - `0x02` - Moves REG_A8 into REG_B8.
    MOVBA,
    /// `MOVAC` - `0x03` - Moves REG_C8 into REG_A8.
    MOVAC,
    /// `MOVBC` - `0x04` - Moves REG_C8 into REG_B8.
    MOVBC,
    /// `MOVCA` - `0x05` - Moves REG_A8 into REG_C8.
    MOVCA,
    /// `MOVCB` - `0x06` - Moves REG_B8 into REG_C8.
    MOVCB,
    /// `INCA` - `0x07` - Increments REG_A8.
    INCA,
    /// `INCB` - `0x08` - Increments REG_B8.
    INCB,
    /// `INCC` - `0x09` - Increments REG_C8.
    INCC,
    /// `CMPAB` - `0x0A` - Compares A >|=|< B into the flags.
    CMPAB,
    /// `CMPAC` - `0x0B` - Compares A >|=|< C into the flags.
    CMPAC,
    /// `CMPBC` - `0x0C` - Compares B >|=|< C into the flags.
    CMPBC,
    /// `ADDAB` - `0x0D` - Adds REG_B8 to REG_A8, result in REG_A8.
    ADDAB,
    /// `ADDAC` - `0x0E` - Adds REG_C8 to REG_A8, result in REG_A8.
    ADDAC,
    /// `ADDBC` - `0x0F` - Adds REG_C8 to REG_B8, result in REG_B8.
    ADDBC,
    /// `ADDBA` - `0x10` - Adds REG_A8 to REG_B8, result in REG_B8.
    ADDBA,
    /// `ADDCA` - `0x11` - Adds REG_A8 to REG_C8, result in REG_C8.
    ADDCA,
    /// `ADDCB` - `0x12` - Adds REG_B8 to REG_C8, result in REG_C8.
    ADDCB,
    /// `SUBAB` - `0x13` - Subtracts REG_B8 from REG_A8, result in REG_A8.
    SUBAB,
    /// `SUBAC` - `0x14` - Subtracts REG_C8 from REG_A8, result in REG_A8.
    SUBAC,
    /// `SUBBA` - `0x15` - Subtracts REG_A8 from REG_B8, result in REG_B8.
    SUBBA,
    /// `SUBBC` - `0x16` - Subtracts REG_C8 from REG_B8, result in REG_B8.
    SUBBC,
    /// `SUBCA` - `0x17` - Subtracts REG_A8 from REG_C8, result in REG_C8.
    SUBCA,
    /// `SUBCB` - `0x18` - Subtracts REG_B8 from REG_C8, result in REG_C8.
    SUBCB,
    /// `DUMP` - `0xFF` - Prints the value of all registers; also the decoding
    /// of every unassigned opcode byte.
    DUMP,
}

/// The canonical one-byte encoding of each instruction.
pub open spec fn opcode_of(i: Instruction) -> u8 {
    match i {
        Instruction::NOP => 0x00,
        Instruction::MOVAB => 0x01,
        Instruction::MOVBA => 0x02,
        Instruction::MOVAC => 0x03,
        Instruction::MOVBC => 0x04,
        Instruction::MOVCA => 0x05,
        Instruction::MOVCB => 0x06,
        Instruction::INCA => 0x07,
        Instruction::INCB => 0x08,
        Instruction::INCC => 0x09,
        Instruction::CMPAB => 0x0A,
        Instruction::CMPAC => 0x0B,
        Instruction::CMPBC => 0x0C,
        Instruction::ADDAB => 0x0D,
        Instruction::ADDAC => 0x0E,
        Instruction::ADDBC => 0x0F,
        Instruction::ADDBA => 0x10,
        Instruction::ADDCA => 0x11,
        Instruction::ADDCB => 0x12,
        Instruction::SUBAB => 0x13,
        Instruction::SUBAC => 0x14,
        Instruction::SUBBA => 0x15,
        Instruction::SUBBC => 0x16,
        Instruction::SUBCA => 0x17,
        Instruction::SUBCB => 0x18,
        Instruction::DUMP => 0xFF,
    }
}

/// What each opcode byte decodes to. Total: every byte maps to exactly one
/// instruction, and every byte not assigned to a named opcode maps to
/// [`Instruction::DUMP`].
pub open spec fn spec_decode(b: u8) -> Instruction {
    if b == 0x00 {
        Instruction::NOP
    } else if b == 0x01 {
        Instruction::MOVAB
    } else if b == 0x02 {
        Instruction::MOVBA
    } else if b == 0x03 {
        Instruction::MOVAC
    } else if b == 0x04 {
        Instruction::MOVBC
    } else if b == 0x05 {
        Instruction::MOVCA
    } else if b == 0x06 {
        Instruction::MOVCB
    } else if b == 0x07 {
        Instruction::INCA
    } else if b == 0x08 {
        Instruction::INCB
    } else if b == 0x09 {
        Instruction::INCC
    } else if b == 0x0A {
        Instruction::CMPAB
    } else if b == 0x0B {
        Instruction::CMPAC
    } else if b == 0x0C {
        Instruction::CMPBC
    } else if b == 0x0D {
        Instruction::ADDAB
    } else if b == 0x0E {
        Instruction::ADDAC
    } else if b == 0x0F {
        Instruction::ADDBC
    } else if b == 0x10 {
        Instruction::ADDBA
    } else if b == 0x11 {
        Instruction::ADDCA
    } else if b == 0x12 {
        Instruction::ADDCB
    } else if b == 0x13 {
        Instruction::SUBAB
    } else if b == 0x14 {
        Instruction::SUBAC
    } else if b == 0x15 {
        Instruction::SUBBA
    } else if b == 0x16 {
        Instruction::SUBBC
    } else if b == 0x17 {
        Instruction::SUBCA
    } else if b == 0x18 {
        Instruction::SUBCB
    } else {
        Instruction::DUMP
    }
}

impl Instruction {
    /// The canonical one-byte encoding of this instruction.
    pub fn opcode(&self) -> (b: u8)
        ensures
            b == opcode_of(*self),
    {
        match *self {
            Instruction::NOP => 0x00,
            Instruction::MOVAB => 0x01,
            Instruction::MOVBA => 0x02,
            Instruction::MOVAC => 0x03,
            Instruction::MOVBC => 0x04,
            Instruction::MOVCA => 0x05,
            Instruction::MOVCB => 0x06,
            Instruction::INCA => 0x07,
            Instruction::INCB => 0x08,
            Instruction::INCC => 0x09,
            Instruction::CMPAB => 0x0A,
            Instruction::CMPAC => 0x0B,
            Instruction::CMPBC => 0x0C,
            Instruction::ADDAB => 0x0D,
            Instruction::ADDAC => 0x0E,
            Instruction::ADDBC => 0x0F,
            Instruction::ADDBA => 0x10,
            Instruction::ADDCA => 0x11,
            Instruction::ADDCB => 0x12,
            Instruction::SUBAB => 0x13,
            Instruction::SUBAC => 0x14,
            Instruction::SUBBA => 0x15,
            Instruction::SUBBC => 0x16,
            Instruction::SUBCA => 0x17,
            Instruction::SUBCB => 0x18,
            Instruction::DUMP => 0xFF,
        }
    }
}

impl vstd::std_specs::convert::FromSpecImpl<u8> for Instruction {
    open spec fn obeys_from_spec() -> bool {
        true
    }

    open spec fn from_spec(u: u8) -> Instruction {
        spec_decode(u)
    }
}

impl From<u8> for Instruction {
    /// Decodes one opcode byte. Total over all 256 byte values: unassigned
    /// bytes fall back to [`Instruction::DUMP`].
    fn from(u: u8) -> (r: Instruction) {
        match u {
            0x00 => Instruction::NOP,
            0x01 => Instruction::MOVAB,
            0x02 => Instruction::MOVBA,
            0x03 => Instruction::MOVAC,
            0x04 => Instruction::MOVBC,
            0x05 => Instruction::MOVCA,
            0x06 => Instruction::MOVCB,
            0x07 => Instruction::INCA,
            0x08 => Instruction::INCB,
            0x09 => Instruction::INCC,
            0x0A => Instruction::CMPAB,
            0x0B => Instruction::CMPAC,
            0x0C => Instruction::CMPBC,
            0x0D => Instruction::ADDAB,
            0x0E => Instruction::ADDAC,
            0x0F => Instruction::ADDBC,
            0x10 => Instruction::ADDBA,
            0x11 => Instruction::ADDCA,
            0x12 => Instruction::ADDCB,
            0x13 => Instruction::SUBAB,
            0x14 => Instruction::SUBAC,
            0x15 => Instruction::SUBBA,
            0x16 => Instruction::SUBBC,
            0x17 => Instruction::SUBCA,
            0x18 => Instruction::SUBCB,
            0xFF => Instruction::DUMP,
            _ => Instruction::DUMP,
        }
    }
}

/// The flag bits of REG_FLAGS, for accessing the flags register in a safe
/// manner. Each flag owns a single bit of the 8-bit flags register, so
/// several flags may be set at the same time.
#[derive(Clone, Copy, Debug, PartialEq, Eq, Structural)]
pub enum Flags {
    /// Set when an ALU operation has a carry at the end or otherwise
    /// overflows. Defined in the flag layout, but no instruction writes it.
    AluCarry,
    /// Set when the result of the last CMP operation is Greater.
    CmpGreater,
    /// Set when the result of the last CMP operation is Equal.
    CmpEqual,
    /// Set when the result of the last CMP operation is Less.
    CmpLess,
}

/// The single-bit mask that each flag owns within the flags register.
pub open spec fn mask_of(f: Flags) -> u8 {
    match f {
        Flags::AluCarry => 0b_0000_0001,
        Flags::CmpGreater => 0b_0000_0010,
        Flags::CmpEqual => 0b_0000_0100,
        Flags::CmpLess => 0b_0000_1000,
    }
}

/// Whether flag `f` is set in the flags-register byte `flags`.
pub open spec fn flag_set(flags: u8, f: Flags) -> bool {
    flags & mask_of(f) != 0
}

/// The flags-register byte after writing `v` into flag `f`: the flag's bit is
/// set when `v` is true and cleared when `v` is false; no other bit moves.
pub open spec fn with_flag(flags: u8, f: Flags, v: bool) -> u8 {
    if v {
        flags | mask_of(f)
    } else {
        flags & !mask_of(f)
    }
}

/// The flags-register byte after a CMP instruction compares `x` against `y`:
/// the Greater, Equal and Less bits are rewritten from the comparison, and
/// every other bit (in particular the carry bit) is left as it was.
pub open spec fn cmp_update(flags: u8, x: u8, y: u8) -> u8 {
    with_flag(with_flag(with_flag(flags, Flags::CmpGreater, x > y), Flags::CmpEqual, x == y), Flags::CmpLess, x < y)
}

impl Flags {
    /// The single-bit mask that this flag owns within the flags register.
    pub fn mask(&self) -> (m: u8)
        ensures
            m == mask_of(*self),
    {
        match *self {
            Flags::AluCarry => 0b_0000_0001,
            Flags::CmpGreater => 0b_0000_0010,
            Flags::CmpEqual => 0b_0000_0100,
            Flags::CmpLess => 0b_0000_1000,
        }
    }
}

proof fn lemma_mask_literals_disjoint()
    by (bit_vector)
    ensures
        1u8 & 2u8 == 0,
        1u8 & 4u8 == 0,
        1u8 & 8u8 == 0,
        2u8 & 1u8 == 0,
        2u8 & 4u8 == 0,
        2u8 & 8u8 == 0,
        4u8 & 1u8 == 0,
        4u8 & 2u8 == 0,
        4u8 & 8u8 == 0,
        8u8 & 1u8 == 0,
        8u8 & 2u8 == 0,
        8u8 & 4u8 == 0,
{
}

/// Distinct flags own disjoint bits of the flags register.
pub proof fn lemma_masks_disjoint(f: Flags, g: Flags)
    requires
        f != g,
    ensures
        mask_of(f) & mask_of(g) == 0,
{
    lemma_mask_literals_disjoint();
}

proof fn lemma_or_sets_bit(x: u8, m: u8)
    by (bit_vector)
    requires
        m != 0,
    ensures
        (x | m) & m != 0,
{
}

proof fn lemma_andnot_clears_bit(x: u8, m: u8)
    by (bit_vector)
    ensures
        (x & !m) & m == 0,
{
}

proof fn lemma_or_preserves_other(x: u8, m: u8, n: u8)
    by (bit_vector)
    requires
        m & n == 0,
    ensures
        ((x | m) & n != 0) == (x & n != 0),
{
}

proof fn lemma_andnot_preserves_other(x: u8, m: u8, n: u8)
    by (bit_vector)
    requires
        m & n == 0,
    ensures
        ((x & !m) & n != 0) == (x & n != 0),
{
}

/// Writing one flag touches only that flag's bit: after `with_flag(flags, f, v)`
/// flag `f` reads back as `v`, and every other flag reads back unchanged.
pub proof fn lemma_set_flag_frame(flags: u8, f: Flags, v: bool, g: Flags)
    ensures
        flag_set(with_flag(flags, f, v), f) == v,
        f != g ==> flag_set(with_flag(flags, f, v), g) == flag_set(flags, g),
{
    let mf = mask_of(f);
    let mg = mask_of(g);
    if v {
        lemma_or_sets_bit(flags, mf);
    } else {
        lemma_andnot_clears_bit(flags, mf);
    }
    if f != g {
        lemma_masks_disjoint(f, g);
        if v {
            lemma_or_preserves_other(flags, mf, mg);
        } else {
            lemma_andnot_preserves_other(flags, mf, mg);
        }
    }
}

/// A CMP instruction leaves the flags register describing the comparison
/// exactly: Greater, Equal and Less mirror `>`, `==` and `<`; at most one of
/// Greater and Less is set, and exactly one of them when the operands differ;
/// when the operands are equal only Equal is set of the three; the carry bit
/// is untouched.
pub proof fn lemma_cmp_flags(flags: u8, x: u8, y: u8)
    ensures
        flag_set(cmp_update(flags, x, y), Flags::CmpGreater) == (x > y),
        flag_set(cmp_update(flags, x, y), Flags::CmpEqual) == (x == y),
        flag_set(cmp_update(flags, x, y), Flags::CmpLess) == (x < y),
        !(flag_set(cmp_update(flags, x, y), Flags::CmpGreater) && flag_set(cmp_update(flags, x, y), Flags::CmpLess)),
        x != y ==> flag_set(cmp_update(flags, x, y), Flags::CmpGreater) != flag_set(cmp_update(flags, x, y), Flags::CmpLess),
        flag_set(cmp_update(flags, x, y), Flags::AluCarry) == flag_set(flags, Flags::AluCarry),
{
    let r1 = with_flag(flags, Flags::CmpGreater, x > y);
    let r2 = with_flag(r1, Flags::CmpEqual, x == y);
    lemma_set_flag_frame(flags, Flags::CmpGreater, x > y, Flags::CmpGreater);
    lemma_set_flag_frame(r1, Flags::CmpEqual, x == y, Flags::CmpGreater);
    lemma_set_flag_frame(r2, Flags::CmpLess, x < y, Flags::CmpGreater);
    lemma_set_flag_frame(r1, Flags::CmpEqual, x == y, Flags::CmpEqual);
    lemma_set_flag_frame(r2, Flags::CmpLess, x < y, Flags::CmpEqual);
    lemma_set_flag_frame(r2, Flags::CmpLess, x < y, Flags::CmpLess);
    lemma_set_flag_frame(flags, Flags::CmpGreater, x > y, Flags::AluCarry);
    lemma_set_flag_frame(r1, Flags::CmpEqual, x == y, Flags::AluCarry);
    lemma_set_flag_frame(r2, Flags::CmpLess, x < y, Flags::AluCarry);
}

/// Decoding is total and deterministic: every assigned opcode byte decodes to
/// the instruction it encodes, and every unassigned byte (0x19..=0xFE)
/// decodes to [`Instruction::DUMP`].
pub proof fn lemma_decode_total(b: u8)
    ensures
        b <= 0x18 || b == 0xFF ==> opcode_of(spec_decode(b)) == b,
        0x18 < b && b < 0xFF ==> spec_decode(b) == Instruction::DUMP,
{
}

/// Decoding inverts encoding: every instruction decodes back from its own
/// opcode byte.
pub proof fn lemma_decode_opcode(i: Instruction)
    ensures
        spec_decode(opcode_of(i)) == i,
{
}

} // verus!
