//! The fields of an instruction word. Bit 15 is the most significant bit of a
//! word; the opcode lies in bits 15 to 12 and the operands below it.
//!
//! A register field holds a register address in three bits: the addresses 0
//! to 7, which are those of the general-purpose registers.

use vstd::prelude::*;

verus! {

/// Bits 15 to 12: the opcode.
pub open spec fn spec_opcode(instruction: u16) -> u16 {
    instruction >> 12
}

/// Bits 11 to 9: the address of the destination register; in a store, of the
/// register that is stored.
pub open spec fn spec_dr(instruction: u16) -> u16 {
    (instruction >> 9) & 0b111
}

/// Bits 11 to 9 of a branch: the condition flags under which it is taken.
pub open spec fn spec_nzp(instruction: u16) -> u16 {
    (instruction >> 9) & 0b111
}

/// Bits 8 to 6: the address of the first source register, or of the base
/// register.
pub open spec fn spec_sr1(instruction: u16) -> u16 {
    (instruction >> 6) & 0b111
}

/// Bits 2 to 0: the address of the second source register.
pub open spec fn spec_sr2(instruction: u16) -> u16 {
    instruction & 0b111
}

/// Bit 5: set when the second operand is an immediate.
pub open spec fn spec_immediate_mode(instruction: u16) -> bool {
    (instruction >> 5) & 0b1 == 1
}

/// Bit 11: set when a jump takes its target from an offset.
pub open spec fn spec_offset_mode(instruction: u16) -> bool {
    (instruction >> 11) & 0b1 == 1
}

/// Bits 4 to 0: a five-bit immediate.
pub open spec fn spec_imm5(instruction: u16) -> u16 {
    instruction & 0x1F
}

/// Bits 5 to 0: a six-bit offset from a base register.
pub open spec fn spec_offset6(instruction: u16) -> u16 {
    instruction & 0x3F
}

/// Bits 8 to 0: a nine-bit offset from the program counter.
pub open spec fn spec_pc_offset9(instruction: u16) -> u16 {
    instruction & 0x1FF
}

/// Bits 10 to 0: an eleven-bit offset from the program counter.
pub open spec fn spec_pc_offset11(instruction: u16) -> u16 {
    instruction & 0x7FF
}

/// The fields as quotients and remainders: a field that starts at bit `k` and
/// is `w` bits wide is the word divided by `2^k`, modulo `2^w`. So every
/// field is below `2^w`.
pub proof fn lemma_fields_are_quotients(instruction: u16)
    ensures
        spec_opcode(instruction) == instruction / 0x1000,
        spec_dr(instruction) == (instruction / 0x200) % 8,
        spec_nzp(instruction) == (instruction / 0x200) % 8,
        spec_sr1(instruction) == (instruction / 0x40) % 8,
        spec_sr2(instruction) == instruction % 8,
        spec_immediate_mode(instruction) == ((instruction / 0x20) % 2 == 1),
        spec_offset_mode(instruction) == ((instruction / 0x800) % 2 == 1),
        spec_imm5(instruction) == instruction % 0x20,
        spec_offset6(instruction) == instruction % 0x40,
        spec_pc_offset9(instruction) == instruction % 0x200,
        spec_pc_offset11(instruction) == instruction % 0x800,
{
    assert({
        &&& instruction >> 12 == instruction / 0x1000
        &&& (instruction >> 9) & 0b111 == (instruction / 0x200) % 8
        &&& (instruction >> 6) & 0b111 == (instruction / 0x40) % 8
        &&& instruction & 0b111 == instruction % 8
        &&& ((instruction >> 5) & 0b1 == 1) == ((instruction / 0x20) % 2 == 1)
        &&& ((instruction >> 11) & 0b1 == 1) == ((instruction / 0x800) % 2 == 1)
        &&& instruction & 0x1F == instruction % 0x20
        &&& instruction & 0x3F == instruction % 0x40
        &&& instruction & 0x1FF == instruction % 0x200
        &&& instruction & 0x7FF == instruction % 0x800
    }) by (bit_vector);
}

pub fn opcode(instruction: u16) -> (code: u16)
    ensures
        code == spec_opcode(instruction),
        code <= 15,
{
    proof {
        lemma_fields_are_quotients(instruction);
    }
    instruction >> 12
}

pub fn dr(instruction: u16) -> (address: u16)
    ensures
        address == spec_dr(instruction),
        address <= 7,
{
    proof {
        lemma_fields_are_quotients(instruction);
    }
    (instruction >> 9) & 0b111
}

pub fn nzp(instruction: u16) -> (flags: u16)
    ensures
        flags == spec_nzp(instruction),
        flags <= 7,
{
    dr(instruction)
}

pub fn sr1(instruction: u16) -> (address: u16)
    ensures
        address == spec_sr1(instruction),
        address <= 7,
{
    proof {
        lemma_fields_are_quotients(instruction);
    }
    (instruction >> 6) & 0b111
}

pub fn sr2(instruction: u16) -> (address: u16)
    ensures
        address == spec_sr2(instruction),
        address <= 7,
{
    proof {
        lemma_fields_are_quotients(instruction);
    }
    instruction & 0b111
}

pub fn immediate_mode(instruction: u16) -> (immediate: bool)
    ensures
        immediate == spec_immediate_mode(instruction),
{
    (instruction >> 5) & 0b1 == 1
}

pub fn offset_mode(instruction: u16) -> (offset: bool)
    ensures
        offset == spec_offset_mode(instruction),
{
    (instruction >> 11) & 0b1 == 1
}

pub fn imm5(instruction: u16) -> (field: u16)
    ensures
        field == spec_imm5(instruction),
        field < 0x20,
{
    proof {
        lemma_fields_are_quotients(instruction);
    }
    instruction & 0x1F
}

pub fn offset6(instruction: u16) -> (field: u16)
    ensures
        field == spec_offset6(instruction),
        field < 0x40,
{
    proof {
        lemma_fields_are_quotients(instruction);
    }
    instruction & 0x3F
}

pub fn pc_offset9(instruction: u16) -> (field: u16)
    ensures
        field == spec_pc_offset9(instruction),
        field < 0x200,
{
    proof {
        lemma_fields_are_quotients(instruction);
    }
    instruction & 0x1FF
}

pub fn pc_offset11(instruction: u16) -> (field: u16)
    ensures
        field == spec_pc_offset11(instruction),
        field < 0x800,
{
    proof {
        lemma_fields_are_quotients(instruction);
    }
    instruction & 0x7FF
}

} // verus!
