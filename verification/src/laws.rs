//! Laws that relate the instruction builder and the engine: what the words
//! that the builder assembles do when they are executed.

use vstd::prelude::*;
use vstd::arithmetic::power2::lemma2_to64;
use crate::instruction_builder::{
    add_immediate_word, immediate_form, lemma_forms_cut_fields, lemma_immediate_form_round_trip,
};
use crate::registers::RegisterName;
use crate::semantics::{after_add, lemma_add_immediate_is_modular_sum, MachineState};
use crate::util::field_value;

verus! {

/// Executing ADD with an immediate, on one register as source and
/// destination, adds to the register the number that the low five bits of
/// `value` stand for, modulo 2^16.
pub proof fn lemma_add_immediate_executes(s: MachineState, register: RegisterName, value: u16)
    requires
        register.is_general_purpose(),
    ensures
        after_add(s, add_immediate_word(register, value)).registers[register] == (
        s.registers[register] + field_value((value % 0x20) as u16, 5)) % 0x1_0000,
{
    let address = register.spec_address();
    let field = (value % 0x20) as u16;
    lemma_forms_cut_fields(1, address, address, value);
    lemma_immediate_form_round_trip(1, address, address, field);
    lemma_add_immediate_is_modular_sum(s, immediate_form(1, address, address, field));
}

/// Executing the increment of a register adds one to it, and executing the
/// decrement takes one from it; past either end the register wraps.
pub proof fn lemma_increment_and_decrement_execute(s: MachineState, register: RegisterName)
    requires
        register.is_general_purpose(),
    ensures
        after_add(s, add_immediate_word(register, 1)).registers[register] == (
        s.registers[register] + 1) % 0x1_0000,
        after_add(s, add_immediate_word(register, 0b11111)).registers[register] == (
        s.registers[register] - 1) % 0x1_0000,
{
    lemma2_to64();
    lemma_add_immediate_executes(s, register, 1);
    lemma_add_immediate_executes(s, register, 0b11111);
}

} // verus!
