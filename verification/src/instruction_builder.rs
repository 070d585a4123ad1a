//! Assembling instruction words from their fields. Every field is cut to its
//! width, so no input is refused: an offset or an immediate keeps its low
//! bits, and a register is encoded by the low three bits of its address. The
//! general-purpose registers, at addresses 0 to 7, are encoded as themselves;
//! the program counter and the condition register, at addresses 8 and 9, do
//! not fit in a register field.
//!
//! Each function states the word it returns as one of seven forms. The
//! round-trip laws say that the fields of a word in a given form are the
//! fields it was assembled from.

use vstd::prelude::*;
use crate::fields::{
    spec_dr, spec_imm5, spec_immediate_mode, spec_nzp, spec_offset6, spec_offset_mode, spec_opcode,
    spec_pc_offset11, spec_pc_offset9, spec_sr1, spec_sr2,
};
use crate::opcodes::Opcodes;
use crate::registers::{ConditionFlag, RegisterName};

verus! {

/// An instruction on two source registers: opcode, destination, first source,
/// mode bit clear, second source.
pub open spec fn register_form(code: u16, dr: u16, sr1: u16, sr2: u16) -> u16 {
    (code << 12) | ((dr & 0b111) << 9) | ((sr1 & 0b111) << 6) | (sr2 & 0b111)
}

/// An instruction on a source register and an immediate: opcode, destination,
/// source, mode bit set, five-bit immediate.
pub open spec fn immediate_form(code: u16, dr: u16, sr1: u16, imm5: u16) -> u16 {
    (code << 12) | ((dr & 0b111) << 9) | ((sr1 & 0b111) << 6) | (1u16 << 5) | (imm5 & 0x1F)
}

/// An instruction that addresses memory from the program counter: opcode,
/// register or flags, nine-bit offset.
pub open spec fn pc_relative_form(code: u16, dr: u16, pc_offset9: u16) -> u16 {
    (code << 12) | ((dr & 0b111) << 9) | (pc_offset9 & 0x1FF)
}

/// An instruction that addresses memory from a base register: opcode,
/// register, base register, six-bit offset.
pub open spec fn base_offset_form(code: u16, dr: u16, base_r: u16, offset6: u16) -> u16 {
    (code << 12) | ((dr & 0b111) << 9) | ((base_r & 0b111) << 6) | (offset6 & 0x3F)
}

/// A jump to an offset from the program counter: opcode, mode bit set,
/// eleven-bit offset.
pub open spec fn jump_offset_form(code: u16, pc_offset11: u16) -> u16 {
    (code << 12) | (1u16 << 11) | (pc_offset11 & 0x7FF)
}

/// A jump to the address in a base register: opcode, mode bit clear, base
/// register.
pub open spec fn jump_register_form(code: u16, base_r: u16) -> u16 {
    (code << 12) | ((base_r & 0b111) << 6)
}

/// A NOT instruction: opcode, destination, source, and the low six bits set.
pub open spec fn not_form(code: u16, dr: u16, sr: u16) -> u16 {
    (code << 12) | ((dr & 0b111) << 9) | ((sr & 0b111) << 6) | 0b111111
}

/// The word for ADD with an immediate, on one register as source and
/// destination.
pub open spec fn add_immediate_word(register: RegisterName, value: u16) -> u16 {
    immediate_form(
        Opcodes::Add.spec_code(),
        register.spec_address(),
        register.spec_address(),
        value,
    )
}

fn assemble_register(opcode: Opcodes, dr: u16, sr1: u16, sr2: u16) -> (word: u16)
    ensures
        word == register_form(opcode.spec_code(), dr, sr1, sr2),
{
    (opcode.code() << 12) | ((dr & 0b111) << 9) | ((sr1 & 0b111) << 6) | (sr2 & 0b111)
}

fn assemble_immediate(opcode: Opcodes, dr: u16, sr1: u16, imm5: u16) -> (word: u16)
    ensures
        word == immediate_form(opcode.spec_code(), dr, sr1, imm5),
{
    (opcode.code() << 12) | ((dr & 0b111) << 9) | ((sr1 & 0b111) << 6) | (1u16 << 5) | (imm5 & 0x1F)
}

fn assemble_pc_relative(opcode: Opcodes, dr: u16, pc_offset9: u16) -> (word: u16)
    ensures
        word == pc_relative_form(opcode.spec_code(), dr, pc_offset9),
{
    (opcode.code() << 12) | ((dr & 0b111) << 9) | (pc_offset9 & 0x1FF)
}

fn assemble_base_offset(opcode: Opcodes, dr: u16, base_r: u16, offset6: u16) -> (word: u16)
    ensures
        word == base_offset_form(opcode.spec_code(), dr, base_r, offset6),
{
    (opcode.code() << 12) | ((dr & 0b111) << 9) | ((base_r & 0b111) << 6) | (offset6 & 0x3F)
}

/// ADD `register`, `register`, #1.
pub fn increment(register: RegisterName) -> (word: u16)
    ensures
        word == add_immediate_word(register, 1),
{
    let r_value = register.address();
    assemble_immediate(Opcodes::Add, r_value, r_value, 1)
}

/// ADD `register`, `register`, #-1.
pub fn decrement(register: RegisterName) -> (word: u16)
    ensures
        word == add_immediate_word(register, 0b11111),
{
    let r_value = register.address();
    assemble_immediate(Opcodes::Add, r_value, r_value, 0b11111)
}

/// ADD `register`, `register`, #`value`, with the low five bits of `value`
/// as the immediate.
pub fn add_immediate(register: RegisterName, value: u16) -> (word: u16)
    ensures
        word == add_immediate_word(register, value),
{
    let r_value = register.address();
    assemble_immediate(Opcodes::Add, r_value, r_value, value)
}

/// AND `register`, `register`, #`value`, with the low five bits of `value`
/// as the immediate.
pub fn and_immediate(register: RegisterName, value: u16) -> (word: u16)
    ensures
        word == immediate_form(
            Opcodes::And.spec_code(),
            register.spec_address(),
            register.spec_address(),
            value,
        ),
{
    let r_value = register.address();
    assemble_immediate(Opcodes::And, r_value, r_value, value)
}

/// AND `dest`, `source1`, `source2`.
pub fn and_register(source1: RegisterName, source2: RegisterName, dest: RegisterName) -> (word: u16)
    ensures
        word == register_form(
            Opcodes::And.spec_code(),
            dest.spec_address(),
            source1.spec_address(),
            source2.spec_address(),
        ),
{
    assemble_register(Opcodes::And, dest.address(), source1.address(), source2.address())
}

/// ADD `dest`, `source_1`, `source_2`.
pub fn add(source_1: RegisterName, source_2: RegisterName, dest: RegisterName) -> (word: u16)
    ensures
        word == register_form(
            Opcodes::Add.spec_code(),
            dest.spec_address(),
            source_1.spec_address(),
            source_2.spec_address(),
        ),
{
    assemble_register(Opcodes::Add, dest.address(), source_1.address(), source_2.address())
}

/// ST `register`, `pc_offset`.
pub fn store(register: RegisterName, pc_offset: u16) -> (word: u16)
    ensures
        word == pc_relative_form(Opcodes::Store.spec_code(), register.spec_address(), pc_offset),
{
    assemble_pc_relative(Opcodes::Store, register.address(), pc_offset)
}

/// LD `register`, `pc_offset`.
pub fn load(register: RegisterName, pc_offset: u16) -> (word: u16)
    ensures
        word == pc_relative_form(Opcodes::Load.spec_code(), register.spec_address(), pc_offset),
{
    assemble_pc_relative(Opcodes::Load, register.address(), pc_offset)
}

/// LDI `register`, `pc_offset`.
pub fn load_indirect(register: RegisterName, pc_offset: u16) -> (word: u16)
    ensures
        word == pc_relative_form(
            Opcodes::LoadIndirect.spec_code(),
            register.spec_address(),
            pc_offset,
        ),
{
    assemble_pc_relative(Opcodes::LoadIndirect, register.address(), pc_offset)
}

/// LEA `register`, `pc_offset`.
pub fn load_effective_address(register: RegisterName, pc_offset: u16) -> (word: u16)
    ensures
        word == pc_relative_form(
            Opcodes::LoadEffectiveAddress.spec_code(),
            register.spec_address(),
            pc_offset,
        ),
{
    assemble_pc_relative(Opcodes::LoadEffectiveAddress, register.address(), pc_offset)
}

/// BR on one flag, to `pc_offset`.
pub fn branch(condition_flag: ConditionFlag, pc_offset: u16) -> (word: u16)
    ensures
        word == pc_relative_form(
            Opcodes::Branch.spec_code(),
            condition_flag.spec_mask(),
            pc_offset,
        ),
{
    assemble_pc_relative(Opcodes::Branch, condition_flag.mask(), pc_offset)
}

/// JSR to `offset` from the program counter.
pub fn jump_offset(offset: u16) -> (word: u16)
    ensures
        word == jump_offset_form(Opcodes::JumpRegister.spec_code(), offset),
{
    (Opcodes::JumpRegister.code() << 12) | (1u16 << 11) | (offset & 0x7FF)
}

/// JSR to the address in `register`.
pub fn jump_register(register: RegisterName) -> (word: u16)
    ensures
        word == jump_register_form(Opcodes::JumpRegister.spec_code(), register.spec_address()),
{
    (Opcodes::JumpRegister.code() << 12) | ((register.address() & 0b111) << 6)
}

/// NOT `destination`, `source`.
pub fn not(source: RegisterName, destination: RegisterName) -> (word: u16)
    ensures
        word == not_form(
            Opcodes::Not.spec_code(),
            destination.spec_address(),
            source.spec_address(),
        ),
{
    (Opcodes::Not.code() << 12) | ((destination.address() & 0b111) << 9) | ((source.address()
        & 0b111) << 6) | 0b111111
}

/// LDR `destination`, `base_register`, `offset`.
pub fn load_register(base_register: RegisterName, offset: u16, destination: RegisterName) -> (word:
    u16)
    ensures
        word == base_offset_form(
            Opcodes::LoadRegister.spec_code(),
            destination.spec_address(),
            base_register.spec_address(),
            offset,
        ),
{
    assemble_base_offset(
        Opcodes::LoadRegister,
        destination.address(),
        base_register.address(),
        offset,
    )
}

/// STR `source`, `base_register`, `offset`.
pub fn store_register(base_register: RegisterName, offset: u16, source: RegisterName) -> (word: u16)
    ensures
        word == base_offset_form(
            Opcodes::StoreRegister.spec_code(),
            source.spec_address(),
            base_register.spec_address(),
            offset,
        ),
{
    assemble_base_offset(
        Opcodes::StoreRegister,
        source.address(),
        base_register.address(),
        offset,
    )
}

/// Decoding a word in register form gives back the fields it was made of.
pub proof fn lemma_register_form_round_trip(code: u16, dr: u16, sr1: u16, sr2: u16)
    requires
        code <= 15,
        dr <= 7,
        sr1 <= 7,
        sr2 <= 7,
    ensures
        spec_opcode(register_form(code, dr, sr1, sr2)) == code,
        spec_dr(register_form(code, dr, sr1, sr2)) == dr,
        spec_sr1(register_form(code, dr, sr1, sr2)) == sr1,
        !spec_immediate_mode(register_form(code, dr, sr1, sr2)),
        spec_sr2(register_form(code, dr, sr1, sr2)) == sr2,
{
    assert({
        let word = (code << 12) | ((dr & 0b111) << 9) | ((sr1 & 0b111) << 6) | (sr2 & 0b111);
        &&& word >> 12 == code
        &&& (word >> 9) & 0b111 == dr
        &&& (word >> 6) & 0b111 == sr1
        &&& (word >> 5) & 0b1 != 1
        &&& word & 0b111 == sr2
    }) by (bit_vector)
        requires
            code <= 15,
            dr <= 7,
            sr1 <= 7,
            sr2 <= 7,
    ;
}

/// Decoding a word in immediate form gives back the fields it was made of.
pub proof fn lemma_immediate_form_round_trip(code: u16, dr: u16, sr1: u16, imm5: u16)
    requires
        code <= 15,
        dr <= 7,
        sr1 <= 7,
        imm5 < 0x20,
    ensures
        spec_opcode(immediate_form(code, dr, sr1, imm5)) == code,
        spec_dr(immediate_form(code, dr, sr1, imm5)) == dr,
        spec_sr1(immediate_form(code, dr, sr1, imm5)) == sr1,
        spec_immediate_mode(immediate_form(code, dr, sr1, imm5)),
        spec_imm5(immediate_form(code, dr, sr1, imm5)) == imm5,
{
    assert({
        let word = (code << 12) | ((dr & 0b111) << 9) | ((sr1 & 0b111) << 6) | (1u16 << 5) | (
        imm5 & 0x1F);
        &&& word >> 12 == code
        &&& (word >> 9) & 0b111 == dr
        &&& (word >> 6) & 0b111 == sr1
        &&& (word >> 5) & 0b1 == 1
        &&& word & 0x1F == imm5
    }) by (bit_vector)
        requires
            code <= 15,
            dr <= 7,
            sr1 <= 7,
            imm5 < 0x20,
    ;
}

/// Decoding a word in program-counter-relative form gives back the fields it
/// was made of.
pub proof fn lemma_pc_relative_form_round_trip(code: u16, dr: u16, pc_offset9: u16)
    requires
        code <= 15,
        dr <= 7,
        pc_offset9 < 0x200,
    ensures
        spec_opcode(pc_relative_form(code, dr, pc_offset9)) == code,
        spec_dr(pc_relative_form(code, dr, pc_offset9)) == dr,
        spec_nzp(pc_relative_form(code, dr, pc_offset9)) == dr,
        spec_pc_offset9(pc_relative_form(code, dr, pc_offset9)) == pc_offset9,
{
    assert({
        let word = (code << 12) | ((dr & 0b111) << 9) | (pc_offset9 & 0x1FF);
        &&& word >> 12 == code
        &&& (word >> 9) & 0b111 == dr
        &&& word & 0x1FF == pc_offset9
    }) by (bit_vector)
        requires
            code <= 15,
            dr <= 7,
            pc_offset9 < 0x200,
    ;
}

/// Decoding a word in base-and-offset form gives back the fields it was made
/// of.
pub proof fn lemma_base_offset_form_round_trip(code: u16, dr: u16, base_r: u16, offset6: u16)
    requires
        code <= 15,
        dr <= 7,
        base_r <= 7,
        offset6 < 0x40,
    ensures
        spec_opcode(base_offset_form(code, dr, base_r, offset6)) == code,
        spec_dr(base_offset_form(code, dr, base_r, offset6)) == dr,
        spec_sr1(base_offset_form(code, dr, base_r, offset6)) == base_r,
        spec_offset6(base_offset_form(code, dr, base_r, offset6)) == offset6,
{
    assert({
        let word = (code << 12) | ((dr & 0b111) << 9) | ((base_r & 0b111) << 6) | (offset6
            & 0x3F);
        &&& word >> 12 == code
        &&& (word >> 9) & 0b111 == dr
        &&& (word >> 6) & 0b111 == base_r
        &&& word & 0x3F == offset6
    }) by (bit_vector)
        requires
            code <= 15,
            dr <= 7,
            base_r <= 7,
            offset6 < 0x40,
    ;
}

/// Decoding a jump to an offset gives back the opcode, the mode and the
/// offset.
pub proof fn lemma_jump_offset_form_round_trip(code: u16, pc_offset11: u16)
    requires
        code <= 15,
        pc_offset11 < 0x800,
    ensures
        spec_opcode(jump_offset_form(code, pc_offset11)) == code,
        spec_offset_mode(jump_offset_form(code, pc_offset11)),
        spec_pc_offset11(jump_offset_form(code, pc_offset11)) == pc_offset11,
{
    assert({
        let word = (code << 12) | (1u16 << 11) | (pc_offset11 & 0x7FF);
        &&& word >> 12 == code
        &&& (word >> 11) & 0b1 == 1
        &&& word & 0x7FF == pc_offset11
    }) by (bit_vector)
        requires
            code <= 15,
            pc_offset11 < 0x800,
    ;
}

/// Decoding a jump through a register gives back the opcode, the mode and
/// the base register.
pub proof fn lemma_jump_register_form_round_trip(code: u16, base_r: u16)
    requires
        code <= 15,
        base_r <= 7,
    ensures
        spec_opcode(jump_register_form(code, base_r)) == code,
        !spec_offset_mode(jump_register_form(code, base_r)),
        spec_sr1(jump_register_form(code, base_r)) == base_r,
{
    assert({
        let word = (code << 12) | ((base_r & 0b111) << 6);
        &&& word >> 12 == code
        &&& (word >> 11) & 0b1 != 1
        &&& (word >> 6) & 0b111 == base_r
    }) by (bit_vector)
        requires
            code <= 15,
            base_r <= 7,
    ;
}

/// Decoding a NOT instruction gives back the opcode and both registers.
pub proof fn lemma_not_form_round_trip(code: u16, dr: u16, sr: u16)
    requires
        code <= 15,
        dr <= 7,
        sr <= 7,
    ensures
        spec_opcode(not_form(code, dr, sr)) == code,
        spec_dr(not_form(code, dr, sr)) == dr,
        spec_sr1(not_form(code, dr, sr)) == sr,
{
    assert({
        let word = (code << 12) | ((dr & 0b111) << 9) | ((sr & 0b111) << 6) | 0b111111;
        &&& word >> 12 == code
        &&& (word >> 9) & 0b111 == dr
        &&& (word >> 6) & 0b111 == sr
    }) by (bit_vector)
        requires
            code <= 15,
            dr <= 7,
            sr <= 7,
    ;
}

/// A field wider than its place is cut to its width: every form is the word
/// that the remainders of its fields give.
pub proof fn lemma_forms_cut_fields(code: u16, dr: u16, sr1: u16, operand: u16)
    ensures
        register_form(code, dr, sr1, operand) == register_form(
            code % 16,
            dr % 8,
            sr1 % 8,
            operand % 8,
        ),
        immediate_form(code, dr, sr1, operand) == immediate_form(
            code % 16,
            dr % 8,
            sr1 % 8,
            operand % 0x20,
        ),
        pc_relative_form(code, dr, operand) == pc_relative_form(code % 16, dr % 8, operand % 0x200),
        base_offset_form(code, dr, sr1, operand) == base_offset_form(
            code % 16,
            dr % 8,
            sr1 % 8,
            operand % 0x40,
        ),
        jump_offset_form(code, operand) == jump_offset_form(code % 16, operand % 0x800),
        jump_register_form(code, sr1) == jump_register_form(code % 16, sr1 % 8),
        not_form(code, dr, sr1) == not_form(code % 16, dr % 8, sr1 % 8),
{
    assert({
        &&& code << 12 == (code % 16) << 12
        &&& dr & 0b111 == (dr % 8) & 0b111
        &&& sr1 & 0b111 == (sr1 % 8) & 0b111
        &&& operand & 0b111 == (operand % 8) & 0b111
        &&& operand & 0x1F == (operand % 0x20) & 0x1F
        &&& operand & 0x3F == (operand % 0x40) & 0x3F
        &&& operand & 0x1FF == (operand % 0x200) & 0x1FF
        &&& operand & 0x7FF == (operand % 0x800) & 0x7FF
    }) by (bit_vector);
}

} // verus!
