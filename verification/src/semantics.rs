//! What each instruction does, as functions on the state of the machine.

use vstd::prelude::*;
use vstd::arithmetic::power2::{lemma2_to64, pow2};
use crate::error::MachineError;
use crate::fields::{
    lemma_fields_are_quotients, spec_dr, spec_imm5, spec_immediate_mode, spec_nzp, spec_offset6,
    spec_offset_mode, spec_opcode, spec_pc_offset11, spec_pc_offset9, spec_sr1, spec_sr2,
};
use crate::opcodes::Opcodes;
use crate::registers::{is_register_file, with_flags, ConditionFlag, RegisterName};
use crate::util::{field_value, lemma_sign_extend_keeps_value, spec_sign_extend};

verus! {

/// The number of words in memory: one for each 16-bit address.
pub const MEMORY_SIZE: usize = 65536;

/// The address at which a program starts.
pub const PROGRAM_ENTRY: u16 = 0x3000;

/// The state of a machine: the word in each memory cell, the word in each
/// register, and whether the machine has been started.
pub struct MachineState {
    pub memory: Seq<u16>,
    pub registers: Map<RegisterName, u16>,
    pub running: bool,
}

impl MachineState {
    /// Memory has a cell for each address and the registers form a register
    /// file.
    pub open spec fn well_formed(self) -> bool {
        &&& self.memory.len() == MEMORY_SIZE
        &&& is_register_file(self.registers)
    }

    pub open spec fn pc(self) -> u16 {
        self.registers[RegisterName::Pc]
    }

    pub open spec fn cond(self) -> u16 {
        self.registers[RegisterName::Cond]
    }

    /// The word in the register that an instruction field addresses.
    pub open spec fn register(self, address: u16) -> u16
        recommends
            address <= 9,
    {
        self.registers[RegisterName::at(address)]
    }

    /// The word in a memory cell.
    pub open spec fn read(self, address: u16) -> u16 {
        self.memory[address as int]
    }

    /// The state after a word is stored in a memory cell.
    pub open spec fn write(self, address: u16, value: u16) -> MachineState {
        MachineState { memory: self.memory.update(address as int, value), ..self }
    }

    /// The state after a word is stored in a register, the flags untouched.
    pub open spec fn set(self, name: RegisterName, value: u16) -> MachineState {
        MachineState { registers: self.registers.insert(name, value), ..self }
    }

    /// The state after a word is stored in the register at an address and the
    /// condition register is recomputed from that word.
    pub open spec fn set_with_flags(self, address: u16, value: u16) -> MachineState
        recommends
            address <= 9,
    {
        MachineState {
            registers: with_flags(self.registers, RegisterName::at(address), value),
            ..self
        }
    }
}

/// The address that lies a signed offset of `width` bits away from `base`.
/// The sum wraps round the ends of memory.
pub open spec fn effective_address(base: u16, offset: u16, width: usize) -> u16 {
    base.wrapping_add(spec_sign_extend(offset, width))
}

/// The first operand of ADD and AND: the first source register.
pub open spec fn first_operand(registers: Map<RegisterName, u16>, instruction: u16) -> u16 {
    registers[RegisterName::at(spec_sr1(instruction))]
}

/// The second operand of ADD and AND: the sign-extended immediate in
/// immediate mode, the second source register otherwise.
pub open spec fn second_operand(registers: Map<RegisterName, u16>, instruction: u16) -> u16 {
    if spec_immediate_mode(instruction) {
        spec_sign_extend(spec_imm5(instruction), 5)
    } else {
        registers[RegisterName::at(spec_sr2(instruction))]
    }
}

/// ADD: the destination receives the two operands' sum, which wraps.
pub open spec fn after_add(s: MachineState, instruction: u16) -> MachineState {
    s.set_with_flags(
        spec_dr(instruction),
        first_operand(s.registers, instruction).wrapping_add(
            second_operand(s.registers, instruction),
        ),
    )
}

/// AND: the destination receives the bits that both operands have set.
pub open spec fn after_and(s: MachineState, instruction: u16) -> MachineState {
    s.set_with_flags(
        spec_dr(instruction),
        first_operand(s.registers, instruction) & second_operand(s.registers, instruction),
    )
}

/// NOT: the destination receives the source with every bit inverted.
pub open spec fn after_not(s: MachineState, instruction: u16) -> MachineState {
    s.set_with_flags(spec_dr(instruction), !s.register(spec_sr1(instruction)))
}

/// Whether a branch is taken: it tests a flag that is in force.
pub open spec fn branch_taken(s: MachineState, instruction: u16) -> bool {
    s.cond() & spec_nzp(instruction) != 0
}

/// BR: where the branch is taken the program counter moves by the offset;
/// nothing else changes.
pub open spec fn after_branch(s: MachineState, instruction: u16) -> MachineState {
    if branch_taken(s, instruction) {
        s.set(RegisterName::Pc, effective_address(s.pc(), spec_pc_offset9(instruction), 9))
    } else {
        s
    }
}

/// Where a jump goes: in offset mode to an offset from the program counter,
/// otherwise to the address in the base register. The base register is read
/// after the link register has been written, so a jump through R7 goes to
/// the program counter just saved.
pub open spec fn jump_target(s: MachineState, instruction: u16) -> u16 {
    if spec_offset_mode(instruction) {
        effective_address(s.pc(), spec_pc_offset11(instruction), 11)
    } else {
        s.set(RegisterName::R7, s.pc()).register(spec_sr1(instruction))
    }
}

/// JSR and JMP: R7 receives the program counter, then the program counter
/// receives the target. The flags are untouched.
pub open spec fn after_jump_register(s: MachineState, instruction: u16) -> MachineState {
    s.set(RegisterName::R7, s.pc()).set(RegisterName::Pc, jump_target(s, instruction))
}

/// LD: the destination receives the cell at an offset from the program
/// counter.
pub open spec fn after_load(s: MachineState, instruction: u16) -> MachineState {
    s.set_with_flags(
        spec_dr(instruction),
        s.read(effective_address(s.pc(), spec_pc_offset9(instruction), 9)),
    )
}

/// LDI: the cell at an offset from the program counter holds an address; the
/// destination receives the cell at that address.
pub open spec fn after_load_indirect(s: MachineState, instruction: u16) -> MachineState {
    s.set_with_flags(
        spec_dr(instruction),
        s.read(s.read(effective_address(s.pc(), spec_pc_offset9(instruction), 9))),
    )
}

/// LDR: the destination receives the cell at an offset from the base
/// register.
pub open spec fn after_load_register(s: MachineState, instruction: u16) -> MachineState {
    s.set_with_flags(
        spec_dr(instruction),
        s.read(
            effective_address(s.register(spec_sr1(instruction)), spec_offset6(instruction), 6),
        ),
    )
}

/// LEA: the destination receives the address at an offset from the program
/// counter.
pub open spec fn after_load_effective_address(s: MachineState, instruction: u16) -> MachineState {
    s.set_with_flags(
        spec_dr(instruction),
        effective_address(s.pc(), spec_pc_offset9(instruction), 9),
    )
}

/// ST: the cell at an offset from the program counter receives the source
/// register.
pub open spec fn after_store(s: MachineState, instruction: u16) -> MachineState {
    s.write(
        effective_address(s.pc(), spec_pc_offset9(instruction), 9),
        s.register(spec_dr(instruction)),
    )
}

/// STR: the cell at an offset from the base register receives the source
/// register.
pub open spec fn after_store_register(s: MachineState, instruction: u16) -> MachineState {
    s.write(
        effective_address(s.register(spec_sr1(instruction)), spec_offset6(instruction), 6),
        s.register(spec_dr(instruction)),
    )
}

/// The instruction that the next step executes: the word at the program
/// counter.
pub open spec fn fetched(s: MachineState) -> u16 {
    s.read(s.pc())
}

/// The opcode of the instruction that the next step executes.
pub open spec fn fetched_opcode(s: MachineState) -> Opcodes {
    Opcodes::spec_from_u16(spec_opcode(fetched(s)))->Some_0
}

/// The state after the handler of an opcode has run on an instruction. RTI,
/// RES and TRAP change nothing.
pub open spec fn after_execute(s: MachineState, opcode: Opcodes, instruction: u16) -> MachineState {
    match opcode {
        Opcodes::Branch => after_branch(s, instruction),
        Opcodes::Add => after_add(s, instruction),
        Opcodes::Load => after_load(s, instruction),
        Opcodes::Store => after_store(s, instruction),
        Opcodes::JumpRegister => after_jump_register(s, instruction),
        Opcodes::And => after_and(s, instruction),
        Opcodes::LoadRegister => after_load_register(s, instruction),
        Opcodes::StoreRegister => after_store_register(s, instruction),
        Opcodes::Rti => s,
        Opcodes::Not => after_not(s, instruction),
        Opcodes::LoadIndirect => after_load_indirect(s, instruction),
        Opcodes::StoreIndirect => s,
        Opcodes::Jump => after_jump_register(s, instruction),
        Opcodes::Reserved => s,
        Opcodes::LoadEffectiveAddress => after_load_effective_address(s, instruction),
        Opcodes::ExecuteTrap => s,
    }
}

/// The state after one step. An instruction without a handler leaves the
/// state as it was; any other is executed with the program counter already
/// moved to the next word.
pub open spec fn after_step(s: MachineState) -> MachineState {
    if fetched_opcode(s).spec_has_handler() {
        after_execute(
            s.set(RegisterName::Pc, s.pc().wrapping_add(1)),
            fetched_opcode(s),
            fetched(s),
        )
    } else {
        s
    }
}

/// What one step reports: the opcode that was executed, or the opcode field
/// of an instruction without a handler.
pub open spec fn step_report(s: MachineState) -> Result<Opcodes, MachineError> {
    if fetched_opcode(s).spec_has_handler() {
        Ok(fetched_opcode(s))
    } else {
        Err(MachineError::UnrecognizedOpcode(spec_opcode(fetched(s))))
    }
}

/// An effective address is the base plus the number that the offset field
/// stands for, taken modulo the size of memory.
pub proof fn lemma_effective_address_is_modular_sum(base: u16, offset: u16, width: usize)
    requires
        1 <= width <= 16,
        offset < pow2(width as nat),
    ensures
        effective_address(base, offset, width) == (base + field_value(offset, width))
            % 0x1_0000,
{
    lemma_sign_extend_keeps_value(offset, width);
}

/// A write with a flag update leaves in the condition register the mask of
/// the flag that describes the word written, which is 1, 2 or 4, and, unless
/// the address is that of the condition register itself, leaves the word in
/// the register.
pub proof fn lemma_set_with_flags(s: MachineState, address: u16, value: u16)
    requires
        address <= 9,
    ensures
        s.set_with_flags(address, value).cond() == ConditionFlag::of(value).spec_mask(),
        s.set_with_flags(address, value).cond() == 1 || s.set_with_flags(address, value).cond()
            == 2 || s.set_with_flags(address, value).cond() == 4,
        address != RegisterName::Cond.spec_address() ==> s.set_with_flags(address, value).register(
            address,
        ) == value,
        s.set_with_flags(address, value).memory == s.memory,
        s.set_with_flags(address, value).running == s.running,
{
}

/// Every instruction takes a well-formed state to a well-formed state: the
/// condition register holds one flag before and after.
pub proof fn lemma_execute_preserves_well_formed(
    s: MachineState,
    opcode: Opcodes,
    instruction: u16,
)
    requires
        s.well_formed(),
    ensures
        after_execute(s, opcode, instruction).well_formed(),
{
}

/// Every step takes a well-formed state to a well-formed state.
pub proof fn lemma_step_preserves_well_formed(s: MachineState)
    requires
        s.well_formed(),
    ensures
        after_step(s).well_formed(),
{
    let advanced = s.set(RegisterName::Pc, s.pc().wrapping_add(1));
    lemma_execute_preserves_well_formed(advanced, fetched_opcode(s), fetched(s));
}

/// The flags change on the instructions that write a destination register,
/// and on no other. After such an instruction the condition register
/// describes the word in the destination register, and the program counter
/// is where it was.
pub proof fn lemma_flags_follow_destination(s: MachineState, opcode: Opcodes, instruction: u16)
    ensures
        !opcode.writes_flags() ==> after_execute(s, opcode, instruction).cond() == s.cond(),
        opcode.writes_flags() ==> after_execute(s, opcode, instruction).cond()
            == ConditionFlag::of(
            after_execute(s, opcode, instruction).register(spec_dr(instruction)),
        ).spec_mask(),
        opcode.writes_flags() ==> after_execute(s, opcode, instruction).pc() == s.pc(),
{
    lemma_fields_are_quotients(instruction);
}

/// Memory changes on the two store instructions, and on no other; the store
/// instructions change no register.
pub proof fn lemma_only_stores_write_memory(s: MachineState, opcode: Opcodes, instruction: u16)
    ensures
        !opcode.writes_memory() ==> after_execute(s, opcode, instruction).memory == s.memory,
        opcode.writes_memory() ==> after_execute(s, opcode, instruction).registers == s.registers,
        after_execute(s, opcode, instruction).running == s.running,
{
}

/// LDI reads through a pointer: where the cell at the offset from the
/// program counter holds `pointer` and the cell at `pointer` holds `value`,
/// the destination register ends up holding `value`.
pub proof fn lemma_load_indirect_reads_through_pointer(
    s: MachineState,
    instruction: u16,
    pointer: u16,
    value: u16,
)
    requires
        s.read(effective_address(s.pc(), spec_pc_offset9(instruction), 9)) == pointer,
        s.read(pointer) == value,
    ensures
        after_load_indirect(s, instruction).register(spec_dr(instruction)) == value,
{
    lemma_fields_are_quotients(instruction);
}

/// A load reads what a store wrote: where ST and LD carry the same offset and
/// are executed at the same program counter, the destination of the load
/// ends up holding the word of the register that was stored.
pub proof fn lemma_load_after_store(s: MachineState, store: u16, load: u16)
    requires
        s.well_formed(),
        spec_pc_offset9(store) == spec_pc_offset9(load),
    ensures
        after_load(after_store(s, store), load).register(spec_dr(load)) == s.register(
            spec_dr(store),
        ),
{
    lemma_fields_are_quotients(load);
}

/// In immediate mode ADD adds the number that the immediate stands for,
/// from -16 to 15, modulo 2^16.
pub proof fn lemma_add_immediate_is_modular_sum(s: MachineState, instruction: u16)
    requires
        spec_immediate_mode(instruction),
    ensures
        -16 <= field_value(spec_imm5(instruction), 5) <= 15,
        after_add(s, instruction).register(spec_dr(instruction)) == (first_operand(
            s.registers,
            instruction,
        ) + field_value(spec_imm5(instruction), 5)) % 0x1_0000,
{
    lemma_fields_are_quotients(instruction);
    lemma2_to64();
    lemma_sign_extend_keeps_value(spec_imm5(instruction), 5);
}

/// A jump links: after JSR or JMP, R7 holds the program counter that was
/// current when the jump was executed, whichever mode the jump is in.
pub proof fn lemma_jump_links(s: MachineState, instruction: u16)
    ensures
        after_jump_register(s, instruction).registers[RegisterName::R7] == s.pc(),
        after_jump_register(s, instruction).pc() == jump_target(s, instruction),
        after_jump_register(s, instruction).cond() == s.cond(),
{
}

/// A step that executes a jump leaves in R7 the address of the word after
/// the jump instruction.
pub proof fn lemma_step_jump_links(s: MachineState)
    requires
        fetched_opcode(s) == Opcodes::JumpRegister || fetched_opcode(s) == Opcodes::Jump,
    ensures
        after_step(s).registers[RegisterName::R7] == s.pc().wrapping_add(1),
{
}

/// A branch that tests no flag in force changes nothing.
pub proof fn lemma_branch_not_taken(s: MachineState, instruction: u16)
    requires
        s.cond() & spec_nzp(instruction) == 0,
    ensures
        after_branch(s, instruction) == s,
{
}

/// A step that executes a branch which tests no flag in force moves the
/// program counter to the next word and changes nothing else.
pub proof fn lemma_step_branch_not_taken(s: MachineState)
    requires
        fetched_opcode(s) == Opcodes::Branch,
        s.cond() & spec_nzp(fetched(s)) == 0,
    ensures
        after_step(s) == s.set(RegisterName::Pc, s.pc().wrapping_add(1)),
{
}

/// A step over RTI, RES or TRAP moves the program counter to the next word
/// and changes nothing else; a step on an instruction without a handler
/// changes nothing at all.
pub proof fn lemma_step_without_effect(s: MachineState)
    ensures
        fetched_opcode(s) == Opcodes::Rti || fetched_opcode(s) == Opcodes::Reserved
            || fetched_opcode(s) == Opcodes::ExecuteTrap ==> after_step(s) == s.set(
            RegisterName::Pc,
            s.pc().wrapping_add(1),
        ),
        step_report(s) is Err <==> fetched_opcode(s) == Opcodes::StoreIndirect,
        step_report(s) is Err ==> after_step(s) == s,
{
}

} // verus!
