use lc3_vm::error::MachineError;
use lc3_vm::instruction_builder;
use lc3_vm::instruction_builder::{
    add_immediate, branch, decrement, increment, jump_offset, jump_register, load,
    load_effective_address, load_indirect, load_register, store, store_register,
};
use lc3_vm::machine::Machine;
use lc3_vm::opcodes::Opcodes;
use lc3_vm::registers::{ConditionFlag, RegisterName};
use lc3_vm::semantics::{MEMORY_SIZE, PROGRAM_ENTRY};

fn registers_of(machine: &Machine) -> Vec<u16> {
    (0..10u16)
        .map(|address| machine.registers.get_by_address(address).unwrap())
        .collect()
}

#[test]
fn empty_machine_is_halted_and_cleared() {
    let machine = Machine::empty();
    assert!(!machine.is_running());
    assert_eq!(machine.memory.len(), 65536);
    assert_eq!(MEMORY_SIZE, 65536);
    assert!(machine.memory.iter().all(|cell| *cell == 0));
    assert_eq!(registers_of(&machine), vec![0, 0, 0, 0, 0, 0, 0, 0, 0, 2]);
}

#[test]
fn start_sets_the_entry_address_and_runs() {
    let machine = Machine::empty().start();
    assert!(machine.is_running());
    assert_eq!(PROGRAM_ENTRY, 0x3000);
    assert_eq!(machine.registers.get_pc(), 0x3000);
    assert_eq!(
        registers_of(&machine),
        vec![0, 0, 0, 0, 0, 0, 0, 0, 0x3000, 2]
    );
    assert!(machine.memory.iter().all(|cell| *cell == 0));
}

#[test]
fn memory_is_read_and_written_at_every_address() {
    let mut machine = Machine::empty();
    machine.write_memory(0, 0x1111);
    machine.write_memory(0xFFFF, 0x2222);
    machine.write_memory(0x3000, 0x3333);
    assert_eq!(machine.get_memory(0), 0x1111);
    assert_eq!(machine.get_memory(0xFFFF), 0x2222);
    assert_eq!(machine.get_memory(0x3000), 0x3333);
    assert_eq!(machine.get_memory(1), 0);
    assert_eq!(machine.get_memory(0xFFFE), 0);
}

#[test]
fn three_increments_and_a_decrement_leave_two() {
    let mut machine = Machine::empty().start();
    machine.write_memory(0x3000, increment(RegisterName::R1));
    machine.write_memory(0x3001, increment(RegisterName::R1));
    machine.write_memory(0x3002, increment(RegisterName::R1));
    machine.write_memory(0x3003, decrement(RegisterName::R1));
    for _ in 0..4 {
        assert_eq!(machine.step(), Ok(Opcodes::Add));
    }
    assert_eq!(machine.registers.get_by_name(RegisterName::R1), 2);
    assert_eq!(
        machine.registers.get_by_name(RegisterName::Cond),
        ConditionFlag::Positive.mask()
    );
    assert_eq!(machine.registers.get_pc(), 0x3004);
}

#[test]
fn two_decrements_from_zero_leave_minus_two() {
    let mut machine = Machine::empty().start();
    machine.write_memory(0x3000, decrement(RegisterName::R1));
    machine.write_memory(0x3001, decrement(RegisterName::R1));
    assert_eq!(machine.step(), Ok(Opcodes::Add));
    assert_eq!(machine.registers.get_by_name(RegisterName::R1), 0xFFFF);
    assert_eq!(machine.step(), Ok(Opcodes::Add));
    assert_eq!(machine.registers.get_by_name(RegisterName::R1), 0xFFFE);
    assert_eq!(machine.registers.get_by_name(RegisterName::R1) as i16, -2);
    assert_eq!(machine.registers.get_cond_flag(), 4);
}

#[test]
fn add_wraps_past_the_largest_word() {
    let mut machine = Machine::empty().start();
    machine.registers.update_by_name(RegisterName::R1, 0xFFFF);
    machine.registers.update_by_name(RegisterName::R2, 0x0003);
    machine.add(instruction_builder::add(
        RegisterName::R1,
        RegisterName::R2,
        RegisterName::R3,
    ));
    assert_eq!(machine.registers.get_by_name(RegisterName::R3), 0x0002);
    assert_eq!(machine.registers.get_cond_flag(), 1);
    machine.add(add_immediate(RegisterName::R1, 1));
    assert_eq!(machine.registers.get_by_name(RegisterName::R1), 0);
    assert_eq!(machine.registers.get_cond_flag(), 2);
}

#[test]
fn immediate_or_source_reads_both_modes() {
    let mut machine = Machine::empty();
    machine.registers.update_by_name(RegisterName::R1, 40);
    machine.registers.update_by_name(RegisterName::R2, 2);
    let by_register =
        instruction_builder::add(RegisterName::R1, RegisterName::R2, RegisterName::R3);
    assert_eq!(
        Machine::immediate_or_source(&machine.registers, by_register),
        (40, 2)
    );
    let by_immediate = add_immediate(RegisterName::R1, 0b10000);
    assert_eq!(
        Machine::immediate_or_source(&machine.registers, by_immediate),
        (40, 0xFFF0)
    );
}

#[test]
fn step_executes_each_instruction_from_memory() {
    let mut machine = Machine::empty().start();
    machine.registers.update_by_name(RegisterName::R1, 0x00F0);
    machine.registers.update_by_name(RegisterName::R2, 0x0FF0);
    machine.registers.update_by_name(RegisterName::R4, 0x4000);
    machine.write_memory(
        0x3000,
        instruction_builder::and_register(RegisterName::R1, RegisterName::R2, RegisterName::R3),
    );
    machine.write_memory(
        0x3001,
        instruction_builder::not(RegisterName::R3, RegisterName::R5),
    );
    machine.write_memory(0x3002, store(RegisterName::R5, 0x10));
    machine.write_memory(0x3003, load(RegisterName::R0, 0x0F));
    machine.write_memory(0x3004, store_register(RegisterName::R4, 2, RegisterName::R1));
    machine.write_memory(0x3005, load_register(RegisterName::R4, 2, RegisterName::R2));
    assert_eq!(machine.step(), Ok(Opcodes::And));
    assert_eq!(machine.registers.get_by_name(RegisterName::R3), 0x00F0);
    assert_eq!(machine.step(), Ok(Opcodes::Not));
    assert_eq!(machine.registers.get_by_name(RegisterName::R5), 0xFF0F);
    assert_eq!(machine.registers.get_cond_flag(), 4);
    assert_eq!(machine.step(), Ok(Opcodes::Store));
    assert_eq!(machine.get_memory(0x3013), 0xFF0F);
    assert_eq!(machine.step(), Ok(Opcodes::Load));
    assert_eq!(machine.registers.get_by_name(RegisterName::R0), 0xFF0F);
    assert_eq!(machine.step(), Ok(Opcodes::StoreRegister));
    assert_eq!(machine.get_memory(0x4002), 0x00F0);
    assert_eq!(machine.registers.get_cond_flag(), 4);
    assert_eq!(machine.step(), Ok(Opcodes::LoadRegister));
    assert_eq!(machine.registers.get_by_name(RegisterName::R2), 0x00F0);
    assert_eq!(machine.registers.get_cond_flag(), 1);
    assert_eq!(machine.registers.get_pc(), 0x3006);
}

#[test]
fn load_indirect_reads_through_the_pointer() {
    let mut machine = Machine::empty().start();
    machine.write_memory(0x3000, load_indirect(RegisterName::R2, 0x20));
    machine.write_memory(0x3021, 0x5000);
    machine.write_memory(0x5000, 0x8ABC);
    assert_eq!(machine.step(), Ok(Opcodes::LoadIndirect));
    assert_eq!(machine.registers.get_by_name(RegisterName::R2), 0x8ABC);
    assert_eq!(machine.registers.get_cond_flag(), 4);
}

#[test]
fn load_effective_address_loads_the_address_itself() {
    let mut machine = Machine::empty().start();
    machine.write_memory(0x3000, load_effective_address(RegisterName::R3, 0x1FF));
    machine.write_memory(0x3001, load_effective_address(RegisterName::R4, 0x0FF));
    assert_eq!(machine.step(), Ok(Opcodes::LoadEffectiveAddress));
    assert_eq!(machine.registers.get_by_name(RegisterName::R3), 0x3000);
    assert_eq!(machine.registers.get_cond_flag(), 1);
    assert_eq!(machine.step(), Ok(Opcodes::LoadEffectiveAddress));
    assert_eq!(machine.registers.get_by_name(RegisterName::R4), 0x3101);
    machine.registers.set_pc(0x0000);
    machine.load_effective_address(load_effective_address(RegisterName::R5, 0x1FF));
    assert_eq!(machine.registers.get_by_name(RegisterName::R5), 0xFFFF);
    assert_eq!(machine.registers.get_cond_flag(), 4);
}

#[test]
fn offsets_are_signed_and_addresses_wrap() {
    let mut machine = Machine::empty().start();
    machine.registers.set_pc(0x0001);
    machine.write_memory(0xFFFF, 0x0077);
    machine.load(load(RegisterName::R1, 0x1FE));
    assert_eq!(machine.registers.get_by_name(RegisterName::R1), 0x0077);
    machine.registers.set_pc(0xFFFF);
    machine.write_memory(0x0004, 0x0088);
    machine.load(load(RegisterName::R2, 5));
    assert_eq!(machine.registers.get_by_name(RegisterName::R2), 0x0088);
    machine.registers.update_by_name(RegisterName::R3, 0x0000);
    machine.registers.update_by_name(RegisterName::R4, 0x0099);
    machine.store_register(store_register(RegisterName::R3, 0x3F, RegisterName::R4));
    assert_eq!(machine.get_memory(0xFFFF), 0x0099);
    machine.branch(branch(ConditionFlag::Positive, 0x1FF));
    assert_eq!(machine.registers.get_pc(), 0xFFFE);
    machine.jump_register(jump_offset(0x002));
    assert_eq!(machine.registers.get_pc(), 0x0000);
    assert_eq!(machine.registers.get_by_name(RegisterName::R7), 0xFFFE);
}

#[test]
fn fetch_wraps_at_the_end_of_memory() {
    let mut machine = Machine::empty().start();
    machine.registers.set_pc(0xFFFF);
    machine.write_memory(0xFFFF, increment(RegisterName::R0));
    machine.write_memory(0x0000, increment(RegisterName::R0));
    assert_eq!(machine.step(), Ok(Opcodes::Add));
    assert_eq!(machine.registers.get_pc(), 0x0000);
    assert_eq!(machine.step(), Ok(Opcodes::Add));
    assert_eq!(machine.registers.get_pc(), 0x0001);
    assert_eq!(machine.registers.get_by_name(RegisterName::R0), 2);
}

#[test]
fn jump_saves_the_address_after_the_jump() {
    let mut machine = Machine::empty().start();
    machine.write_memory(0x3000, jump_offset(0x10));
    assert_eq!(machine.step(), Ok(Opcodes::JumpRegister));
    assert_eq!(machine.registers.get_by_name(RegisterName::R7), 0x3001);
    assert_eq!(machine.registers.get_pc(), 0x3011);
    assert_eq!(machine.registers.get_cond_flag(), 2);
    machine.registers.update_by_name(RegisterName::R2, 0x4000);
    machine.write_memory(0x3011, jump_register(RegisterName::R2));
    assert_eq!(machine.step(), Ok(Opcodes::JumpRegister));
    assert_eq!(machine.registers.get_by_name(RegisterName::R7), 0x3012);
    assert_eq!(machine.registers.get_pc(), 0x4000);
    assert_eq!(machine.registers.get_cond_flag(), 2);
}

#[test]
fn jump_opcode_jumps_and_links_as_well() {
    let mut machine = Machine::empty().start();
    machine.registers.update_by_name(RegisterName::R1, 0x5000);
    let through_r1 = 0xC000 | (RegisterName::R1.address() << 6);
    machine.write_memory(0x3000, through_r1);
    assert_eq!(machine.step(), Ok(Opcodes::Jump));
    assert_eq!(machine.registers.get_pc(), 0x5000);
    assert_eq!(machine.registers.get_by_name(RegisterName::R7), 0x3001);
}

#[test]
fn branch_is_taken_only_on_a_flag_in_force() {
    let mut machine = Machine::empty().start();
    machine.write_memory(0x3000, branch(ConditionFlag::Negative, 8));
    machine.write_memory(0x3001, branch(ConditionFlag::Positive, 8));
    machine.write_memory(0x3002, branch(ConditionFlag::Zero, 8));
    let before = registers_of(&machine);
    assert_eq!(machine.step(), Ok(Opcodes::Branch));
    assert_eq!(machine.registers.get_pc(), 0x3001);
    assert_eq!(machine.step(), Ok(Opcodes::Branch));
    assert_eq!(machine.registers.get_pc(), 0x3002);
    assert_eq!(machine.step(), Ok(Opcodes::Branch));
    assert_eq!(machine.registers.get_pc(), 0x300B);
    let after = registers_of(&machine);
    assert_eq!(before[..8], after[..8]);
    assert_eq!(before[9], after[9]);
}

#[test]
fn branch_with_no_flag_tested_never_moves() {
    for value in [0u16, 1, 0x8000] {
        let mut machine = Machine::empty().start();
        machine
            .registers
            .update_by_name_set_condition_flag(RegisterName::R0, value);
        let before = registers_of(&machine);
        machine.branch(0x01FF);
        assert_eq!(registers_of(&machine), before);
    }
}

#[test]
fn branch_on_several_flags_is_taken_on_any_of_them() {
    let mut machine = Machine::empty().start();
    machine
        .registers
        .update_by_name_set_condition_flag(RegisterName::R0, 0x8000);
    let negative_or_zero = 0x0C00 | 0x004;
    machine.branch(negative_or_zero);
    assert_eq!(machine.registers.get_pc(), 0x3004);
    let zero_or_positive = 0x0600 | 0x004;
    machine.branch(zero_or_positive);
    assert_eq!(machine.registers.get_pc(), 0x3004);
}

#[test]
fn unused_and_trap_opcodes_only_advance() {
    for (word, opcode) in [
        (0x8000u16, Opcodes::Rti),
        (0xD000, Opcodes::Reserved),
        (0xF025, Opcodes::ExecuteTrap),
        (0x8FFF, Opcodes::Rti),
        (0xDFFF, Opcodes::Reserved),
        (0xFFFF, Opcodes::ExecuteTrap),
    ] {
        let mut machine = Machine::empty().start();
        machine.registers.update_by_name(RegisterName::R7, 0x1234);
        machine.write_memory(0x3000, word);
        let memory_before = machine.memory.to_vec();
        let before = registers_of(&machine);
        assert_eq!(machine.step(), Ok(opcode));
        let after = registers_of(&machine);
        assert_eq!(after[8], 0x3001);
        assert_eq!(before[..8], after[..8]);
        assert_eq!(before[9], after[9]);
        assert_eq!(machine.memory.to_vec(), memory_before);
        assert!(machine.is_running());
    }
}

#[test]
fn store_indirect_is_refused_and_changes_nothing() {
    let mut machine = Machine::empty().start();
    machine.registers.update_by_name(RegisterName::R1, 0x0042);
    machine.write_memory(0x3000, 0xB601);
    let memory_before = machine.memory.to_vec();
    let before = registers_of(&machine);
    assert_eq!(machine.step(), Err(MachineError::UnrecognizedOpcode(11)));
    assert_eq!(registers_of(&machine), before);
    assert_eq!(machine.registers.get_pc(), 0x3000);
    assert_eq!(machine.memory.to_vec(), memory_before);
    assert_eq!(machine.step(), Err(MachineError::UnrecognizedOpcode(11)));
}

#[test]
fn stores_leave_registers_and_flags() {
    let mut machine = Machine::empty().start();
    machine
        .registers
        .update_by_name_set_condition_flag(RegisterName::R1, 0x8001);
    let before = registers_of(&machine);
    machine.store(store(RegisterName::R1, 3));
    machine.store_register(store_register(RegisterName::R0, 1, RegisterName::R1));
    assert_eq!(registers_of(&machine), before);
    assert_eq!(machine.get_memory(0x3003), 0x8001);
    assert_eq!(machine.get_memory(0x0001), 0x8001);
}

#[test]
fn instruction_fields_reach_every_general_purpose_register() {
    let names = [
        RegisterName::R0,
        RegisterName::R1,
        RegisterName::R2,
        RegisterName::R3,
        RegisterName::R4,
        RegisterName::R5,
        RegisterName::R6,
        RegisterName::R7,
    ];
    let mut machine = Machine::empty().start();
    for (index, name) in names.iter().enumerate() {
        machine.write_memory(0x3000 + index as u16, add_immediate(*name, index as u16 + 1));
    }
    for _ in 0..8 {
        assert_eq!(machine.step(), Ok(Opcodes::Add));
    }
    assert_eq!(
        registers_of(&machine),
        vec![1, 2, 3, 4, 5, 6, 7, 8, 0x3008, 1]
    );
}

#[test]
fn words_of_the_architecture_execute() {
    let mut machine = Machine::empty().start();
    // ADD R1, R1, #1; ADD R2, R1, R1; NOT R3, R2; AND R3, R3, #0; LD R4, #-1
    for (offset, word) in [0x1261u16, 0x1441, 0x96BF, 0x56E0, 0x29FF]
        .iter()
        .enumerate()
    {
        machine.write_memory(0x3000 + offset as u16, *word);
    }
    assert_eq!(machine.step(), Ok(Opcodes::Add));
    assert_eq!(machine.registers.get_by_name(RegisterName::R1), 1);
    assert_eq!(machine.step(), Ok(Opcodes::Add));
    assert_eq!(machine.registers.get_by_name(RegisterName::R2), 2);
    assert_eq!(machine.step(), Ok(Opcodes::Not));
    assert_eq!(machine.registers.get_by_name(RegisterName::R3), 0xFFFD);
    assert_eq!(machine.registers.get_cond_flag(), 4);
    assert_eq!(machine.step(), Ok(Opcodes::And));
    assert_eq!(machine.registers.get_by_name(RegisterName::R3), 0);
    assert_eq!(machine.registers.get_cond_flag(), 2);
    assert_eq!(machine.step(), Ok(Opcodes::Load));
    assert_eq!(machine.registers.get_by_name(RegisterName::R4), 0x29FF);
    assert_eq!(machine.registers.get_cond_flag(), 1);
    assert_eq!(machine.registers.get_pc(), 0x3005);
}

#[test]
fn jump_through_the_link_register_goes_to_the_saved_counter() {
    let mut machine = Machine::empty().start();
    machine.registers.update_by_name(RegisterName::R7, 0x5000);
    machine.write_memory(0x3000, jump_register(RegisterName::R7));
    assert_eq!(machine.step(), Ok(Opcodes::JumpRegister));
    assert_eq!(machine.registers.get_by_name(RegisterName::R7), 0x3001);
    assert_eq!(machine.registers.get_pc(), 0x3001);
}

#[test]
fn no_instruction_field_reaches_counter_or_flags() {
    let mut machine = Machine::empty().start();
    machine.add(add_immediate(RegisterName::Pc, 4));
    assert_eq!(machine.registers.get_pc(), 0x3000);
    assert_eq!(machine.registers.get_by_name(RegisterName::R0), 4);
    machine.add(add_immediate(RegisterName::Cond, 0x1F));
    assert_eq!(machine.registers.get_by_name(RegisterName::R1), 0xFFFF);
    assert_eq!(machine.registers.get_cond_flag(), 4);
}
