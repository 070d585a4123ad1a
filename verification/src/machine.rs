//! The execution engine: memory, the register file, and the
//! fetch-decode-execute cycle.

use vstd::prelude::*;
use crate::error::MachineError;
use crate::fields;
use crate::opcodes::Opcodes;
use crate::registers::{cleared_registers, RegisterName, Registers};
use crate::semantics::{
    after_add, after_and, after_branch, after_jump_register, after_load, after_load_effective_address,
    after_load_indirect, after_load_register, after_not, after_step, after_store,
    after_store_register, fetched_opcode, first_operand, second_operand, step_report,
    MachineState, MEMORY_SIZE, PROGRAM_ENTRY,
};
use crate::util::sign_extend;

verus! {

/// A machine. It owns its memory and its register file; its view is the
/// state that the instruction semantics speak of.
pub struct Machine {
    pub memory: [u16; MEMORY_SIZE],
    pub registers: Registers,
    pub running: bool,
}

impl View for Machine {
    type V = MachineState;

    open spec fn view(&self) -> MachineState {
        MachineState { memory: self.memory@, registers: self.registers@, running: self.running }
    }
}

impl Machine {
    /// The view of any machine is well formed.
    pub proof fn lemma_view_well_formed(&self)
        ensures
            self@.well_formed(),
    {
        self.registers.lemma_view_is_register_file();
    }

    /// A halted machine with every memory cell and register cleared.
    pub fn empty() -> (machine: Machine)
        ensures
            machine@.memory == Seq::new(MEMORY_SIZE as nat, |address: int| 0u16),
            machine@.registers == cleared_registers(),
            !machine@.running,
    {
        let machine = Machine {
            memory: [0;MEMORY_SIZE],
            registers: Registers::new(),
            running: false,
        };
        assert(machine@.memory =~= Seq::new(MEMORY_SIZE as nat, |address: int| 0u16));
        machine
    }

    /// Starts the machine at the program entry address.
    pub fn start(self) -> (machine: Machine)
        ensures
            machine@ == (MachineState { running: true, ..self@.set(RegisterName::Pc, PROGRAM_ENTRY) }),
    {
        let mut machine = self;
        machine.registers.set_pc(PROGRAM_ENTRY);
        machine.running = true;
        machine
    }

    pub fn is_running(&self) -> (running: bool)
        ensures
            running == self@.running,
    {
        self.running
    }

    pub fn write_memory(&mut self, address: u16, value: u16)
        ensures
            final(self)@ == old(self)@.write(address, value),
    {
        self.memory[address as usize] = value;
    }

    pub fn get_memory(&self, address: u16) -> (value: u16)
        ensures
            value == self@.read(address),
    {
        self.memory[address as usize]
    }

    /// The two operands of an ADD or AND instruction.
    pub fn immediate_or_source(registers: &Registers, instruction: u16) -> (operands: (u16, u16))
        ensures
            operands.0 == first_operand(registers@, instruction),
            operands.1 == second_operand(registers@, instruction),
    {
        let op1 = registers.get_by_address(fields::sr1(instruction)).unwrap();
        let op2 = if fields::immediate_mode(instruction) {
            sign_extend(fields::imm5(instruction), 5)
        } else {
            registers.get_by_address(fields::sr2(instruction)).unwrap()
        };
        (op1, op2)
    }

    /// Executes an ADD instruction.
    pub fn add(&mut self, instruction: u16)
        ensures
            final(self)@ == after_add(old(self)@, instruction),
    {
        let dr = fields::dr(instruction);
        let (op1, op2) = Machine::immediate_or_source(&self.registers, instruction);
        let result = op1.wrapping_add(op2);
        self.registers.update_by_address_set_condition_flag(dr, result).unwrap();
    }

    /// Executes an AND instruction.
    pub fn and(&mut self, instruction: u16)
        ensures
            final(self)@ == after_and(old(self)@, instruction),
    {
        let dr = fields::dr(instruction);
        let (op1, op2) = Machine::immediate_or_source(&self.registers, instruction);
        let result = op1 & op2;
        self.registers.update_by_address_set_condition_flag(dr, result).unwrap();
    }

    /// Executes a NOT instruction.
    pub fn not(&mut self, instruction: u16)
        ensures
            final(self)@ == after_not(old(self)@, instruction),
    {
        let source = fields::sr1(instruction);
        let destination = fields::dr(instruction);
        let register_value = self.registers.get_by_address(source).unwrap();
        self.registers.update_by_address_set_condition_flag(destination, !register_value).unwrap();
    }

    /// Executes a BR instruction.
    pub fn branch(&mut self, instruction: u16)
        ensures
            final(self)@ == after_branch(old(self)@, instruction),
    {
        let nzp = fields::nzp(instruction);
        let sign_extended_pc_offset = sign_extend(fields::pc_offset9(instruction), 9);
        let cond_flag = self.registers.get_cond_flag();
        let pc = self.registers.get_pc();
        if cond_flag & nzp != 0 {
            self.registers.set_pc(pc.wrapping_add(sign_extended_pc_offset));
        }
    }

    /// Executes an LDI instruction.
    pub fn load_indirect(&mut self, instruction: u16)
        ensures
            final(self)@ == after_load_indirect(old(self)@, instruction),
    {
        let dr = fields::dr(instruction);
        let sign_extended_pc_offset = sign_extend(fields::pc_offset9(instruction), 9);
        let pointer = self.registers.get_pc().wrapping_add(sign_extended_pc_offset);
        let address = self.get_memory(pointer);
        let value = self.get_memory(address);
        self.registers.update_by_address_set_condition_flag(dr, value).unwrap();
    }

    /// Executes an LD instruction.
    pub fn load(&mut self, instruction: u16)
        ensures
            final(self)@ == after_load(old(self)@, instruction),
    {
        let dr = fields::dr(instruction);
        let sign_extended_pc_offset = sign_extend(fields::pc_offset9(instruction), 9);
        let pointer = self.registers.get_pc().wrapping_add(sign_extended_pc_offset);
        let value = self.get_memory(pointer);
        self.registers.update_by_address_set_condition_flag(dr, value).unwrap();
    }

    /// Executes an LEA instruction.
    pub fn load_effective_address(&mut self, instruction: u16)
        ensures
            final(self)@ == after_load_effective_address(old(self)@, instruction),
    {
        let dr = fields::dr(instruction);
        let sign_extended_pc_offset = sign_extend(fields::pc_offset9(instruction), 9);
        let address = self.registers.get_pc().wrapping_add(sign_extended_pc_offset);
        self.registers.update_by_address_set_condition_flag(dr, address).unwrap();
    }

    /// Executes an ST instruction.
    pub fn store(&mut self, instruction: u16)
        ensures
            final(self)@ == after_store(old(self)@, instruction),
    {
        let sr = fields::dr(instruction);
        let sign_extended_pc_offset = sign_extend(fields::pc_offset9(instruction), 9);
        let pointer = self.registers.get_by_name(RegisterName::Pc).wrapping_add(
            sign_extended_pc_offset,
        );
        let register_value = self.registers.get_by_address(sr).unwrap();
        self.write_memory(pointer, register_value);
    }

    /// Executes a JSR or JMP instruction.
    pub fn jump_register(&mut self, instruction: u16)
        ensures
            final(self)@ == after_jump_register(old(self)@, instruction),
    {
        let pc = self.registers.get_pc();
        self.registers.update_by_name(RegisterName::R7, pc);
        let address = if fields::offset_mode(instruction) {
            let sign_extended_offset = sign_extend(fields::pc_offset11(instruction), 11);
            pc.wrapping_add(sign_extended_offset)
        } else {
            self.registers.get_by_address(fields::sr1(instruction)).unwrap()
        };
        self.registers.set_pc(address);
    }

    /// Executes an LDR instruction.
    pub fn load_register(&mut self, instruction: u16)
        ensures
            final(self)@ == after_load_register(old(self)@, instruction),
    {
        let dr = fields::dr(instruction);
        let base_r = fields::sr1(instruction);
        let offset_6 = sign_extend(fields::offset6(instruction), 6);
        let base_address = self.registers.get_by_address(base_r).unwrap();
        let address = base_address.wrapping_add(offset_6);
        let cell = self.get_memory(address);
        self.registers.update_by_address_set_condition_flag(dr, cell).unwrap();
    }

    /// Executes an STR instruction.
    pub fn store_register(&mut self, instruction: u16)
        ensures
            final(self)@ == after_store_register(old(self)@, instruction),
    {
        let sr = fields::dr(instruction);
        let base_r = fields::sr1(instruction);
        let offset_6 = sign_extend(fields::offset6(instruction), 6);
        let base_address = self.registers.get_by_address(base_r).unwrap();
        let address = base_address.wrapping_add(offset_6);
        let source_value = self.registers.get_by_address(sr).unwrap();
        self.write_memory(address, source_value);
    }

    /// Executes the instruction at the program counter and reports its
    /// opcode. An instruction without a handler is refused: the machine stays
    /// as it was, with the program counter still at that instruction. For any
    /// other the program counter moves to the next word before the
    /// instruction takes effect. RTI, RES and TRAP have no effect of their
    /// own; the caller who serves traps learns of one from the opcode
    /// reported.
    pub fn step(&mut self) -> (result: Result<Opcodes, MachineError>)
        ensures
            result == step_report(old(self)@),
            final(self)@ == after_step(old(self)@),
            result is Ok <==> fetched_opcode(old(self)@).spec_has_handler(),
            result is Err ==> *final(self) == *old(self),
    {
        let pc = self.registers.get_pc();
        let next_instruction = self.get_memory(pc);
        let code = fields::opcode(next_instruction);
        let opcode = Opcodes::from_u16(code).unwrap();
        if !opcode.has_handler() {
            return Err(MachineError::UnrecognizedOpcode(code));
        }
        self.registers.increment_pc();
        match opcode {
            Opcodes::Branch => self.branch(next_instruction),
            Opcodes::Add => self.add(next_instruction),
            Opcodes::Load => self.load(next_instruction),
            Opcodes::Store => self.store(next_instruction),
            Opcodes::JumpRegister | Opcodes::Jump => self.jump_register(next_instruction),
            Opcodes::And => self.and(next_instruction),
            Opcodes::LoadRegister => self.load_register(next_instruction),
            Opcodes::StoreRegister => self.store_register(next_instruction),
            Opcodes::Not => self.not(next_instruction),
            Opcodes::LoadIndirect => self.load_indirect(next_instruction),
            Opcodes::LoadEffectiveAddress => self.load_effective_address(next_instruction),
            _ => {},
        }
        Ok(opcode)
    }
}

} // verus!
