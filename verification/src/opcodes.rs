//! The sixteen opcodes, one for each value of the four-bit opcode field.

use vstd::prelude::*;

verus! {

#[derive(Clone, Copy, Debug, PartialEq, Eq, Structural)]
pub enum Opcodes {
    /// BR
    Branch,
    /// ADD
    Add,
    /// LD
    Load,
    /// ST
    Store,
    /// JSR
    JumpRegister,
    /// AND
    And,
    /// LDR
    LoadRegister,
    /// STR
    StoreRegister,
    /// RTI, unused
    Rti,
    /// NOT
    Not,
    /// LDI
    LoadIndirect,
    /// STI
    StoreIndirect,
    /// JMP
    Jump,
    /// RES, unused
    Reserved,
    /// LEA
    LoadEffectiveAddress,
    /// TRAP
    ExecuteTrap,
}

impl Opcodes {
    /// The value of the opcode field that selects this opcode.
    pub open spec fn spec_code(self) -> u16 {
        match self {
            Opcodes::Branch => 0,
            Opcodes::Add => 1,
            Opcodes::Load => 2,
            Opcodes::Store => 3,
            Opcodes::JumpRegister => 4,
            Opcodes::And => 5,
            Opcodes::LoadRegister => 6,
            Opcodes::StoreRegister => 7,
            Opcodes::Rti => 8,
            Opcodes::Not => 9,
            Opcodes::LoadIndirect => 10,
            Opcodes::StoreIndirect => 11,
            Opcodes::Jump => 12,
            Opcodes::Reserved => 13,
            Opcodes::LoadEffectiveAddress => 14,
            Opcodes::ExecuteTrap => 15,
        }
    }

    /// The opcode that a value of the opcode field selects, if any.
    pub open spec fn spec_from_u16(code: u16) -> Option<Opcodes> {
        if code == 0 {
            Some(Opcodes::Branch)
        } else if code == 1 {
            Some(Opcodes::Add)
        } else if code == 2 {
            Some(Opcodes::Load)
        } else if code == 3 {
            Some(Opcodes::Store)
        } else if code == 4 {
            Some(Opcodes::JumpRegister)
        } else if code == 5 {
            Some(Opcodes::And)
        } else if code == 6 {
            Some(Opcodes::LoadRegister)
        } else if code == 7 {
            Some(Opcodes::StoreRegister)
        } else if code == 8 {
            Some(Opcodes::Rti)
        } else if code == 9 {
            Some(Opcodes::Not)
        } else if code == 10 {
            Some(Opcodes::LoadIndirect)
        } else if code == 11 {
            Some(Opcodes::StoreIndirect)
        } else if code == 12 {
            Some(Opcodes::Jump)
        } else if code == 13 {
            Some(Opcodes::Reserved)
        } else if code == 14 {
            Some(Opcodes::LoadEffectiveAddress)
        } else if code == 15 {
            Some(Opcodes::ExecuteTrap)
        } else {
            None
        }
    }

    pub fn code(self) -> (code: u16)
        ensures
            code == self.spec_code(),
            code <= 15,
    {
        match self {
            Opcodes::Branch => 0,
            Opcodes::Add => 1,
            Opcodes::Load => 2,
            Opcodes::Store => 3,
            Opcodes::JumpRegister => 4,
            Opcodes::And => 5,
            Opcodes::LoadRegister => 6,
            Opcodes::StoreRegister => 7,
            Opcodes::Rti => 8,
            Opcodes::Not => 9,
            Opcodes::LoadIndirect => 10,
            Opcodes::StoreIndirect => 11,
            Opcodes::Jump => 12,
            Opcodes::Reserved => 13,
            Opcodes::LoadEffectiveAddress => 14,
            Opcodes::ExecuteTrap => 15,
        }
    }

    /// Finds the opcode that a value selects. Only 0 to 15 select one.
    pub fn from_u16(code: u16) -> (opcode: Option<Opcodes>)
        ensures
            opcode == Self::spec_from_u16(code),
            opcode is Some <==> code <= 15,
            opcode matches Some(op) ==> op.spec_code() == code,
    {
        match code {
            0 => Some(Opcodes::Branch),
            1 => Some(Opcodes::Add),
            2 => Some(Opcodes::Load),
            3 => Some(Opcodes::Store),
            4 => Some(Opcodes::JumpRegister),
            5 => Some(Opcodes::And),
            6 => Some(Opcodes::LoadRegister),
            7 => Some(Opcodes::StoreRegister),
            8 => Some(Opcodes::Rti),
            9 => Some(Opcodes::Not),
            10 => Some(Opcodes::LoadIndirect),
            11 => Some(Opcodes::StoreIndirect),
            12 => Some(Opcodes::Jump),
            13 => Some(Opcodes::Reserved),
            14 => Some(Opcodes::LoadEffectiveAddress),
            15 => Some(Opcodes::ExecuteTrap),
            _ => None,
        }
    }

    /// Whether the engine has a handler for this opcode. Only STI has none.
    pub open spec fn spec_has_handler(self) -> bool {
        self != Opcodes::StoreIndirect
    }

    /// Whether the handler of this opcode writes a destination register with
    /// a flag update.
    pub open spec fn writes_flags(self) -> bool {
        matches!(
            self,
            Opcodes::Add | Opcodes::And | Opcodes::Not | Opcodes::Load | Opcodes::LoadIndirect
                | Opcodes::LoadRegister | Opcodes::LoadEffectiveAddress
        )
    }

    /// Whether the handler of this opcode writes a memory cell.
    pub open spec fn writes_memory(self) -> bool {
        self == Opcodes::Store || self == Opcodes::StoreRegister
    }

    pub fn has_handler(self) -> (handled: bool)
        ensures
            handled == self.spec_has_handler(),
    {
        !matches!(self, Opcodes::StoreIndirect)
    }

    /// Every opcode is found again from its own code.
    pub proof fn lemma_code_round_trip(opcode: Opcodes)
        ensures
            opcode.spec_code() <= 15,
            Self::spec_from_u16(opcode.spec_code()) == Some(opcode),
    {
    }

    /// A value selects an opcode exactly when it fits in four bits, and the
    /// opcode it selects has that value as its code.
    pub proof fn lemma_from_u16_inverts_code(code: u16)
        ensures
            Self::spec_from_u16(code) is Some <==> code <= 15,
            code <= 15 ==> Self::spec_from_u16(code)->Some_0.spec_code() == code,
    {
    }
}

} // verus!
