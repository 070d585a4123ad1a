//! The register file: eight general-purpose registers, the program counter
//! and the condition register.
//!
//! A slot is named by a [`RegisterName`] or by its address, a number from 0
//! to 9. The general-purpose registers have the addresses 0 to 7, which are
//! the addresses that the three-bit register fields of an instruction can
//! hold; the program counter and the condition register follow at 8 and 9,
//! out of the reach of any instruction field.
//!
//! There are two ways to write a slot. A plain write, which names the slot,
//! stores a word and nothing else; it serves the program counter and the link
//! register. A write with a flag update stores a word and then sets the
//! condition register to the flag that describes that word; it serves every
//! instruction that produces a value, and every write by address is of this
//! kind. The condition register is derived: no plain write reaches it, so it
//! holds the mask of exactly one flag at all times.

use vstd::prelude::*;
use vstd::pervasive::unreached;
use crate::error::MachineError;
use crate::util::signed_value;

verus! {

/// The ten slots of the register file, in the order of their addresses.
#[derive(Clone, Copy, Debug, PartialEq, Eq, Structural)]
pub enum RegisterName {
    R0,
    R1,
    R2,
    R3,
    R4,
    R5,
    R6,
    R7,
    Pc,
    Cond,
}

/// The sign of the value last written with a flag update.
#[derive(Clone, Copy, Debug, PartialEq, Eq, Structural)]
pub enum ConditionFlag {
    Positive,
    Zero,
    Negative,
}

impl RegisterName {
    /// The address of a slot: 0 to 7 for `R0` to `R7`, 8 for `Pc`, 9 for
    /// `Cond`.
    pub open spec fn spec_address(self) -> u16 {
        match self {
            RegisterName::R0 => 0,
            RegisterName::R1 => 1,
            RegisterName::R2 => 2,
            RegisterName::R3 => 3,
            RegisterName::R4 => 4,
            RegisterName::R5 => 5,
            RegisterName::R6 => 6,
            RegisterName::R7 => 7,
            RegisterName::Pc => 8,
            RegisterName::Cond => 9,
        }
    }

    /// Whether the slot is one of `R0` to `R7`, the slots that an instruction
    /// field can address.
    pub open spec fn is_general_purpose(self) -> bool {
        self != RegisterName::Pc && self != RegisterName::Cond
    }

    /// The slot at an address, if the address names one.
    pub open spec fn spec_from_u16(address: u16) -> Option<RegisterName> {
        if address == 0 {
            Some(RegisterName::R0)
        } else if address == 1 {
            Some(RegisterName::R1)
        } else if address == 2 {
            Some(RegisterName::R2)
        } else if address == 3 {
            Some(RegisterName::R3)
        } else if address == 4 {
            Some(RegisterName::R4)
        } else if address == 5 {
            Some(RegisterName::R5)
        } else if address == 6 {
            Some(RegisterName::R6)
        } else if address == 7 {
            Some(RegisterName::R7)
        } else if address == 8 {
            Some(RegisterName::Pc)
        } else if address == 9 {
            Some(RegisterName::Cond)
        } else {
            None
        }
    }

    /// The slot at an address known to be at most 9.
    pub open spec fn at(address: u16) -> RegisterName
        recommends
            address <= 9,
    {
        Self::spec_from_u16(address)->Some_0
    }

    pub fn address(self) -> (address: u16)
        ensures
            address == self.spec_address(),
            address <= 9,
    {
        match self {
            RegisterName::R0 => 0,
            RegisterName::R1 => 1,
            RegisterName::R2 => 2,
            RegisterName::R3 => 3,
            RegisterName::R4 => 4,
            RegisterName::R5 => 5,
            RegisterName::R6 => 6,
            RegisterName::R7 => 7,
            RegisterName::Pc => 8,
            RegisterName::Cond => 9,
        }
    }

    /// Finds the slot that an address names. Only 0 to 9 name one.
    pub fn from_u16(address: u16) -> (name: Option<RegisterName>)
        ensures
            name == Self::spec_from_u16(address),
            name is Some <==> address <= 9,
            name matches Some(n) ==> n.spec_address() == address,
    {
        match address {
            0 => Some(RegisterName::R0),
            1 => Some(RegisterName::R1),
            2 => Some(RegisterName::R2),
            3 => Some(RegisterName::R3),
            4 => Some(RegisterName::R4),
            5 => Some(RegisterName::R5),
            6 => Some(RegisterName::R6),
            7 => Some(RegisterName::R7),
            8 => Some(RegisterName::Pc),
            9 => Some(RegisterName::Cond),
            _ => None,
        }
    }

    /// Every slot is found again at its own address.
    pub proof fn lemma_address_round_trip(name: RegisterName)
        ensures
            name.spec_address() <= 9,
            Self::spec_from_u16(name.spec_address()) == Some(name),
    {
    }

    /// An address names a slot exactly when it is at most 9, and the slot it
    /// names has that address. The addresses that fit in three bits name the
    /// general-purpose registers.
    pub proof fn lemma_from_u16_inverts_address(address: u16)
        ensures
            Self::spec_from_u16(address) is Some <==> address <= 9,
            address <= 9 ==> Self::at(address).spec_address() == address,
            address <= 9 ==> (Self::at(address).is_general_purpose() <==> address <= 7),
    {
    }
}

impl ConditionFlag {
    /// The flag as a one-bit mask: bit 0 for positive, bit 1 for zero, bit 2
    /// for negative.
    pub open spec fn spec_mask(self) -> u16 {
        match self {
            ConditionFlag::Positive => 1,
            ConditionFlag::Zero => 2,
            ConditionFlag::Negative => 4,
        }
    }

    /// The flag that describes a word read as a two's-complement number.
    pub open spec fn of(value: u16) -> ConditionFlag {
        if signed_value(value) < 0 {
            ConditionFlag::Negative
        } else if signed_value(value) == 0 {
            ConditionFlag::Zero
        } else {
            ConditionFlag::Positive
        }
    }

    pub fn mask(self) -> (mask: u16)
        ensures
            mask == self.spec_mask(),
    {
        match self {
            ConditionFlag::Positive => 1,
            ConditionFlag::Zero => 2,
            ConditionFlag::Negative => 4,
        }
    }

    /// Classifies a word: negative when bit 15 is set, else zero when the word
    /// is 0, else positive.
    pub fn from_value(value: u16) -> (flag: ConditionFlag)
        ensures
            flag == Self::of(value),
    {
        assert((value >> 15 == 1) == (value >= 0x8000)) by (bit_vector);
        if value >> 15 == 1 {
            ConditionFlag::Negative
        } else if value == 0 {
            ConditionFlag::Zero
        } else {
            ConditionFlag::Positive
        }
    }
}

/// The register file. Its view maps each slot to the word it holds; the
/// condition register holds the mask of one flag at all times.
#[derive(Clone, Copy, Debug)]
pub struct Registers {
    pc: u16,
    cond: ConditionFlag,
    r0: u16,
    r1: u16,
    r2: u16,
    r3: u16,
    r4: u16,
    r5: u16,
    r6: u16,
    r7: u16,
}

/// What holds of every register file: each slot has a word, and the condition
/// register holds 1, 2 or 4.
pub open spec fn is_register_file(slots: Map<RegisterName, u16>) -> bool {
    &&& forall|name: RegisterName| slots.dom().contains(name)
    &&& (slots[RegisterName::Cond] == 1 || slots[RegisterName::Cond] == 2
        || slots[RegisterName::Cond] == 4)
}

/// The register file in which every general-purpose register and the program
/// counter hold 0 and the condition register holds the zero flag.
pub open spec fn cleared_registers() -> Map<RegisterName, u16> {
    Map::total(
        |name: RegisterName|
            if name == RegisterName::Cond {
                ConditionFlag::Zero.spec_mask()
            } else {
                0u16
            },
    )
}

/// The register file after a word is stored in a slot and the condition
/// register is recomputed from that word.
pub open spec fn with_flags(slots: Map<RegisterName, u16>, name: RegisterName, value: u16) -> Map<
    RegisterName,
    u16,
> {
    slots.insert(name, value).insert(RegisterName::Cond, ConditionFlag::of(value).spec_mask())
}

impl View for Registers {
    type V = Map<RegisterName, u16>;

    closed spec fn view(&self) -> Map<RegisterName, u16> {
        Map::total(|name: RegisterName| self.slot(name))
    }
}

impl Registers {
    spec fn slot(self, name: RegisterName) -> u16 {
        match name {
            RegisterName::Pc => self.pc,
            RegisterName::Cond => self.cond.spec_mask(),
            RegisterName::R0 => self.r0,
            RegisterName::R1 => self.r1,
            RegisterName::R2 => self.r2,
            RegisterName::R3 => self.r3,
            RegisterName::R4 => self.r4,
            RegisterName::R5 => self.r5,
            RegisterName::R6 => self.r6,
            RegisterName::R7 => self.r7,
        }
    }

    /// The view of any register file is well formed.
    pub proof fn lemma_view_is_register_file(self)
        ensures
            is_register_file(self@),
    {
    }

    /// Two register files with the same view are the same.
    pub proof fn lemma_view_determines(self, other: Registers)
        requires
            self@ == other@,
        ensures
            self == other,
    {
        assert forall|name: RegisterName| self.slot(name) == other.slot(name) by {
            assert(self@[name] == self.slot(name));
            assert(other@[name] == other.slot(name));
        }
        assert(self.slot(RegisterName::Pc) == other.slot(RegisterName::Pc));
        assert(self.slot(RegisterName::Cond) == other.slot(RegisterName::Cond));
        assert(self.slot(RegisterName::R0) == other.slot(RegisterName::R0));
        assert(self.slot(RegisterName::R1) == other.slot(RegisterName::R1));
        assert(self.slot(RegisterName::R2) == other.slot(RegisterName::R2));
        assert(self.slot(RegisterName::R3) == other.slot(RegisterName::R3));
        assert(self.slot(RegisterName::R4) == other.slot(RegisterName::R4));
        assert(self.slot(RegisterName::R5) == other.slot(RegisterName::R5));
        assert(self.slot(RegisterName::R6) == other.slot(RegisterName::R6));
        assert(self.slot(RegisterName::R7) == other.slot(RegisterName::R7));
    }

    pub fn new() -> (registers: Registers)
        ensures
            registers@ == cleared_registers(),
    {
        let registers = Registers {
            pc: 0,
            cond: ConditionFlag::Zero,
            r0: 0,
            r1: 0,
            r2: 0,
            r3: 0,
            r4: 0,
            r5: 0,
            r6: 0,
            r7: 0,
        };
        assert(registers@ =~= cleared_registers());
        registers
    }

    /// Stores a word in a slot and leaves the condition register as it is.
    /// The condition register itself cannot be written this way.
    pub fn update_by_name(&mut self, register_name: RegisterName, register_value: u16)
        requires
            register_name != RegisterName::Cond,
        ensures
            final(self)@ == old(self)@.insert(register_name, register_value),
    {
        match register_name {
            RegisterName::Pc => self.pc = register_value,
            RegisterName::R0 => self.r0 = register_value,
            RegisterName::R1 => self.r1 = register_value,
            RegisterName::R2 => self.r2 = register_value,
            RegisterName::R3 => self.r3 = register_value,
            RegisterName::R4 => self.r4 = register_value,
            RegisterName::R5 => self.r5 = register_value,
            RegisterName::R6 => self.r6 = register_value,
            RegisterName::R7 => self.r7 = register_value,
            RegisterName::Cond => unreached(),
        }
        assert(self@ =~= old(self)@.insert(register_name, register_value));
    }

    /// Stores a word in a slot, then recomputes the condition register from
    /// that word.
    pub fn update_by_name_set_condition_flag(
        &mut self,
        register_name: RegisterName,
        register_value: u16,
    )
        ensures
            final(self)@ == with_flags(old(self)@, register_name, register_value),
            final(self)@[RegisterName::Cond] == ConditionFlag::of(register_value).spec_mask(),
    {
        match register_name {
            RegisterName::Pc => self.pc = register_value,
            RegisterName::R0 => self.r0 = register_value,
            RegisterName::R1 => self.r1 = register_value,
            RegisterName::R2 => self.r2 = register_value,
            RegisterName::R3 => self.r3 = register_value,
            RegisterName::R4 => self.r4 = register_value,
            RegisterName::R5 => self.r5 = register_value,
            RegisterName::R6 => self.r6 = register_value,
            RegisterName::R7 => self.r7 = register_value,
            RegisterName::Cond => {},
        }
        self.cond = ConditionFlag::from_value(register_value);
        assert(self@ =~= with_flags(old(self)@, register_name, register_value));
    }

    /// Stores a word in the slot at an address, then recomputes the condition
    /// register from that word. An address above 9 is refused and nothing
    /// changes. The condition register itself cannot be named as the slot.
    pub fn update_by_address(&mut self, register_name: u16, register_value: u16) -> (result: Result<
        (),
        MachineError,
    >)
        requires
            register_name != RegisterName::Cond.spec_address(),
        ensures
            register_name <= 9 ==> result is Ok && final(self)@ == with_flags(
                old(self)@,
                RegisterName::at(register_name),
                register_value,
            ) && final(self)@[RegisterName::Cond] == ConditionFlag::of(register_value).spec_mask(),
            register_name > 9 ==> result == Err::<(), MachineError>(
                MachineError::InvalidRegisterAddress(register_name),
            ) && *final(self) == *old(self),
    {
        match RegisterName::from_u16(register_name) {
            Some(RegisterName::Cond) => unreached(),
            Some(name) => {
                self.update_by_name_set_condition_flag(name, register_value);
                Ok(())
            },
            None => Err(MachineError::InvalidRegisterAddress(register_name)),
        }
    }

    /// Stores a word in the slot at an address, then recomputes the condition
    /// register from that word. An address above 9 is refused and nothing
    /// changes.
    pub fn update_by_address_set_condition_flag(
        &mut self,
        register_name: u16,
        register_value: u16,
    ) -> (result: Result<(), MachineError>)
        ensures
            register_name <= 9 ==> result is Ok && final(self)@ == with_flags(
                old(self)@,
                RegisterName::at(register_name),
                register_value,
            ) && final(self)@[RegisterName::Cond] == ConditionFlag::of(register_value).spec_mask(),
            register_name > 9 ==> result == Err::<(), MachineError>(
                MachineError::InvalidRegisterAddress(register_name),
            ) && *final(self) == *old(self),
    {
        match RegisterName::from_u16(register_name) {
            Some(name) => {
                self.update_by_name_set_condition_flag(name, register_value);
                Ok(())
            },
            None => Err(MachineError::InvalidRegisterAddress(register_name)),
        }
    }

    /// Reads the slot at an address. An address above 9 is refused.
    pub fn get_by_address(&self, register_name: u16) -> (result: Result<u16, MachineError>)
        ensures
            register_name <= 9 ==> result == Ok::<u16, MachineError>(
                self@[RegisterName::at(register_name)],
            ),
            register_name > 9 ==> result == Err::<u16, MachineError>(
                MachineError::InvalidRegisterAddress(register_name),
            ),
    {
        match RegisterName::from_u16(register_name) {
            Some(name) => Ok(self.get_by_name(name)),
            None => Err(MachineError::InvalidRegisterAddress(register_name)),
        }
    }

    pub fn get_by_name(&self, register_name: RegisterName) -> (value: u16)
        ensures
            value == self@[register_name],
    {
        match register_name {
            RegisterName::Pc => self.pc,
            RegisterName::Cond => self.cond.mask(),
            RegisterName::R0 => self.r0,
            RegisterName::R1 => self.r1,
            RegisterName::R2 => self.r2,
            RegisterName::R3 => self.r3,
            RegisterName::R4 => self.r4,
            RegisterName::R5 => self.r5,
            RegisterName::R6 => self.r6,
            RegisterName::R7 => self.r7,
        }
    }

    /// The mask that the condition register holds after a write of `value`
    /// with a flag update: 4 when the word is negative, 2 when it is zero,
    /// 1 when it is positive.
    pub fn update_condition_flag(register_value: u16) -> (mask: u16)
        ensures
            mask == ConditionFlag::of(register_value).spec_mask(),
    {
        ConditionFlag::from_value(register_value).mask()
    }

    /// The condition register: the mask of the flag now in force.
    pub fn get_cond_flag(&self) -> (mask: u16)
        ensures
            mask == self@[RegisterName::Cond],
            mask == 1 || mask == 2 || mask == 4,
    {
        self.cond.mask()
    }

    /// Moves the program counter to the next word; after 0xFFFF comes 0.
    pub fn increment_pc(&mut self)
        ensures
            final(self)@ == old(self)@.insert(
                RegisterName::Pc,
                old(self)@[RegisterName::Pc].wrapping_add(1),
            ),
    {
        self.pc = self.pc.wrapping_add(1);
        assert(self@ =~= old(self)@.insert(
            RegisterName::Pc,
            old(self)@[RegisterName::Pc].wrapping_add(1),
        ));
    }

    pub fn set_pc(&mut self, pc: u16)
        ensures
            final(self)@ == old(self)@.insert(RegisterName::Pc, pc),
    {
        self.pc = pc;
        assert(self@ =~= old(self)@.insert(RegisterName::Pc, pc));
    }

    pub fn get_pc(&self) -> (pc: u16)
        ensures
            pc == self@[RegisterName::Pc],
    {
        self.pc
    }
}

} // verus!
