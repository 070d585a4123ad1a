//! Conditions on which the machine refuses to go on.

use vstd::prelude::*;

verus! {

/// Why an access or a step was refused. Each variant carries the value that
/// was refused.
#[derive(Clone, Copy, Debug, PartialEq, Eq, Structural)]
pub enum MachineError {
    /// A register address that names none of the ten slots.
    InvalidRegisterAddress(u16),
    /// An opcode for which the engine has no handler.
    UnrecognizedOpcode(u16),
}

} // verus!
