//! A simulator core for a 16-bit educational computer: a register file, a flat
//! memory of 65,536 words, and a fetch-decode-execute engine, with the
//! behaviour of every instruction stated in contracts and proved.
//!
//! - [`util`]: sign extension of instruction fields.
//! - [`registers`]: the register file and the rule by which the condition
//!   register follows the words written.
//! - [`opcodes`]: the sixteen opcodes.
//! - [`fields`]: the operand fields of an instruction word.
//! - [`semantics`]: what each instruction does to the state of a machine, and
//!   the laws that follow.
//! - [`machine`]: the engine, which executes one instruction at a time.
//! - [`instruction_builder`]: assembling instruction words from their fields.
//! - [`laws`]: what assembled words do when the engine executes them.
//!
//! The engine performs no input or output. A caller loads a program with
//! [`machine::Machine::write_memory`], starts the machine and calls
//! [`machine::Machine::step`] as often as it wishes; a caller that serves
//! traps does so when a step reports the trap opcode.

pub mod error;
pub mod fields;
pub mod instruction_builder;
pub mod laws;
pub mod machine;
pub mod opcodes;
pub mod registers;
pub mod semantics;
pub mod util;
