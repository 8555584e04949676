//! An interpreter core for the LC-3 instruction set: a 16-bit, word-addressed
//! machine with eight general registers, a program counter, a condition
//! register and 65,536 memory cells, two of which are wired to a keyboard.
//!
//! Every function of this crate carries a contract, and Verus proves each of
//! them but one: how `{:?}` shows a string is taken from std on trust. The host
//! console is held as plain values ([`host::HostInput`], [`host::HostOutput`]):
//! a driver feeds key presses in and carries written bytes out.
//!
//! - [`hardware`]: memory, registers, opcodes and flags.
//! - [`host`]: the console as a queue of keys and a record of bytes.
//! - [`utils`]: sign extension, flag update, single reads and writes.
//! - [`trap_code`], [`trap_routines`]: the six service routines.
//! - [`machine`]: the machine as mathematics, and the laws that hold of it.
//! - [`vm`]: the machine that runs.
//! - [`memory_access`]: memory access that polls the keyboard.
//! - [`error`]: the failures.

pub mod error;
pub mod hardware;
pub mod host;
pub mod machine;
pub mod memory_access;
pub mod trap_code;
pub mod trap_routines;
pub mod utils;
pub mod vm;
