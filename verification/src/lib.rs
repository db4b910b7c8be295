//! Interrupt dispatch and task-scheduling core of a small bare-metal kernel.
//!
//! The library builds the 256-entry interrupt descriptor table and encodes
//! each gate exactly as the hardware reads it, models the exception and timer
//! trampolines as data so their protocols can be stated and proved, and
//! implements the round-robin scheduler that the periodic timer drives.
//! Everything that needs privileged instructions (loading the table, the
//! naked assembly stubs, BIOS output) stays outside; this crate holds the
//! logic those instructions surround.

pub mod context;
pub mod exceptions;
pub mod idt;
pub mod shell;
pub mod task;
pub mod timer;
