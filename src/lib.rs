//! An interpreter for the CHIP-8 virtual machine.
//!
//! The machine state, the instruction decoder and the execution of every
//! instruction are verified against a mathematical model of the machine
//! (`model`). The host drives the machine: it hands each cycle a snapshot of
//! the sixteen keys, ticks the timers at its own rate, and presents the
//! display when a cycle reports that it changed.
//!
//! Each cycle fetches the word at the program counter, which moves the
//! counter on by one instruction, and then executes it from there: a skip
//! adds one more instruction, a call pushes the counter as its return
//! address.
//!
//! Choices where the instruction set leaves the behaviour open:
//! - Memory accesses through the index register (font lookup, decimal store,
//!   register block store and load, sprite reads) wrap modulo the memory
//!   size; the index register itself wraps at 16 bits.
//! - Jumps with an offset wrap modulo the memory size, so the program
//!   counter always lies inside memory.
//! - Block store and load leave the index register unchanged.
//! - A call on a full stack and a return on an empty one fail with an error
//!   and leave the machine unchanged, as does a word that encodes no
//!   instruction.
//! - Arithmetic and shift instructions write the flag register first and the
//!   result second, so with `VF` as destination the result wins.
//! - Shifts work on `Vx` and ignore `Vy`.
//! - Sprites are combined into the display pixel by pixel with exclusive or,
//!   wrapping around the edges; keys and glyphs are named by the low four
//!   bits of a register.
//! - The key wait stores the lowest-numbered pressed key, and while no key is
//!   pressed it leaves the program counter on itself.
use vstd::prelude::*;

pub mod cpu;
pub mod decode;
pub mod font;
pub mod laws;
pub mod model;

verus! {

} // verus!
