//! A cycle-driven Game Boy (DMG) emulation core.
//!
//! The engine is a single-owner state machine: a Sharp LR35902 interpreter
//! ([`cpu`]) that drives a memory-mapped system ([`emulator`]) made of a
//! scanline PPU ([`ppu`]), a programmable timer ([`timer`]), a joypad
//! ([`joypad`]) and an interrupt controller ([`interrupts`]). Time is counted
//! in machine cycles: every memory access of the CPU costs one.
//!
//! Every executable function carries a contract over a mathematical model of
//! the state it touches, and the laws that relate several functions are
//! stated as public proof functions next to them.

pub mod bits;
pub mod cpu;
pub mod emulator;
pub mod interrupts;
pub mod joypad;
pub mod ppu;
pub mod timer;
