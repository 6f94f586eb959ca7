//! A CHIP-8 virtual machine: memory, timers, keypad state, framebuffer and
//! the instruction set, each with a machine-checked contract.

pub mod cpu;
pub mod graphics;
pub mod input;
pub mod memory;
pub mod sound;
pub mod timers;
