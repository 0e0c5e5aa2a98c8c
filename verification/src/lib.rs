//! A cycle-stepped core for the handheld console built around the Sharp
//! LR35902: the register file, the interrupt controller, the timer, the
//! joypad, the memory bus and the instruction interpreter.
//!
//! Every executable function carries a contract over a mathematical model of
//! the machine, and the algebraic laws of the instruction set are stated as
//! proof functions next to the code they speak of.
pub mod bits;
pub mod bus;
pub mod cpu;
pub mod gameboy;
