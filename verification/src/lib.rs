//! Core of a cycle-stepped emulator for an 8-bit handheld console: processor,
//! memory bus, cartridge bank controllers, timer and picture processor.

pub mod error;
pub mod util;
pub mod registers;
pub mod opcodes;
pub mod mbc;
pub mod joypad;
pub mod tile;
pub mod memory;
pub mod cpu;
pub mod processor;
pub mod timer;
pub mod gpu;
pub mod system;
pub mod args;
