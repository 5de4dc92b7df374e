use vstd::prelude::*;

pub mod bus;
pub mod cartridge;
pub mod cpu;
pub mod dma;
pub mod interrupts;
pub mod isa;
pub mod joypad;
pub mod pixel;
pub mod ppu;
pub mod registers;
pub mod serial;
pub mod timer;

verus! {
} // verus!
