//! Emulation core for a 16-bit home console: a 65C816-class main CPU,
//! its bus and cartridge mapping, the picture and audio co-processors,
//! block-transfer (DMA/HDMA) hardware, and the scheduler that ties them
//! together one instruction at a time.
pub mod apu;
pub mod cartridge;
pub mod cpu;
pub mod dma;
pub mod emulator;
pub mod error;
pub mod memory;
pub mod ppu;
pub mod savestate;
pub mod input;

pub use emulator::Emulator;
pub use error::EmulatorError;
