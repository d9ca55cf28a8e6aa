pub mod addressing;
pub mod cpu_core;
pub mod execute;
pub mod instructions;
pub mod registers;
pub use cpu_core::Cpu;
