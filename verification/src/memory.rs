pub mod bus;
pub mod cache;
pub mod dma;
pub mod mappers;

pub use bus::Bus;
