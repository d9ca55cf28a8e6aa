pub mod backgrounds;
pub mod memory;
pub mod mode7;
pub mod ppu_core;
pub mod registers;
pub mod render_cache;
pub mod scrolling;
pub mod sprites;
pub use ppu_core::Ppu;
