pub mod header;
pub mod loader;

pub use header::CartridgeHeader;
pub use loader::Cartridge;
