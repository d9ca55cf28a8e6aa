pub mod hirom;
pub mod lorom;

use vstd::prelude::*;
use crate::error::EmulatorError;
use hirom::HiROMMapper;
use lorom::LoROMMapper;

verus! {

/// The cartridge address-mapping scheme, read from the header.
#[derive(Debug, Clone, Copy, PartialEq, Eq, Structural)]
pub enum MapperType {
    LoROM,
    HiROM,
    ExLoROM,
    ExHiROM,
    SuperFX,
    SA1,
    SDD1,
    Unknown,
}

impl MapperType {
    /// The mapper named by the header's map-mode byte; unknown bytes fall
    /// back to a check of the low nibble.
    pub open spec fn spec_from_header_byte(byte: u8) -> MapperType {
        if byte == 0x20 || byte == 0x30 {
            MapperType::LoROM
        } else if byte == 0x21 || byte == 0x31 {
            MapperType::HiROM
        } else if byte == 0x22 || byte == 0x32 {
            MapperType::ExLoROM
        } else if byte == 0x23 {
            MapperType::SA1
        } else if byte == 0x25 || byte == 0x35 {
            MapperType::ExHiROM
        } else if byte & 0x0F == 0x00 {
            MapperType::LoROM
        } else if byte & 0x0F == 0x01 {
            MapperType::HiROM
        } else {
            MapperType::Unknown
        }
    }

    pub fn from_header_byte(byte: u8) -> (r: Self)
        ensures
            r == MapperType::spec_from_header_byte(byte),
    {
        match byte {
            0x20 | 0x30 => MapperType::LoROM,
            0x21 | 0x31 => MapperType::HiROM,
            0x22 | 0x32 => MapperType::ExLoROM,
            0x23 => MapperType::SA1,
            0x25 | 0x35 => MapperType::ExHiROM,
            _ => {
                match byte & 0x0F {
                    0x00 => MapperType::LoROM,
                    0x01 => MapperType::HiROM,
                    _ => MapperType::Unknown,
                }
            }
        }
    }
}

/// The closed set of mappers this core implements, dispatched by matching.
pub enum MapperKind {
    LoRom(LoROMMapper),
    HiRom(HiROMMapper),
}

impl MapperKind {
    /// Where a bus address falls in ROM, if anywhere, under this mapper.
    pub open spec fn spec_map_address(self, address: u32) -> Option<usize> {
        match self {
            MapperKind::LoRom(m) => m.spec_map_address(address),
            MapperKind::HiRom(m) => m.spec_map_address(address),
        }
    }

    /// Where a bus address falls in save RAM, if anywhere.
    pub open spec fn spec_map_sram_address(self, address: u32) -> Option<usize> {
        match self {
            MapperKind::LoRom(m) => m.spec_map_sram_address(address),
            MapperKind::HiRom(m) => m.spec_map_sram_address(address),
        }
    }

    pub open spec fn spec_rom_size(self) -> usize {
        match self {
            MapperKind::LoRom(m) => m.rom_size,
            MapperKind::HiRom(m) => m.rom_size,
        }
    }

    pub open spec fn spec_sram_size(self) -> usize {
        match self {
            MapperKind::LoRom(m) => m.sram_size,
            MapperKind::HiRom(m) => m.sram_size,
        }
    }

    pub fn map_address(&self, address: u32) -> (r: Option<usize>)
        ensures
            r == self.spec_map_address(address),
            r is Some ==> r->0 < self.spec_rom_size(),
    {
        match self {
            MapperKind::LoRom(m) => m.map_address(address),
            MapperKind::HiRom(m) => m.map_address(address),
        }
    }

    pub fn map_sram_address(&self, address: u32) -> (r: Option<usize>)
        ensures
            r == self.spec_map_sram_address(address),
            r is Some ==> r->0 < self.spec_sram_size(),
    {
        match self {
            MapperKind::LoRom(m) => m.map_sram_address(address),
            MapperKind::HiRom(m) => m.map_sram_address(address),
        }
    }

    pub fn name(&self) -> (r: &'static str)
        ensures
            self is LoRom ==> r@ == "LoROM"@,
            self is HiRom ==> r@ == "HiROM"@,
    {
        match self {
            MapperKind::LoRom(m) => m.name(),
            MapperKind::HiRom(m) => m.name(),
        }
    }
}

/// Builds the mapper for a header-declared mapping scheme; only the two
/// plain schemes are supported, anything else is an error.
pub fn create_mapper(mapper_type: MapperType, rom_size: usize, sram_size: usize) -> (r: Result<
    MapperKind,
    EmulatorError,
>)
    ensures
        mapper_type == MapperType::LoROM ==> r == Ok::<MapperKind, EmulatorError>(
            MapperKind::LoRom(LoROMMapper { rom_size, sram_size }),
        ),
        mapper_type == MapperType::HiROM ==> r == Ok::<MapperKind, EmulatorError>(
            MapperKind::HiRom(HiROMMapper { rom_size, sram_size }),
        ),
        mapper_type != MapperType::LoROM && mapper_type != MapperType::HiROM ==> r matches Err(
            EmulatorError::InvalidMapperType(_),
        ),
{
    match mapper_type {
        MapperType::LoROM => Ok(MapperKind::LoRom(LoROMMapper::new(rom_size, sram_size))),
        MapperType::HiROM => Ok(MapperKind::HiRom(HiROMMapper::new(rom_size, sram_size))),
        _ => Err(EmulatorError::InvalidMapperType(String::new())),
    }
}

} // verus!
