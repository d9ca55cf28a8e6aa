use vstd::prelude::*;

verus! {

/// The mapping where each 64 KiB bank exposes 32 KiB of ROM in its
/// upper half, with save RAM in banks $70-$7D and their mirrors.
pub struct LoROMMapper {
    pub rom_size: usize,
    pub sram_size: usize,
}

impl LoROMMapper {
    /// ROM offset of a bus address: banks $00-$7D map $8000-$FFFF,
    /// banks $80-$FF mirror them; an offset past the ROM is unmapped.
    pub open spec fn spec_map_address(self, address: u32) -> Option<usize> {
        let bank = (address >> 16) & 0xFF;
        let addr = address & 0xFFFF;
        if bank <= 0x7D {
            if addr >= 0x8000 {
                let rom_offset = ((bank & 0x7F) << 15) | (addr & 0x7FFF);
                if rom_offset < self.rom_size {
                    Some(rom_offset as usize)
                } else {
                    None
                }
            } else {
                None
            }
        } else if bank >= 0x80 {
            let rom_offset = ((bank & 0x7F) << 15) | (addr & 0x7FFF);
            if rom_offset < self.rom_size {
                Some(rom_offset as usize)
            } else {
                None
            }
        } else {
            None
        }
    }

    /// Save-RAM offset of a bus address: the low halves of banks
    /// $70-$7D, mirrored at $F0-$FF; unmapped when no save RAM exists.
    pub open spec fn spec_map_sram_address(self, address: u32) -> Option<usize> {
        if self.sram_size == 0 {
            None
        } else {
            let bank = (address >> 16) & 0xFF;
            let addr = address & 0xFFFF;
            if 0x70 <= bank <= 0x7D {
                if addr < 0x8000 {
                    let sram_offset = (((bank - 0x70) as u32) << 15) | addr;
                    if sram_offset < self.sram_size {
                        Some(sram_offset as usize)
                    } else {
                        None
                    }
                } else {
                    None
                }
            } else if 0xF0 <= bank {
                if addr < 0x8000 {
                    let sram_offset = (((bank - 0xF0) as u32) << 15) | addr;
                    if sram_offset < self.sram_size {
                        Some(sram_offset as usize)
                    } else {
                        None
                    }
                } else {
                    None
                }
            } else {
                None
            }
        }
    }

    pub fn new(rom_size: usize, sram_size: usize) -> (r: Self)
        ensures
            r == (LoROMMapper { rom_size, sram_size }),
    {
        Self { rom_size, sram_size }
    }

    pub fn map_address(&self, address: u32) -> (r: Option<usize>)
        ensures
            r == self.spec_map_address(address),
            r is Some ==> r->0 < self.rom_size,
    {
        let bank = (address >> 16) & 0xFF;
        let addr = address & 0xFFFF;
        if bank <= 0x7D {
            if addr >= 0x8000 {
                let rom_offset = ((bank & 0x7F) << 15) | (addr & 0x7FFF);
                if (rom_offset as usize) < self.rom_size {
                    Some(rom_offset as usize)
                } else {
                    None
                }
            } else {
                None
            }
        } else if bank >= 0x80 {
            let rom_offset = ((bank & 0x7F) << 15) | (addr & 0x7FFF);
            if (rom_offset as usize) < self.rom_size {
                Some(rom_offset as usize)
            } else {
                None
            }
        } else {
            None
        }
    }

    pub fn map_sram_address(&self, address: u32) -> (r: Option<usize>)
        ensures
            r == self.spec_map_sram_address(address),
            r is Some ==> r->0 < self.sram_size,
    {
        if self.sram_size == 0 {
            return None;
        }
        let bank = (address >> 16) & 0xFF;
        let addr = address & 0xFFFF;
        if 0x70 <= bank && bank <= 0x7D {
            if addr < 0x8000 {
                let sram_offset = (((bank - 0x70) as u32) << 15) | addr;
                if (sram_offset as usize) < self.sram_size {
                    Some(sram_offset as usize)
                } else {
                    None
                }
            } else {
                None
            }
        } else if 0xF0 <= bank {
            if addr < 0x8000 {
                let sram_offset = (((bank - 0xF0) as u32) << 15) | addr;
                if (sram_offset as usize) < self.sram_size {
                    Some(sram_offset as usize)
                } else {
                    None
                }
            } else {
                None
            }
        } else {
            None
        }
    }

    pub fn name(&self) -> (r: &'static str)
        ensures
            r@ == "LoROM"@,
    {
        "LoROM"
    }
}

} // verus!
