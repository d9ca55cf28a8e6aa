use vstd::prelude::*;

verus! {

/// The mapping where 64 KiB banks hold ROM directly: banks $40-$7D and
/// $C0-$FF are flat ROM, $00-$3F expose the upper halves, and save RAM
/// sits at $6000-$7FFF of banks $20-$3F and $A0-$BF.
pub struct HiROMMapper {
    pub rom_size: usize,
    pub sram_size: usize,
}

impl HiROMMapper {
    pub open spec fn spec_map_address(self, address: u32) -> Option<usize> {
        let bank = (address >> 16) & 0xFF;
        let addr = address & 0xFFFF;
        if bank <= 0x3F {
            if addr >= 0x8000 {
                let rom_offset = (bank << 16) | addr;
                if rom_offset < self.rom_size {
                    Some(rom_offset as usize)
                } else {
                    None
                }
            } else {
                None
            }
        } else if bank <= 0x7D {
            let rom_offset = (bank << 16) | addr;
            if rom_offset < self.rom_size {
                Some(rom_offset as usize)
            } else {
                None
            }
        } else if 0x80 <= bank <= 0xBF {
            let rom_offset = (((bank - 0x80) as u32) << 16) | addr;
            if rom_offset < self.rom_size {
                Some(rom_offset as usize)
            } else {
                None
            }
        } else if 0xC0 <= bank {
            let rom_offset = (((bank - 0x80) as u32) << 16) | addr;
            if rom_offset < self.rom_size {
                Some(rom_offset as usize)
            } else {
                None
            }
        } else {
            None
        }
    }

    pub open spec fn spec_map_sram_address(self, address: u32) -> Option<usize> {
        if self.sram_size == 0 {
            None
        } else {
            let bank = (address >> 16) & 0xFF;
            let addr = address & 0xFFFF;
            if (0x20 <= bank <= 0x3F) || (0xA0 <= bank <= 0xBF) {
                if 0x6000 <= addr <= 0x7FFF {
                    let bank_offset = if bank >= 0xA0 {
                        (bank - 0xA0) as u32
                    } else {
                        (bank - 0x20) as u32
                    };
                    let sram_offset = (bank_offset << 13) | ((addr - 0x6000) as u32);
                    if sram_offset < self.sram_size {
                        Some(sram_offset as usize)
                    } else {
                        None
                    }
                } else {
                    None
                }
            } else {
                None
            }
        }
    }

    pub fn new(rom_size: usize, sram_size: usize) -> (r: Self)
        ensures
            r == (HiROMMapper { rom_size, sram_size }),
    {
        Self { rom_size, sram_size }
    }

    pub fn map_address(&self, address: u32) -> (r: Option<usize>)
        ensures
            r == self.spec_map_address(address),
            r is Some ==> r->0 < self.rom_size,
    {
        let bank = (address >> 16) & 0xFF;
        let addr = address & 0xFFFF;
        if bank <= 0x3F {
            if addr >= 0x8000 {
                let rom_offset = (bank << 16) | addr;
                if (rom_offset as usize) < self.rom_size {
                    Some(rom_offset as usize)
                } else {
                    None
                }
            } else {
                None
            }
        } else if bank <= 0x7D {
            let rom_offset = (bank << 16) | addr;
            if (rom_offset as usize) < self.rom_size {
                Some(rom_offset as usize)
            } else {
                None
            }
        } else if 0x80 <= bank && bank <= 0xBF {
            let rom_offset = (((bank - 0x80) as u32) << 16) | addr;
            if (rom_offset as usize) < self.rom_size {
                Some(rom_offset as usize)
            } else {
                None
            }
        } else if 0xC0 <= bank {
            let rom_offset = (((bank - 0x80) as u32) << 16) | addr;
            if (rom_offset as usize) < self.rom_size {
                Some(rom_offset as usize)
            } else {
                None
            }
        } else {
            None
        }
    }

    pub fn map_sram_address(&self, address: u32) -> (r: Option<usize>)
        ensures
            r == self.spec_map_sram_address(address),
            r is Some ==> r->0 < self.sram_size,
    {
        if self.sram_size == 0 {
            return None;
        }
        let bank = (address >> 16) & 0xFF;
        let addr = address & 0xFFFF;
        if (0x20 <= bank && bank <= 0x3F) || (0xA0 <= bank && bank <= 0xBF) {
            if 0x6000 <= addr && addr <= 0x7FFF {
                let bank_offset: u32 = if bank >= 0xA0 {
                    bank - 0xA0
                } else {
                    bank - 0x20
                };
                let sram_offset = (bank_offset << 13) | ((addr - 0x6000) as u32);
                if (sram_offset as usize) < self.sram_size {
                    Some(sram_offset as usize)
                } else {
                    None
                }
            } else {
                None
            }
        } else {
            None
        }
    }

    pub fn name(&self) -> (r: &'static str)
        ensures
            r@ == "HiROM"@,
    {
        "HiROM"
    }
}

} // verus!
