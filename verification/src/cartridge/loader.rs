use vstd::prelude::*;
use vstd::slice::{slice_subrange, slice_to_vec};
use crate::cartridge::header::{
    spec_detect_header_offset, header_matches_at, CartridgeHeader, CoprocessorType, Region, RomInfo,
};
use crate::error::EmulatorError;
use crate::memory::mappers::{create_mapper, MapperKind, MapperType};

verus! {

/// A loaded cartridge: the parsed header, the ROM image with any copier
/// header stripped, the battery RAM, and the address mapper.
pub struct Cartridge {
    pub header: CartridgeHeader,
    pub rom_data: Vec<u8>,
    pub sram: Vec<u8>,
    pub mapper: MapperKind,
}

/// Mathematical image of a cartridge: what its memories hold and how
/// addresses map onto them.
pub struct CartSnap {
    pub rom: Seq<u8>,
    pub sram: Seq<u8>,
    pub mapper: MapperKind,
}

impl View for Cartridge {
    type V = CartSnap;

    open spec fn view(&self) -> CartSnap {
        CartSnap { rom: self.rom_data@, sram: self.sram@, mapper: self.mapper }
    }
}

impl CartSnap {
    /// What a read returns: ROM where the mapper places the address in
    /// ROM, else save RAM, else the open-bus value zero.
    pub open spec fn read(self, address: u32) -> u8 {
        if self.mapper.spec_map_address(address) matches Some(off) && off < self.rom.len() {
            self.rom[self.mapper.spec_map_address(address)->0 as int]
        } else if self.mapper.spec_map_sram_address(address) matches Some(off) && off
            < self.sram.len() {
            self.sram[self.mapper.spec_map_sram_address(address)->0 as int]
        } else {
            0
        }
    }

    /// What a write leaves behind: only save RAM is writable.
    pub open spec fn write(self, address: u32, value: u8) -> CartSnap {
        if self.mapper.spec_map_sram_address(address) matches Some(off) && off < self.sram.len() {
            CartSnap { sram: self.sram.update(self.mapper.spec_map_sram_address(address)->0 as int, value), ..self }
        } else {
            self
        }
    }
}

/// Fills a byte vector of the given length with zeroes.
pub fn zero_bytes(n: usize) -> (v: Vec<u8>)
    ensures
        v@ == Seq::new(n as nat, |i: int| 0u8),
{
    let mut v: Vec<u8> = Vec::new();
    let mut i: usize = 0;
    while i < n
        invariant
            0 <= i <= n,
            v@ == Seq::new(i as nat, |j: int| 0u8),
        decreases n - i,
    {
        v.push(0);
        proof {
            assert(v@ =~= Seq::new((i + 1) as nat, |j: int| 0u8));
        }
        i = i + 1;
    }
    v
}

impl Cartridge {
    /// The image without any 512-byte copier header.
    pub open spec fn spec_clean_rom(s: Seq<u8>) -> Seq<u8> {
        if s.len() % 1024 == 512 {
            s.subrange(512, s.len() as int)
        } else {
            s
        }
    }

    /// Loads a cartridge from a ROM image: strips the copier header,
    /// parses the console header, rejects an image larger than twice the
    /// declared ROM size or a mapping scheme this core does not carry,
    /// and starts save RAM zeroed at its declared size.
    pub fn load(rom_data: &[u8]) -> (r: Result<Cartridge, EmulatorError>)
        ensures
            r matches Ok(c) ==> ({
                let clean = Self::spec_clean_rom(rom_data@);
                let off = spec_detect_header_offset(clean)->0;
                &&& spec_detect_header_offset(clean) is Some
                &&& header_matches_at(c.header, clean, off)
                &&& c.rom_data@ == clean
                &&& clean.len() <= c.header.rom_size * 2
                &&& c.sram@ == Seq::new(c.header.sram_size as nat, |i: int| 0u8)
                &&& (c.header.mapper_type == MapperType::LoROM || c.header.mapper_type
                    == MapperType::HiROM)
                &&& c.mapper.spec_rom_size() == clean.len()
                &&& c.mapper.spec_sram_size() == c.header.sram_size
                &&& (c.mapper is LoRom <==> c.header.mapper_type == MapperType::LoROM)
            }),
            r is Err ==> ({
                let clean = Self::spec_clean_rom(rom_data@);
                let off = spec_detect_header_offset(clean)->0;
                spec_detect_header_offset(clean) is None || (forall|h: CartridgeHeader|
                    header_matches_at(h, clean, off) ==> (clean.len() > h.rom_size * 2 || (
                    h.mapper_type != MapperType::LoROM && h.mapper_type != MapperType::HiROM)
                        || h.sram_size > usize::MAX))
            }),
    {
        let clean_rom_data = Self::remove_copier_header(rom_data);
        let header = match CartridgeHeader::parse(clean_rom_data.as_slice()) {
            Ok(h) => h,
            Err(e) => {
                return Err(e);
            },
        };
        proof {
            crate::cartridge::header::lemma_size_bytes_bound();
        }
        if clean_rom_data.len() as u64 > header.rom_size * 2 {
            return Err(EmulatorError::rom_load(String::new()));
        }
        if header.sram_size > usize::MAX as u64 {
            return Err(EmulatorError::rom_load(String::new()));
        }
        let sram_len = header.sram_size as usize;
        let mapper = match create_mapper(header.mapper_type, clean_rom_data.len(), sram_len) {
            Ok(m) => m,
            Err(e) => {
                return Err(e);
            },
        };
        let sram = zero_bytes(sram_len);
        Ok(Cartridge { header, rom_data: clean_rom_data, sram, mapper })
    }

    /// Reads one byte through the mapper.
    pub fn read(&self, address: u32) -> (r: u8)
        ensures
            r == self@.read(address),
    {
        if let Some(rom_offset) = self.mapper.map_address(address) {
            if rom_offset < self.rom_data.len() {
                return self.rom_data[rom_offset];
            }
        }
        if let Some(sram_offset) = self.mapper.map_sram_address(address) {
            if sram_offset < self.sram.len() {
                return self.sram[sram_offset];
            }
        }
        0x00
    }

    /// Writes one byte through the mapper; only save RAM takes writes.
    pub fn write(&mut self, address: u32, value: u8)
        ensures
            final(self)@ == old(self)@.write(address, value),
            final(self).header == old(self).header,
            final(self).mapper == old(self).mapper,
    {
        if let Some(sram_offset) = self.mapper.map_sram_address(address) {
            if sram_offset < self.sram.len() {
                self.sram[sram_offset] = value;
            }
        }
    }

    /// Replaces the save RAM; the data must match its size exactly.
    pub fn load_sram(&mut self, sram_data: &[u8]) -> (r: Result<(), EmulatorError>)
        ensures
            (r is Ok) == (sram_data@.len() == old(self).sram@.len()),
            r is Ok ==> final(self).sram@ == sram_data@ && final(self).header == old(self).header
                && final(self).rom_data == old(self).rom_data && final(self).mapper == old(
            self).mapper,
            r is Err ==> *final(self) == *old(self),
    {
        if sram_data.len() != self.sram.len() {
            return Err(EmulatorError::save_state(String::new()));
        }
        self.sram = slice_to_vec(sram_data);
        Ok(())
    }

    /// A copy of the save RAM.
    pub fn save_sram(&self) -> (r: Vec<u8>)
        ensures
            r@ == self.sram@,
    {
        slice_to_vec(self.sram.as_slice())
    }

    pub fn has_sram(&self) -> (r: bool)
        ensures
            r == (self.header.sram_size > 0),
    {
        self.header.sram_size > 0
    }

    /// Cartridges with save RAM are assumed battery backed.
    pub fn has_battery_backup(&self) -> (r: bool)
        ensures
            r == (self.header.sram_size > 0),
    {
        self.has_sram()
    }

    fn remove_copier_header(rom_data: &[u8]) -> (r: Vec<u8>)
        ensures
            r@ == Self::spec_clean_rom(rom_data@),
    {
        if rom_data.len() % 1024 == 512 {
            slice_to_vec(slice_subrange(rom_data, 512, rom_data.len()))
        } else {
            slice_to_vec(rom_data)
        }
    }

    pub fn get_title(&self) -> (r: &str)
        ensures
            r@ == self.header.title@,
    {
        self.header.title.as_str()
    }

    pub fn get_rom_size(&self) -> (r: usize)
        ensures
            r == self.rom_data@.len(),
    {
        self.rom_data.len()
    }

    pub fn get_sram_size(&self) -> (r: usize)
        ensures
            r == self.sram@.len(),
    {
        self.sram.len()
    }

    pub fn get_mapper_type(&self) -> (r: MapperType)
        ensures
            r == self.header.mapper_type,
    {
        self.header.mapper_type
    }

    pub fn get_region(&self) -> (r: Region)
        ensures
            r == self.header.region,
    {
        self.header.region
    }

    pub fn has_coprocessor(&self) -> (r: bool)
        ensures
            r == (self.header.coprocessor != CoprocessorType::NoChip),
    {
        !matches!(self.header.coprocessor, CoprocessorType::NoChip)
    }

    pub fn get_coprocessor(&self) -> (r: CoprocessorType)
        ensures
            r == self.header.coprocessor,
    {
        self.header.coprocessor
    }

    /// The save RAM as a slice, or nothing when the cartridge has none.
    pub fn get_sram(&self) -> (r: Option<&[u8]>)
        ensures
            self.sram@.len() == 0 ==> r is None,
            self.sram@.len() > 0 ==> (r matches Some(s) && s@ == self.sram@),
    {
        if self.sram.is_empty() {
            None
        } else {
            Some(self.sram.as_slice())
        }
    }

    /// A summary of the loaded ROM for frontends.
    pub fn get_info(&self) -> (r: RomInfo)
        ensures
            r.mapper_type == self.header.mapper_type,
            r.rom_size == self.header.rom_size,
            r.sram_size == self.header.sram_size,
            r.region == self.header.region,
            r.version == self.header.version,
            r.coprocessor == self.header.coprocessor,
            r.title@ == self.header.title@,
    {
        RomInfo {
            title: self.header.title.clone(),
            mapper_type: self.header.mapper_type,
            rom_size: self.header.rom_size,
            sram_size: self.header.sram_size,
            region: self.header.region,
            version: self.header.version,
            coprocessor: self.header.coprocessor,
        }
    }
}

} // verus!
