use vstd::prelude::*;
use crate::error::EmulatorError;
use crate::memory::mappers::MapperType;

verus! {

/// Market region read from the header's destination-code byte.
#[derive(Debug, Clone, Copy, PartialEq, Eq, Structural)]
pub enum Region {
    Japan,
    USA,
    Europe,
    Sweden,
    Finland,
    Denmark,
    France,
    Netherlands,
    Spain,
    Germany,
    Italy,
    China,
    Indonesia,
    Korea,
    Unknown,
}

/// Enhancement chip named by the header's cartridge-type byte.
#[derive(Debug, Clone, Copy, PartialEq, Eq, Structural)]
pub enum CoprocessorType {
    NoChip,
    DSP1,
    DSP2,
    DSP3,
    DSP4,
    CX4,
    SA1,
    SDD1,
    RTC,
    OBC1,
    SuperFX,
    SuperFX2,
    Unknown,
}

/// The parsed cartridge header.
#[derive(Debug, Clone)]
pub struct CartridgeHeader {
    pub title: String,
    pub mapper_type: MapperType,
    pub rom_size: u64,
    pub sram_size: u64,
    pub region: Region,
    pub version: u8,
    pub checksum: u16,
    pub complement: u16,
    pub coprocessor: CoprocessorType,
}

/// Summary of a loaded ROM, handed out to frontends.
#[derive(Debug, Clone)]
pub struct RomInfo {
    pub title: String,
    pub mapper_type: MapperType,
    pub rom_size: u64,
    pub sram_size: u64,
    pub region: Region,
    pub version: u8,
    pub coprocessor: CoprocessorType,
}

pub open spec fn spec_region(byte: u8) -> Region {
    if byte == 0x00 {
        Region::Japan
    } else if byte == 0x01 {
        Region::USA
    } else if byte == 0x02 {
        Region::Europe
    } else if byte == 0x03 {
        Region::Sweden
    } else if byte == 0x04 {
        Region::Finland
    } else if byte == 0x05 {
        Region::Denmark
    } else if byte == 0x06 {
        Region::France
    } else if byte == 0x07 {
        Region::Netherlands
    } else if byte == 0x08 {
        Region::Spain
    } else if byte == 0x09 {
        Region::Germany
    } else if byte == 0x0A {
        Region::Italy
    } else if byte == 0x0B {
        Region::China
    } else if byte == 0x0C {
        Region::Indonesia
    } else if byte == 0x0D {
        Region::Korea
    } else {
        Region::Unknown
    }
}

pub open spec fn spec_coprocessor(byte: u8) -> CoprocessorType {
    if byte == 0x00 {
        CoprocessorType::NoChip
    } else if byte == 0x01 {
        CoprocessorType::DSP1
    } else if byte == 0x02 {
        CoprocessorType::DSP2
    } else if byte == 0x03 {
        CoprocessorType::DSP3
    } else if byte == 0x04 {
        CoprocessorType::DSP4
    } else if byte == 0x05 {
        CoprocessorType::CX4
    } else if byte == 0x34 {
        CoprocessorType::SA1
    } else if byte == 0x35 {
        CoprocessorType::SuperFX
    } else if byte == 0x3A {
        CoprocessorType::SuperFX2
    } else if byte == 0x43 {
        CoprocessorType::SDD1
    } else if byte == 0x45 {
        CoprocessorType::RTC
    } else if byte == 0x25 {
        CoprocessorType::OBC1
    } else {
        CoprocessorType::Unknown
    }
}

/// Size field decoding: the byte is a power-of-two count of KiB.
/// Values that would leave the 64-bit range decode to zero.
pub open spec fn spec_size_bytes(byte: u8) -> u64 {
    if byte <= 43 {
        (1024u64 << byte)
    } else {
        0
    }
}

/// No decoded size leaves 2^53 bytes.
pub proof fn lemma_size_bytes_bound()
    ensures
        forall|b: u8| #[trigger] spec_size_bytes(b) <= 0x20_0000_0000_0000u64,
{
    assert forall|b: u8| #[trigger] spec_size_bytes(b) <= 0x20_0000_0000_0000u64 by {
        if b <= 43 {
            assert((1024u64 << b) <= 0x20_0000_0000_0000u64) by (bit_vector)
                requires
                    b <= 43,
            ;
        }
    }
}

/// A title byte that is kept: printable ASCII, space included.
pub open spec fn title_keep(b: u8) -> bool {
    0x20 <= b <= 0x7E
}

/// The kept bytes of the `n`-byte title window starting at `off`.
pub open spec fn kept_title_win(s: Seq<u8>, off: int, n: int) -> Seq<u8>
    decreases n,
{
    if n <= 0 {
        Seq::empty()
    } else if title_keep(s[off + n - 1]) {
        kept_title_win(s, off, n - 1).push(s[off + n - 1])
    } else {
        kept_title_win(s, off, n - 1)
    }
}

pub open spec fn trim_trailing(s: Seq<u8>) -> Seq<u8>
    decreases s.len(),
{
    if s.len() > 0 && s.last() == 0x20 {
        trim_trailing(s.drop_last())
    } else {
        s
    }
}

pub open spec fn trim_leading(s: Seq<u8>) -> Seq<u8>
    decreases s.len(),
{
    if s.len() > 0 && s.first() == 0x20 {
        trim_leading(s.drop_first())
    } else {
        s
    }
}

/// The title of the header at `off`: kept bytes of the 21-byte window,
/// stripped of leading and trailing blanks, read as characters.
pub open spec fn spec_title(s: Seq<u8>, off: int) -> Seq<char> {
    trim_leading(trim_trailing(kept_title_win(s, off, 0x15))).map_values(|b: u8| b as char)
}

/// A byte the header validity check accepts in the title area.
pub open spec fn printable_or_null(b: u8) -> bool {
    (0x20 <= b <= 0x7E) || b == 0
}

/// How many of the first `n` bytes at `off` are printable or null.
pub open spec fn count_printable_win(s: Seq<u8>, off: int, n: int) -> int
    decreases n,
{
    if n <= 0 {
        0
    } else {
        count_printable_win(s, off, n - 1) + if printable_or_null(s[off + n - 1]) {
            1int
        } else {
            0int
        }
    }
}

/// Whether a plausible header sits at `off`: sane size fields and a
/// mostly printable title area.
pub open spec fn spec_valid_header_at(s: Seq<u8>, off: int) -> bool {
    &&& s.len() > off + 0x30
    &&& s[off + 0x17] <= 16
    &&& s[off + 0x18] <= 8
    &&& count_printable_win(s, off, 0x15) >= 15
}

/// 512 extra bytes before a whole number of KiB mean a copier header.
pub open spec fn spec_base_offset(s: Seq<u8>) -> int {
    if s.len() % 1024 == 512 {
        512
    } else {
        0
    }
}

/// Where the header lies: both canonical spots are probed; when both
/// look valid the map-mode byte of the high candidate decides; a last
/// resort probes the extended spot, then falls back to the low one.
pub open spec fn spec_detect_header_offset(s: Seq<u8>) -> Option<int> {
    let base = spec_base_offset(s);
    let lo = base + 0x7FC0;
    let hi = base + 0xFFC0;
    let lov = spec_valid_header_at(s, lo);
    let hiv = spec_valid_header_at(s, hi);
    if lov && hiv {
        let hm = s[hi + 0x15];
        if hm & 0x01 == 0x01 || hm == 0x21 || hm == 0x31 {
            Some(hi)
        } else {
            Some(lo)
        }
    } else if hiv {
        Some(hi)
    } else if lov {
        Some(lo)
    } else {
        let ex = base + 0x40FFB0;
        if spec_valid_header_at(s, ex) {
            Some(ex)
        } else if s.len() > lo + 0x30 {
            Some(lo)
        } else {
            None
        }
    }
}

/// A 16-bit little-endian value from two header bytes.
pub open spec fn spec_le16(lo: u8, hi: u8) -> u16 {
    (lo as u16) | ((hi as u16) << 8)
}

/// All the fields the header at `off` decodes to, title aside.
pub open spec fn header_matches_at(h: CartridgeHeader, s: Seq<u8>, off: int) -> bool {
    &&& h.title@ == spec_title(s, off)
    &&& h.mapper_type == MapperType::spec_from_header_byte(s[off + 0x15])
    &&& h.coprocessor == spec_coprocessor(s[off + 0x16])
    &&& h.rom_size == spec_size_bytes(s[off + 0x17])
    &&& h.sram_size == (if s[off + 0x18] == 0 {
        0u64
    } else {
        spec_size_bytes(s[off + 0x18])
    })
    &&& h.region == spec_region(s[off + 0x19])
    &&& h.version == s[off + 0x1B]
    &&& h.complement == spec_le16(s[off + 0x1C], s[off + 0x1D])
    &&& h.checksum == spec_le16(s[off + 0x1E], s[off + 0x1F])
}

/// Relies on String::from_utf8_lossy: printable ASCII bytes decode to
/// the characters with the same code points, one each.
#[verifier::external_body]
fn ascii_bytes_to_string(b: &Vec<u8>) -> (r: String)
    requires
        forall|i: int| 0 <= i < b@.len() ==> title_keep(#[trigger] b@[i]),
    ensures
        r@ == b@.map_values(|c: u8| c as char),
{
    String::from_utf8_lossy(b).into_owned()
}

fn parse_region(byte: u8) -> (r: Region)
    ensures
        r == spec_region(byte),
{
    match byte {
        0x00 => Region::Japan,
        0x01 => Region::USA,
        0x02 => Region::Europe,
        0x03 => Region::Sweden,
        0x04 => Region::Finland,
        0x05 => Region::Denmark,
        0x06 => Region::France,
        0x07 => Region::Netherlands,
        0x08 => Region::Spain,
        0x09 => Region::Germany,
        0x0A => Region::Italy,
        0x0B => Region::China,
        0x0C => Region::Indonesia,
        0x0D => Region::Korea,
        _ => Region::Unknown,
    }
}

fn parse_coprocessor(byte: u8) -> (r: CoprocessorType)
    ensures
        r == spec_coprocessor(byte),
{
    match byte {
        0x00 => CoprocessorType::NoChip,
        0x01 => CoprocessorType::DSP1,
        0x02 => CoprocessorType::DSP2,
        0x03 => CoprocessorType::DSP3,
        0x04 => CoprocessorType::DSP4,
        0x05 => CoprocessorType::CX4,
        0x34 => CoprocessorType::SA1,
        0x35 => CoprocessorType::SuperFX,
        0x3A => CoprocessorType::SuperFX2,
        0x43 => CoprocessorType::SDD1,
        0x45 => CoprocessorType::RTC,
        0x25 => CoprocessorType::OBC1,
        _ => CoprocessorType::Unknown,
    }
}

fn size_bytes(byte: u8) -> (r: u64)
    ensures
        r == spec_size_bytes(byte),
{
    if byte <= 43 {
        1024u64 << byte
    } else {
        0
    }
}

/// Checks whether a plausible header sits at `off` in the ROM image.
fn is_valid_header_at(rom_data: &[u8], off: usize) -> (r: bool)
    requires
        off + 0x30 < usize::MAX,
    ensures
        r == spec_valid_header_at(rom_data@, off as int),
{
    if rom_data.len() <= off + 0x30 {
        return false;
    }
    if rom_data[off + 0x17] > 16 {
        return false;
    }
    if rom_data[off + 0x18] > 8 {
        return false;
    }
    let mut count: u32 = 0;
    let mut i: usize = 0;
    while i < 0x15
        invariant
            0 <= i <= 0x15,
            count == count_printable_win(rom_data@, off as int, i as int),
            count <= i,
            off + 0x30 < rom_data.len(),
        decreases 0x15 - i,
    {
        let b = rom_data[off + i];
        if (0x20 <= b && b <= 0x7E) || b == 0 {
            count = count + 1;
        }
        i = i + 1;
    }
    count >= 15
}

impl CartridgeHeader {
    /// Finds the header in a ROM image, or reports that none fits.
    pub fn detect_header_offset(rom_data: &[u8]) -> (r: Result<usize, EmulatorError>)
        ensures
            r matches Ok(off) ==> spec_detect_header_offset(rom_data@) == Some(off as int),
            r is Err ==> spec_detect_header_offset(rom_data@) is None,
    {
        let base: usize = if rom_data.len() % 1024 == 512 {
            512
        } else {
            0
        };
        let lorom_offset = base + 0x7FC0;
        let hirom_offset = base + 0xFFC0;
        let lorom_valid = is_valid_header_at(rom_data, lorom_offset);
        let hirom_valid = is_valid_header_at(rom_data, hirom_offset);
        if lorom_valid && hirom_valid {
            let hirom_mapper = rom_data[hirom_offset + 0x15];
            if (hirom_mapper & 0x01) == 0x01 || hirom_mapper == 0x21 || hirom_mapper == 0x31 {
                return Ok(hirom_offset);
            } else {
                return Ok(lorom_offset);
            }
        } else if hirom_valid {
            return Ok(hirom_offset);
        } else if lorom_valid {
            return Ok(lorom_offset);
        }
        let exlorom_offset = base + 0x40FFB0;
        if is_valid_header_at(rom_data, exlorom_offset) {
            return Ok(exlorom_offset);
        }
        if rom_data.len() > lorom_offset + 0x30 {
            Ok(lorom_offset)
        } else {
            Err(EmulatorError::invalid_rom(String::new()))
        }
    }

    /// Parses the cartridge header out of a ROM image. Succeeds exactly
    /// when a header location can be settled on; every decoded field is
    /// pinned to the bytes at that location.
    pub fn parse(rom_data: &[u8]) -> (r: Result<CartridgeHeader, EmulatorError>)
        ensures
            (r is Ok) == (spec_detect_header_offset(rom_data@) is Some),
            r matches Ok(h) ==> header_matches_at(
                h,
                rom_data@,
                spec_detect_header_offset(rom_data@)->0,
            ),
    {
        let header_offset = match Self::detect_header_offset(rom_data) {
            Ok(off) => off,
            Err(e) => {
                return Err(e);
            },
        };
        // Every branch of the detection leaves at least 0x30 bytes of
        // header inside the image.
        let rom_len = rom_data.len();
        assert(rom_len > header_offset + 0x30);

        // Title: keep the printable bytes of the 21-byte window, then
        // strip blanks from both ends.
        let mut kept: Vec<u8> = Vec::new();
        let mut i: usize = 0;
        while i < 0x15
            invariant
                0 <= i <= 0x15,
                header_offset + 0x30 < rom_len <= usize::MAX,
                rom_len == rom_data@.len(),
                kept@ == kept_title_win(rom_data@, header_offset as int, i as int),
                forall|j: int| 0 <= j < kept@.len() ==> title_keep(#[trigger] kept@[j]),
            decreases 0x15 - i,
        {
            let b = rom_data[header_offset + i];
            if 0x20 <= b && b <= 0x7E {
                kept.push(b);
            }
            i = i + 1;
        }
        while kept.len() > 0 && kept[kept.len() - 1] == 0x20
            invariant
                trim_trailing(kept@) == trim_trailing(
                    kept_title_win(rom_data@, header_offset as int, 0x15),
                ),
                forall|j: int| 0 <= j < kept@.len() ==> title_keep(#[trigger] kept@[j]),
            decreases kept@.len(),
        {
            kept.pop();
        }
        assert(kept@ == trim_trailing(kept_title_win(rom_data@, header_offset as int, 0x15)));
        let ghost after_tail = kept@;
        while kept.len() > 0 && kept[0] == 0x20
            invariant
                trim_leading(kept@) == trim_leading(after_tail),
                forall|j: int| 0 <= j < kept@.len() ==> title_keep(#[trigger] kept@[j]),
            decreases kept@.len(),
        {
            kept.remove(0);
        }
        assert(kept@ == trim_leading(trim_trailing(kept_title_win(
            rom_data@,
            header_offset as int,
            0x15,
        ))));
        let title = ascii_bytes_to_string(&kept);

        let mapper_byte = rom_data[header_offset + 0x15];
        let mapper_type = MapperType::from_header_byte(mapper_byte);
        let coprocessor = parse_coprocessor(rom_data[header_offset + 0x16]);
        let rom_size = size_bytes(rom_data[header_offset + 0x17]);
        let sram_size_byte = rom_data[header_offset + 0x18];
        let sram_size = if sram_size_byte == 0 {
            0
        } else {
            size_bytes(sram_size_byte)
        };
        let region = parse_region(rom_data[header_offset + 0x19]);
        let version = rom_data[header_offset + 0x1B];
        let complement = (rom_data[header_offset + 0x1C] as u16) | ((rom_data[header_offset
            + 0x1D] as u16) << 8);
        let checksum = (rom_data[header_offset + 0x1E] as u16) | ((rom_data[header_offset
            + 0x1F] as u16) << 8);

        Ok(
            CartridgeHeader {
                title,
                mapper_type,
                rom_size,
                sram_size,
                region,
                version,
                checksum,
                complement,
                coprocessor,
            },
        )
    }
}

} // verus!
