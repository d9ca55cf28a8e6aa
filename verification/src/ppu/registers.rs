use vstd::prelude::*;

verus! {

/// The picture unit's register file: display control, background
/// configuration, scroll positions, video-memory ports, the rotation
/// matrix, windowing and colour math. Write-twice registers share one
/// latch toggle, as the hardware's do.
#[derive(Debug, Clone, Copy, PartialEq, Eq, Structural)]
pub struct PpuRegisters {
    pub inidisp: u8,
    pub obsel: u8,
    pub oamaddl: u8,
    pub oamaddh: u8,
    pub oamdata: u8,
    pub bgmode: u8,
    pub mosaic: u8,
    pub bg1sc: u8,
    pub bg2sc: u8,
    pub bg3sc: u8,
    pub bg4sc: u8,
    pub bg12nba: u8,
    pub bg34nba: u8,
    pub bg1hofs: u16,
    pub bg1vofs: u16,
    pub bg2hofs: u16,
    pub bg2vofs: u16,
    pub bg3hofs: u16,
    pub bg3vofs: u16,
    pub bg4hofs: u16,
    pub bg4vofs: u16,
    pub vmain: u8,
    pub vmaddl: u8,
    pub vmaddh: u8,
    pub vmdatal: u8,
    pub vmdatah: u8,
    pub m7sel: u8,
    pub m7a: i16,
    pub m7b: i16,
    pub m7c: i16,
    pub m7d: i16,
    pub m7x: i16,
    pub m7y: i16,
    pub cgadd: u8,
    pub cgdata: u8,
    pub w12sel: u8,
    pub w34sel: u8,
    pub wobjsel: u8,
    pub wh0: u8,
    pub wh1: u8,
    pub wh2: u8,
    pub wh3: u8,
    pub wbglog: u8,
    pub wobjlog: u8,
    pub tm: u8,
    pub ts: u8,
    pub tmw: u8,
    pub tsw: u8,
    pub cgwsel: u8,
    pub cgadsub: u8,
    pub coldata: u8,
    pub setini: u8,
    pub ppu1_latch: bool,
    pub ppu2_latch: bool,
    pub cgram_latch: bool,
    pub cgram_data_latch: u8,
}

impl PpuRegisters {
    /// Power-on state: the screen starts force-blanked.
    pub open spec fn power_on() -> PpuRegisters {
        PpuRegisters {
            inidisp: 0x80,
            obsel: 0,
            oamaddl: 0,
            oamaddh: 0,
            oamdata: 0,
            bgmode: 0,
            mosaic: 0,
            bg1sc: 0,
            bg2sc: 0,
            bg3sc: 0,
            bg4sc: 0,
            bg12nba: 0,
            bg34nba: 0,
            bg1hofs: 0,
            bg1vofs: 0,
            bg2hofs: 0,
            bg2vofs: 0,
            bg3hofs: 0,
            bg3vofs: 0,
            bg4hofs: 0,
            bg4vofs: 0,
            vmain: 0,
            vmaddl: 0,
            vmaddh: 0,
            vmdatal: 0,
            vmdatah: 0,
            m7sel: 0,
            m7a: 0,
            m7b: 0,
            m7c: 0,
            m7d: 0,
            m7x: 0,
            m7y: 0,
            cgadd: 0,
            cgdata: 0,
            w12sel: 0,
            w34sel: 0,
            wobjsel: 0,
            wh0: 0,
            wh1: 0,
            wh2: 0,
            wh3: 0,
            wbglog: 0,
            wobjlog: 0,
            tm: 0,
            ts: 0,
            tmw: 0,
            tsw: 0,
            cgwsel: 0,
            cgadsub: 0,
            coldata: 0,
            setini: 0,
            ppu1_latch: false,
            ppu2_latch: false,
            cgram_latch: false,
            cgram_data_latch: 0,
        }
    }

    /// What one register write does: which field the address names,
    /// which bits of it are writable, and how the write-twice pairs
    /// assemble their 16-bit values through the shared latch.
    pub open spec fn spec_write(self, address: u16, value: u8) -> PpuRegisters {
        if false {
            self
        } else if address == 0x2100 {
            PpuRegisters { inidisp: value, ..self }
        } else if address == 0x2101 {
            PpuRegisters { obsel: value, ..self }
        } else if address == 0x2102 {
            PpuRegisters { oamaddl: value, ..self }
        } else if address == 0x2103 {
            PpuRegisters { oamaddh: value & 0x81, ..self }
        } else if address == 0x2104 {
            PpuRegisters { oamdata: value, ..self }
        } else if address == 0x2105 {
            PpuRegisters { bgmode: value, ..self }
        } else if address == 0x2106 {
            PpuRegisters { mosaic: value, ..self }
        } else if address == 0x2107 {
            PpuRegisters { bg1sc: value, ..self }
        } else if address == 0x2108 {
            PpuRegisters { bg2sc: value, ..self }
        } else if address == 0x2109 {
            PpuRegisters { bg3sc: value, ..self }
        } else if address == 0x210A {
            PpuRegisters { bg4sc: value, ..self }
        } else if address == 0x210B {
            PpuRegisters { bg12nba: value, ..self }
        } else if address == 0x210C {
            PpuRegisters { bg34nba: value, ..self }
        } else if address == 0x210D {
            if self.ppu1_latch {
                PpuRegisters {
                    bg1hofs: ((value as u16) << 8) | (self.bg1hofs & 0xFF),
                    ppu1_latch: !self.ppu1_latch,
                    ..self
                }
            } else {
                PpuRegisters {
                    bg1hofs: (self.bg1hofs & 0xFF00) | (value as u16),
                    ppu1_latch: !self.ppu1_latch,
                    ..self
                }
            }
        } else if address == 0x210E {
            if self.ppu1_latch {
                PpuRegisters {
                    bg1vofs: ((value as u16) << 8) | (self.bg1vofs & 0xFF),
                    ppu1_latch: !self.ppu1_latch,
                    ..self
                }
            } else {
                PpuRegisters {
                    bg1vofs: (self.bg1vofs & 0xFF00) | (value as u16),
                    ppu1_latch: !self.ppu1_latch,
                    ..self
                }
            }
        } else if address == 0x210F {
            if self.ppu1_latch {
                PpuRegisters {
                    bg2hofs: ((value as u16) << 8) | (self.bg2hofs & 0xFF),
                    ppu1_latch: !self.ppu1_latch,
                    ..self
                }
            } else {
                PpuRegisters {
                    bg2hofs: (self.bg2hofs & 0xFF00) | (value as u16),
                    ppu1_latch: !self.ppu1_latch,
                    ..self
                }
            }
        } else if address == 0x2110 {
            if self.ppu1_latch {
                PpuRegisters {
                    bg2vofs: ((value as u16) << 8) | (self.bg2vofs & 0xFF),
                    ppu1_latch: !self.ppu1_latch,
                    ..self
                }
            } else {
                PpuRegisters {
                    bg2vofs: (self.bg2vofs & 0xFF00) | (value as u16),
                    ppu1_latch: !self.ppu1_latch,
                    ..self
                }
            }
        } else if address == 0x2111 {
            if self.ppu1_latch {
                PpuRegisters {
                    bg3hofs: ((value as u16) << 8) | (self.bg3hofs & 0xFF),
                    ppu1_latch: !self.ppu1_latch,
                    ..self
                }
            } else {
                PpuRegisters {
                    bg3hofs: (self.bg3hofs & 0xFF00) | (value as u16),
                    ppu1_latch: !self.ppu1_latch,
                    ..self
                }
            }
        } else if address == 0x2112 {
            if self.ppu1_latch {
                PpuRegisters {
                    bg3vofs: ((value as u16) << 8) | (self.bg3vofs & 0xFF),
                    ppu1_latch: !self.ppu1_latch,
                    ..self
                }
            } else {
                PpuRegisters {
                    bg3vofs: (self.bg3vofs & 0xFF00) | (value as u16),
                    ppu1_latch: !self.ppu1_latch,
                    ..self
                }
            }
        } else if address == 0x2113 {
            if self.ppu1_latch {
                PpuRegisters {
                    bg4hofs: ((value as u16) << 8) | (self.bg4hofs & 0xFF),
                    ppu1_latch: !self.ppu1_latch,
                    ..self
                }
            } else {
                PpuRegisters {
                    bg4hofs: (self.bg4hofs & 0xFF00) | (value as u16),
                    ppu1_latch: !self.ppu1_latch,
                    ..self
                }
            }
        } else if address == 0x2114 {
            if self.ppu1_latch {
                PpuRegisters {
                    bg4vofs: ((value as u16) << 8) | (self.bg4vofs & 0xFF),
                    ppu1_latch: !self.ppu1_latch,
                    ..self
                }
            } else {
                PpuRegisters {
                    bg4vofs: (self.bg4vofs & 0xFF00) | (value as u16),
                    ppu1_latch: !self.ppu1_latch,
                    ..self
                }
            }
        } else if address == 0x2115 {
            PpuRegisters { vmain: value, ..self }
        } else if address == 0x2116 {
            PpuRegisters { vmaddl: value, ..self }
        } else if address == 0x2117 {
            PpuRegisters { vmaddh: value & 0x7F, ..self }
        } else if address == 0x2118 {
            PpuRegisters { vmdatal: value, ..self }
        } else if address == 0x2119 {
            PpuRegisters { vmdatah: value, ..self }
        } else if address == 0x211A {
            PpuRegisters { m7sel: value, ..self }
        } else if address == 0x211B {
            if self.ppu1_latch {
                PpuRegisters {
                    m7a: (((value as u16) << 8) | (self.m7a as u16 & 0xFF)) as i16,
                    ppu1_latch: !self.ppu1_latch,
                    ..self
                }
            } else {
                PpuRegisters {
                    m7a: ((self.m7a as u16 & 0xFF00) | (value as u16)) as i16,
                    ppu1_latch: !self.ppu1_latch,
                    ..self
                }
            }
        } else if address == 0x211C {
            if self.ppu1_latch {
                PpuRegisters {
                    m7b: (((value as u16) << 8) | (self.m7b as u16 & 0xFF)) as i16,
                    ppu1_latch: !self.ppu1_latch,
                    ..self
                }
            } else {
                PpuRegisters {
                    m7b: ((self.m7b as u16 & 0xFF00) | (value as u16)) as i16,
                    ppu1_latch: !self.ppu1_latch,
                    ..self
                }
            }
        } else if address == 0x211D {
            if self.ppu1_latch {
                PpuRegisters {
                    m7c: (((value as u16) << 8) | (self.m7c as u16 & 0xFF)) as i16,
                    ppu1_latch: !self.ppu1_latch,
                    ..self
                }
            } else {
                PpuRegisters {
                    m7c: ((self.m7c as u16 & 0xFF00) | (value as u16)) as i16,
                    ppu1_latch: !self.ppu1_latch,
                    ..self
                }
            }
        } else if address == 0x211E {
            if self.ppu1_latch {
                PpuRegisters {
                    m7d: (((value as u16) << 8) | (self.m7d as u16 & 0xFF)) as i16,
                    ppu1_latch: !self.ppu1_latch,
                    ..self
                }
            } else {
                PpuRegisters {
                    m7d: ((self.m7d as u16 & 0xFF00) | (value as u16)) as i16,
                    ppu1_latch: !self.ppu1_latch,
                    ..self
                }
            }
        } else if address == 0x211F {
            if self.ppu1_latch {
                PpuRegisters {
                    m7x: (((value as u16) << 8) | (self.m7x as u16 & 0xFF)) as i16,
                    ppu1_latch: !self.ppu1_latch,
                    ..self
                }
            } else {
                PpuRegisters {
                    m7x: ((self.m7x as u16 & 0xFF00) | (value as u16)) as i16,
                    ppu1_latch: !self.ppu1_latch,
                    ..self
                }
            }
        } else if address == 0x2120 {
            if self.ppu1_latch {
                PpuRegisters {
                    m7y: (((value as u16) << 8) | (self.m7y as u16 & 0xFF)) as i16,
                    ppu1_latch: !self.ppu1_latch,
                    ..self
                }
            } else {
                PpuRegisters {
                    m7y: ((self.m7y as u16 & 0xFF00) | (value as u16)) as i16,
                    ppu1_latch: !self.ppu1_latch,
                    ..self
                }
            }
        } else if address == 0x2121 {
            PpuRegisters { cgadd: value, cgram_latch: false, ..self }
        } else if address == 0x2122 {
            PpuRegisters { cgdata: value, ..self }
        } else if address == 0x2123 {
            PpuRegisters { w12sel: value, ..self }
        } else if address == 0x2124 {
            PpuRegisters { w34sel: value, ..self }
        } else if address == 0x2125 {
            PpuRegisters { wobjsel: value, ..self }
        } else if address == 0x2126 {
            PpuRegisters { wh0: value, ..self }
        } else if address == 0x2127 {
            PpuRegisters { wh1: value, ..self }
        } else if address == 0x2128 {
            PpuRegisters { wh2: value, ..self }
        } else if address == 0x2129 {
            PpuRegisters { wh3: value, ..self }
        } else if address == 0x212A {
            PpuRegisters { wbglog: value, ..self }
        } else if address == 0x212B {
            PpuRegisters { wobjlog: value, ..self }
        } else if address == 0x212C {
            PpuRegisters { tm: value, ..self }
        } else if address == 0x212D {
            PpuRegisters { ts: value, ..self }
        } else if address == 0x212E {
            PpuRegisters { tmw: value, ..self }
        } else if address == 0x212F {
            PpuRegisters { tsw: value, ..self }
        } else if address == 0x2130 {
            PpuRegisters { cgwsel: value, ..self }
        } else if address == 0x2131 {
            PpuRegisters { cgadsub: value, ..self }
        } else if address == 0x2132 {
            PpuRegisters { coldata: value, ..self }
        } else if address == 0x2133 {
            PpuRegisters { setini: value, ..self }
        } else {
            self
        }
    }

    /// What reads of the readable registers return; all others read as
    /// open bus zero. The two identification ports answer constants.
    pub open spec fn spec_read(self, address: u16) -> u8 {
        if address == 0x213E {
            1
        } else if address == 0x213F {
            2
        } else {
            0
        }
    }

    pub fn new() -> (r: Self)
        ensures
            r == PpuRegisters::power_on(),
    {
        PpuRegisters {
            inidisp: 0x80,
            obsel: 0,
            oamaddl: 0,
            oamaddh: 0,
            oamdata: 0,
            bgmode: 0,
            mosaic: 0,
            bg1sc: 0,
            bg2sc: 0,
            bg3sc: 0,
            bg4sc: 0,
            bg12nba: 0,
            bg34nba: 0,
            bg1hofs: 0,
            bg1vofs: 0,
            bg2hofs: 0,
            bg2vofs: 0,
            bg3hofs: 0,
            bg3vofs: 0,
            bg4hofs: 0,
            bg4vofs: 0,
            vmain: 0,
            vmaddl: 0,
            vmaddh: 0,
            vmdatal: 0,
            vmdatah: 0,
            m7sel: 0,
            m7a: 0,
            m7b: 0,
            m7c: 0,
            m7d: 0,
            m7x: 0,
            m7y: 0,
            cgadd: 0,
            cgdata: 0,
            w12sel: 0,
            w34sel: 0,
            wobjsel: 0,
            wh0: 0,
            wh1: 0,
            wh2: 0,
            wh3: 0,
            wbglog: 0,
            wobjlog: 0,
            tm: 0,
            ts: 0,
            tmw: 0,
            tsw: 0,
            cgwsel: 0,
            cgadsub: 0,
            coldata: 0,
            setini: 0,
            ppu1_latch: false,
            ppu2_latch: false,
            cgram_latch: false,
            cgram_data_latch: 0,
        }
    }

    #[verifier::rlimit(100)]
    #[verifier::spinoff_prover]
    pub fn write(&mut self, address: u16, value: u8)
        ensures
            *final(self) == old(self).spec_write(address, value),
    {
        if false {
        } else if address == 0x2100 {
            self.inidisp = value;
        } else if address == 0x2101 {
            self.obsel = value;
        } else if address == 0x2102 {
            self.oamaddl = value;
        } else if address == 0x2103 {
            self.oamaddh = value & 0x81;
        } else if address == 0x2104 {
            self.oamdata = value;
        } else if address == 0x2105 {
            self.bgmode = value;
        } else if address == 0x2106 {
            self.mosaic = value;
        } else if address == 0x2107 {
            self.bg1sc = value;
        } else if address == 0x2108 {
            self.bg2sc = value;
        } else if address == 0x2109 {
            self.bg3sc = value;
        } else if address == 0x210A {
            self.bg4sc = value;
        } else if address == 0x210B {
            self.bg12nba = value;
        } else if address == 0x210C {
            self.bg34nba = value;
        } else if address == 0x210D {
            if self.ppu1_latch {
                self.bg1hofs = ((value as u16) << 8) | (self.bg1hofs & 0xFF);
            } else {
                self.bg1hofs = (self.bg1hofs & 0xFF00) | (value as u16);
            }
            self.ppu1_latch = !self.ppu1_latch;
        } else if address == 0x210E {
            if self.ppu1_latch {
                self.bg1vofs = ((value as u16) << 8) | (self.bg1vofs & 0xFF);
            } else {
                self.bg1vofs = (self.bg1vofs & 0xFF00) | (value as u16);
            }
            self.ppu1_latch = !self.ppu1_latch;
        } else if address == 0x210F {
            if self.ppu1_latch {
                self.bg2hofs = ((value as u16) << 8) | (self.bg2hofs & 0xFF);
            } else {
                self.bg2hofs = (self.bg2hofs & 0xFF00) | (value as u16);
            }
            self.ppu1_latch = !self.ppu1_latch;
        } else if address == 0x2110 {
            if self.ppu1_latch {
                self.bg2vofs = ((value as u16) << 8) | (self.bg2vofs & 0xFF);
            } else {
                self.bg2vofs = (self.bg2vofs & 0xFF00) | (value as u16);
            }
            self.ppu1_latch = !self.ppu1_latch;
        } else if address == 0x2111 {
            if self.ppu1_latch {
                self.bg3hofs = ((value as u16) << 8) | (self.bg3hofs & 0xFF);
            } else {
                self.bg3hofs = (self.bg3hofs & 0xFF00) | (value as u16);
            }
            self.ppu1_latch = !self.ppu1_latch;
        } else if address == 0x2112 {
            if self.ppu1_latch {
                self.bg3vofs = ((value as u16) << 8) | (self.bg3vofs & 0xFF);
            } else {
                self.bg3vofs = (self.bg3vofs & 0xFF00) | (value as u16);
            }
            self.ppu1_latch = !self.ppu1_latch;
        } else if address == 0x2113 {
            if self.ppu1_latch {
                self.bg4hofs = ((value as u16) << 8) | (self.bg4hofs & 0xFF);
            } else {
                self.bg4hofs = (self.bg4hofs & 0xFF00) | (value as u16);
            }
            self.ppu1_latch = !self.ppu1_latch;
        } else if address == 0x2114 {
            if self.ppu1_latch {
                self.bg4vofs = ((value as u16) << 8) | (self.bg4vofs & 0xFF);
            } else {
                self.bg4vofs = (self.bg4vofs & 0xFF00) | (value as u16);
            }
            self.ppu1_latch = !self.ppu1_latch;
        } else if address == 0x2115 {
            self.vmain = value;
        } else if address == 0x2116 {
            self.vmaddl = value;
        } else if address == 0x2117 {
            self.vmaddh = value & 0x7F;
        } else if address == 0x2118 {
            self.vmdatal = value;
        } else if address == 0x2119 {
            self.vmdatah = value;
        } else if address == 0x211A {
            self.m7sel = value;
        } else if address == 0x211B {
            if self.ppu1_latch {
                self.m7a = (((value as u16) << 8) | (self.m7a as u16 & 0xFF)) as i16;
            } else {
                self.m7a = ((self.m7a as u16 & 0xFF00) | (value as u16)) as i16;
            }
            self.ppu1_latch = !self.ppu1_latch;
        } else if address == 0x211C {
            if self.ppu1_latch {
                self.m7b = (((value as u16) << 8) | (self.m7b as u16 & 0xFF)) as i16;
            } else {
                self.m7b = ((self.m7b as u16 & 0xFF00) | (value as u16)) as i16;
            }
            self.ppu1_latch = !self.ppu1_latch;
        } else if address == 0x211D {
            if self.ppu1_latch {
                self.m7c = (((value as u16) << 8) | (self.m7c as u16 & 0xFF)) as i16;
            } else {
                self.m7c = ((self.m7c as u16 & 0xFF00) | (value as u16)) as i16;
            }
            self.ppu1_latch = !self.ppu1_latch;
        } else if address == 0x211E {
            if self.ppu1_latch {
                self.m7d = (((value as u16) << 8) | (self.m7d as u16 & 0xFF)) as i16;
            } else {
                self.m7d = ((self.m7d as u16 & 0xFF00) | (value as u16)) as i16;
            }
            self.ppu1_latch = !self.ppu1_latch;
        } else if address == 0x211F {
            if self.ppu1_latch {
                self.m7x = (((value as u16) << 8) | (self.m7x as u16 & 0xFF)) as i16;
            } else {
                self.m7x = ((self.m7x as u16 & 0xFF00) | (value as u16)) as i16;
            }
            self.ppu1_latch = !self.ppu1_latch;
        } else if address == 0x2120 {
            if self.ppu1_latch {
                self.m7y = (((value as u16) << 8) | (self.m7y as u16 & 0xFF)) as i16;
            } else {
                self.m7y = ((self.m7y as u16 & 0xFF00) | (value as u16)) as i16;
            }
            self.ppu1_latch = !self.ppu1_latch;
        } else if address == 0x2121 {
            self.cgadd = value;
            self.cgram_latch = false;
        } else if address == 0x2122 {
            self.cgdata = value;
        } else if address == 0x2123 {
            self.w12sel = value;
        } else if address == 0x2124 {
            self.w34sel = value;
        } else if address == 0x2125 {
            self.wobjsel = value;
        } else if address == 0x2126 {
            self.wh0 = value;
        } else if address == 0x2127 {
            self.wh1 = value;
        } else if address == 0x2128 {
            self.wh2 = value;
        } else if address == 0x2129 {
            self.wh3 = value;
        } else if address == 0x212A {
            self.wbglog = value;
        } else if address == 0x212B {
            self.wobjlog = value;
        } else if address == 0x212C {
            self.tm = value;
        } else if address == 0x212D {
            self.ts = value;
        } else if address == 0x212E {
            self.tmw = value;
        } else if address == 0x212F {
            self.tsw = value;
        } else if address == 0x2130 {
            self.cgwsel = value;
        } else if address == 0x2131 {
            self.cgadsub = value;
        } else if address == 0x2132 {
            self.coldata = value;
        } else if address == 0x2133 {
            self.setini = value;
        }
    }

    pub fn read(&self, address: u16) -> (r: u8)
        ensures
            r == self.spec_read(address),
    {
        if address == 0x213E {
            1
        } else if address == 0x213F {
            2
        } else {
            0
        }
    }

    /// Bit 7 of the display register force-blanks the screen.
    pub open spec fn spec_screen_blanked(self) -> bool {
        self.inidisp & 0x80 != 0
    }

    pub fn is_screen_blanked(&self) -> (r: bool)
        ensures
            r == self.spec_screen_blanked(),
    {
        (self.inidisp & 0x80) != 0
    }

    /// The 4-bit master brightness.
    pub fn get_brightness(&self) -> (r: u8)
        ensures
            r == self.inidisp & 0x0F,
    {
        self.inidisp & 0x0F
    }

    /// The background mode, 0 through 7.
    pub open spec fn spec_bg_mode(self) -> u8 {
        self.bgmode & 0x07
    }

    pub fn get_bg_mode(&self) -> (r: u8)
        ensures
            r == self.spec_bg_mode(),
    {
        self.bgmode & 0x07
    }

    /// Whether the named background uses 16x16 tiles.
    pub fn get_bg_character_size(&self, bg: u8) -> (r: bool)
        ensures
            bg == 1 ==> r == (self.bgmode & 0x10 != 0),
            bg == 2 ==> r == (self.bgmode & 0x20 != 0),
            bg == 3 ==> r == (self.bgmode & 0x40 != 0),
            bg == 4 ==> r == (self.bgmode & 0x80 != 0),
            (bg == 0 || bg > 4) ==> r == false,
    {
        match bg {
            1 => (self.bgmode & 0x10) != 0,
            2 => (self.bgmode & 0x20) != 0,
            3 => (self.bgmode & 0x40) != 0,
            4 => (self.bgmode & 0x80) != 0,
            _ => false,
        }
    }

    /// The video-memory word address held in the two address bytes.
    pub open spec fn spec_vram_address(self) -> u16 {
        ((self.vmaddh as u16) << 8) | (self.vmaddl as u16)
    }

    pub fn get_vram_address(&self) -> (r: u16)
        ensures
            r == self.spec_vram_address(),
    {
        ((self.vmaddh as u16) << 8) | (self.vmaddl as u16)
    }

    pub fn set_vram_address(&mut self, address: u16)
        ensures
            *final(self) == (PpuRegisters {
                vmaddl: (address & 0xFF) as u8,
                vmaddh: ((address >> 8) & 0x7F) as u8,
                ..*old(self)
            }),
    {
        self.vmaddl = (address & 0xFF) as u8;
        self.vmaddh = ((address >> 8) & 0x7F) as u8;
    }

    /// The object-memory address held in the two address bytes.
    pub open spec fn spec_oam_address(self) -> u16 {
        ((self.oamaddh as u16) << 8) | (self.oamaddl as u16)
    }

    pub fn get_oam_address(&self) -> (r: u16)
        ensures
            r == self.spec_oam_address(),
    {
        ((self.oamaddh as u16) << 8) | (self.oamaddl as u16)
    }

    pub fn get_main_screen_layers(&self) -> (r: u8)
        ensures
            r == self.tm,
    {
        self.tm
    }

    pub fn get_sub_screen_layers(&self) -> (r: u8)
        ensures
            r == self.ts,
    {
        self.ts
    }
}

} // verus!
