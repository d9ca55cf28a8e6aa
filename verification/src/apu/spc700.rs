use vstd::prelude::*;
use crate::cartridge::loader::zero_bytes;

verus! {

/// The 8-bit audio processor: registers, 64 KiB of audio RAM with the
/// boot ROM mapped over its top, four communication ports and three
/// timers.
pub struct Spc700 {
    pub a: u8,
    pub x: u8,
    pub y: u8,
    pub sp: u8,
    pub pc: u16,
    pub psw: u8,
    pub ram: Vec<u8>,
    pub ipl_rom_enable: bool,
    pub port_in: Vec<u8>,
    pub port_out: Vec<u8>,
    pub timer_enable: u8,
    pub timer_target: Vec<u8>,
    pub timer_counter: Vec<u8>,
    pub timer_output: Vec<u8>,
    pub cycles: u64,
}

/// Mathematical image of the audio processor.
pub struct SpcSnap {
    pub a: u8,
    pub x: u8,
    pub y: u8,
    pub sp: u8,
    pub pc: u16,
    pub psw: u8,
    pub ram: Seq<u8>,
    pub ipl_rom_enable: bool,
    pub port_in: Seq<u8>,
    pub port_out: Seq<u8>,
    pub timer_enable: u8,
    pub timer_target: Seq<u8>,
    pub timer_counter: Seq<u8>,
    pub timer_output: Seq<u8>,
    pub cycles: u64,
}

impl View for Spc700 {
    type V = SpcSnap;

    open spec fn view(&self) -> SpcSnap {
        SpcSnap {
            a: self.a,
            x: self.x,
            y: self.y,
            sp: self.sp,
            pc: self.pc,
            psw: self.psw,
            ram: self.ram@,
            ipl_rom_enable: self.ipl_rom_enable,
            port_in: self.port_in@,
            port_out: self.port_out@,
            timer_enable: self.timer_enable,
            timer_target: self.timer_target@,
            timer_counter: self.timer_counter@,
            timer_output: self.timer_output@,
            cycles: self.cycles,
        }
    }
}

impl SpcSnap {
    pub open spec fn wf(self) -> bool {
        &&& self.ram.len() == 0x10000
        &&& self.port_in.len() == 4
        &&& self.port_out.len() == 4
        &&& self.timer_target.len() == 3
        &&& self.timer_counter.len() == 3
        &&& self.timer_output.len() == 3
    }

    /// What a read returns: the input/output ports and timer registers
    /// are memory-mapped over page zero, everything else is RAM.
    pub open spec fn spec_read8(self, address: u16) -> u8 {
        if address == 0x00F0 {
            0
        } else if address == 0x00F1 {
            let v0: u8 = if self.ipl_rom_enable {
                0x80
            } else {
                0
            };
            (v0 | (self.timer_enable & 0x07))
        } else if address == 0x00F2 || address == 0x00F3 {
            0
        } else if 0x00F4 <= address <= 0x00F7 {
            self.port_out[address - 0x00F4]
        } else if 0x00FA <= address <= 0x00FC {
            self.timer_target[address - 0x00FA]
        } else if 0x00FD <= address <= 0x00FF {
            self.timer_output[address - 0x00FD]
        } else {
            self.ram[address as int]
        }
    }

    /// What a write leaves behind: the control register gates the boot
    /// ROM and clears timers, ports and RAM take bytes, timer outputs
    /// and the boot ROM region (while mapped) refuse writes.
    pub open spec fn spec_write8(self, address: u16, value: u8) -> SpcSnap {
        if address == 0x00F0 || address == 0x00F2 || address == 0x00F3 {
            self
        } else if address == 0x00F1 {
            let s1 = SpcSnap {
                ipl_rom_enable: value & 0x80 != 0,
                timer_enable: value & 0x07,
                ..self
            };
            let s2 = if value & 0x01 != 0 {
                SpcSnap {
                    timer_output: s1.timer_output.update(0, 0),
                    timer_counter: s1.timer_counter.update(0, 0),
                    ..s1
                }
            } else {
                s1
            };
            let s3 = if value & 0x02 != 0 {
                SpcSnap {
                    timer_output: s2.timer_output.update(1, 0),
                    timer_counter: s2.timer_counter.update(1, 0),
                    ..s2
                }
            } else {
                s2
            };
            if value & 0x04 != 0 {
                SpcSnap {
                    timer_output: s3.timer_output.update(2, 0),
                    timer_counter: s3.timer_counter.update(2, 0),
                    ..s3
                }
            } else {
                s3
            }
        } else if 0x00F4 <= address <= 0x00F7 {
            SpcSnap { port_in: self.port_in.update(address - 0x00F4, value), ..self }
        } else if 0x00FA <= address <= 0x00FC {
            SpcSnap { timer_target: self.timer_target.update(address - 0x00FA, value), ..self }
        } else if 0x00FD <= address <= 0x00FF {
            self
        } else if address >= 0xFFC0 {
            if !self.ipl_rom_enable {
                SpcSnap { ram: self.ram.update(address as int, value), ..self }
            } else {
                self
            }
        } else {
            SpcSnap { ram: self.ram.update(address as int, value), ..self }
        }
    }

    /// One tick of the three timers: the slow pair advances every 128
    /// cycles, the fast one every 16; a counter reaching its target
    /// wraps and steps its 4-bit output.
    pub open spec fn spec_tick_timer(self, idx: int) -> SpcSnap {
        let c = self.timer_counter[idx].wrapping_add(1);
        if c == self.timer_target[idx] {
            SpcSnap {
                timer_counter: self.timer_counter.update(idx, 0),
                timer_output: self.timer_output.update(
                    idx,
                    self.timer_output[idx].wrapping_add(1) & 0x0F,
                ),
                ..self
            }
        } else {
            SpcSnap { timer_counter: self.timer_counter.update(idx, c), ..self }
        }
    }

    pub open spec fn spec_update_timers(self) -> SpcSnap {
        let s1 = if self.timer_enable & 0x01 != 0 && self.cycles % 128 == 0 {
            self.spec_tick_timer(0)
        } else {
            self
        };
        let s2 = if s1.timer_enable & 0x02 != 0 && s1.cycles % 128 == 0 {
            s1.spec_tick_timer(1)
        } else {
            s1
        };
        if s2.timer_enable & 0x04 != 0 && s2.cycles % 16 == 0 {
            s2.spec_tick_timer(2)
        } else {
            s2
        }
    }
}

impl Spc700 {
    /// A freshly powered processor with the boot ROM in place and the
    /// program counter at its vector.
    pub fn new() -> (r: Self)
        ensures
            r@.wf(),
            r@.a == 0 && r@.x == 0 && r@.y == 0,
            r@.sp == 0xFF,
            r@.pc == 0xFFC0,
            r@.psw == 0x02,
            r@.ipl_rom_enable,
            r@.cycles == 0,
            forall|i: int| 0 <= i < 4 ==> r@.port_in[i] == 0 && r@.port_out[i] == 0,
    {
        let mut spc = Self {
            a: 0,
            x: 0,
            y: 0,
            sp: 0xFF,
            pc: 0xFFC0,
            psw: 0x02,
            ram: zero_bytes(0x10000),
            ipl_rom_enable: true,
            port_in: zero_bytes(4),
            port_out: zero_bytes(4),
            timer_enable: 0,
            timer_target: zero_bytes(3),
            timer_counter: zero_bytes(3),
            timer_output: zero_bytes(3),
            cycles: 0,
        };
        spc.load_ipl();
        spc
    }

    pub fn reset(&mut self)
        requires
            old(self)@.wf(),
        ensures
            final(self)@.wf(),
            final(self)@.a == 0 && final(self)@.x == 0 && final(self)@.y == 0,
            final(self)@.sp == 0xFF,
            final(self)@.pc == 0xFFC0,
            final(self)@.psw == 0x02,
            final(self)@.ipl_rom_enable,
            final(self)@.cycles == 0,
    {
        self.a = 0;
        self.x = 0;
        self.y = 0;
        self.sp = 0xFF;
        self.pc = 0xFFC0;
        self.psw = 0x02;
        self.ipl_rom_enable = true;
        self.port_in = zero_bytes(4);
        self.port_out = zero_bytes(4);
        self.timer_enable = 0;
        self.timer_target = zero_bytes(3);
        self.timer_counter = zero_bytes(3);
        self.timer_output = zero_bytes(3);
        self.load_ipl();
        self.cycles = 0;
    }

    /// Copies the boot loader into the top of RAM. It idles until the
    /// main processor uploads code through the ports.
    fn load_ipl(&mut self)
        requires
            old(self)@.wf(),
        ensures
            final(self)@.wf(),
            final(self)@ == (SpcSnap { ram: final(self)@.ram, ..old(self)@ }),
    {
        let ipl: [u8; 64] = [
            0xCD, 0xEF, 0xBD, 0xE8, 0x00, 0xC6, 0x1D, 0xD0, 0xFC, 0x8F, 0xAA, 0xF4, 0x8F, 0xBB,
            0xF5, 0x78, 0xCC, 0xF4, 0xD0, 0xFB, 0xE8, 0x00, 0xC4, 0xF4, 0xD4, 0xF5, 0x3E, 0xF4,
            0xD0, 0xFC, 0xE4, 0xF5, 0xCB, 0xF4, 0xEE, 0xEC, 0xF6, 0xEC, 0xF7, 0xD7, 0x00, 0xFC,
            0xD0, 0xF1, 0xAB, 0x01, 0x3E, 0xF4, 0xD0, 0xE9, 0x00, 0x00, 0x00, 0x00, 0x00, 0x00,
            0x00, 0x00, 0x00, 0x00, 0x00, 0x00, 0xC0, 0xFF,
        ];
        let mut i: usize = 0;
        while i < 64
            invariant
                old(self)@.wf(),
                self@.ram.len() == 0x10000,
                i <= 64,
                self@ == (SpcSnap { ram: self@.ram, ..old(self)@ }),
            decreases 64 - i,
        {
            self.ram[0xFFC0 + i] = ipl[i];
            i = i + 1;
        }
    }

    /// One memory-mapped read.
    pub fn read8(&self, address: u16) -> (r: u8)
        requires
            self@.wf(),
        ensures
            r == self@.spec_read8(address),
    {
        if address == 0x00F0 {
            0
        } else if address == 0x00F1 {
            let v0: u8 = if self.ipl_rom_enable {
                0x80
            } else {
                0
            };
            v0 | (self.timer_enable & 0x07)
        } else if address == 0x00F2 || address == 0x00F3 {
            0
        } else if 0x00F4 <= address && address <= 0x00F7 {
            self.port_out[(address - 0x00F4) as usize]
        } else if 0x00FA <= address && address <= 0x00FC {
            self.timer_target[(address - 0x00FA) as usize]
        } else if 0x00FD <= address && address <= 0x00FF {
            self.timer_output[(address - 0x00FD) as usize]
        } else {
            self.ram[address as usize]
        }
    }

    /// One memory-mapped write.
    pub fn write8(&mut self, address: u16, value: u8)
        requires
            old(self)@.wf(),
        ensures
            final(self)@.wf(),
            final(self)@ == old(self)@.spec_write8(address, value),
    {
        if address == 0x00F0 || address == 0x00F2 || address == 0x00F3 {
        } else if address == 0x00F1 {
            self.ipl_rom_enable = (value & 0x80) != 0;
            self.timer_enable = value & 0x07;
            if value & 0x01 != 0 {
                self.timer_output[0] = 0;
                self.timer_counter[0] = 0;
            }
            if value & 0x02 != 0 {
                self.timer_output[1] = 0;
                self.timer_counter[1] = 0;
            }
            if value & 0x04 != 0 {
                self.timer_output[2] = 0;
                self.timer_counter[2] = 0;
            }
        } else if 0x00F4 <= address && address <= 0x00F7 {
            self.port_in[(address - 0x00F4) as usize] = value;
        } else if 0x00FA <= address && address <= 0x00FC {
            self.timer_target[(address - 0x00FA) as usize] = value;
        } else if 0x00FD <= address && address <= 0x00FF {
        } else if address >= 0xFFC0 {
            if !self.ipl_rom_enable {
                self.ram[address as usize] = value;
            }
        } else {
            self.ram[address as usize] = value;
        }
    }

    /// Steps the timers once for the cycle count just reached.
    pub fn update_timers(&mut self)
        requires
            old(self)@.wf(),
        ensures
            final(self)@.wf(),
            final(self)@ == old(self)@.spec_update_timers(),
    {
        if self.timer_enable & 0x01 != 0 && self.cycles % 128 == 0 {
            self.tick_timer(0);
        }
        if self.timer_enable & 0x02 != 0 && self.cycles % 128 == 0 {
            self.tick_timer(1);
        }
        if self.timer_enable & 0x04 != 0 && self.cycles % 16 == 0 {
            self.tick_timer(2);
        }
    }

    fn tick_timer(&mut self, idx: usize)
        requires
            old(self)@.wf(),
            idx < 3,
        ensures
            final(self)@.wf(),
            final(self)@ == old(self)@.spec_tick_timer(idx as int),
    {
        let c = self.timer_counter[idx].wrapping_add(1);
        if c == self.timer_target[idx] {
            self.timer_counter[idx] = 0;
            self.timer_output[idx] = self.timer_output[idx].wrapping_add(1) & 0x0F;
        } else {
            self.timer_counter[idx] = c;
        }
    }

    /// A port byte as the main processor sees it.
    pub fn read_port(&self, port: usize) -> (r: u8)
        requires
            self@.wf(),
        ensures
            port < 4 ==> r == self@.port_in[port as int],
            port >= 4 ==> r == 0,
    {
        if port < 4 {
            self.port_in[port]
        } else {
            0
        }
    }

    /// A port byte written by the main processor.
    pub fn write_port(&mut self, port: usize, value: u8)
        requires
            old(self)@.wf(),
        ensures
            final(self)@.wf(),
            port < 4 ==> final(self)@ == (SpcSnap {
                port_out: old(self)@.port_out.update(port as int, value),
                ..old(self)@
            }),
            port >= 4 ==> final(self)@ == old(self)@,
    {
        if port < 4 {
            self.port_out[port] = value;
        }
    }

    /// Executes one instruction, then steps the timers.
    pub fn step(&mut self)
        requires
            old(self)@.wf(),
        ensures
            final(self)@.wf(),
            final(self)@ == crate::apu::spc700_instructions::spec_spc_step(
                old(self)@,
            ).spec_update_timers(),
    {
        self.execute_instruction();
        self.update_timers();
    }
}

} // verus!
