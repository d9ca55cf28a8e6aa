use vstd::prelude::*;
use crate::cartridge::loader::zero_bytes;
use crate::memory::bus::Bus;
use crate::ppu::backgrounds::BackgroundRenderer;
use crate::ppu::memory::{Cgram, Oam, Vram};
use crate::ppu::mode7::Mode7Renderer;
use crate::ppu::registers::PpuRegisters;
use crate::ppu::scrolling::ScrollingEngine;
use crate::ppu::sprites::SpriteRenderer;
use crate::savestate::PpuState;

verus! {

pub const DOTS_PER_SCANLINE: u32 = 341;
pub const SCANLINES_PER_FRAME: u16 = 262;
pub const VBLANK_START_SCANLINE: u16 = 225;

/// The picture unit: registers, its three memories, the per-layer
/// renderers, and the dot/scanline/frame counters that define video
/// timing. Pixel output is conventional transform work; the timing
/// counters, interrupt flags and register ports carry exact contracts.
pub struct Ppu {
    pub registers: PpuRegisters,
    pub bg_renderer: BackgroundRenderer,
    pub sprite_renderer: SpriteRenderer,
    pub scrolling: ScrollingEngine,
    pub mode7: Mode7Renderer,
    pub vram: Vram,
    pub cgram: Cgram,
    pub oam: Oam,
    pub dot: u32,
    pub scanline: u16,
    pub frame: u64,
    pub frame_buffer: Vec<u8>,
    pub nmi_pending: bool,
    pub irq_pending: bool,
    pub h_counter: u16,
    pub v_counter: u16,
    pub latch_h: bool,
    pub latch_v: bool,
    pub vram_latch: u8,
    pub vram_first_write: bool,
    pub scanline_buffer: Vec<u8>,
}

/// The dot counter after one tick: wraps at the end of the scanline.
pub open spec fn spec_tick_dot(dot: u32) -> u32 {
    if dot.wrapping_add(1) >= DOTS_PER_SCANLINE {
        0
    } else {
        dot.wrapping_add(1)
    }
}

/// The scanline after one tick: steps at the end of a line, wrapping
/// at the end of the frame.
pub open spec fn spec_tick_scanline(dot: u32, scanline: u16) -> u16 {
    if dot.wrapping_add(1) >= DOTS_PER_SCANLINE {
        if scanline.wrapping_add(1) >= SCANLINES_PER_FRAME {
            0
        } else {
            scanline.wrapping_add(1)
        }
    } else {
        scanline
    }
}

/// The frame counter after one tick: steps when the last scanline ends.
pub open spec fn spec_tick_frame(dot: u32, scanline: u16, frame: u64) -> u64 {
    if dot.wrapping_add(1) >= DOTS_PER_SCANLINE && scanline.wrapping_add(1)
        >= SCANLINES_PER_FRAME {
        frame.wrapping_add(1)
    } else {
        frame
    }
}

/// The timing counters after `n` dots.
pub open spec fn spec_ppu_ticks(dot: u32, scanline: u16, frame: u64, n: nat) -> (u32, u16, u64)
    decreases n,
{
    if n == 0 {
        (dot, scanline, frame)
    } else {
        let prev = spec_ppu_ticks(dot, scanline, frame, (n - 1) as nat);
        (
            spec_tick_dot(prev.0),
            spec_tick_scanline(prev.0, prev.1),
            spec_tick_frame(prev.0, prev.1, prev.2),
        )
    }
}

/// Whether this tick crosses into the vertical blanking region.
pub open spec fn spec_enters_vblank(dot: u32, scanline: u16) -> bool {
    dot.wrapping_add(1) >= DOTS_PER_SCANLINE && scanline.wrapping_add(1) == VBLANK_START_SCANLINE
}

/// The word-address increment the video-port control byte selects.
pub open spec fn spec_vram_increment(vmain: u8) -> u16 {
    let mode = vmain & 0x03;
    if mode == 0 {
        1
    } else if mode == 1 {
        32
    } else {
        128
    }
}

impl Ppu {
    /// Everything outside the render path agrees between two states.
    pub open spec fn only_render_changed(a: Ppu, b: Ppu) -> bool {
        &&& a.registers == b.registers
        &&& a.vram == b.vram
        &&& a.cgram == b.cgram
        &&& a.oam == b.oam
        &&& a.mode7 == b.mode7
        &&& a.scrolling == b.scrolling
        &&& a.dot == b.dot
        &&& a.scanline == b.scanline
        &&& a.frame == b.frame
        &&& a.nmi_pending == b.nmi_pending
        &&& a.irq_pending == b.irq_pending
        &&& a.h_counter == b.h_counter
        &&& a.v_counter == b.v_counter
        &&& a.latch_h == b.latch_h
        &&& a.latch_v == b.latch_v
        &&& a.vram_first_write == b.vram_first_write
        &&& a.vram_latch == b.vram_latch
    }

    pub open spec fn wf(self) -> bool {
        &&& self.vram.wf()
        &&& self.cgram.wf()
        &&& self.oam.wf()
        &&& self.bg_renderer.wf()
        &&& self.sprite_renderer.wf()
        &&& self.frame_buffer@.len() == 256 * 224 * 4
        &&& self.scanline_buffer@.len() == 1024
    }

    pub fn new() -> (r: Self)
        ensures
            r.wf(),
            r.registers == PpuRegisters::power_on(),
            r.dot == 0 && r.scanline == 0 && r.frame == 0,
            !r.nmi_pending && !r.irq_pending,
            r.vram_first_write,
    {
        Self {
            registers: PpuRegisters::new(),
            bg_renderer: BackgroundRenderer::new(),
            sprite_renderer: SpriteRenderer::new(),
            scrolling: ScrollingEngine::new(),
            mode7: Mode7Renderer::new(),
            vram: Vram::new(),
            cgram: Cgram::new(),
            oam: Oam::new(),
            dot: 0,
            scanline: 0,
            frame: 0,
            frame_buffer: zero_bytes(256 * 224 * 4),
            nmi_pending: false,
            irq_pending: false,
            h_counter: 0,
            v_counter: 0,
            latch_h: false,
            latch_v: false,
            vram_latch: 0,
            vram_first_write: true,
            scanline_buffer: zero_bytes(1024),
        }
    }

    /// Returns every counter, flag and memory to its power-on state;
    /// the frame buffer clears to opaque black.
    pub fn reset(&mut self)
        requires
            old(self).wf(),
        ensures
            final(self).wf(),
            final(self).registers == PpuRegisters::power_on(),
            final(self).dot == 0 && final(self).scanline == 0 && final(self).frame == 0,
            !final(self).nmi_pending && !final(self).irq_pending,
            final(self).h_counter == 0 && final(self).v_counter == 0,
            !final(self).latch_h && !final(self).latch_v,
            final(self).vram_first_write,
            final(self).vram@ == Seq::new(0x10000, |i: int| 0u8),
            final(self).cgram@ == Seq::new(0x200, |i: int| 0u8),
            final(self).oam@.low == Seq::new(512, |i: int| 0u8),
            final(self).oam@.high == Seq::new(32, |i: int| 0u8),
    {
        self.registers = PpuRegisters::new();
        self.vram.reset();
        self.cgram.reset();
        self.oam.reset();
        self.dot = 0;
        self.scanline = 0;
        self.frame = 0;
        self.nmi_pending = false;
        self.irq_pending = false;
        self.h_counter = 0;
        self.v_counter = 0;
        self.latch_h = false;
        self.latch_v = false;
        self.vram_latch = 0;
        self.vram_first_write = true;
        let mut fb: Vec<u8> = Vec::new();
        let mut i: usize = 0;
        while i < 256 * 224
            invariant
                i <= 256 * 224,
                fb@.len() == i * 4,
            decreases 256 * 224 - i,
        {
            fb.push(0);
            fb.push(0);
            fb.push(0);
            fb.push(255);
            i = i + 1;
        }
        self.frame_buffer = fb;
    }

    /// Advances video timing by one dot. At the end of a visible
    /// scanline the line renders; crossing into vertical blank raises
    /// the non-maskable interrupt flag unless the screen is blanked.
    /// Registers, memories and the maskable flag are untouched.
    pub fn step(&mut self, bus: &mut Bus)
        requires
            old(self).wf(),
        ensures
            final(self).wf(),
            final(self).dot == spec_tick_dot(old(self).dot),
            final(self).scanline == spec_tick_scanline(old(self).dot, old(self).scanline),
            final(self).frame == spec_tick_frame(old(self).dot, old(self).scanline, old(
                self).frame),
            final(self).h_counter == old(self).dot.wrapping_add(1) as u16,
            final(self).v_counter == old(self).scanline,
            final(self).nmi_pending == (if spec_enters_vblank(old(self).dot, old(self).scanline)
                && !old(self).registers.spec_screen_blanked() {
                true
            } else {
                old(self).nmi_pending
            }),
            final(self).irq_pending == old(self).irq_pending,
            final(self).registers == old(self).registers,
            final(self).vram == old(self).vram,
            final(self).cgram == old(self).cgram,
            final(self).oam == old(self).oam,
            final(self).mode7 == old(self).mode7,
            final(self).scrolling == old(self).scrolling,
            final(self).vram_first_write == old(self).vram_first_write,
            final(self).vram_latch == old(self).vram_latch,
            final(self).latch_h == old(self).latch_h,
            final(self).latch_v == old(self).latch_v,
            *final(bus) == *old(bus),
    {
        self.dot = self.dot.wrapping_add(1);
        self.h_counter = self.dot as u16;
        self.v_counter = self.scanline;
        if self.dot >= DOTS_PER_SCANLINE {
            self.dot = 0;
            self.scanline = self.scanline.wrapping_add(1);
            if self.scanline < VBLANK_START_SCANLINE {
                self.render_scanline();
            }
            if self.scanline == VBLANK_START_SCANLINE {
                if !self.registers.is_screen_blanked() {
                    self.nmi_pending = true;
                }
            }
            if self.scanline >= SCANLINES_PER_FRAME {
                self.scanline = 0;
                self.frame = self.frame.wrapping_add(1);
            }
        }
    }

    /// Draws one visible scanline into the frame buffer: the mode's
    /// background layers (the rotation layer in its mode), sprites on
    /// top when enabled, then the master brightness scales the line
    /// into the frame buffer. Counters, registers and memories are
    /// untouched; only the line and layer buffers change.
    fn render_scanline(&mut self)
        requires
            old(self).wf(),
        ensures
            final(self).wf(),
            final(self).registers == old(self).registers,
            final(self).vram == old(self).vram,
            final(self).cgram == old(self).cgram,
            final(self).oam == old(self).oam,
            final(self).mode7 == old(self).mode7,
            final(self).scrolling == old(self).scrolling,
            final(self).dot == old(self).dot,
            final(self).scanline == old(self).scanline,
            final(self).frame == old(self).frame,
            final(self).nmi_pending == old(self).nmi_pending,
            final(self).irq_pending == old(self).irq_pending,
            final(self).h_counter == old(self).h_counter,
            final(self).v_counter == old(self).v_counter,
            final(self).latch_h == old(self).latch_h,
            final(self).latch_v == old(self).latch_v,
            final(self).vram_first_write == old(self).vram_first_write,
            final(self).vram_latch == old(self).vram_latch,
    {
        if self.registers.is_screen_blanked() {
            return ;
        }
        if self.scanline >= 224 {
            return ;
        }
        let y = self.scanline as usize;
        let bg_mode = self.registers.get_bg_mode();
        if bg_mode == 7 {
            if self.scanline <= 261 {
                self.mode7.render_scanline(
                    &self.vram,
                    &self.cgram,
                    &self.registers,
                    self.scanline,
                    self.scanline_buffer.as_mut_slice(),
                );
                if self.registers.setini & 0x40 != 0 {
                    let mut extbg_buffer = zero_bytes(1024);
                    self.mode7.render_extbg_scanline(
                        &self.vram,
                        &self.cgram,
                        &self.registers,
                        self.scanline,
                        extbg_buffer.as_mut_slice(),
                    );
                    let mut x: usize = 0;
                    while x < 256
                        invariant
                            x <= 256,
                            extbg_buffer@.len() == 1024,
                            self.wf(),
                            Ppu::only_render_changed(*self, *old(self)),
                            self.bg_renderer == old(self).bg_renderer,
                            self.sprite_renderer == old(self).sprite_renderer,
                        decreases 256 - x,
                    {
                        let offset = x * 4;
                        if extbg_buffer[offset + 3] != 0 {
                            self.scanline_buffer[offset] = extbg_buffer[offset];
                            self.scanline_buffer[offset + 1] = extbg_buffer[offset + 1];
                            self.scanline_buffer[offset + 2] = extbg_buffer[offset + 2];
                            self.scanline_buffer[offset + 3] = extbg_buffer[offset + 3];
                        }
                        x = x + 1;
                    }
                }
            }
        } else {
            let _ = self.bg_renderer.render_scanline(
                &self.vram,
                &self.cgram,
                &self.registers,
                self.scanline,
            );
            copy_line(&mut self.scanline_buffer, self.bg_renderer.bg1_buffer.as_slice());
        }
        proof {
            assert(self.sprite_renderer.wf());
            assert(self.scanline_buffer@.len() == 1024);
            assert(self.frame_buffer@.len() == 256 * 224 * 4);
        }
        let main_screen = self.registers.get_main_screen_layers();
        if (main_screen & 0x10) != 0 {
            self.sprite_renderer.render_scanline(
                &self.vram,
                &self.cgram,
                &self.oam,
                &self.registers,
                self.scanline,
                self.scanline_buffer.as_mut_slice(),
            );
        }
        // Scale the line by the master brightness (0..15, integer
        // arithmetic) and place it into the frame buffer row.
        let frame_offset = y * 256 * 4;
        let brightness = self.registers.get_brightness();
        proof {
            let ind = self.registers.inidisp;
            assert(ind & 0x0F <= 15) by (bit_vector);
        }
        let mut x: usize = 0;
        while x < 256
            invariant
                x <= 256,
                y < 224,
                frame_offset == y * 1024,
                brightness <= 15,
                self.wf(),
                Ppu::only_render_changed(*self, *old(self)),
            decreases 256 - x,
        {
            let src_offset = x * 4;
            let dst_offset = frame_offset + src_offset;
            self.frame_buffer[dst_offset] = scale_brightness(
                self.scanline_buffer[src_offset],
                brightness,
            );
            self.frame_buffer[dst_offset + 1] = scale_brightness(
                self.scanline_buffer[src_offset + 1],
                brightness,
            );
            self.frame_buffer[dst_offset + 2] = scale_brightness(
                self.scanline_buffer[src_offset + 2],
                brightness,
            );
            self.frame_buffer[dst_offset + 3] = self.scanline_buffer[src_offset + 3];
            x = x + 1;
        }
    }

    pub fn get_frame_buffer(&self) -> (r: &[u8])
        ensures
            r@ == self.frame_buffer@,
    {
        self.frame_buffer.as_slice()
    }

    /// Reads and clears the edge-triggered non-maskable interrupt flag.
    pub fn nmi_pending(&mut self) -> (r: bool)
        ensures
            r == old(self).nmi_pending,
            *final(self) == (Ppu { nmi_pending: false, ..*old(self) }),
    {
        if self.nmi_pending {
            self.nmi_pending = false;
            true
        } else {
            false
        }
    }

    /// Reads and clears the edge-triggered maskable interrupt flag.
    pub fn irq_pending(&mut self) -> (r: bool)
        ensures
            r == old(self).irq_pending,
            *final(self) == (Ppu { irq_pending: false, ..*old(self) }),
    {
        if self.irq_pending {
            self.irq_pending = false;
            true
        } else {
            false
        }
    }

    /// Reads a register port. The data ports step their addresses as
    /// the hardware's do: video data alternates bytes and steps by the
    /// port-control increment, palette data steps each byte, object
    /// data steps through the tables; the counter ports latch.
    pub fn read_register(&mut self, address: u16) -> (r: u8)
        requires
            old(self).wf(),
        ensures
            final(self).wf(),
            final(self).registers.vmain == old(self).registers.vmain,
            final(self).vram == old(self).vram,
            final(self).cgram == old(self).cgram,
            final(self).oam == old(self).oam,
            final(self).frame_buffer == old(self).frame_buffer,
            final(self).dot == old(self).dot,
            final(self).scanline == old(self).scanline,
            final(self).frame == old(self).frame,
            final(self).nmi_pending == old(self).nmi_pending,
            final(self).irq_pending == old(self).irq_pending,
            final(self).mode7 == old(self).mode7,
            final(self).scrolling == old(self).scrolling,
            final(self).bg_renderer == old(self).bg_renderer,
            final(self).sprite_renderer == old(self).sprite_renderer,
            final(self).scanline_buffer == old(self).scanline_buffer,
            address == 0x2139 ==> {
                let addr = old(self).registers.spec_vram_address();
                &&& r == (if old(self).vram_first_write {
                    old(self).vram@[addr as int]
                } else {
                    old(self).vram@[addr.wrapping_add(1) as int]
                })
                &&& final(self).vram_first_write == !old(self).vram_first_write
            },
            address == 0x213B ==> r == old(self).cgram@[old(self).registers.cgadd as int] && final(
                self).registers.cgadd == old(self).registers.cgadd.wrapping_add(1),
            address == 0x2138 ==> r == old(self).oam.spec_read(
                old(self).registers.spec_oam_address(),
            ),
            address == 0x2137 ==> r == old(self).registers.spec_read(address) && final(
                self).latch_h && final(self).latch_v,
            address == 0x213C ==> r == (if old(self).latch_h {
                (old(self).h_counter & 0xFF) as u8
            } else {
                0u8
            }),
            address == 0x213E ==> r == (if old(self).latch_v {
                (old(self).v_counter & 0xFF) as u8
            } else {
                0u8
            }),
    {
        if address == 0x2139 {
            let vram_addr = self.registers.get_vram_address();
            let value = if self.vram_first_write {
                self.vram.read(vram_addr)
            } else {
                self.vram.read(vram_addr.wrapping_add(1))
            };
            self.vram_first_write = !self.vram_first_write;
            if (!self.vram_first_write && (self.registers.vmain & 0x80) == 0) || (
            self.vram_first_write && (self.registers.vmain & 0x80) != 0) {
                self.auto_increment_vram();
            }
            value
        } else if address == 0x213B {
            let value = self.cgram.read(self.registers.cgadd);
            self.registers.cgadd = self.registers.cgadd.wrapping_add(1);
            value
        } else if address == 0x2138 {
            let oam_address = self.registers.get_oam_address();
            let value = self.oam.read(oam_address);
            let new_address = oam_address.wrapping_add(1) & 0x3FF;
            self.registers.oamaddl = (new_address & 0xFF) as u8;
            self.registers.oamaddh = ((new_address >> 8) & 0x01) as u8 | (self.registers.oamaddh
                & 0x80);
            value
        } else if address == 0x2137 {
            self.latch_h = true;
            self.latch_v = true;
            self.registers.read(address)
        } else if address == 0x213C {
            if self.latch_h {
                self.latch_h = false;
                (self.h_counter & 0xFF) as u8
            } else {
                0
            }
        } else if address == 0x213D {
            if self.latch_h {
                self.latch_h = false;
                ((self.h_counter >> 8) & 0x01) as u8
            } else {
                0
            }
        } else if address == 0x213E {
            if self.latch_v {
                self.latch_v = false;
                (self.v_counter & 0xFF) as u8
            } else {
                0
            }
        } else if address == 0x213F {
            if self.latch_v {
                self.latch_v = false;
                ((self.v_counter >> 8) & 0x01) as u8
            } else {
                0
            }
        } else {
            self.registers.read(address)
        }
    }

    /// Writes a register port: the byte lands in the register file,
    /// the scroll and rotation trackers follow it, and the four data
    /// ports forward into their memories with hardware address
    /// stepping.
    pub fn write_register(&mut self, address: u16, value: u8)
        requires
            old(self).wf(),
        ensures
            final(self).wf(),
            final(self).mode7 == old(self).mode7.spec_write(address, value),
            final(self).scrolling == old(self).scrolling.spec_write(address, value),
            address != 0x2118 && address != 0x2119 && address != 0x2122 && address != 0x2104
                ==> final(self).registers == old(self).registers.spec_write(address, value)
                && final(self).vram == old(self).vram && final(self).cgram == old(self).cgram
                && final(self).oam == old(self).oam,
            final(self).dot == old(self).dot && final(self).scanline == old(self).scanline,
            final(self).nmi_pending == old(self).nmi_pending,
            final(self).irq_pending == old(self).irq_pending,
            final(self).frame == old(self).frame,
            final(self).frame_buffer == old(self).frame_buffer,
            address == 0x2122 ==> final(self).cgram@ == old(self).cgram@.update(
                old(self).registers.spec_write(address, value).cgadd as int,
                value,
            ) && final(self).registers.cgadd == old(self).registers.spec_write(
                address,
                value,
            ).cgadd.wrapping_add(1),
    {
        self.registers.write(address, value);
        self.scrolling.write_register(address, value);
        self.mode7.write_register(address, value);
        if address == 0x2118 {
            self.write_vram_low(value);
        } else if address == 0x2119 {
            self.write_vram_high(value);
        } else if address == 0x2122 {
            self.write_cgram(value);
        } else if address == 0x2104 {
            self.write_oam(value);
        }
    }

    /// First write of a pair latches the byte; the second writes the
    /// full word low-byte-first and steps the address when configured
    /// for low-port stepping.
    fn write_vram_low(&mut self, value: u8)
        requires
            old(self).wf(),
        ensures
            final(self).wf(),
            final(self).cgram == old(self).cgram,
            final(self).oam == old(self).oam,
            final(self).registers.cgadd == old(self).registers.cgadd,
            final(self).mode7 == old(self).mode7,
            final(self).scrolling == old(self).scrolling,
            final(self).dot == old(self).dot && final(self).scanline == old(self).scanline,
            final(self).frame == old(self).frame,
            final(self).nmi_pending == old(self).nmi_pending && final(self).irq_pending == old(
                self).irq_pending,
            final(self).frame_buffer == old(self).frame_buffer,
            old(self).vram_first_write ==> final(self).vram == old(self).vram && final(
                self).vram_latch == value && !final(self).vram_first_write,
            !old(self).vram_first_write ==> final(self).vram@ == old(self).vram@.update(
                old(self).registers.spec_vram_address() as int,
                old(self).vram_latch,
            ).update(
                old(self).registers.spec_vram_address().wrapping_add(1) as int,
                value,
            ) && final(self).vram_first_write,
    {
        let address = self.registers.get_vram_address();
        if self.vram_first_write {
            self.vram_latch = value;
            self.vram_first_write = false;
        } else {
            proof {
                lemma_pack16(value, self.vram_latch);
            }
            self.vram.write16(address, ((value as u16) << 8) | self.vram_latch as u16);
            self.vram_first_write = true;
            if (self.registers.vmain & 0x80) == 0 {
                self.auto_increment_vram();
            }
        }
    }

    /// The high data port's counterpart: the latched byte becomes the
    /// high byte, and the address steps when configured for high-port
    /// stepping.
    fn write_vram_high(&mut self, value: u8)
        requires
            old(self).wf(),
        ensures
            final(self).wf(),
            final(self).cgram == old(self).cgram,
            final(self).oam == old(self).oam,
            final(self).registers.cgadd == old(self).registers.cgadd,
            final(self).mode7 == old(self).mode7,
            final(self).scrolling == old(self).scrolling,
            final(self).dot == old(self).dot && final(self).scanline == old(self).scanline,
            final(self).frame == old(self).frame,
            final(self).nmi_pending == old(self).nmi_pending && final(self).irq_pending == old(
                self).irq_pending,
            final(self).frame_buffer == old(self).frame_buffer,
            old(self).vram_first_write ==> final(self).vram == old(self).vram && final(
                self).vram_latch == value && !final(self).vram_first_write,
            !old(self).vram_first_write ==> final(self).vram@ == old(self).vram@.update(
                old(self).registers.spec_vram_address() as int,
                value,
            ).update(
                old(self).registers.spec_vram_address().wrapping_add(1) as int,
                old(self).vram_latch,
            ) && final(self).vram_first_write,
    {
        let address = self.registers.get_vram_address();
        if self.vram_first_write {
            self.vram_latch = value;
            self.vram_first_write = false;
        } else {
            proof {
                lemma_pack16(self.vram_latch, value);
            }
            self.vram.write16(address, ((self.vram_latch as u16) << 8) | value as u16);
            self.vram_first_write = true;
            if (self.registers.vmain & 0x80) != 0 {
                self.auto_increment_vram();
            }
        }
    }

    /// Steps the video address by the configured increment, inside the
    /// 15-bit word space.
    fn auto_increment_vram(&mut self)
        ensures
            final(self).registers == (PpuRegisters {
                vmaddl: ((old(self).registers.spec_vram_address().wrapping_add(
                    spec_vram_increment(old(self).registers.vmain),
                ) & 0x7FFF) & 0xFF) as u8,
                vmaddh: (((old(self).registers.spec_vram_address().wrapping_add(
                    spec_vram_increment(old(self).registers.vmain),
                ) & 0x7FFF) >> 8) & 0x7F) as u8,
                ..old(self).registers
            }),
            final(self).vram == old(self).vram,
            final(self).cgram == old(self).cgram,
            final(self).oam == old(self).oam,
            final(self).mode7 == old(self).mode7,
            final(self).scrolling == old(self).scrolling,
            final(self).vram_first_write == old(self).vram_first_write,
            final(self).vram_latch == old(self).vram_latch,
            final(self).dot == old(self).dot && final(self).scanline == old(self).scanline,
            final(self).frame == old(self).frame,
            final(self).nmi_pending == old(self).nmi_pending && final(self).irq_pending == old(
                self).irq_pending,
            final(self).frame_buffer == old(self).frame_buffer,
            final(self).h_counter == old(self).h_counter && final(self).v_counter == old(
                self).v_counter,
            final(self).latch_h == old(self).latch_h && final(self).latch_v == old(self).latch_v,
            final(self).scanline_buffer == old(self).scanline_buffer,
            final(self).bg_renderer == old(self).bg_renderer,
            final(self).sprite_renderer == old(self).sprite_renderer,
    {
        let increment: u16 = match self.registers.vmain & 0x03 {
            0 => 1,
            1 => 32,
            _ => 128,
        };
        proof {
            let vm = self.registers.vmain;
            assert(vm & 0x03 <= 3) by (bit_vector);
        }
        let new_address = self.registers.get_vram_address().wrapping_add(increment) & 0x7FFF;
        self.registers.set_vram_address(new_address);
    }

    /// Writes one palette byte at the palette address, which then
    /// steps.
    fn write_cgram(&mut self, value: u8)
        requires
            old(self).wf(),
        ensures
            final(self).wf(),
            final(self).cgram@ == old(self).cgram@.update(old(self).registers.cgadd as int, value),
            final(self).registers == (PpuRegisters {
                cgadd: old(self).registers.cgadd.wrapping_add(1),
                ..old(self).registers
            }),
            final(self).vram == old(self).vram,
            final(self).oam == old(self).oam,
            final(self).mode7 == old(self).mode7,
            final(self).scrolling == old(self).scrolling,
            final(self).dot == old(self).dot && final(self).scanline == old(self).scanline,
            final(self).frame == old(self).frame,
            final(self).nmi_pending == old(self).nmi_pending && final(self).irq_pending == old(
                self).irq_pending,
            final(self).frame_buffer == old(self).frame_buffer,
            final(self).vram_first_write == old(self).vram_first_write,
    {
        self.cgram.write(self.registers.cgadd, value);
        self.registers.cgadd = self.registers.cgadd.wrapping_add(1);
    }

    /// Writes one object byte at the object address, which then steps
    /// through the 10-bit table space.
    fn write_oam(&mut self, value: u8)
        requires
            old(self).wf(),
        ensures
            final(self).wf(),
            final(self).oam@ == old(self).oam.spec_write(
                old(self).registers.spec_oam_address(),
                value,
            ),
            final(self).vram == old(self).vram,
            final(self).cgram == old(self).cgram,
            final(self).registers.cgadd == old(self).registers.cgadd,
            final(self).mode7 == old(self).mode7,
            final(self).scrolling == old(self).scrolling,
            final(self).dot == old(self).dot && final(self).scanline == old(self).scanline,
            final(self).frame == old(self).frame,
            final(self).nmi_pending == old(self).nmi_pending && final(self).irq_pending == old(
                self).irq_pending,
            final(self).frame_buffer == old(self).frame_buffer,
            final(self).vram_first_write == old(self).vram_first_write,
    {
        let address = self.registers.get_oam_address();
        self.oam.write(address, value);
        let new_address = address.wrapping_add(1) & 0x3FF;
        self.registers.oamaddl = (new_address & 0xFF) as u8;
        self.registers.oamaddh = ((new_address >> 8) & 0x01) as u8 | (self.registers.oamaddh
            & 0x80);
    }

    pub fn get_current_scanline(&self) -> (r: u16)
        ensures
            r == self.scanline,
    {
        self.scanline
    }

    pub fn get_current_dot(&self) -> (r: u32)
        ensures
            r == self.dot,
    {
        self.dot
    }

    /// Whether the beam is inside the vertical blanking region.
    pub fn is_in_vblank(&self) -> (r: bool)
        ensures
            r == (self.scanline >= VBLANK_START_SCANLINE),
    {
        self.scanline >= VBLANK_START_SCANLINE
    }

    pub fn get_frame_count(&self) -> (r: u64)
        ensures
            r == self.frame,
    {
        self.frame
    }

    /// A serialisable snapshot of the picture unit.
    pub fn save_state(&self) -> (r: PpuState)
        requires
            self.wf(),
        ensures
            r.vram@ == self.vram@,
            r.cgram@ == self.cgram@,
            r.current_scanline == self.scanline,
            r.current_cycle == self.dot as u16,
            r.frame_count == self.frame,
            r.vblank == (self.scanline >= VBLANK_START_SCANLINE),
            !r.hblank,
            r.nmi_flag == self.nmi_pending,
            r.irq_flag == self.irq_pending,
            r.oam@.len() == 544,
            r.registers@.len() == 0x40,
    {
        let mut oam_data: Vec<u8> = Vec::new();
        let mut i: usize = 0;
        while i < 544
            invariant
                self.wf(),
                i <= 544,
                oam_data@.len() == i,
            decreases 544 - i,
        {
            oam_data.push(self.oam.read(i as u16));
            i = i + 1;
        }
        let mut registers = zero_bytes(0x40);
        registers[0x00] = self.registers.inidisp;
        registers[0x01] = self.registers.obsel;
        registers[0x02] = self.registers.oamaddl;
        registers[0x03] = self.registers.oamaddh;
        registers[0x05] = self.registers.bgmode;
        registers[0x06] = self.registers.mosaic;
        registers[0x07] = self.registers.bg1sc;
        registers[0x08] = self.registers.bg2sc;
        registers[0x09] = self.registers.bg3sc;
        registers[0x0A] = self.registers.bg4sc;
        registers[0x0B] = self.registers.bg12nba;
        registers[0x0C] = self.registers.bg34nba;
        registers[0x15] = self.registers.vmain;
        registers[0x16] = self.registers.vmaddl;
        registers[0x17] = self.registers.vmaddh;
        registers[0x22] = self.registers.cgadd;
        PpuState {
            registers,
            vram: slice_copy(self.vram.get_data()),
            cgram: slice_copy(self.cgram.get_data()),
            oam: oam_data,
            current_scanline: self.scanline,
            current_cycle: self.dot as u16,
            frame_count: self.frame,
            vblank: self.scanline >= VBLANK_START_SCANLINE,
            hblank: false,
            nmi_flag: self.nmi_pending,
            irq_flag: self.irq_pending,
        }
    }

    /// Restores the picture unit from a snapshot: memories reload when
    /// the snapshot carries them at their full sizes, and the timing
    /// counters and flags always reload.
    pub fn load_state(&mut self, state: &PpuState)
        requires
            old(self).wf(),
        ensures
            final(self).wf(),
            state.vram@.len() == 0x10000 ==> final(self).vram@ == state.vram@,
            state.cgram@.len() == 0x200 ==> final(self).cgram@ == state.cgram@,
            final(self).scanline == state.current_scanline,
            final(self).dot == state.current_cycle as u32,
            final(self).frame == state.frame_count,
            final(self).nmi_pending == state.nmi_flag,
            final(self).irq_pending == state.irq_flag,
    {
        if state.registers.len() >= 0x40 {
            self.registers.inidisp = state.registers[0x00];
            self.registers.obsel = state.registers[0x01];
            self.registers.oamaddl = state.registers[0x02];
            self.registers.oamaddh = state.registers[0x03];
            self.registers.bgmode = state.registers[0x05];
            self.registers.mosaic = state.registers[0x06];
            self.registers.bg1sc = state.registers[0x07];
            self.registers.bg2sc = state.registers[0x08];
            self.registers.bg3sc = state.registers[0x09];
            self.registers.bg4sc = state.registers[0x0A];
            self.registers.bg12nba = state.registers[0x0B];
            self.registers.bg34nba = state.registers[0x0C];
            self.registers.vmain = state.registers[0x15];
            self.registers.vmaddl = state.registers[0x16];
            self.registers.vmaddh = state.registers[0x17];
            self.registers.cgadd = state.registers[0x22];
        }
        if state.vram.len() == 0x10000 {
            let mut i: usize = 0;
            while i < 0x10000
                invariant
                    self.wf(),
                    state.vram@.len() == 0x10000,
                    i <= 0x10000,
                    forall|j: int| 0 <= j < i ==> self.vram@[j] == state.vram@[j],
                    self.cgram == old(self).cgram,
                    self.oam == old(self).oam,
                decreases 0x10000 - i,
            {
                self.vram.write(i as u16, state.vram[i]);
                i = i + 1;
            }
            proof {
                assert(self.vram@ =~= state.vram@);
            }
        }
        if state.cgram.len() == 0x200 {
            let mut i: usize = 0;
            while i < 0x200
                invariant
                    self.wf(),
                    state.cgram@.len() == 0x200,
                    i <= 0x200,
                    forall|j: int| 0 <= j < i ==> self.cgram@[j] == state.cgram@[j],
                    state.vram@.len() == 0x10000 ==> self.vram@ == state.vram@,
                    self.oam == old(self).oam,
                decreases 0x200 - i,
            {
                self.cgram.data[i] = state.cgram[i];
                i = i + 1;
            }
            proof {
                assert(self.cgram@ =~= state.cgram@);
            }
        }
        if state.oam.len() >= 512 {
            let mut i: usize = 0;
            while i < 512
                invariant
                    self.wf(),
                    state.oam@.len() >= 512,
                    i <= 512,
                    state.vram@.len() == 0x10000 ==> self.vram@ == state.vram@,
                    state.cgram@.len() == 0x200 ==> self.cgram@ == state.cgram@,
                decreases 512 - i,
            {
                self.oam.write(i as u16, state.oam[i]);
                i = i + 1;
            }
            if state.oam.len() >= 544 {
                let mut i: usize = 512;
                while i < 544
                    invariant
                        self.wf(),
                        state.oam@.len() >= 544,
                        512 <= i <= 544,
                        state.vram@.len() == 0x10000 ==> self.vram@ == state.vram@,
                        state.cgram@.len() == 0x200 ==> self.cgram@ == state.cgram@,
                    decreases 544 - i,
                {
                    self.oam.write(i as u16, state.oam[i]);
                    i = i + 1;
                }
            }
        }
        self.scanline = state.current_scanline;
        self.dot = state.current_cycle as u32;
        self.frame = state.frame_count;
        self.nmi_pending = state.nmi_flag;
        self.irq_pending = state.irq_flag;
    }

    pub fn get_vram(&self) -> (r: &[u8])
        ensures
            r@ == self.vram@,
    {
        self.vram.get_data()
    }

    pub fn get_cgram(&self) -> (r: &[u8])
        ensures
            r@ == self.cgram@,
    {
        self.cgram.get_data()
    }

    pub fn get_oam(&self) -> (r: &[u8])
        ensures
            r@ == self.oam@.low,
    {
        self.oam.get_data()
    }
}

/// Packing two bytes into a word and taking them back is lossless.
proof fn lemma_pack16(hi: u8, lo: u8)
    by (bit_vector)
    ensures
        (((((hi as u16) << 8) | (lo as u16)) & 0xFF) as u8) == lo,
        ((((hi as u16) << 8) | (lo as u16)) >> 8) as u8 == hi,
{
}

/// One channel scaled by the 4-bit master brightness.
pub open spec fn spec_scale_brightness(v: u8, brightness: u8) -> u8 {
    ((v as u32) * (brightness as u32) / 15) as u8
}

fn scale_brightness(v: u8, brightness: u8) -> (r: u8)
    requires
        brightness <= 15,
    ensures
        r == spec_scale_brightness(v, brightness),
{
    proof {
        lemma_brightness_bound(v, brightness);
    }
    ((v as u32) * (brightness as u32) / 15) as u8
}

/// A channel scaled by at most full brightness stays a byte.
proof fn lemma_brightness_bound(v: u8, brightness: u8)
    by (nonlinear_arith)
    requires
        brightness <= 15,
    ensures
        (v as int) * (brightness as int) / 15 <= 255,
        (v as int) * (brightness as int) <= 0xF00000,
{
}

/// Overwrites a scanline buffer with another line's bytes.
fn copy_line(dst: &mut Vec<u8>, src: &[u8])
    requires
        old(dst)@.len() == 1024,
        src@.len() == 1024,
    ensures
        final(dst)@ == src@,
{
    let mut i: usize = 0;
    while i < 1024
        invariant
            dst@.len() == 1024,
            src@.len() == 1024,
            i <= 1024,
            forall|j: int| 0 <= j < i ==> dst@[j] == src@[j],
        decreases 1024 - i,
    {
        dst[i] = src[i];
        i = i + 1;
    }
    proof {
        assert(dst@ =~= src@);
    }
}

/// A fresh copy of a byte slice.
fn slice_copy(s: &[u8]) -> (r: Vec<u8>)
    ensures
        r@ == s@,
{
    vstd::slice::slice_to_vec(s)
}

} // verus!
