use vstd::prelude::*;
use crate::ppu::memory::{Cgram, Vram};
use crate::ppu::registers::PpuRegisters;

verus! {

/// The rotation/scaling background: a 2x2 fixed-point matrix, a pivot
/// point and scroll offsets, fed byte-by-byte through write-twice
/// registers, plus the scanline renderer that samples the 128x128
/// tile map under the affine transform.
pub struct Mode7Renderer {
    pub m7a: i16,
    pub m7b: i16,
    pub m7c: i16,
    pub m7d: i16,
    pub m7x: i16,
    pub m7y: i16,
    pub m7hofs: i16,
    pub m7vofs: i16,
    pub write_toggle: bool,
    pub prev_value: u8,
}

/// A 13-bit value sign-extended to 16 bits.
pub open spec fn sign_extend_13(value_13bit: u16) -> i16 {
    if value_13bit & 0x1000 != 0 {
        ((value_13bit & 0x0FFF) | 0xE000) as i16
    } else {
        value_13bit as i16
    }
}

impl Mode7Renderer {
    /// Power-on state: the identity matrix.
    pub open spec fn initial_state() -> Mode7Renderer {
        Mode7Renderer {
            m7a: 0x0100,
            m7b: 0,
            m7c: 0,
            m7d: 0x0100,
            m7x: 0,
            m7y: 0,
            m7hofs: 0,
            m7vofs: 0,
            write_toggle: false,
            prev_value: 0,
        }
    }

    /// One matrix byte landing: the first write of a pair sets the low
    /// byte, the second the high byte. The pivot registers take 13-bit
    /// sign-extended values and mirror into the scroll offsets.
    pub open spec fn spec_write(self, address: u16, value: u8) -> Mode7Renderer {
        if address == 0x211B {
            if !self.write_toggle {
                Mode7Renderer {
                    m7a: ((self.m7a as u16 & 0xFF00) | (value as u16)) as i16,
                    write_toggle: !self.write_toggle,
                    ..self
                }
            } else {
                Mode7Renderer {
                    m7a: ((self.m7a as u16 & 0x00FF) | ((value as u16) << 8)) as i16,
                    write_toggle: !self.write_toggle,
                    ..self
                }
            }
        } else if address == 0x211C {
            if !self.write_toggle {
                Mode7Renderer {
                    m7b: ((self.m7b as u16 & 0xFF00) | (value as u16)) as i16,
                    write_toggle: !self.write_toggle,
                    ..self
                }
            } else {
                Mode7Renderer {
                    m7b: ((self.m7b as u16 & 0x00FF) | ((value as u16) << 8)) as i16,
                    write_toggle: !self.write_toggle,
                    ..self
                }
            }
        } else if address == 0x211D {
            if !self.write_toggle {
                Mode7Renderer {
                    m7c: ((self.m7c as u16 & 0xFF00) | (value as u16)) as i16,
                    write_toggle: !self.write_toggle,
                    ..self
                }
            } else {
                Mode7Renderer {
                    m7c: ((self.m7c as u16 & 0x00FF) | ((value as u16) << 8)) as i16,
                    write_toggle: !self.write_toggle,
                    ..self
                }
            }
        } else if address == 0x211E {
            if !self.write_toggle {
                Mode7Renderer {
                    m7d: ((self.m7d as u16 & 0xFF00) | (value as u16)) as i16,
                    write_toggle: !self.write_toggle,
                    ..self
                }
            } else {
                Mode7Renderer {
                    m7d: ((self.m7d as u16 & 0x00FF) | ((value as u16) << 8)) as i16,
                    write_toggle: !self.write_toggle,
                    ..self
                }
            }
        } else if address == 0x211F {
            if !self.write_toggle {
                let v = ((self.m7x as u16 & 0xFF00) | (value as u16)) as i16;
                Mode7Renderer { m7x: v, m7hofs: v, write_toggle: !self.write_toggle, ..self }
            } else {
                let value_13bit = (((value & 0x1F) as u16) << 8) | (self.m7x as u16 & 0x00FF);
                let v = sign_extend_13(value_13bit);
                Mode7Renderer { m7x: v, m7hofs: v, write_toggle: !self.write_toggle, ..self }
            }
        } else if address == 0x2120 {
            if !self.write_toggle {
                let v = ((self.m7y as u16 & 0xFF00) | (value as u16)) as i16;
                Mode7Renderer { m7y: v, m7vofs: v, write_toggle: !self.write_toggle, ..self }
            } else {
                let value_13bit = (((value & 0x1F) as u16) << 8) | (self.m7y as u16 & 0x00FF);
                let v = sign_extend_13(value_13bit);
                Mode7Renderer { m7y: v, m7vofs: v, write_toggle: !self.write_toggle, ..self }
            }
        } else {
            self
        }
    }

    pub fn new() -> (r: Self)
        ensures
            r == Mode7Renderer::initial_state(),
    {
        Self {
            m7a: 0x0100,
            m7b: 0,
            m7c: 0,
            m7d: 0x0100,
            m7x: 0,
            m7y: 0,
            m7hofs: 0,
            m7vofs: 0,
            write_toggle: false,
            prev_value: 0,
        }
    }

    pub fn reset(&mut self)
        ensures
            *final(self) == Mode7Renderer::initial_state(),
    {
        *self = Self::new();
    }

    pub fn write_register(&mut self, address: u16, value: u8)
        ensures
            *final(self) == old(self).spec_write(address, value),
    {
        if address == 0x211B {
            if !self.write_toggle {
                self.m7a = ((self.m7a as u16 & 0xFF00) | (value as u16)) as i16;
            } else {
                self.m7a = ((self.m7a as u16 & 0x00FF) | ((value as u16) << 8)) as i16;
            }
            self.write_toggle = !self.write_toggle;
        } else if address == 0x211C {
            if !self.write_toggle {
                self.m7b = ((self.m7b as u16 & 0xFF00) | (value as u16)) as i16;
            } else {
                self.m7b = ((self.m7b as u16 & 0x00FF) | ((value as u16) << 8)) as i16;
            }
            self.write_toggle = !self.write_toggle;
        } else if address == 0x211D {
            if !self.write_toggle {
                self.m7c = ((self.m7c as u16 & 0xFF00) | (value as u16)) as i16;
            } else {
                self.m7c = ((self.m7c as u16 & 0x00FF) | ((value as u16) << 8)) as i16;
            }
            self.write_toggle = !self.write_toggle;
        } else if address == 0x211E {
            if !self.write_toggle {
                self.m7d = ((self.m7d as u16 & 0xFF00) | (value as u16)) as i16;
            } else {
                self.m7d = ((self.m7d as u16 & 0x00FF) | ((value as u16) << 8)) as i16;
            }
            self.write_toggle = !self.write_toggle;
        } else if address == 0x211F {
            if !self.write_toggle {
                self.m7x = ((self.m7x as u16 & 0xFF00) | (value as u16)) as i16;
            } else {
                let value_13bit = (((value & 0x1F) as u16) << 8) | (self.m7x as u16 & 0x00FF);
                self.m7x = sign_extend_13_exec(value_13bit);
            }
            self.write_toggle = !self.write_toggle;
            self.m7hofs = self.m7x;
        } else if address == 0x2120 {
            if !self.write_toggle {
                self.m7y = ((self.m7y as u16 & 0xFF00) | (value as u16)) as i16;
            } else {
                let value_13bit = (((value & 0x1F) as u16) << 8) | (self.m7y as u16 & 0x00FF);
                self.m7y = sign_extend_13_exec(value_13bit);
            }
            self.write_toggle = !self.write_toggle;
            self.m7vofs = self.m7y;
        }
    }

    /// Texture coordinates of a screen pixel under the matrix: the
    /// products shift down eight fixed-point bits, then the scroll
    /// offsets join.
    pub open spec fn spec_coords(self, x: int, y: int) -> (int, int) {
        (
            asr8_int(self.m7a as int * (x - 128) + self.m7b as int * (y - 112)) + self.m7hofs as int,
            asr8_int(self.m7c as int * (x - 128) + self.m7d as int * (y - 112)) + self.m7vofs as int,
        )
    }

    /// One rendered pixel as red, green, blue and coverage: the palette
    /// colour of the sampled tile texel, or transparent black for texel
    /// zero.
    pub open spec fn spec_pixel_rgba(
        self,
        vram: Seq<u8>,
        cgram: Seq<u8>,
        regs: PpuRegisters,
        x: int,
        y: int,
    ) -> (u8, u8, u8, u8) {
        let c = self.spec_coords(x, y);
        let pixel = spec_mode7_pixel(vram, regs.m7sel, c.0, c.1);
        if pixel != 0 {
            let color = (cgram[pixel as int * 2] as u16) | ((cgram[pixel as int * 2 + 1] as u16)
                << 8);
            let rgb = Cgram::spec_color_to_rgb(color);
            (rgb.0, rgb.1, rgb.2, 255)
        } else {
            (0, 0, 0, 0)
        }
    }


    /// One buffer pixel agrees with the rendered colour for position x.
    pub open spec fn pixel_matches(
        self,
        vram: Seq<u8>,
        cgram: Seq<u8>,
        regs: PpuRegisters,
        buffer: Seq<u8>,
        x: int,
        y: int,
    ) -> bool {
        let px = self.spec_pixel_rgba(vram, cgram, regs, x, y);
        &&& buffer[4 * x] == px.0
        &&& buffer[4 * x + 1] == px.1
        &&& buffer[4 * x + 2] == px.2
        &&& buffer[4 * x + 3] == px.3
    }

    /// One buffer pixel reflects the extra background: overwritten with
    /// its colour under priority, untouched otherwise.
    pub open spec fn extbg_pixel_matches(
        self,
        vram: Seq<u8>,
        cgram: Seq<u8>,
        regs: PpuRegisters,
        buffer: Seq<u8>,
        prior: Seq<u8>,
        x: int,
        y: int,
    ) -> bool {
        let pp = self.spec_extbg_pixel(vram, regs, x, y);
        if pp.1 {
            let px = spec_extbg_rgba(pp.0, cgram);
            &&& buffer[4 * x] == px.0
            &&& buffer[4 * x + 1] == px.1
            &&& buffer[4 * x + 2] == px.2
            &&& buffer[4 * x + 3] == px.3
        } else {
            &&& buffer[4 * x] == prior[4 * x]
            &&& buffer[4 * x + 1] == prior[4 * x + 1]
            &&& buffer[4 * x + 2] == prior[4 * x + 2]
            &&& buffer[4 * x + 3] == prior[4 * x + 3]
        }
    }

    /// Renders one scanline of the rotation background: each of the 256
    /// pixels is exactly the transformed, sampled and palette-looked-up
    /// colour of its screen position.
    pub fn render_scanline(
        &self,
        vram: &Vram,
        cgram: &Cgram,
        registers: &PpuRegisters,
        scanline: u16,
        buffer: &mut [u8],
    )
        requires
            vram.wf(),
            cgram.wf(),
            scanline <= 261,
            old(buffer)@.len() == 1024,
        ensures
            final(buffer)@.len() == 1024,
            forall|x: int|
                0 <= x < 256 ==> #[trigger] self.pixel_matches(
                    vram@,
                    cgram@,
                    *registers,
                    final(buffer)@,
                    x,
                    scanline as int,
                ),
    {
        let screen_y = scanline as i32;
        let mut screen_x: usize = 0;
        while screen_x < 256
            invariant
                0 <= screen_x <= 256,
                screen_y == scanline as i32,
                vram.wf(),
                cgram.wf(),
                scanline <= 261,
                buffer@.len() == 1024,
                forall|x: int|
                    0 <= x < screen_x ==> #[trigger] self.pixel_matches(
                        vram@,
                        cgram@,
                        *registers,
                        buffer@,
                        x,
                        scanline as int,
                    ),
            decreases 256 - screen_x,
        {
            let ghost buf0 = buffer@;
            let (tx, ty) = self.coords(screen_x, screen_y);
            let pixel = mode7_pixel(vram, registers.m7sel, tx, ty);
            let (r, g, b) = if pixel != 0 {
                cgram.color_to_rgb(cgram.read_color(pixel))
            } else {
                (0, 0, 0)
            };
            let offset = screen_x * 4;
            buffer[offset] = r;
            buffer[offset + 1] = g;
            buffer[offset + 2] = b;
            buffer[offset + 3] = if pixel != 0 {
                255
            } else {
                0
            };
            proof {
                assert forall|x: int|
                    0 <= x < screen_x + 1 implies self.pixel_matches(
                    vram@,
                    cgram@,
                    *registers,
                    buffer@,
                    x,
                    scanline as int,
                ) by {
                    if x < screen_x {
                        assert(self.pixel_matches(
                            vram@,
                            cgram@,
                            *registers,
                            buf0,
                            x,
                            scanline as int,
                        ));
                    }
                }
            }
            screen_x = screen_x + 1;
        }
    }

    /// The extra-background bit of the video-select register.
    pub fn is_extbg_enabled(&self, registers: &PpuRegisters) -> (r: bool)
        ensures
            r == (registers.setini & 0x40 != 0),
    {
        registers.setini & 0x40 != 0
    }

    /// The pixel and priority of the extra background at a screen
    /// position: the tile map entry's top bit carries priority.
    pub open spec fn spec_extbg_pixel(
        self,
        vram: Seq<u8>,
        regs: PpuRegisters,
        x: int,
        y: int,
    ) -> (u8, bool) {
        let c = self.spec_coords(x, y);
        spec_mode7_pixel_priority(vram, regs.m7sel, c.0, c.1)
    }

    /// Renders the extra background over a scanline: only pixels whose
    /// tile carries the priority bit overwrite the buffer, with the
    /// same palette lookup as the main rotation layer.
    pub fn render_extbg_scanline(
        &self,
        vram: &Vram,
        cgram: &Cgram,
        registers: &PpuRegisters,
        scanline: u16,
        buffer: &mut [u8],
    )
        requires
            vram.wf(),
            cgram.wf(),
            scanline <= 261,
            old(buffer)@.len() == 1024,
        ensures
            final(buffer)@.len() == 1024,
            forall|x: int|
                0 <= x < 256 ==> #[trigger] self.extbg_pixel_matches(
                    vram@,
                    cgram@,
                    *registers,
                    final(buffer)@,
                    old(buffer)@,
                    x,
                    scanline as int,
                ),
    {
        let screen_y = scanline as i32;
        let mut screen_x: usize = 0;
        while screen_x < 256
            invariant
                0 <= screen_x <= 256,
                screen_y == scanline as i32,
                vram.wf(),
                cgram.wf(),
                scanline <= 261,
                buffer@.len() == 1024,
                forall|x: int|
                    0 <= x < screen_x ==> #[trigger] self.extbg_pixel_matches(
                        vram@,
                        cgram@,
                        *registers,
                        buffer@,
                        old(buffer)@,
                        x,
                        scanline as int,
                    ),
                forall|k: int| 4 * screen_x <= k < 1024 ==> buffer@[k] == old(buffer)@[k],
            decreases 256 - screen_x,
        {
            let ghost buf0 = buffer@;
            let (tx, ty) = self.coords(screen_x, screen_y);
            let (pixel, priority) = mode7_pixel_priority(vram, registers.m7sel, tx, ty);
            if priority {
                let (r, g, b) = if pixel != 0 {
                    cgram.color_to_rgb(cgram.read_color(pixel))
                } else {
                    (0, 0, 0)
                };
                let offset = screen_x * 4;
                buffer[offset] = r;
                buffer[offset + 1] = g;
                buffer[offset + 2] = b;
                buffer[offset + 3] = if pixel != 0 {
                    255
                } else {
                    0
                };
            }
            proof {
                assert forall|x: int|
                    0 <= x < screen_x + 1 implies self.extbg_pixel_matches(
                    vram@,
                    cgram@,
                    *registers,
                    buffer@,
                    old(buffer)@,
                    x,
                    scanline as int,
                ) by {
                    if x < screen_x {
                        assert(self.extbg_pixel_matches(
                            vram@,
                            cgram@,
                            *registers,
                            buf0,
                            old(buffer)@,
                            x,
                            scanline as int,
                        ));
                    }
                }
            }
            screen_x = screen_x + 1;
        }
    }

    /// Applies the matrix to one screen position.
    fn coords(&self, screen_x: usize, screen_y: i32) -> (r: (i32, i32))
        requires
            screen_x < 256,
            0 <= screen_y <= 261,
        ensures
            r.0 == self.spec_coords(screen_x as int, screen_y as int).0,
            r.1 == self.spec_coords(screen_x as int, screen_y as int).1,
            -0x2200_0000 <= r.0 <= 0x2200_0000,
            -0x2200_0000 <= r.1 <= 0x2200_0000,
    {
        let sx = screen_x as i32 - 128;
        let sy = screen_y - 112;
        proof {
            lemma_matrix_products_bounded(self.m7a, self.m7b, sx, sy);
            lemma_matrix_products_bounded(self.m7c, self.m7d, sx, sy);
        }
        let px = (self.m7a as i32) * sx + (self.m7b as i32) * sy;
        let py = (self.m7c as i32) * sx + (self.m7d as i32) * sy;
        let tx = asr8(px) + self.m7hofs as i32;
        let ty = asr8(py) + self.m7vofs as i32;
        (tx, ty)
    }
}

/// The 13-bit sign extension, executable form.
fn sign_extend_13_exec(value_13bit: u16) -> (r: i16)
    ensures
        r == sign_extend_13(value_13bit),
{
    if value_13bit & 0x1000 != 0 {
        ((value_13bit & 0x0FFF) | 0xE000) as i16
    } else {
        value_13bit as i16
    }
}

/// An arithmetic shift right by eight bits: division by 256 rounding
/// towards negative infinity.
pub open spec fn asr8_int(v: int) -> int {
    if v >= 0 {
        v / 256
    } else {
        -(((-v) + 255) / 256)
    }
}

fn asr8(v: i32) -> (r: i32)
    requires
        -0x2000_0000 <= v <= 0x2000_0000,
    ensures
        r == asr8_int(v as int),
        -0x2000_0100 <= r <= 0x2000_0000,
{
    if v >= 0 {
        v / 256
    } else {
        -((-v + 255) / 256)
    }
}

/// The fixed-point products of the matrix columns stay far inside the
/// 32-bit range for on-screen coordinates.
proof fn lemma_matrix_products_bounded(a: i16, b: i16, sx: i32, sy: i32)
    by (nonlinear_arith)
    requires
        -128 <= sx <= 127,
        -112 <= sy <= 149,
    ensures
        -0x2000_0000 <= a as int * sx as int + b as int * sy as int <= 0x2000_0000,
        -0x2000_0000 <= a as int * sx as int <= 0x2000_0000,
{
}

/// Wraps a texture coordinate into the 1024-pixel map.
pub open spec fn wrap1024_int(v: int) -> int {
    v % 1024
}

fn wrap1024(v: i32) -> (r: i32)
    requires
        -0x4000_0000 <= v <= 0x4000_0000,
    ensures
        r == wrap1024_int(v as int),
        0 <= r < 1024,
{
    if v >= 0 {
        v % 1024
    } else {
        let m = (-v) % 1024;
        if m == 0 {
            0
        } else {
            proof {
                let k = (-(v as int)) / 1024;
                vstd::arithmetic::div_mod::lemma_fundamental_div_mod(-(v as int), 1024);
                vstd::arithmetic::div_mod::lemma_fundamental_div_mod_converse(
                    v as int,
                    1024,
                    -k - 1,
                    1024 - ((-(v as int)) % 1024),
                );
            }
            1024 - m
        }
    }
}

/// How a texture coordinate pair wraps or clips, by the repeat mode in
/// the rotation-settings register: modes 0 and 1 tile the map, modes 2
/// and 3 clip outside it.
pub open spec fn spec_mode7_wrap(m7sel: u8, tx: int, ty: int) -> (int, int, bool) {
    let repeat_mode = m7sel & 0x03;
    if repeat_mode == 0 || repeat_mode == 1 {
        (wrap1024_int(tx), wrap1024_int(ty), false)
    } else {
        if tx < 0 || tx >= 1024 || ty < 0 || ty >= 1024 {
            (0, 0, true)
        } else {
            (tx, ty, false)
        }
    }
}

/// The texel of the rotation background at a texture coordinate: the
/// tile number comes from the 128x128 map, the texel from the 8x8
/// 256-colour tile; out-of-bounds coordinates are transparent.
pub open spec fn spec_mode7_pixel(vram: Seq<u8>, m7sel: u8, tx: int, ty: int) -> u8 {
    let w = spec_mode7_wrap(m7sel, tx, ty);
    if w.2 {
        0
    } else {
        let tilemap_addr = ((w.1 / 8) % 128 * 128 + (w.0 / 8) % 128) * 2;
        let tile_num = vram[tilemap_addr] as int;
        let tile_addr = tile_num * 64 + (w.1 % 8) * 8 + (w.0 % 8);
        vram[tile_addr]
    }
}

/// The texel together with the priority bit of its tile map entry.
pub open spec fn spec_mode7_pixel_priority(vram: Seq<u8>, m7sel: u8, tx: int, ty: int) -> (
    u8,
    bool,
) {
    let w = spec_mode7_wrap(m7sel, tx, ty);
    if w.2 {
        (0, false)
    } else {
        let tilemap_addr = ((w.1 / 8) % 128 * 128 + (w.0 / 8) % 128) * 2;
        let tile_data = (vram[tilemap_addr] as u16) | ((vram[tilemap_addr + 1] as u16) << 8);
        let tile_num = (tile_data & 0xFF) as int;
        let tile_addr = tile_num * 64 + (w.1 % 8) * 8 + (w.0 % 8);
        (vram[tile_addr], tile_data & 0x8000 != 0)
    }
}

/// The extra background's colour for a texel.
pub open spec fn spec_extbg_rgba(pixel: u8, cgram: Seq<u8>) -> (u8, u8, u8, u8) {
    if pixel != 0 {
        let color = (cgram[pixel as int * 2] as u16) | ((cgram[pixel as int * 2 + 1] as u16) << 8);
        let rgb = Cgram::spec_color_to_rgb(color);
        (rgb.0, rgb.1, rgb.2, 255)
    } else {
        (0, 0, 0, 0)
    }
}

fn mode7_wrap(m7sel: u8, tx: i32, ty: i32) -> (r: (i32, i32, bool))
    requires
        -0x4000_0000 <= tx <= 0x4000_0000,
        -0x4000_0000 <= ty <= 0x4000_0000,
    ensures
        (r.0 as int, r.1 as int, r.2) == spec_mode7_wrap(m7sel, tx as int, ty as int),
        !r.2 ==> 0 <= r.0 < 1024 && 0 <= r.1 < 1024,
{
    let repeat_mode = m7sel & 0x03;
    if repeat_mode == 0 || repeat_mode == 1 {
        (wrap1024(tx), wrap1024(ty), false)
    } else {
        if tx < 0 || tx >= 1024 || ty < 0 || ty >= 1024 {
            (0, 0, true)
        } else {
            (tx, ty, false)
        }
    }
}

fn mode7_pixel(vram: &Vram, m7sel: u8, tx: i32, ty: i32) -> (r: u8)
    requires
        vram.wf(),
        -0x4000_0000 <= tx <= 0x4000_0000,
        -0x4000_0000 <= ty <= 0x4000_0000,
    ensures
        r == spec_mode7_pixel(vram@, m7sel, tx as int, ty as int),
{
    let (wx, wy, out_of_bounds) = mode7_wrap(m7sel, tx, ty);
    if out_of_bounds {
        return 0;
    }
    let tilemap_addr = (((wy / 8) % 128) * 128 + ((wx / 8) % 128)) * 2;
    let tile_num = vram.read(tilemap_addr as u16) as u16;
    let tile_addr = tile_num * 64 + ((wy % 8) * 8 + (wx % 8)) as u16;
    vram.read(tile_addr)
}

fn mode7_pixel_priority(vram: &Vram, m7sel: u8, tx: i32, ty: i32) -> (r: (u8, bool))
    requires
        vram.wf(),
        -0x4000_0000 <= tx <= 0x4000_0000,
        -0x4000_0000 <= ty <= 0x4000_0000,
    ensures
        (r.0, r.1) == spec_mode7_pixel_priority(vram@, m7sel, tx as int, ty as int),
{
    let (wx, wy, out_of_bounds) = mode7_wrap(m7sel, tx, ty);
    if out_of_bounds {
        return (0, false);
    }
    let tilemap_addr = (((wy / 8) % 128) * 128 + ((wx / 8) % 128)) * 2;
    let tile_data = vram.read16(tilemap_addr as u16);
    let tile_num = tile_data & 0xFF;
    proof {
        assert(tile_data & 0xFF <= 0xFF) by (bit_vector);
    }
    let tile_addr = tile_num * 64 + ((wy % 8) * 8 + (wx % 8)) as u16;
    (vram.read(tile_addr), (tile_data & 0x8000) != 0)
}

} // verus!
