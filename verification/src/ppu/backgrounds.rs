use vstd::prelude::*;
use crate::cartridge::loader::zero_bytes;
use crate::ppu::memory::{Cgram, Vram};
use crate::ppu::registers::PpuRegisters;

verus! {

/// The background mode, as a named variant of the three mode bits.
#[derive(Debug, Clone, Copy, PartialEq, Eq, Structural)]
pub enum BgMode {
    Mode0,
    Mode1,
    Mode2,
    Mode3,
    Mode4,
    Mode5,
    Mode6,
    Mode7,
}

pub open spec fn spec_bg_mode_of(value: u8) -> BgMode {
    let m = value & 0x07;
    if m == 0 {
        BgMode::Mode0
    } else if m == 1 {
        BgMode::Mode1
    } else if m == 2 {
        BgMode::Mode2
    } else if m == 3 {
        BgMode::Mode3
    } else if m == 4 {
        BgMode::Mode4
    } else if m == 5 {
        BgMode::Mode5
    } else if m == 6 {
        BgMode::Mode6
    } else {
        BgMode::Mode7
    }
}

pub fn bg_mode_of(value: u8) -> (r: BgMode)
    ensures
        r == spec_bg_mode_of(value),
{
    match value & 0x07 {
        0 => BgMode::Mode0,
        1 => BgMode::Mode1,
        2 => BgMode::Mode2,
        3 => BgMode::Mode3,
        4 => BgMode::Mode4,
        5 => BgMode::Mode5,
        6 => BgMode::Mode6,
        _ => BgMode::Mode7,
    }
}

/// Where one background layer's tile map and tiles sit in video
/// memory, with its sizes and scroll position.
#[derive(Debug, Clone, Copy)]
pub struct BackgroundInfo {
    pub tilemap_base: u16,
    pub tile_base: u16,
    pub tilemap_size: (u8, u8),
    pub tile_size: bool,
    pub priority: (bool, bool),
    pub h_scroll: u16,
    pub v_scroll: u16,
}

/// The layer configuration decoded from the register file: the tile
/// map base comes from the layer's screen register, the tile base from
/// the shared character-address registers, sizes and scrolls from
/// their own registers.
pub open spec fn spec_bg_info(regs: PpuRegisters, bg_num: u8) -> BackgroundInfo {
    let sc_reg = if bg_num == 1 {
        regs.bg1sc
    } else if bg_num == 2 {
        regs.bg2sc
    } else if bg_num == 3 {
        regs.bg3sc
    } else {
        regs.bg4sc
    };
    let bg_reg = if bg_num <= 2 {
        regs.bg12nba
    } else {
        regs.bg34nba
    };
    let tile_base = if bg_num <= 2 {
        ((bg_reg & 0x0F) as u16) << 12
    } else {
        (((bg_reg & 0xF0) >> 4) as u16) << 12
    };
    let tile_size = if bg_num == 1 {
        regs.bgmode & 0x10 != 0
    } else if bg_num == 2 {
        regs.bgmode & 0x20 != 0
    } else if bg_num == 3 {
        regs.bgmode & 0x40 != 0
    } else {
        regs.bgmode & 0x80 != 0
    };
    let scrolls = if bg_num == 1 {
        (regs.bg1hofs, regs.bg1vofs)
    } else if bg_num == 2 {
        (regs.bg2hofs, regs.bg2vofs)
    } else if bg_num == 3 {
        (regs.bg3hofs, regs.bg3vofs)
    } else {
        (regs.bg4hofs, regs.bg4vofs)
    };
    BackgroundInfo {
        tilemap_base: ((sc_reg & 0xFC) as u16) << 9,
        tile_base,
        tilemap_size: ((sc_reg & 0x01) as u8, ((sc_reg & 0x02) >> 1) as u8),
        tile_size,
        priority: (false, false),
        h_scroll: scrolls.0,
        v_scroll: scrolls.1,
    }
}

/// Renders the tiled background layers of the non-rotating modes one
/// scanline at a time. Pixel compositing is conventional transform
/// work, specified here only at its boundary: each call fills the
/// layer buffers for one line and hands back the first layer's bytes.
pub struct BackgroundRenderer {
    pub bg1_buffer: Vec<u8>,
    pub bg2_buffer: Vec<u8>,
    pub bg3_buffer: Vec<u8>,
    pub bg4_buffer: Vec<u8>,
}

impl BackgroundRenderer {
    pub open spec fn wf(self) -> bool {
        &&& self.bg1_buffer@.len() == 1024
        &&& self.bg2_buffer@.len() == 1024
        &&& self.bg3_buffer@.len() == 1024
        &&& self.bg4_buffer@.len() == 1024
    }

    pub fn new() -> (r: Self)
        ensures
            r.wf(),
    {
        Self {
            bg1_buffer: zero_bytes(1024),
            bg2_buffer: zero_bytes(1024),
            bg3_buffer: zero_bytes(1024),
            bg4_buffer: zero_bytes(1024),
        }
    }

    pub fn get_bg_info(registers: &PpuRegisters, bg_num: u8) -> (r: BackgroundInfo)
        requires
            1 <= bg_num <= 4,
        ensures
            r == spec_bg_info(*registers, bg_num),
    {
        let sc_reg = match bg_num {
            1 => registers.bg1sc,
            2 => registers.bg2sc,
            3 => registers.bg3sc,
            _ => registers.bg4sc,
        };
        let bg_reg = if bg_num <= 2 {
            registers.bg12nba
        } else {
            registers.bg34nba
        };
        let tilemap_base = ((sc_reg & 0xFC) as u16) << 9;
        let tile_base = if bg_num <= 2 {
            ((bg_reg & 0x0F) as u16) << 12
        } else {
            (((bg_reg & 0xF0) >> 4) as u16) << 12
        };
        let tilemap_size = ((sc_reg & 0x01) as u8, ((sc_reg & 0x02) >> 1) as u8);
        let tile_size = match bg_num {
            1 => (registers.bgmode & 0x10) != 0,
            2 => (registers.bgmode & 0x20) != 0,
            3 => (registers.bgmode & 0x40) != 0,
            _ => (registers.bgmode & 0x80) != 0,
        };
        let (h_scroll, v_scroll) = match bg_num {
            1 => (registers.bg1hofs, registers.bg1vofs),
            2 => (registers.bg2hofs, registers.bg2vofs),
            3 => (registers.bg3hofs, registers.bg3vofs),
            _ => (registers.bg4hofs, registers.bg4vofs),
        };
        BackgroundInfo {
            tilemap_base,
            tile_base,
            tilemap_size,
            tile_size,
            priority: (false, false),
            h_scroll,
            v_scroll,
        }
    }

    /// Renders the backgrounds the current mode defines and returns
    /// the first layer's scanline bytes.
    pub fn render_scanline(
        &mut self,
        vram: &Vram,
        cgram: &Cgram,
        registers: &PpuRegisters,
        scanline: u16,
    ) -> (r: &[u8])
        requires
            old(self).wf(),
            vram.wf(),
            cgram.wf(),
        ensures
            final(self).wf(),
            r@.len() == 1024,
            r@ == final(self).bg1_buffer@,
    {
        let bg_mode = bg_mode_of(registers.bgmode);
        fill_zero(&mut self.bg1_buffer);
        fill_zero(&mut self.bg2_buffer);
        fill_zero(&mut self.bg3_buffer);
        fill_zero(&mut self.bg4_buffer);
        match bg_mode {
            BgMode::Mode0 => {
                Self::render_bg_2bpp(vram, cgram, registers, 1, scanline, &mut self.bg1_buffer);
                Self::render_bg_2bpp(vram, cgram, registers, 2, scanline, &mut self.bg2_buffer);
                Self::render_bg_2bpp(vram, cgram, registers, 3, scanline, &mut self.bg3_buffer);
                Self::render_bg_2bpp(vram, cgram, registers, 4, scanline, &mut self.bg4_buffer);
            },
            BgMode::Mode1 => {
                Self::render_bg_4bpp(vram, cgram, registers, 1, scanline, &mut self.bg1_buffer);
                Self::render_bg_4bpp(vram, cgram, registers, 2, scanline, &mut self.bg2_buffer);
                Self::render_bg_2bpp(vram, cgram, registers, 3, scanline, &mut self.bg3_buffer);
            },
            BgMode::Mode3 => {
                Self::render_bg_8bpp(vram, cgram, registers, 1, scanline, &mut self.bg1_buffer);
                Self::render_bg_4bpp(vram, cgram, registers, 2, scanline, &mut self.bg2_buffer);
            },
            _ => {},
        }
        self.bg1_buffer.as_slice()
    }

    /// Renders one two-bit-per-pixel layer across a scanline.
    pub fn render_bg_2bpp(
        vram: &Vram,
        cgram: &Cgram,
        registers: &PpuRegisters,
        bg_num: u8,
        scanline: u16,
        buffer: &mut Vec<u8>,
    )
        requires
            vram.wf(),
            cgram.wf(),
            1 <= bg_num <= 4,
            old(buffer)@.len() == 1024,
        ensures
            final(buffer)@.len() == 1024,
    {
        let bg_info = Self::get_bg_info(registers, bg_num);
        let y_sum = scanline as u32 + bg_info.v_scroll as u32;
        proof {
            lemma_bg_masks(y_sum);
        }
        let y = y_sum & 0x1FF;
        let tile_y = y / 8;
        let fine_y = y % 8;
        let mut x: u16 = 0;
        while x < 256
            invariant
                vram.wf(),
                cgram.wf(),
                buffer@.len() == 1024,
                x <= 256,
                tile_y <= 0x3F,
                fine_y < 8,
            decreases 256 - x,
        {
            let x_sum = x as u32 + bg_info.h_scroll as u32;
            proof {
                lemma_bg_masks(x_sum);
                lemma_bg_masks(tile_y);
            }
            let scroll_x = x_sum & 0x1FF;
            let tile_x = scroll_x / 8;
            proof {
                lemma_bg_masks(tile_x);
            }
            let fine_x = scroll_x % 8;
            let tilemap_x = (tile_x & 31) as u16;
            let tilemap_y = (tile_y & 31) as u16;
            let tilemap_addr = bg_info.tilemap_base.wrapping_add((tilemap_y * 32 + tilemap_x) * 2);
            let tilemap_entry = vram.read16(tilemap_addr);
            let tile_num = tilemap_entry & 0x3FF;
            let palette_num = ((tilemap_entry >> 10) & 0x07) as u8;
            let h_flip = (tilemap_entry & 0x4000) != 0;
            let v_flip = (tilemap_entry & 0x8000) != 0;
            let pixel_x = if h_flip {
                7 - fine_x
            } else {
                fine_x
            };
            let pixel_y = if v_flip {
                7 - fine_y
            } else {
                fine_y
            };
            proof {
                lemma_tile_fields(tilemap_entry);
            }
            let tile_addr = bg_info.tile_base.wrapping_add(tile_num * 8);
            let byte_offset = (pixel_y * 2) as u16;
            let low_byte = vram.read(tile_addr.wrapping_add(byte_offset));
            let high_byte = vram.read(tile_addr.wrapping_add(byte_offset).wrapping_add(1));
            let bit_mask = 0x80u8 >> pixel_x;
            let low_bit: u8 = if (low_byte & bit_mask) != 0 {
                1
            } else {
                0
            };
            let high_bit: u8 = if (high_byte & bit_mask) != 0 {
                2
            } else {
                0
            };
            let color_index = low_bit | high_bit;
            if color_index != 0 {
                proof {
                    lemma_small_or(low_bit, high_bit);
                }
                let cgram_index = palette_num * 4 + color_index;
                let color = cgram.read_color(cgram_index);
                let (r, g, b) = cgram.color_to_rgb(color);
                let buffer_offset = (x as usize) * 4;
                buffer[buffer_offset] = r;
                buffer[buffer_offset + 1] = g;
                buffer[buffer_offset + 2] = b;
                buffer[buffer_offset + 3] = 255;
            }
            x = x + 1;
        }
    }

    /// Renders one four-bit-per-pixel layer across a scanline.
    pub fn render_bg_4bpp(
        vram: &Vram,
        cgram: &Cgram,
        registers: &PpuRegisters,
        bg_num: u8,
        scanline: u16,
        buffer: &mut Vec<u8>,
    )
        requires
            vram.wf(),
            cgram.wf(),
            1 <= bg_num <= 4,
            old(buffer)@.len() == 1024,
        ensures
            final(buffer)@.len() == 1024,
    {
        let bg_info = Self::get_bg_info(registers, bg_num);
        let y_sum = scanline as u32 + bg_info.v_scroll as u32;
        proof {
            lemma_bg_masks(y_sum);
        }
        let y = y_sum & 0x1FF;
        let tile_y = y / 8;
        let fine_y = y % 8;
        let mut x: u16 = 0;
        while x < 256
            invariant
                vram.wf(),
                cgram.wf(),
                buffer@.len() == 1024,
                x <= 256,
                tile_y <= 0x3F,
                fine_y < 8,
            decreases 256 - x,
        {
            let x_sum = x as u32 + bg_info.h_scroll as u32;
            proof {
                lemma_bg_masks(x_sum);
                lemma_bg_masks(tile_y);
            }
            let scroll_x = x_sum & 0x1FF;
            let tile_x = scroll_x / 8;
            proof {
                lemma_bg_masks(tile_x);
            }
            let fine_x = scroll_x % 8;
            let tilemap_x = (tile_x & 31) as u16;
            let tilemap_y = (tile_y & 31) as u16;
            let tilemap_addr = bg_info.tilemap_base.wrapping_add((tilemap_y * 32 + tilemap_x) * 2);
            let tilemap_entry = vram.read16(tilemap_addr);
            let tile_num = tilemap_entry & 0x3FF;
            let palette_num = ((tilemap_entry >> 10) & 0x07) as u8;
            let h_flip = (tilemap_entry & 0x4000) != 0;
            let v_flip = (tilemap_entry & 0x8000) != 0;
            let pixel_x = if h_flip {
                7 - fine_x
            } else {
                fine_x
            };
            let pixel_y = if v_flip {
                7 - fine_y
            } else {
                fine_y
            };
            proof {
                lemma_tile_fields(tilemap_entry);
            }
            let tile_addr = bg_info.tile_base.wrapping_add(tile_num * 16);
            let byte_offset = (pixel_y * 2) as u16;
            let plane0 = vram.read(tile_addr.wrapping_add(byte_offset));
            let plane1 = vram.read(tile_addr.wrapping_add(byte_offset).wrapping_add(1));
            let plane2 = vram.read(tile_addr.wrapping_add(byte_offset).wrapping_add(8));
            let plane3 = vram.read(tile_addr.wrapping_add(byte_offset).wrapping_add(9));
            let bit_mask = 0x80u8 >> pixel_x;
            let bit0: u8 = if (plane0 & bit_mask) != 0 {
                1
            } else {
                0
            };
            let bit1: u8 = if (plane1 & bit_mask) != 0 {
                2
            } else {
                0
            };
            let bit2: u8 = if (plane2 & bit_mask) != 0 {
                4
            } else {
                0
            };
            let bit3: u8 = if (plane3 & bit_mask) != 0 {
                8
            } else {
                0
            };
            let color_index = (bit0 | bit1) | (bit2 | bit3);
            if color_index != 0 {
                proof {
                    lemma_small_or4(bit0, bit1, bit2, bit3);
                }
                let cgram_index = palette_num * 16 + color_index;
                let color = cgram.read_color(cgram_index);
                let (r, g, b) = cgram.color_to_rgb(color);
                let buffer_offset = (x as usize) * 4;
                buffer[buffer_offset] = r;
                buffer[buffer_offset + 1] = g;
                buffer[buffer_offset + 2] = b;
                buffer[buffer_offset + 3] = 255;
            }
            x = x + 1;
        }
    }

    /// Renders one eight-bit-per-pixel layer across a scanline.
    pub fn render_bg_8bpp(
        vram: &Vram,
        cgram: &Cgram,
        registers: &PpuRegisters,
        bg_num: u8,
        scanline: u16,
        buffer: &mut Vec<u8>,
    )
        requires
            vram.wf(),
            cgram.wf(),
            1 <= bg_num <= 4,
            old(buffer)@.len() == 1024,
        ensures
            final(buffer)@.len() == 1024,
    {
        let bg_info = Self::get_bg_info(registers, bg_num);
        let y_sum = scanline as u32 + bg_info.v_scroll as u32;
        proof {
            lemma_bg_masks(y_sum);
        }
        let y = y_sum & 0x1FF;
        let tile_y = y / 8;
        let fine_y = y % 8;
        let mut x: u16 = 0;
        while x < 256
            invariant
                vram.wf(),
                cgram.wf(),
                buffer@.len() == 1024,
                x <= 256,
                tile_y <= 0x3F,
                fine_y < 8,
            decreases 256 - x,
        {
            let x_sum = x as u32 + bg_info.h_scroll as u32;
            proof {
                lemma_bg_masks(x_sum);
                lemma_bg_masks(tile_y);
            }
            let scroll_x = x_sum & 0x1FF;
            let tile_x = scroll_x / 8;
            proof {
                lemma_bg_masks(tile_x);
            }
            let fine_x = scroll_x % 8;
            let tilemap_x = (tile_x & 31) as u16;
            let tilemap_y = (tile_y & 31) as u16;
            let tilemap_addr = bg_info.tilemap_base.wrapping_add((tilemap_y * 32 + tilemap_x) * 2);
            let tilemap_entry = vram.read16(tilemap_addr);
            let tile_num = tilemap_entry & 0x3FF;
            let h_flip = (tilemap_entry & 0x4000) != 0;
            let v_flip = (tilemap_entry & 0x8000) != 0;
            let pixel_x = if h_flip {
                7 - fine_x
            } else {
                fine_x
            };
            let pixel_y = if v_flip {
                7 - fine_y
            } else {
                fine_y
            };
            proof {
                lemma_tile_fields(tilemap_entry);
            }
            let tile_addr = bg_info.tile_base.wrapping_add(tile_num * 32);
            let byte_offset = (pixel_y * 4) as u16;
            let bit_mask = 0x80u8 >> pixel_x;
            let mut color_index: u8 = 0;
            let mut plane: u8 = 0;
            while plane < 8
                invariant
                    vram.wf(),
                    plane <= 8,
                decreases 8 - plane,
            {
                let plane_offset = ((plane / 2) * 8 + (plane % 2)) as u16;
                let plane_byte = vram.read(
                    tile_addr.wrapping_add(byte_offset).wrapping_add(plane_offset),
                );
                if (plane_byte & bit_mask) != 0 {
                    color_index = color_index | (1u8 << plane);
                }
                plane = plane + 1;
            }
            if color_index != 0 {
                let color = cgram.read_color(color_index);
                let (r, g, b) = cgram.color_to_rgb(color);
                let buffer_offset = (x as usize) * 4;
                buffer[buffer_offset] = r;
                buffer[buffer_offset + 1] = g;
                buffer[buffer_offset + 2] = b;
                buffer[buffer_offset + 3] = 255;
            }
            x = x + 1;
        }
    }
}

/// Clears a scanline buffer in place.
fn fill_zero(buffer: &mut Vec<u8>)
    ensures
        final(buffer)@.len() == old(buffer)@.len(),
        forall|i: int| 0 <= i < final(buffer)@.len() ==> final(buffer)@[i] == 0,
{
    let n = buffer.len();
    let mut i: usize = 0;
    while i < n
        invariant
            buffer@.len() == n,
            i <= n,
            forall|j: int| 0 <= j < i ==> buffer@[j] == 0,
        decreases n - i,
    {
        buffer[i] = 0;
        i = i + 1;
    }
}

/// Bounds of masked scroll coordinates.
proof fn lemma_bg_masks(v: u32)
    by (bit_vector)
    ensures
        v & 0x1FF <= 0x1FF,
        v & 31 <= 31,
{
}

/// Field bounds of a tile map entry.
proof fn lemma_tile_fields(entry: u16)
    by (bit_vector)
    ensures
        entry & 0x3FF <= 0x3FF,
        (entry >> 10) & 0x07 <= 7,
{
}

/// Two disjoint small bit values stay under four when joined.
proof fn lemma_small_or(a: u8, b: u8)
    by (bit_vector)
    requires
        a <= 1,
        b == 0 || b == 2,
    ensures
        a | b <= 3,
{
}

/// Four disjoint flag bits stay under sixteen when joined.
proof fn lemma_small_or4(a: u8, b: u8, c: u8, d: u8)
    by (bit_vector)
    requires
        a <= 1,
        b == 0 || b == 2,
        c == 0 || c == 4,
        d == 0 || d == 8,
    ensures
        (a | b) | (c | d) <= 15,
{
}

} // verus!
