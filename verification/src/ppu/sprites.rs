use vstd::prelude::*;
use crate::ppu::memory::{Cgram, Oam, SpriteAttributes, Vram};
use crate::ppu::registers::PpuRegisters;

verus! {

/// One sprite pixel awaiting compositing: its palette colour index,
/// its palette, its layer priority and the index of the sprite it came
/// from, which settles ties.
#[derive(Debug, Clone, Copy, PartialEq, Eq, Structural)]
pub struct SpritePixel {
    pub color: u8,
    pub palette: u8,
    pub priority: u8,
    pub sprite_priority: u8,
}

/// Draws the sprite layer one scanline at a time: sprite evaluation
/// picks up to 32 sprites covering the line, each draws into one of
/// four priority planes, and compositing lays the planes over the
/// output buffer. Pixel compositing is conventional transform work,
/// specified here at its boundary: buffer sizes are maintained and
/// only the output buffer is written.
pub struct SpriteRenderer {
    pub priority_buffers: Vec<Vec<Option<SpritePixel>>>,
    pub active_sprites: Vec<(u8, SpriteAttributes)>,
}

/// The small and large pixel sizes the size-select field names.
pub open spec fn spec_sprite_sizes(obsel: u8) -> ((u8, u8), (u8, u8)) {
    let sel = (obsel >> 5) & 0x07;
    if sel == 0 {
        ((8, 8), (16, 16))
    } else if sel == 1 {
        ((8, 8), (32, 32))
    } else if sel == 2 {
        ((8, 8), (64, 64))
    } else if sel == 3 || sel == 4 || sel == 6 || sel == 7 {
        ((16, 16), (32, 32))
    } else {
        ((8, 8), (32, 32))
    }
}

impl SpriteRenderer {
    pub open spec fn wf(self) -> bool {
        &&& self.priority_buffers@.len() == 4
        &&& forall|i: int|
            0 <= i < 4 ==> (#[trigger] self.priority_buffers@[i])@.len() == 256
    }

    pub fn new() -> (r: Self)
        ensures
            r.wf(),
            r.active_sprites@.len() == 0,
    {
        let mut priority_buffers: Vec<Vec<Option<SpritePixel>>> = Vec::new();
        let mut i: usize = 0;
        while i < 4
            invariant
                i <= 4,
                priority_buffers@.len() == i,
                forall|j: int|
                    0 <= j < i ==> (#[trigger] priority_buffers@[j])@.len() == 256,
            decreases 4 - i,
        {
            priority_buffers.push(none_row());
            i = i + 1;
        }
        Self { priority_buffers, active_sprites: Vec::new() }
    }

    /// Renders the sprites crossing one scanline into the buffer.
    pub fn render_scanline(
        &mut self,
        vram: &Vram,
        cgram: &Cgram,
        oam: &Oam,
        registers: &PpuRegisters,
        scanline: u16,
        buffer: &mut [u8],
    )
        requires
            old(self).wf(),
            vram.wf(),
            cgram.wf(),
            oam.wf(),
            old(buffer)@.len() == 1024,
        ensures
            final(self).wf(),
            final(buffer)@.len() == 1024,
    {
        let mut i: usize = 0;
        while i < 4
            invariant
                self.wf(),
                i <= 4,
            decreases 4 - i,
        {
            self.priority_buffers[i] = none_row();
            proof {
                assert forall|j: int|
                    0 <= j < 4 implies (#[trigger] self.priority_buffers@[j])@.len() == 256 by {}
            }
            i = i + 1;
        }
        let (size_small, size_large) = self.get_sprite_sizes(registers);
        self.evaluate_sprites(oam, scanline, size_small, size_large);
        let mut s: usize = 0;
        while s < self.active_sprites.len()
            invariant
                self.wf(),
                vram.wf(),
            decreases self.active_sprites@.len() - s,
        {
            let (sprite_index, sprite) = self.active_sprites[s];
            self.render_sprite(vram, registers, sprite_index, &sprite, scanline);
            s = s + 1;
        }
        self.composite_sprites(cgram, buffer);
    }

    /// The sprite pixel sizes selected by the object-select register.
    pub fn get_sprite_sizes(&self, registers: &PpuRegisters) -> (r: ((u8, u8), (u8, u8)))
        ensures
            r == spec_sprite_sizes(registers.obsel),
            8 <= r.0.0 <= 64 && 8 <= r.0.1 <= 64 && 8 <= r.1.0 <= 64 && 8 <= r.1.1 <= 64,
    {
        let ob = registers.obsel;
        let size_select = (ob >> 5) & 0x07;
        proof {
            assert((ob >> 5) & 0x07 <= 7) by (bit_vector);
        }
        match size_select {
            0 => ((8, 8), (16, 16)),
            1 => ((8, 8), (32, 32)),
            2 => ((8, 8), (64, 64)),
            3 => ((16, 16), (32, 32)),
            4 => ((16, 16), (32, 32)),
            5 => ((8, 8), (32, 32)),
            6 => ((16, 16), (32, 32)),
            _ => ((16, 16), (32, 32)),
        }
    }

    /// Gathers, in index order, the first 32 sprites whose vertical
    /// span covers the scanline.
    fn evaluate_sprites(&mut self, oam: &Oam, scanline: u16, size_small: (u8, u8), size_large: (
        u8,
        u8,
    ))
        requires
            old(self).wf(),
            oam.wf(),
        ensures
            final(self).wf(),
            final(self).priority_buffers == old(self).priority_buffers,
            final(self).active_sprites@.len() <= 32,
    {
        self.active_sprites.clear();
        let mut i: u8 = 0;
        while i < 128
            invariant
                self.wf(),
                oam.wf(),
                self.priority_buffers == old(self).priority_buffers,
                self.active_sprites@.len() < 32,
                i <= 128,
            decreases 128 - i,
        {
            let sprite = oam.get_sprite(i);
            let height: u8 = if sprite.size {
                size_large.1
            } else {
                size_small.1
            };
            let sprite_top = sprite.y as i16;
            let sprite_bottom = sprite_top + height as i16;
            if scanline as i16 >= sprite_top && (scanline as i16) < sprite_bottom {
                self.active_sprites.push((i, sprite));
                if self.active_sprites.len() >= 32 {
                    return ;
                }
            }
            i = i + 1;
        }
    }

    /// Draws one sprite's pixels for the scanline into its priority
    /// plane; a lower sprite index wins a contested pixel.
    fn render_sprite(
        &mut self,
        vram: &Vram,
        registers: &PpuRegisters,
        sprite_index: u8,
        sprite: &SpriteAttributes,
        scanline: u16,
    )
        requires
            old(self).wf(),
            vram.wf(),
        ensures
            final(self).wf(),
            final(self).active_sprites == old(self).active_sprites,
    {
        let (size_small, size_large) = self.get_sprite_sizes(registers);
        let (width, height) = if sprite.size {
            size_large
        } else {
            size_small
        };
        if width == 0 || height == 0 {
            return ;
        }
        let sprite_y_i = scanline as i32 - sprite.y as i32;
        if sprite_y_i < 0 || sprite_y_i >= height as i32 {
            return ;
        }
        let sprite_y = sprite_y_i as u16;
        let row: u16 = if sprite.v_flip {
            (height as u16) - 1 - sprite_y
        } else {
            sprite_y
        };
        let name_base = ((registers.obsel & 0x07) as u16) << 13;
        let mut col: u8 = 0;
        while col < width
            invariant
                self.wf(),
                vram.wf(),
                self.active_sprites == old(self).active_sprites,
                8 <= width <= 64,
                8 <= height <= 64,
                col <= width,
                row < height,
            decreases width - col,
        {
            let x = sprite.x as i32 + col as i32;
            if 0 <= x && x < 256 {
                let pixel_x: u8 = if sprite.h_flip {
                    width - 1 - col
                } else {
                    col
                };
                let tile_x = (pixel_x / 8) as u16;
                let tile_y = row / 8;
                let fine_x = pixel_x % 8;
                let fine_y = row % 8;
                let tile_offset: u16 = if width > 8 || height > 8 {
                    proof {
                        lemma_tile_grid_bound(tile_y, (width / 8) as u16);
                    }
                    tile_y * ((width / 8) as u16) + tile_x
                } else {
                    0
                };
                let tile_num = sprite.tile.wrapping_add(tile_offset);
                let vram_addr = name_base.wrapping_add(tile_num << 4);
                let byte_offset = fine_y * 2;
                let plane0 = vram.read(vram_addr.wrapping_add(byte_offset));
                let plane1 = vram.read(vram_addr.wrapping_add(byte_offset).wrapping_add(1));
                let plane2 = vram.read(vram_addr.wrapping_add(byte_offset).wrapping_add(8));
                let plane3 = vram.read(vram_addr.wrapping_add(byte_offset).wrapping_add(9));
                let bit_mask = 0x80u8 >> fine_x;
                let bit0: u8 = if (plane0 & bit_mask) != 0 {
                    1
                } else {
                    0
                };
                let bit1: u8 = if (plane1 & bit_mask) != 0 {
                    2
                } else {
                    0
                };
                let bit2: u8 = if (plane2 & bit_mask) != 0 {
                    4
                } else {
                    0
                };
                let bit3: u8 = if (plane3 & bit_mask) != 0 {
                    8
                } else {
                    0
                };
                let color_index = (bit0 | bit1) | (bit2 | bit3);
                if color_index != 0 {
                    let pixel = SpritePixel {
                        color: color_index,
                        palette: (sprite.palette & 0x07).wrapping_add(8),
                        priority: sprite.priority,
                        sprite_priority: sprite_index,
                    };
                    let pr = sprite.priority;
                    proof {
                        assert(pr & 0x03 <= 3) by (bit_vector);
                    }
                    let plane_idx = (pr & 0x03) as usize;
                    let x_pos = x as usize;
                    let row_ref = &self.priority_buffers[plane_idx];
                    let existing = row_ref[x_pos];
                    let replace: bool = match existing {
                        Some(e) => sprite_index < e.sprite_priority,
                        None => true,
                    };
                    if replace {
                        let ghost before = self.priority_buffers@;
                        set_pixel(&mut self.priority_buffers, plane_idx, x_pos, pixel);
                    }
                }
            }
            col = col + 1;
        }
    }

    /// Lays the four priority planes over the output buffer, highest
    /// priority first, leaving covered bytes opaque.
    fn composite_sprites(&self, cgram: &Cgram, buffer: &mut [u8])
        requires
            self.wf(),
            cgram.wf(),
            old(buffer)@.len() == 1024,
        ensures
            final(buffer)@.len() == 1024,
    {
        let mut x: usize = 0;
        while x < 256
            invariant
                self.wf(),
                cgram.wf(),
                buffer@.len() == 1024,
                x <= 256,
            decreases 256 - x,
        {
            let mut priority: usize = 4;
            let mut done = false;
            while priority > 0
                invariant
                    self.wf(),
                    cgram.wf(),
                    buffer@.len() == 1024,
                    x < 256,
                    priority <= 4,
                decreases priority,
            {
                priority = priority - 1;
                if !done {
                    if let Some(pixel) = self.priority_buffers[priority][x] {
                        let cgram_index = pixel.palette.wrapping_mul(16).wrapping_add(pixel.color);
                        let color = cgram.read_color(cgram_index);
                        let (r, g, b) = cgram.color_to_rgb(color);
                        let offset = x * 4;
                        buffer[offset] = r;
                        buffer[offset + 1] = g;
                        buffer[offset + 2] = b;
                        buffer[offset + 3] = 255;
                        done = true;
                    }
                }
            }
            x = x + 1;
        }
    }

    /// One priority plane's pixels.
    pub fn get_priority_buffer(&self, priority: u8) -> (r: &Vec<Option<SpritePixel>>)
        requires
            self.wf(),
            priority < 4,
        ensures
            r == self.priority_buffers@[priority as int],
    {
        &self.priority_buffers[priority as usize]
    }
}

/// A small grid product stays small.
proof fn lemma_tile_grid_bound(tile_y: u16, tiles_per_row: u16)
    by (nonlinear_arith)
    requires
        tile_y <= 7,
        tiles_per_row <= 8,
    ensures
        tile_y * tiles_per_row <= 56,
{
}

/// A row of 256 empty sprite pixels.
fn none_row() -> (r: Vec<Option<SpritePixel>>)
    ensures
        r@.len() == 256,
{
    let mut v: Vec<Option<SpritePixel>> = Vec::new();
    let mut i: usize = 0;
    while i < 256
        invariant
            v@.len() == i,
            i <= 256,
        decreases 256 - i,
    {
        v.push(None);
        i = i + 1;
    }
    v
}

/// Stores one pixel into a priority plane, keeping every plane's size.
fn set_pixel(planes: &mut Vec<Vec<Option<SpritePixel>>>, plane: usize, x: usize, pixel: SpritePixel)
    requires
        old(planes)@.len() == 4,
        forall|i: int| 0 <= i < 4 ==> (#[trigger] old(planes)@[i])@.len() == 256,
        plane < 4,
        x < 256,
    ensures
        final(planes)@.len() == 4,
        forall|i: int| 0 <= i < 4 ==> (#[trigger] final(planes)@[i])@.len() == 256,
        final(planes)@[plane as int]@ == old(planes)@[plane as int]@.update(
            x as int,
            Some(pixel),
        ),
        forall|i: int|
            0 <= i < 4 && i != plane ==> final(planes)@[i] == old(planes)@[i],
{
    let row = &mut planes[plane];
    row[x] = Some(pixel);
}

} // verus!
