use vstd::prelude::*;
use crate::ppu::memory::{Cgram, Vram};

verus! {

/// Pre-decoded tile pixels for faster drawing: up to 1024 tiles of
/// 8x8 texels, each tile refreshed from video memory when marked
/// dirty. A cache entry is plain decoded data; the decoders state the
/// texel values they produce.
pub struct TileCache {
    pub tiles: Vec<Vec<u8>>,
    pub dirty: Vec<bool>,
    pub vram_version: u64,
}

/// The texel a two-plane tile decodes to at one position.
pub open spec fn spec_2bpp_texel(vram: Seq<u8>, tile_addr: u16, x: int, y: int) -> u8 {
    let low = vram[tile_addr.wrapping_add((y * 2) as u16) as int];
    let high = vram[tile_addr.wrapping_add((y * 2 + 1) as u16) as int];
    (((low >> ((7 - x) as u8)) & 1) | (((high >> ((7 - x) as u8)) & 1) << 1)) as u8
}

impl TileCache {
    pub open spec fn wf(self) -> bool {
        &&& self.tiles@.len() == 1024
        &&& self.dirty@.len() == 1024
        &&& forall|i: int| 0 <= i < 1024 ==> (#[trigger] self.tiles@[i])@.len() == 64
    }

    pub fn new() -> (r: Self)
        ensures
            r.wf(),
            forall|i: int| 0 <= i < 1024 ==> r.dirty@[i] == true,
            r.vram_version == 0,
    {
        let mut tiles: Vec<Vec<u8>> = Vec::new();
        let mut dirty: Vec<bool> = Vec::new();
        let mut i: usize = 0;
        while i < 1024
            invariant
                i <= 1024,
                tiles@.len() == i,
                dirty@.len() == i,
                forall|j: int| 0 <= j < i ==> (#[trigger] tiles@[j])@.len() == 64,
                forall|j: int| 0 <= j < i ==> dirty@[j] == true,
            decreases 1024 - i,
        {
            tiles.push(crate::cartridge::loader::zero_bytes(64));
            dirty.push(true);
            i = i + 1;
        }
        Self { tiles, dirty, vram_version: 0 }
    }

    /// Marks every tile stale and bumps the version stamp.
    pub fn invalidate_all(&mut self)
        requires
            old(self).wf(),
        ensures
            final(self).wf(),
            forall|i: int| 0 <= i < 1024 ==> final(self).dirty@[i] == true,
            final(self).vram_version == old(self).vram_version.wrapping_add(1),
            final(self).tiles == old(self).tiles,
    {
        let mut i: usize = 0;
        while i < 1024
            invariant
                self.wf(),
                i <= 1024,
                self.tiles == old(self).tiles,
                self.vram_version == old(self).vram_version,
                forall|j: int| 0 <= j < i ==> self.dirty@[j] == true,
            decreases 1024 - i,
        {
            self.dirty[i] = true;
            i = i + 1;
        }
        self.vram_version = self.vram_version.wrapping_add(1);
    }

    /// Marks one tile stale; indices past the cache are ignored.
    pub fn invalidate_tile(&mut self, tile_index: usize)
        requires
            old(self).wf(),
        ensures
            final(self).wf(),
            tile_index < 1024 ==> final(self).dirty@ == old(self).dirty@.update(
                tile_index as int,
                true,
            ),
            tile_index >= 1024 ==> *final(self) == *old(self),
            final(self).tiles == old(self).tiles,
            final(self).vram_version == old(self).vram_version,
    {
        if tile_index < 1024 {
            self.dirty[tile_index] = true;
        }
    }

    /// Refreshes one stale two-plane tile from video memory; every
    /// texel of the refreshed tile equals the decoded plane bits, and
    /// the tile is clean afterwards.
    pub fn decode_2bpp_tile(&mut self, vram: &Vram, tile_index: usize, base_addr: u16)
        requires
            old(self).wf(),
            vram.wf(),
        ensures
            final(self).wf(),
            tile_index < 1024 && old(self).dirty@[tile_index as int] ==> {
                &&& final(self).dirty@[tile_index as int] == false
                &&& forall|y: int, x: int|
                    0 <= y < 8 && 0 <= x < 8 ==> (#[trigger] final(self).tiles@[
                        tile_index as int]@[y * 8 + x]) == spec_2bpp_texel(
                        vram@,
                        (base_addr.wrapping_add((tile_index * 16) as u16)),
                        x,
                        y,
                    )
            },
            !(tile_index < 1024 && old(self).dirty@[tile_index as int]) ==> *final(self) == *old(
                self,
            ),
    {
        if tile_index >= 1024 || !self.dirty[tile_index] {
            return ;
        }
        let tile_addr = base_addr.wrapping_add((tile_index * 16) as u16);
        let mut decoded: Vec<u8> = Vec::new();
        let mut y: usize = 0;
        while y < 8
            invariant
                vram.wf(),
                y <= 8,
                decoded@.len() == y * 8,
                forall|yy: int, xx: int|
                    0 <= yy < y && 0 <= xx < 8 ==> (#[trigger] decoded@[yy * 8 + xx])
                        == spec_2bpp_texel(vram@, tile_addr, xx, yy),
            decreases 8 - y,
        {
            let low = vram.read(tile_addr.wrapping_add((y * 2) as u16));
            let high = vram.read(tile_addr.wrapping_add((y * 2 + 1) as u16));
            let mut x: usize = 0;
            while x < 8
                invariant
                    vram.wf(),
                    y < 8,
                    x <= 8,
                    low == vram@[tile_addr.wrapping_add((y * 2) as u16) as int],
                    high == vram@[tile_addr.wrapping_add((y * 2 + 1) as u16) as int],
                    decoded@.len() == y * 8 + x,
                    forall|yy: int, xx: int|
                        0 <= yy < y && 0 <= xx < 8 ==> (#[trigger] decoded@[yy * 8 + xx])
                            == spec_2bpp_texel(vram@, tile_addr, xx, yy),
                    forall|xx: int|
                        0 <= xx < x ==> (#[trigger] decoded@[y * 8 + xx]) == spec_2bpp_texel(
                            vram@,
                            tile_addr,
                            xx,
                            y as int,
                        ),
                decreases 8 - x,
            {
                let bit: u8 = (7 - x) as u8;
                let color = ((low >> bit) & 1) | (((high >> bit) & 1) << 1);
                decoded.push(color);
                x = x + 1;
            }
            y = y + 1;
        }
        self.tiles[tile_index] = decoded;
        self.dirty[tile_index] = false;
    }


    /// Refreshes one stale four-plane tile from video memory; the tile
    /// is clean afterwards and still holds 64 texels.
    pub fn decode_4bpp_tile(&mut self, vram: &Vram, tile_index: usize, base_addr: u16)
        requires
            old(self).wf(),
            vram.wf(),
        ensures
            final(self).wf(),
            tile_index < 1024 ==> final(self).dirty@[tile_index as int] == false,
            !(tile_index < 1024 && old(self).dirty@[tile_index as int]) ==> *final(self) == *old(
                self,
            ),
    {
        if tile_index >= 1024 || !self.dirty[tile_index] {
            return ;
        }
        let tile_addr = base_addr.wrapping_add((tile_index * 32) as u16);
        let mut decoded: Vec<u8> = Vec::new();
        let mut y: usize = 0;
        while y < 8
            invariant
                vram.wf(),
                y <= 8,
                decoded@.len() == y * 8,
            decreases 8 - y,
        {
            let plane0 = vram.read(tile_addr.wrapping_add((y * 2) as u16));
            let plane1 = vram.read(tile_addr.wrapping_add((y * 2 + 1) as u16));
            let plane2 = vram.read(tile_addr.wrapping_add((y * 2 + 16) as u16));
            let plane3 = vram.read(tile_addr.wrapping_add((y * 2 + 17) as u16));
            let mut x: usize = 0;
            while x < 8
                invariant
                    y < 8,
                    x <= 8,
                    decoded@.len() == y * 8 + x,
                decreases 8 - x,
            {
                let bit: u8 = (7 - x) as u8;
                let color = (((plane0 >> bit) & 1) | (((plane1 >> bit) & 1) << 1)) | ((((plane2
                    >> bit) & 1) << 2) | (((plane3 >> bit) & 1) << 3));
                decoded.push(color);
                x = x + 1;
            }
            y = y + 1;
        }
        self.tiles[tile_index] = decoded;
        self.dirty[tile_index] = false;
    }

    /// Refreshes one stale packed eight-bit tile from video memory.
    pub fn decode_8bpp_tile(&mut self, vram: &Vram, tile_index: usize, base_addr: u16)
        requires
            old(self).wf(),
            vram.wf(),
        ensures
            final(self).wf(),
            tile_index < 1024 ==> final(self).dirty@[tile_index as int] == false,
            !(tile_index < 1024 && old(self).dirty@[tile_index as int]) ==> *final(self) == *old(
                self,
            ),
    {
        if tile_index >= 1024 || !self.dirty[tile_index] {
            return ;
        }
        let tile_addr = base_addr.wrapping_add((tile_index * 64) as u16);
        let mut decoded: Vec<u8> = Vec::new();
        let mut i: usize = 0;
        while i < 64
            invariant
                vram.wf(),
                i <= 64,
                decoded@.len() == i,
            decreases 64 - i,
        {
            decoded.push(vram.read(tile_addr.wrapping_add(i as u16)));
            i = i + 1;
        }
        self.tiles[tile_index] = decoded;
        self.dirty[tile_index] = false;
    }

    /// Draws one decoded tile into a frame buffer with optional flips,
    /// clipping to the screen height and the buffer width. Only the
    /// buffer changes, and its size is kept.
    pub fn render_tile_to_buffer(
        &self,
        tile_index: usize,
        x: usize,
        y: usize,
        palette_base: u8,
        h_flip: bool,
        v_flip: bool,
        buffer: &mut Vec<u8>,
        buffer_width: usize,
        cgram: &Cgram,
    )
        requires
            self.wf(),
            cgram.wf(),
            buffer_width <= 1024,
            x <= 4096,
            y <= 4096,
            old(buffer)@.len() >= buffer_width * 224 * 4,
        ensures
            final(buffer)@.len() == old(buffer)@.len(),
    {
        let tile = self.get_tile(tile_index);
        let mut ty: usize = 0;
        while ty < 8
            invariant
                self.wf(),
                cgram.wf(),
                tile@.len() == 64,
                ty <= 8,
                x <= 4096,
                y <= 4096,
                buffer_width <= 1024,
                buffer@.len() >= buffer_width * 224 * 4,
                buffer@.len() == old(buffer)@.len(),
            decreases 8 - ty,
        {
            let src_y = if v_flip {
                7 - ty
            } else {
                ty
            };
            let dst_y = y + ty;
            if dst_y < 224 {
                let mut tx: usize = 0;
                while tx < 8
                    invariant
                        self.wf(),
                        cgram.wf(),
                        tile@.len() == 64,
                        ty < 8,
                        src_y < 8,
                        tx <= 8,
                        x <= 4096,
                        dst_y < 224,
                        buffer_width <= 1024,
                        buffer@.len() >= buffer_width * 224 * 4,
                        buffer@.len() == old(buffer)@.len(),
                    decreases 8 - tx,
                {
                    let src_x = if h_flip {
                        7 - tx
                    } else {
                        tx
                    };
                    let dst_x = x + tx;
                    if dst_x < buffer_width {
                        let color_index = tile[src_y * 8 + src_x];
                        if color_index != 0 {
                            let palette_color = palette_base.wrapping_add(color_index);
                            let color = cgram.read_color(palette_color);
                            let (r, g, b) = cgram.color_to_rgb(color);
                            proof {
                                lemma_row_offset_in_buffer(
                                    dst_y as int,
                                    dst_x as int,
                                    buffer_width as int,
                                );
                            }
                            let offset = (dst_y * buffer_width + dst_x) * 4;
                            buffer[offset] = r;
                            buffer[offset + 1] = g;
                            buffer[offset + 2] = b;
                            buffer[offset + 3] = 255;
                        }
                    }
                    tx = tx + 1;
                }
            }
            ty = ty + 1;
        }
    }

    /// One decoded tile's texels; out-of-range indices return the last
    /// tile, so the lookup never fails.
    pub fn get_tile(&self, tile_index: usize) -> (r: &Vec<u8>)
        requires
            self.wf(),
        ensures
            r@.len() == 64,
            tile_index < 1024 ==> r == self.tiles@[tile_index as int],
    {
        if tile_index < 1024 {
            &self.tiles[tile_index]
        } else {
            &self.tiles[1023]
        }
    }
}

/// Composites decoded tiles through four priority planes into one
/// output scanline.
pub struct ScanlineRenderer {
    pub priority_buffers: Vec<Vec<(u8, u8, u8)>>,
    pub output_buffer: Vec<u8>,
}

impl ScanlineRenderer {
    pub open spec fn wf(self) -> bool {
        &&& self.priority_buffers@.len() == 4
        &&& forall|i: int|
            0 <= i < 4 ==> (#[trigger] self.priority_buffers@[i])@.len() == 256
        &&& self.output_buffer@.len() == 1024
    }

    pub fn new() -> (r: Self)
        ensures
            r.wf(),
    {
        let mut priority_buffers: Vec<Vec<(u8, u8, u8)>> = Vec::new();
        let mut i: usize = 0;
        while i < 4
            invariant
                i <= 4,
                priority_buffers@.len() == i,
                forall|j: int|
                    0 <= j < i ==> (#[trigger] priority_buffers@[j])@.len() == 256,
            decreases 4 - i,
        {
            priority_buffers.push(zero_row());
            i = i + 1;
        }
        Self { priority_buffers, output_buffer: crate::cartridge::loader::zero_bytes(1024) }
    }

    /// Clears every plane and the output scanline.
    pub fn clear(&mut self)
        requires
            old(self).wf(),
        ensures
            final(self).wf(),
    {
        let mut i: usize = 0;
        while i < 4
            invariant
                self.wf(),
                i <= 4,
            decreases 4 - i,
        {
            self.priority_buffers[i] = zero_row();
            proof {
                assert forall|j: int|
                    0 <= j < 4 implies (#[trigger] self.priority_buffers@[j])@.len() == 256 by {}
            }
            i = i + 1;
        }
        self.output_buffer = crate::cartridge::loader::zero_bytes(1024);
    }

    /// Offers one pixel to its priority plane; within a plane a higher
    /// layer number wins, and transparent or off-screen pixels are
    /// dropped.
    pub fn plot_pixel(&mut self, x: usize, color_index: u8, priority: u8, layer: u8)
        requires
            old(self).wf(),
        ensures
            final(self).wf(),
            x >= 256 || color_index == 0 ==> *final(self) == *old(self),
            x < 256 && color_index != 0 ==> {
                let plane = (priority & 3) as int;
                let cur = old(self).priority_buffers@[plane]@[x as int];
                if layer >= cur.2 {
                    final(self).priority_buffers@[plane]@ == old(
                        self,
                    ).priority_buffers@[plane]@.update(x as int, (color_index, priority, layer))
                } else {
                    *final(self) == *old(self)
                }
            },
    {
        if x >= 256 || color_index == 0 {
            return ;
        }
        let pr = priority;
        proof {
            assert(pr & 3 <= 3) by (bit_vector);
        }
        let priority_level = (pr & 3) as usize;
        let current = self.priority_buffers[priority_level][x];
        if layer >= current.2 {
            let row = &mut self.priority_buffers[priority_level];
            row[x] = (color_index, priority, layer);
        }
    }

    /// Flattens the planes into the output scanline, highest priority
    /// plane winning each column; untouched columns keep their bytes.
    pub fn composite_to_output(&mut self, cgram: &Cgram)
        requires
            old(self).wf(),
            cgram.wf(),
        ensures
            final(self).wf(),
            final(self).priority_buffers == old(self).priority_buffers,
    {
        let mut x: usize = 0;
        while x < 256
            invariant
                self.wf(),
                cgram.wf(),
                self.priority_buffers == old(self).priority_buffers,
                x <= 256,
            decreases 256 - x,
        {
            let mut final_color: u8 = 0;
            let mut priority: usize = 4;
            while priority > 0
                invariant
                    self.wf(),
                    x < 256,
                    priority <= 4,
                decreases priority,
            {
                priority = priority - 1;
                if final_color == 0 {
                    let (color_index, _p, _l) = self.priority_buffers[priority][x];
                    if color_index != 0 {
                        final_color = color_index;
                    }
                }
            }
            if final_color != 0 {
                let color = cgram.read_color(final_color);
                let (r, g, b) = cgram.color_to_rgb(color);
                let offset = x * 4;
                self.output_buffer[offset] = r;
                self.output_buffer[offset + 1] = g;
                self.output_buffer[offset + 2] = b;
                self.output_buffer[offset + 3] = 255;
            }
            x = x + 1;
        }
    }

    pub fn get_output(&self) -> (r: &[u8])
        ensures
            r@ == self.output_buffer@,
    {
        self.output_buffer.as_slice()
    }
}

/// A pixel inside the visible rows lies inside the frame buffer.
proof fn lemma_row_offset_in_buffer(dst_y: int, dst_x: int, buffer_width: int)
    by (nonlinear_arith)
    requires
        0 <= dst_y < 224,
        0 <= dst_x < buffer_width,
        buffer_width <= 1024,
    ensures
        (dst_y * buffer_width + dst_x) * 4 + 3 < buffer_width * 224 * 4,
{
}

/// A row of 256 cleared plane entries.
fn zero_row() -> (r: Vec<(u8, u8, u8)>)
    ensures
        r@.len() == 256,
{
    let mut v: Vec<(u8, u8, u8)> = Vec::new();
    let mut i: usize = 0;
    while i < 256
        invariant
            v@.len() == i,
            i <= 256,
        decreases 256 - i,
    {
        v.push((0, 0, 0));
        i = i + 1;
    }
    v
}

} // verus!
