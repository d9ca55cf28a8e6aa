use vstd::prelude::*;
use crate::cartridge::loader::zero_bytes;

verus! {

/// Video RAM: 64 KiB of tiles, tile maps and rotation-mode data.
pub struct Vram {
    pub data: Vec<u8>,
}

impl View for Vram {
    type V = Seq<u8>;

    open spec fn view(&self) -> Seq<u8> {
        self.data@
    }
}

impl Vram {
    pub open spec fn wf(self) -> bool {
        self@.len() == 0x10000
    }

    pub fn new() -> (r: Self)
        ensures
            r.wf(),
            r@ == Seq::new(0x10000, |i: int| 0u8),
    {
        Self { data: zero_bytes(0x10000) }
    }

    pub fn reset(&mut self)
        requires
            old(self).wf(),
        ensures
            final(self).wf(),
            final(self)@ == Seq::new(0x10000, |i: int| 0u8),
    {
        self.data = zero_bytes(0x10000);
    }

    pub fn read(&self, address: u16) -> (r: u8)
        requires
            self.wf(),
        ensures
            r == self@[address as int],
    {
        self.data[address as usize]
    }

    pub fn write(&mut self, address: u16, value: u8)
        requires
            old(self).wf(),
        ensures
            final(self).wf(),
            final(self)@ == old(self)@.update(address as int, value),
    {
        self.data[address as usize] = value;
    }

    /// A little-endian 16-bit read; the second byte wraps around the
    /// top of the address space.
    pub open spec fn spec_read16(self, address: u16) -> u16 {
        (self@[address as int] as u16) | ((self@[address.wrapping_add(1) as int] as u16) << 8)
    }

    pub fn read16(&self, address: u16) -> (r: u16)
        requires
            self.wf(),
        ensures
            r == self.spec_read16(address),
    {
        let low = self.read(address) as u16;
        let high = self.read(address.wrapping_add(1)) as u16;
        low | (high << 8)
    }

    pub fn write16(&mut self, address: u16, value: u16)
        requires
            old(self).wf(),
        ensures
            final(self).wf(),
            final(self)@ == old(self)@.update(address as int, (value & 0xFF) as u8).update(
                address.wrapping_add(1) as int,
                (value >> 8) as u8,
            ),
    {
        self.write(address, (value & 0xFF) as u8);
        self.write(address.wrapping_add(1), (value >> 8) as u8);
    }

    pub fn get_data(&self) -> (r: &[u8])
        ensures
            r@ == self@,
    {
        self.data.as_slice()
    }
}

/// Palette RAM: 256 colours of two bytes each.
pub struct Cgram {
    pub data: Vec<u8>,
}

impl View for Cgram {
    type V = Seq<u8>;

    open spec fn view(&self) -> Seq<u8> {
        self.data@
    }
}

impl Cgram {
    pub open spec fn wf(self) -> bool {
        self@.len() == 0x200
    }

    pub fn new() -> (r: Self)
        ensures
            r.wf(),
            r@ == Seq::new(0x200, |i: int| 0u8),
    {
        Self { data: zero_bytes(0x200) }
    }

    pub fn reset(&mut self)
        requires
            old(self).wf(),
        ensures
            final(self).wf(),
            final(self)@ == Seq::new(0x200, |i: int| 0u8),
    {
        self.data = zero_bytes(0x200);
    }

    pub fn read(&self, address: u8) -> (r: u8)
        requires
            self.wf(),
        ensures
            r == self@[address as int],
    {
        self.data[address as usize]
    }

    pub fn write(&mut self, address: u8, value: u8)
        requires
            old(self).wf(),
        ensures
            final(self).wf(),
            final(self)@ == old(self)@.update(address as int, value),
    {
        self.data[address as usize] = value;
    }

    /// The 15-bit colour word of one palette entry.
    pub open spec fn spec_color(self, index: u8) -> u16 {
        (self@[index as int * 2] as u16) | ((self@[index as int * 2 + 1] as u16) << 8)
    }

    pub fn read_color(&self, index: u8) -> (r: u16)
        requires
            self.wf(),
        ensures
            r == self.spec_color(index),
    {
        let base = (index as usize) * 2;
        let low = self.data[base] as u16;
        let high = self.data[base + 1] as u16;
        low | (high << 8)
    }

    pub fn write_color(&mut self, index: u8, color: u16)
        requires
            old(self).wf(),
        ensures
            final(self).wf(),
            final(self)@ == old(self)@.update(index as int * 2, (color & 0xFF) as u8).update(
                index as int * 2 + 1,
                (color >> 8) as u8,
            ),
    {
        let base = (index as usize) * 2;
        self.data[base] = (color & 0xFF) as u8;
        self.data[base + 1] = (color >> 8) as u8;
    }

    /// A packed 5-bit-per-channel colour widened to 8-bit channels.
    pub open spec fn spec_color_to_rgb(color: u16) -> (u8, u8, u8) {
        (
            ((color & 0x001F) << 3) as u8,
            (((color & 0x03E0) >> 5) << 3) as u8,
            (((color & 0x7C00) >> 10) << 3) as u8,
        )
    }

    pub fn color_to_rgb(&self, color: u16) -> (r: (u8, u8, u8))
        ensures
            r == Self::spec_color_to_rgb(color),
    {
        let r8 = ((color & 0x001F) << 3) as u8;
        let g8 = (((color & 0x03E0) >> 5) << 3) as u8;
        let b8 = (((color & 0x7C00) >> 10) << 3) as u8;
        (r8, g8, b8)
    }

    pub fn get_data(&self) -> (r: &[u8])
        ensures
            r@ == self@,
    {
        self.data.as_slice()
    }
}

/// Attributes of one sprite, unpacked from the two object tables.
#[derive(Debug, Clone, Copy, PartialEq, Eq, Structural)]
pub struct SpriteAttributes {
    pub x: i16,
    pub y: u8,
    pub tile: u16,
    pub palette: u8,
    pub priority: u8,
    pub h_flip: bool,
    pub v_flip: bool,
    pub size: bool,
}

/// Object attribute memory: a low table of four bytes per sprite and a
/// high table of two extra bits per sprite.
pub struct Oam {
    pub low_table: Vec<u8>,
    pub high_table: Vec<u8>,
}

/// The two object tables as sequences.
pub struct OamSnap {
    pub low: Seq<u8>,
    pub high: Seq<u8>,
}

impl View for Oam {
    type V = OamSnap;

    open spec fn view(&self) -> OamSnap {
        OamSnap { low: self.low_table@, high: self.high_table@ }
    }
}

impl Oam {
    pub open spec fn wf(self) -> bool {
        self@.low.len() == 512 && self@.high.len() == 32
    }

    pub fn new() -> (r: Self)
        ensures
            r.wf(),
            r@.low == Seq::new(512, |i: int| 0u8),
            r@.high == Seq::new(32, |i: int| 0u8),
    {
        Self { low_table: zero_bytes(512), high_table: zero_bytes(32) }
    }

    pub fn reset(&mut self)
        requires
            old(self).wf(),
        ensures
            final(self).wf(),
            final(self)@.low == Seq::new(512, |i: int| 0u8),
            final(self)@.high == Seq::new(32, |i: int| 0u8),
    {
        self.low_table = zero_bytes(512);
        self.high_table = zero_bytes(32);
    }

    /// Addresses below 512 read the low table; the rest, modulo its
    /// size, the high table.
    pub open spec fn spec_read(self, address: u16) -> u8 {
        if address < 512 {
            self@.low[address as int]
        } else if address < 544 {
            self@.high[address - 512]
        } else {
            0
        }
    }

    pub fn read(&self, address: u16) -> (r: u8)
        requires
            self.wf(),
        ensures
            r == self.spec_read(address),
    {
        if address < 512 {
            self.low_table[address as usize]
        } else if address < 544 {
            self.high_table[(address - 512) as usize]
        } else {
            0
        }
    }

    pub open spec fn spec_write(self, address: u16, value: u8) -> OamSnap {
        if address < 512 {
            OamSnap { low: self@.low.update(address as int, value), ..self@ }
        } else if address < 544 {
            OamSnap { high: self@.high.update(address - 512, value), ..self@ }
        } else {
            self@
        }
    }

    pub fn write(&mut self, address: u16, value: u8)
        requires
            old(self).wf(),
        ensures
            final(self).wf(),
            final(self)@ == old(self).spec_write(address, value),
    {
        if address < 512 {
            self.low_table[address as usize] = value;
        } else if address < 544 {
            self.high_table[(address - 512) as usize] = value;
        }
    }

    /// The unpacked attributes of one sprite: position with its ninth
    /// bit, tile index with its bank bit, palette, priority, flips and
    /// the size-select bit.
    pub open spec fn spec_sprite(self, index: u8) -> SpriteAttributes {
        let base = index as int * 4;
        let x_low = self@.low[base] as i16;
        let y = self@.low[base + 1];
        let tile_low = self@.low[base + 2] as u16;
        let attrs = self@.low[base + 3];
        let high_byte = self@.high[index as int / 4];
        let high_bits = (high_byte >> ((index % 4) * 2)) & 0x03;
        let x = if high_bits & 0x01 != 0 {
            (x_low - 256) as i16
        } else {
            x_low
        };
        let tile = if attrs & 0x01 != 0 {
            tile_low | 256
        } else {
            tile_low
        };
        SpriteAttributes {
            x,
            y,
            tile,
            palette: (attrs >> 1) & 0x07,
            priority: (attrs >> 4) & 0x03,
            h_flip: attrs & 0x40 != 0,
            v_flip: attrs & 0x80 != 0,
            size: high_bits & 0x02 != 0,
        }
    }

    pub fn get_sprite(&self, index: u8) -> (r: SpriteAttributes)
        requires
            self.wf(),
            index < 128,
        ensures
            r == self.spec_sprite(index),
    {
        let base = (index as usize) * 4;
        let x_low = self.low_table[base] as i16;
        let y = self.low_table[base + 1];
        let tile_low = self.low_table[base + 2] as u16;
        let attrs = self.low_table[base + 3];
        let high_index = index / 4;
        let high_shift = (index % 4) * 2;
        let high_byte = self.high_table[high_index as usize];
        let high_bits = (high_byte >> high_shift) & 0x03;
        let x: i16 = if high_bits & 0x01 != 0 {
            x_low - 256
        } else {
            x_low
        };
        let tile: u16 = if attrs & 0x01 != 0 {
            tile_low | 256
        } else {
            tile_low
        };
        let palette = (attrs >> 1) & 0x07;
        let priority = (attrs >> 4) & 0x03;
        let h_flip = (attrs & 0x40) != 0;
        let v_flip = (attrs & 0x80) != 0;
        let size = (high_bits & 0x02) != 0;
        SpriteAttributes { x, y, tile, palette, priority, h_flip, v_flip, size }
    }

    /// Packs sprite attributes back into the two tables.
    pub fn set_sprite(&mut self, index: u8, sprite: &SpriteAttributes)
        requires
            old(self).wf(),
            index < 128,
        ensures
            final(self).wf(),
            final(self).spec_sprite(index).y == sprite.y,
            final(self).spec_sprite(index).palette == sprite.palette & 0x07,
            final(self).spec_sprite(index).priority == sprite.priority & 0x03,
            final(self).spec_sprite(index).h_flip == sprite.h_flip,
            final(self).spec_sprite(index).v_flip == sprite.v_flip,
            final(self).spec_sprite(index).size == sprite.size,
    {
        let base = (index as usize) * 4;
        self.low_table[base] = (sprite.x & 0xFF) as u8;
        self.low_table[base + 1] = sprite.y;
        self.low_table[base + 2] = (sprite.tile & 0xFF) as u8;
        let attrs: u8 = ((((if sprite.tile > 255 {
            0x01u8
        } else {
            0u8
        }) | ((sprite.palette & 0x07) << 1)) | ((sprite.priority & 0x03) << 4)) | (
        if sprite.h_flip {
            0x40u8
        } else {
            0u8
        })) | (if sprite.v_flip {
            0x80u8
        } else {
            0u8
        });
        self.low_table[base + 3] = attrs;
        let high_index = index / 4;
        let high_shift = (index % 4) * 2;
        let high_bits: u8 = (if sprite.x < 0 {
            0x01u8
        } else {
            0u8
        }) | (if sprite.size {
            0x02u8
        } else {
            0u8
        });
        let high_byte = (self.high_table[high_index as usize] & !(0x03u8 << high_shift)) | (
        high_bits << high_shift);
        self.high_table[high_index as usize] = high_byte;
        proof {
            lemma_sprite_pack_roundtrip(
                index,
                attrs,
                high_byte,
                old(self)@.high[index as int / 4],
                high_bits,
                sprite.palette,
                sprite.priority,
                sprite.h_flip,
                sprite.v_flip,
                sprite.size,
                sprite.tile,
                sprite.x,
            );
        }
    }

    /// The low table, as the save-state format stores it.
    pub fn get_data(&self) -> (r: &[u8])
        ensures
            r@ == self@.low,
    {
        self.low_table.as_slice()
    }
}

/// Packing sprite attribute fields and reading them back through the
/// shifted table bytes returns the original fields.
proof fn lemma_sprite_pack_roundtrip(
    index: u8,
    attrs: u8,
    high_byte: u8,
    old_high: u8,
    high_bits: u8,
    palette: u8,
    priority: u8,
    h_flip: bool,
    v_flip: bool,
    size: bool,
    tile: u16,
    x: i16,
)
    by (bit_vector)
    requires
        index < 128,
        attrs == ((((if tile > 255 {
            0x01u8
        } else {
            0u8
        }) | ((palette & 0x07) << 1)) | ((priority & 0x03) << 4)) | (if h_flip {
            0x40u8
        } else {
            0u8
        })) | (if v_flip {
            0x80u8
        } else {
            0u8
        }),
        high_bits == (if x < 0 {
            0x01u8
        } else {
            0u8
        }) | (if size {
            0x02u8
        } else {
            0u8
        }),
        high_byte == (old_high & !(0x03u8 << ((index % 4) * 2))) | (high_bits << ((index % 4) * 2)),
    ensures
        (attrs >> 1) & 0x07 == palette & 0x07,
        (attrs >> 4) & 0x03 == priority & 0x03,
        (attrs & 0x40 != 0) == h_flip,
        (attrs & 0x80 != 0) == v_flip,
        (((high_byte >> ((index % 4) * 2)) & 0x03) & 0x02 != 0) == size,
{
}

} // verus!
