use vstd::prelude::*;

verus! {

/// Scroll positions, window bounds and screen designations, tracked
/// from the raw register stream. Scroll registers are write-twice: the
/// previous byte written supplies the upper bits.
#[derive(Debug, Clone, Copy)]
pub struct ScrollingEngine {
    pub bg1_hscroll: u16,
    pub bg1_vscroll: u16,
    pub bg2_hscroll: u16,
    pub bg2_vscroll: u16,
    pub bg3_hscroll: u16,
    pub bg3_vscroll: u16,
    pub bg4_hscroll: u16,
    pub bg4_vscroll: u16,
    pub m7_hscroll: u16,
    pub m7_vscroll: u16,
    pub window1_left: u8,
    pub window1_right: u8,
    pub window2_left: u8,
    pub window2_right: u8,
    pub window_mask_bg: [u8; 4],
    pub window_mask_obj: u8,
    pub window_mask_color: u8,
    pub window_logic_bg: [u8; 4],
    pub window_logic_obj: u8,
    pub window_logic_color: u8,
    pub main_screen_designation: u8,
    pub sub_screen_designation: u8,
    pub color_math_control: u8,
    pub fixed_color: u16,
    pub prev_write: u8,
    pub write_toggle: bool,
}

/// How a fixed-colour write lands: each of the three channel-select
/// bits gates a five-bit field.
pub open spec fn spec_coldata(fixed: u16, value: u8) -> u16 {
    let f1 = if value & 0x20 != 0 {
        (fixed & 0xFFE0) | ((value & 0x1F) as u16)
    } else {
        fixed
    };
    let f2 = if value & 0x40 != 0 {
        (f1 & 0xFC1F) | (((value & 0x1F) as u16) << 5)
    } else {
        f1
    };
    if value & 0x80 != 0 {
        (f2 & 0x03FF) | (((value & 0x1F) as u16) << 10)
    } else {
        f2
    }
}

impl ScrollingEngine {
    pub open spec fn initial_state() -> ScrollingEngine {
        ScrollingEngine {
            bg1_hscroll: 0,
            bg1_vscroll: 0,
            bg2_hscroll: 0,
            bg2_vscroll: 0,
            bg3_hscroll: 0,
            bg3_vscroll: 0,
            bg4_hscroll: 0,
            bg4_vscroll: 0,
            m7_hscroll: 0,
            m7_vscroll: 0,
            window1_left: 0,
            window1_right: 0,
            window2_left: 0,
            window2_right: 0,
            window_mask_bg: [0, 0, 0, 0],
            window_mask_obj: 0,
            window_mask_color: 0,
            window_logic_bg: [0, 0, 0, 0],
            window_logic_obj: 0,
            window_logic_color: 0,
            main_screen_designation: 0,
            sub_screen_designation: 0,
            color_math_control: 0,
            fixed_color: 0,
            prev_write: 0,
            write_toggle: false,
        }
    }

    /// What one register write does to the scroll state.
    pub open spec fn spec_write(self, address: u16, value: u8) -> ScrollingEngine {
        if false {
            self
        } else if address == 0x210D {
            ScrollingEngine {
                bg1_hscroll: ((self.bg1_hscroll & 0xFF00) | (value as u16)) | (((self.prev_write & 0x03) as u16) << 8),
                prev_write: value,
                ..self
            }
        } else if address == 0x210E {
            ScrollingEngine {
                bg1_vscroll: ((self.bg1_vscroll & 0xFF00) | (value as u16)) | (((self.prev_write & 0x03) as u16) << 8),
                prev_write: value,
                ..self
            }
        } else if address == 0x210F {
            ScrollingEngine {
                bg2_hscroll: ((self.bg2_hscroll & 0xFF00) | (value as u16)) | (((self.prev_write & 0x03) as u16) << 8),
                prev_write: value,
                ..self
            }
        } else if address == 0x2110 {
            ScrollingEngine {
                bg2_vscroll: ((self.bg2_vscroll & 0xFF00) | (value as u16)) | (((self.prev_write & 0x03) as u16) << 8),
                prev_write: value,
                ..self
            }
        } else if address == 0x2111 {
            ScrollingEngine {
                bg3_hscroll: ((self.bg3_hscroll & 0xFF00) | (value as u16)) | (((self.prev_write & 0x03) as u16) << 8),
                prev_write: value,
                ..self
            }
        } else if address == 0x2112 {
            ScrollingEngine {
                bg3_vscroll: ((self.bg3_vscroll & 0xFF00) | (value as u16)) | (((self.prev_write & 0x03) as u16) << 8),
                prev_write: value,
                ..self
            }
        } else if address == 0x2113 {
            ScrollingEngine {
                bg4_hscroll: ((self.bg4_hscroll & 0xFF00) | (value as u16)) | (((self.prev_write & 0x03) as u16) << 8),
                prev_write: value,
                ..self
            }
        } else if address == 0x2114 {
            ScrollingEngine {
                bg4_vscroll: ((self.bg4_vscroll & 0xFF00) | (value as u16)) | (((self.prev_write & 0x01) as u16) << 8),
                prev_write: value,
                ..self
            }
        } else if address == 0x211F {
            ScrollingEngine {
                m7_hscroll: ((self.m7_hscroll & 0xFF00) | (value as u16)) | (((self.prev_write & 0x1F) as u16) << 8),
                prev_write: value,
                ..self
            }
        } else if address == 0x2120 {
            ScrollingEngine {
                m7_vscroll: ((self.m7_vscroll & 0xFF00) | (value as u16)) | (((self.prev_write & 0x1F) as u16) << 8),
                prev_write: value,
                ..self
            }
        } else if address == 0x2126 {
            ScrollingEngine { window1_left: value, ..self }
        } else if address == 0x2127 {
            ScrollingEngine { window1_right: value, ..self }
        } else if address == 0x2128 {
            ScrollingEngine { window2_left: value, ..self }
        } else if address == 0x2129 {
            ScrollingEngine { window2_right: value, ..self }
        } else if address == 0x212A {
            ScrollingEngine {
                window_logic_bg: [
                    value & 0x03,
                    (value >> 2) & 0x03,
                    (value >> 4) & 0x03,
                    (value >> 6) & 0x03,
                ],
                ..self
            }
        } else if address == 0x212B {
            ScrollingEngine {
                window_logic_obj: value & 0x03,
                window_logic_color: (value >> 2) & 0x03,
                ..self
            }
        } else if address == 0x212C {
            ScrollingEngine { main_screen_designation: value & 0x1F, ..self }
        } else if address == 0x212D {
            ScrollingEngine { sub_screen_designation: value & 0x1F, ..self }
        } else if address == 0x212E {
            ScrollingEngine {
                window_mask_bg: [
                    value & 0x01,
                    (value >> 1) & 0x01,
                    (value >> 2) & 0x01,
                    (value >> 3) & 0x01,
                ],
                window_mask_obj: (value >> 4) & 0x01,
                ..self
            }
        } else if address == 0x2130 {
            ScrollingEngine { color_math_control: value, ..self }
        } else if address == 0x2132 {
            ScrollingEngine { fixed_color: spec_coldata(self.fixed_color, value), ..self }
        } else {
            self
        }
    }

    pub fn new() -> (r: Self)
        ensures
            r == ScrollingEngine::initial_state(),
    {
        ScrollingEngine {
            bg1_hscroll: 0,
            bg1_vscroll: 0,
            bg2_hscroll: 0,
            bg2_vscroll: 0,
            bg3_hscroll: 0,
            bg3_vscroll: 0,
            bg4_hscroll: 0,
            bg4_vscroll: 0,
            m7_hscroll: 0,
            m7_vscroll: 0,
            window1_left: 0,
            window1_right: 0,
            window2_left: 0,
            window2_right: 0,
            window_mask_bg: [0, 0, 0, 0],
            window_mask_obj: 0,
            window_mask_color: 0,
            window_logic_bg: [0, 0, 0, 0],
            window_logic_obj: 0,
            window_logic_color: 0,
            main_screen_designation: 0,
            sub_screen_designation: 0,
            color_math_control: 0,
            fixed_color: 0,
            prev_write: 0,
            write_toggle: false,
        }
    }

    pub fn reset(&mut self)
        ensures
            *final(self) == ScrollingEngine::initial_state(),
    {
        *self = Self::new();
    }

    #[verifier::rlimit(60)]
    pub fn write_register(&mut self, address: u16, value: u8)
        ensures
            *final(self) == old(self).spec_write(address, value),
    {
        if false {
        } else if address == 0x210D {
            self.bg1_hscroll = ((self.bg1_hscroll & 0xFF00) | (value as u16)) | (((self.prev_write & 0x03) as u16) << 8);
            self.prev_write = value;
        } else if address == 0x210E {
            self.bg1_vscroll = ((self.bg1_vscroll & 0xFF00) | (value as u16)) | (((self.prev_write & 0x03) as u16) << 8);
            self.prev_write = value;
        } else if address == 0x210F {
            self.bg2_hscroll = ((self.bg2_hscroll & 0xFF00) | (value as u16)) | (((self.prev_write & 0x03) as u16) << 8);
            self.prev_write = value;
        } else if address == 0x2110 {
            self.bg2_vscroll = ((self.bg2_vscroll & 0xFF00) | (value as u16)) | (((self.prev_write & 0x03) as u16) << 8);
            self.prev_write = value;
        } else if address == 0x2111 {
            self.bg3_hscroll = ((self.bg3_hscroll & 0xFF00) | (value as u16)) | (((self.prev_write & 0x03) as u16) << 8);
            self.prev_write = value;
        } else if address == 0x2112 {
            self.bg3_vscroll = ((self.bg3_vscroll & 0xFF00) | (value as u16)) | (((self.prev_write & 0x03) as u16) << 8);
            self.prev_write = value;
        } else if address == 0x2113 {
            self.bg4_hscroll = ((self.bg4_hscroll & 0xFF00) | (value as u16)) | (((self.prev_write & 0x03) as u16) << 8);
            self.prev_write = value;
        } else if address == 0x2114 {
            self.bg4_vscroll = ((self.bg4_vscroll & 0xFF00) | (value as u16)) | (((self.prev_write & 0x01) as u16) << 8);
            self.prev_write = value;
        } else if address == 0x211F {
            self.m7_hscroll = ((self.m7_hscroll & 0xFF00) | (value as u16)) | (((self.prev_write & 0x1F) as u16) << 8);
            self.prev_write = value;
        } else if address == 0x2120 {
            self.m7_vscroll = ((self.m7_vscroll & 0xFF00) | (value as u16)) | (((self.prev_write & 0x1F) as u16) << 8);
            self.prev_write = value;
        } else if address == 0x2126 {
            self.window1_left = value;
        } else if address == 0x2127 {
            self.window1_right = value;
        } else if address == 0x2128 {
            self.window2_left = value;
        } else if address == 0x2129 {
            self.window2_right = value;
        } else if address == 0x212A {
            self.window_logic_bg = [
                value & 0x03,
                (value >> 2) & 0x03,
                (value >> 4) & 0x03,
                (value >> 6) & 0x03,
            ];
        } else if address == 0x212B {
            self.window_logic_obj = value & 0x03;
            self.window_logic_color = (value >> 2) & 0x03;
        } else if address == 0x212C {
            self.main_screen_designation = value & 0x1F;
        } else if address == 0x212D {
            self.sub_screen_designation = value & 0x1F;
        } else if address == 0x212E {
            self.window_mask_bg = [
                value & 0x01,
                (value >> 1) & 0x01,
                (value >> 2) & 0x01,
                (value >> 3) & 0x01,
            ];
            self.window_mask_obj = (value >> 4) & 0x01;
        } else if address == 0x2130 {
            self.color_math_control = value;
        } else if address == 0x2132 {
            let mut fixed = self.fixed_color;
            if value & 0x20 != 0 {
                fixed = (fixed & 0xFFE0) | ((value & 0x1F) as u16);
            }
            if value & 0x40 != 0 {
                fixed = (fixed & 0xFC1F) | (((value & 0x1F) as u16) << 5);
            }
            if value & 0x80 != 0 {
                fixed = (fixed & 0x03FF) | (((value & 0x1F) as u16) << 10);
            }
            self.fixed_color = fixed;
        }
    }

    /// The scroll pair of one background layer.
    pub fn get_bg_scroll(&self, bg_num: u8) -> (r: (u16, u16))
        ensures
            bg_num == 1 ==> r == (self.bg1_hscroll, self.bg1_vscroll),
            bg_num == 2 ==> r == (self.bg2_hscroll, self.bg2_vscroll),
            bg_num == 3 ==> r == (self.bg3_hscroll, self.bg3_vscroll),
            bg_num == 4 ==> r == (self.bg4_hscroll, self.bg4_vscroll),
            (bg_num == 0 || bg_num > 4) ==> r == (0u16, 0u16),
    {
        match bg_num {
            1 => (self.bg1_hscroll, self.bg1_vscroll),
            2 => (self.bg2_hscroll, self.bg2_vscroll),
            3 => (self.bg3_hscroll, self.bg3_vscroll),
            4 => (self.bg4_hscroll, self.bg4_vscroll),
            _ => (0, 0),
        }
    }

    pub fn get_mode7_scroll(&self) -> (r: (u16, u16))
        ensures
            r == (self.m7_hscroll, self.m7_vscroll),
    {
        (self.m7_hscroll, self.m7_vscroll)
    }

    /// Whether a screen column lies inside one of the two windows.
    pub open spec fn spec_in_window(self, x: u16, window_num: u8) -> bool {
        if window_num == 1 {
            self.window1_left <= x <= self.window1_right
        } else if window_num == 2 {
            self.window2_left <= x <= self.window2_right
        } else {
            false
        }
    }

    pub fn is_in_window(&self, x: u16, window_num: u8) -> (r: bool)
        ensures
            r == self.spec_in_window(x, window_num),
    {
        match window_num {
            1 => x >= self.window1_left as u16 && x <= self.window1_right as u16,
            2 => x >= self.window2_left as u16 && x <= self.window2_right as u16,
            _ => false,
        }
    }

    /// The masked window test for a background: without a mask the
    /// column passes; with one, the two window bits combine under the
    /// layer's logic operation.
    pub open spec fn spec_window_logic(self, bg_num: u8, x: u16) -> bool {
        let mask = self.window_mask_bg[bg_num as int - 1];
        if mask == 0 {
            true
        } else {
            let w1 = self.spec_in_window(x, 1);
            let w2 = self.spec_in_window(x, 2);
            let logic = self.window_logic_bg[bg_num as int - 1];
            if logic == 0 {
                w1 || w2
            } else if logic == 1 {
                w1 && w2
            } else if logic == 2 {
                w1 != w2
            } else if logic == 3 {
                !(w1 != w2)
            } else {
                true
            }
        }
    }

    pub fn apply_window_logic(&self, bg_num: u8, x: u16) -> (r: bool)
        requires
            1 <= bg_num <= 4,
        ensures
            r == self.spec_window_logic(bg_num, x),
    {
        let window_mask = self.window_mask_bg[(bg_num - 1) as usize];
        if window_mask == 0 {
            return true;
        }
        let in_window1 = self.is_in_window(x, 1);
        let in_window2 = self.is_in_window(x, 2);
        let logic = self.window_logic_bg[(bg_num - 1) as usize];
        match logic {
            0 => in_window1 || in_window2,
            1 => in_window1 && in_window2,
            2 => in_window1 != in_window2,
            3 => !(in_window1 != in_window2),
            _ => true,
        }
    }

    pub fn is_bg_on_main_screen(&self, bg_num: u8) -> (r: bool)
        requires
            1 <= bg_num <= 4,
        ensures
            r == (self.main_screen_designation & (1u8 << ((bg_num - 1) as u8)) != 0),
    {
        (self.main_screen_designation & (1u8 << (bg_num - 1))) != 0
    }

    pub fn is_bg_on_sub_screen(&self, bg_num: u8) -> (r: bool)
        requires
            1 <= bg_num <= 4,
        ensures
            r == (self.sub_screen_designation & (1u8 << ((bg_num - 1) as u8)) != 0),
    {
        (self.sub_screen_designation & (1u8 << (bg_num - 1))) != 0
    }

    pub fn is_obj_on_main_screen(&self) -> (r: bool)
        ensures
            r == (self.main_screen_designation & 0x10 != 0),
    {
        (self.main_screen_designation & 0x10) != 0
    }

    pub fn is_obj_on_sub_screen(&self) -> (r: bool)
        ensures
            r == (self.sub_screen_designation & 0x10 != 0),
    {
        (self.sub_screen_designation & 0x10) != 0
    }
}

} // verus!
