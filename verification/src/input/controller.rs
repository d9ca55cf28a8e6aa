use vstd::prelude::*;

verus! {

pub const BUTTON_B: u16 = 0x8000;
pub const BUTTON_Y: u16 = 0x4000;
pub const BUTTON_SELECT: u16 = 0x2000;
pub const BUTTON_START: u16 = 0x1000;
pub const BUTTON_UP: u16 = 0x0800;
pub const BUTTON_DOWN: u16 = 0x0400;
pub const BUTTON_LEFT: u16 = 0x0200;
pub const BUTTON_RIGHT: u16 = 0x0100;
pub const BUTTON_A: u16 = 0x0080;
pub const BUTTON_X: u16 = 0x0040;
pub const BUTTON_L: u16 = 0x0020;
pub const BUTTON_R: u16 = 0x0010;

/// A standard game pad: a latched button state and the shift register
/// that serialises it one bit per read, most significant bit first.
#[derive(Clone, Copy, PartialEq, Eq, Structural, Debug)]
pub struct Controller {
    pub state: u16,
    pub shift_register: u16,
    pub strobe: bool,
}

impl Controller {
    pub open spec fn initial_state() -> Controller {
        Controller { state: 0, shift_register: 0, strobe: false }
    }

    /// New state is latched at once; the shift register follows only
    /// while the strobe line is low.
    pub open spec fn spec_set_state(self, buttons: u16) -> Controller {
        if !self.strobe {
            Controller { state: buttons, shift_register: buttons, ..self }
        } else {
            Controller { state: buttons, ..self }
        }
    }

    /// A falling strobe edge reloads the shift register from the state.
    pub open spec fn spec_strobe(self, value: bool) -> Controller {
        if self.strobe && !value {
            Controller { strobe: value, shift_register: self.state, ..self }
        } else {
            Controller { strobe: value, ..self }
        }
    }

    /// The bit a read returns: the first button while strobing, else the
    /// top bit of the shift register.
    pub open spec fn spec_read_bit(self) -> u8 {
        if self.strobe {
            if self.state & BUTTON_A != 0 { 1 } else { 0 }
        } else {
            if self.shift_register & 0x8000 != 0 { 1 } else { 0 }
        }
    }

    /// After a non-strobed read the register shifts left and pads with 1.
    pub open spec fn spec_after_read(self) -> Controller {
        if self.strobe {
            self
        } else {
            Controller { shift_register: (self.shift_register << 1) | 1, ..self }
        }
    }

    pub fn new() -> (r: Self)
        ensures
            r == Controller::initial_state(),
    {
        Self { state: 0, shift_register: 0, strobe: false }
    }

    pub fn set_state(&mut self, buttons: u16)
        ensures
            *final(self) == old(self).spec_set_state(buttons),
    {
        self.state = buttons;
        if !self.strobe {
            self.shift_register = self.state;
        }
    }

    pub fn strobe(&mut self, value: bool)
        ensures
            *final(self) == old(self).spec_strobe(value),
    {
        let was_strobing = self.strobe;
        self.strobe = value;
        if was_strobing && !value {
            self.shift_register = self.state;
        }
    }

    pub fn read(&mut self) -> (r: u8)
        ensures
            r == old(self).spec_read_bit(),
            *final(self) == old(self).spec_after_read(),
    {
        if self.strobe {
            if (self.state & BUTTON_A) != 0 { 1 } else { 0 }
        } else {
            let bit: u8 = if (self.shift_register & 0x8000) != 0 { 1 } else { 0 };
            self.shift_register = self.shift_register << 1;
            self.shift_register = self.shift_register | 1;
            bit
        }
    }

    pub fn get_state(&self) -> (r: u16)
        ensures
            r == self.state,
    {
        self.state
    }

    pub fn is_pressed(&self, button: u16) -> (r: bool)
        ensures
            r == (self.state & button != 0),
    {
        (self.state & button) != 0
    }
}

} // verus!
