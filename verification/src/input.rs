pub mod controller;

pub use controller::Controller;

use vstd::prelude::*;

verus! {

/// The two controller ports of the console.
pub struct Input {
    pub controller1: Controller,
    pub controller2: Controller,
}

impl Input {
    pub fn new() -> (r: Self)
        ensures
            r.controller1 == Controller::initial_state(),
            r.controller2 == Controller::initial_state(),
    {
        Self { controller1: Controller::new(), controller2: Controller::new() }
    }

    /// Latches a new button state for one player; other players are untouched.
    pub fn set_controller_state(&mut self, player: u8, buttons: u16)
        ensures
            player == 0 ==> *final(self) == (Input {
                controller1: old(self).controller1.spec_set_state(buttons),
                ..*old(self)
            }),
            player == 1 ==> *final(self) == (Input {
                controller2: old(self).controller2.spec_set_state(buttons),
                ..*old(self)
            }),
            player > 1 ==> *final(self) == *old(self),
    {
        match player {
            0 => self.controller1.set_state(buttons),
            1 => self.controller2.set_state(buttons),
            _ => {}
        }
    }

    /// Shifts one serial bit out of the selected controller.
    pub fn read_controller(&mut self, player: u8) -> (r: u8)
        ensures
            player == 0 ==> ({
                &&& r == old(self).controller1.spec_read_bit()
                &&& *final(self) == (Input {
                    controller1: old(self).controller1.spec_after_read(),
                    ..*old(self)
                })
            }),
            player == 1 ==> ({
                &&& r == old(self).controller2.spec_read_bit()
                &&& *final(self) == (Input {
                    controller2: old(self).controller2.spec_after_read(),
                    ..*old(self)
                })
            }),
            player > 1 ==> r == 0 && *final(self) == *old(self),
    {
        match player {
            0 => self.controller1.read(),
            1 => self.controller2.read(),
            _ => 0,
        }
    }

    /// Drives the strobe line of both controllers at once.
    pub fn strobe_controllers(&mut self, value: bool)
        ensures
            *final(self) == (Input {
                controller1: old(self).controller1.spec_strobe(value),
                controller2: old(self).controller2.spec_strobe(value),
            }),
    {
        self.controller1.strobe(value);
        self.controller2.strobe(value);
    }
}

} // verus!
