pub mod dsp;
pub mod spc700;
pub mod spc700_instructions;

use vstd::prelude::*;
use dsp::Dsp;
use spc700::Spc700;
use crate::savestate::{ApuState, Spc700State};

verus! {

/// The audio unit: its processor, the mixer, and their register
/// bridge. One tick runs one processor instruction; every 32 processor
/// cycles counts one output sample, whose synthesis a frontend does
/// from the mixer state.
pub struct Apu {
    pub spc700: Spc700,
    pub dsp: Dsp,
    pub dsp_address: u8,
    pub pending_samples: u32,
}

/// The audio processor after `n` ticks: each tick executes one
/// instruction and then steps the timers.
pub open spec fn spec_spc_run(s: crate::apu::spc700::SpcSnap, n: nat) -> crate::apu::spc700::SpcSnap
    decreases n,
{
    if n == 0 {
        s
    } else {
        crate::apu::spc700_instructions::spec_spc_step(
            spec_spc_run(s, (n - 1) as nat),
        ).spec_update_timers()
    }
}

impl Apu {
    pub open spec fn wf(self) -> bool {
        self.spc700@.wf() && self.dsp.wf()
    }

    pub fn new() -> (r: Self)
        ensures
            r.wf(),
            r.spc700@.sp == 0xFF,
            r.spc700@.pc == 0xFFC0,
            r.dsp_address == 0,
            r.pending_samples == 0,
            forall|i: int| 0 <= i < 4 ==> r.spc700@.port_in[i] == 0 && r.spc700@.port_out[i] == 0,
    {
        Self { spc700: Spc700::new(), dsp: Dsp::new(), dsp_address: 0, pending_samples: 0 }
    }

    pub fn reset(&mut self)
        requires
            old(self).wf(),
        ensures
            final(self).wf(),
            final(self).spc700@.pc == 0xFFC0,
            final(self).dsp_address == 0,
            final(self).pending_samples == 0,
    {
        self.spc700.reset();
        self.dsp.reset();
        self.dsp_address = 0;
        self.pending_samples = 0;
    }

    /// One audio tick: the register bridge syncs, the processor runs
    /// one instruction, and every 32nd cycle counts a pending sample.
    /// The processor's whole effect is one interpreter step; the mixer
    /// voices are untouched.
    pub fn step(&mut self)
        requires
            old(self).wf(),
        ensures
            final(self).wf(),
            final(self).spc700@ == crate::apu::spc700_instructions::spec_spc_step(
                old(self).spc700@,
            ).spec_update_timers(),
            final(self).dsp.channels == old(self).dsp.channels,
            final(self).dsp_address == 0,
    {
        self.connect_dsp();
        self.spc700.step();
        if self.spc700.cycles % 32 == 0 {
            self.dsp.step();
            self.pending_samples = self.pending_samples.wrapping_add(1);
        }
    }

    /// Bridges the mixer's address and data ports through the
    /// processor's page-zero registers. Both page-zero ports read as
    /// zero and refuse writes, so the bridge only re-latches a zero
    /// address; processor and voices are untouched.
    fn connect_dsp(&mut self)
        requires
            old(self).wf(),
        ensures
            final(self).wf(),
            final(self).spc700@ == old(self).spc700@,
            final(self).dsp == old(self).dsp,
            final(self).dsp_address == 0,
            final(self).pending_samples == old(self).pending_samples,
    {
        let dsp_addr_write = self.spc700.read8(0x00F2);
        if dsp_addr_write != self.dsp_address {
            self.dsp_address = dsp_addr_write;
        }
        proof {
            assert((0u8 >> 4) & 0x07 == 0 && 0u8 & 0x0F == 0) by (bit_vector);
        }
        let dsp_data = self.dsp.read_register(self.dsp_address);
        self.spc700.write8(0x00F3, dsp_data);
    }

    /// How many output samples have accrued since the last collection;
    /// collecting resets the count.
    pub fn take_pending_samples(&mut self) -> (r: u32)
        ensures
            r == old(self).pending_samples,
            *final(self) == (Apu { pending_samples: 0, ..*old(self) }),
    {
        let n = self.pending_samples;
        self.pending_samples = 0;
        n
    }

    /// A port byte as the main processor reads it.
    pub fn read_port(&self, port: usize) -> (r: u8)
        requires
            self.wf(),
        ensures
            port < 4 ==> r == self.spc700@.port_in[port as int],
            port >= 4 ==> r == 0,
    {
        self.spc700.read_port(port)
    }

    /// A port byte as the main processor writes it.
    pub fn write_port(&mut self, port: usize, value: u8)
        requires
            old(self).wf(),
        ensures
            final(self).wf(),
            final(self).dsp == old(self).dsp,
            final(self).dsp_address == old(self).dsp_address,
            final(self).pending_samples == old(self).pending_samples,
            port < 4 ==> final(self).spc700@ == (crate::apu::spc700::SpcSnap {
                port_out: old(self).spc700@.port_out.update(port as int, value),
                ..old(self).spc700@
            }),
            port >= 4 ==> final(self).spc700@ == old(self).spc700@ && final(self).dsp == old(
                self).dsp && final(self).dsp_address == old(self).dsp_address && final(
                self).pending_samples == old(self).pending_samples,
    {
        self.spc700.write_port(port, value)
    }

    /// A serialisable snapshot of the audio unit.
    pub fn save_state(&self) -> (r: ApuState)
        requires
            self.wf(),
        ensures
            r.spc700.a == self.spc700@.a,
            r.spc700.pc == self.spc700@.pc,
            r.spc700.sp == self.spc700@.sp,
            r.spc700.ram@ == self.spc700@.ram,
            r.dsp.sample_counter == self.dsp.sample_counter,
    {
        let spc = &self.spc700;
        let spc_state = Spc700State {
            a: spc.a,
            x: spc.x,
            y: spc.y,
            sp: spc.sp,
            pc: spc.pc,
            psw: spc.psw,
            ram: vstd::slice::slice_to_vec(spc.ram.as_slice()),
            ipl_rom_enable: spc.ipl_rom_enable,
            port_in: [
                if spc.port_in.len() == 4 {
                    spc.port_in[0]
                } else {
                    0
                },
                if spc.port_in.len() == 4 {
                    spc.port_in[1]
                } else {
                    0
                },
                if spc.port_in.len() == 4 {
                    spc.port_in[2]
                } else {
                    0
                },
                if spc.port_in.len() == 4 {
                    spc.port_in[3]
                } else {
                    0
                },
            ],
            port_out: [
                if spc.port_out.len() == 4 {
                    spc.port_out[0]
                } else {
                    0
                },
                if spc.port_out.len() == 4 {
                    spc.port_out[1]
                } else {
                    0
                },
                if spc.port_out.len() == 4 {
                    spc.port_out[2]
                } else {
                    0
                },
                if spc.port_out.len() == 4 {
                    spc.port_out[3]
                } else {
                    0
                },
            ],
            timer_enable: spc.timer_enable,
            timer_target: [spc.timer_target[0], spc.timer_target[1], spc.timer_target[2]],
            timer_counter: [spc.timer_counter[0], spc.timer_counter[1], spc.timer_counter[2]],
            timer_output: [spc.timer_output[0], spc.timer_output[1], spc.timer_output[2]],
            cycles: spc.cycles,
        };
        ApuState { spc700: spc_state, dsp: self.dsp.save_state() }
    }

    /// Restores the audio unit from a snapshot; the processor RAM
    /// reloads only when the snapshot carries its full size.
    pub fn load_state(&mut self, state: &ApuState)
        requires
            old(self).wf(),
        ensures
            final(self).wf(),
            final(self).spc700@.pc == state.spc700.pc,
            final(self).dsp.sample_counter == state.dsp.sample_counter,
    {
        self.spc700.a = state.spc700.a;
        self.spc700.x = state.spc700.x;
        self.spc700.y = state.spc700.y;
        self.spc700.sp = state.spc700.sp;
        self.spc700.pc = state.spc700.pc;
        self.spc700.psw = state.spc700.psw;
        if state.spc700.ram.len() == 0x10000 {
            self.spc700.ram = vstd::slice::slice_to_vec(state.spc700.ram.as_slice());
        }
        self.spc700.ipl_rom_enable = state.spc700.ipl_rom_enable;
        self.spc700.timer_enable = state.spc700.timer_enable;
        self.spc700.cycles = state.spc700.cycles;
        self.dsp.load_state(&state.dsp);
    }
}

} // verus!
