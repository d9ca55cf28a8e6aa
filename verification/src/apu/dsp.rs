use vstd::prelude::*;
use crate::savestate::{ChannelState, DspState};

verus! {

/// One voice of the audio mixer.
#[derive(Debug, Clone, Copy, PartialEq, Eq, Structural)]
pub struct AudioChannel {
    pub volume_left: u8,
    pub volume_right: u8,
    pub pitch: u16,
    pub source_number: u8,
    pub adsr: u16,
    pub gain: u8,
    pub envelope: u16,
    pub output: i16,
    pub sample_position: u32,
}

impl AudioChannel {
    pub open spec fn spec_default() -> AudioChannel {
        AudioChannel {
            volume_left: 0,
            volume_right: 0,
            pitch: 0,
            source_number: 0,
            adsr: 0,
            gain: 0,
            envelope: 0,
            output: 0,
            sample_position: 0,
        }
    }
}

impl Default for AudioChannel {
    fn default() -> (r: Self)
        ensures
            r == AudioChannel::spec_default(),
    {
        AudioChannel {
            volume_left: 0,
            volume_right: 0,
            pitch: 0,
            source_number: 0,
            adsr: 0,
            gain: 0,
            envelope: 0,
            output: 0,
            sample_position: 0,
        }
    }
}

/// The audio mixer's register file: eight voices and the master and
/// echo volumes. Waveform synthesis itself is floating-point work done
/// by a frontend from this state; the mixer here carries the registers
/// and the sample clock.
pub struct Dsp {
    pub channels: Vec<AudioChannel>,
    pub main_volume_left: u8,
    pub main_volume_right: u8,
    pub echo_volume_left: u8,
    pub echo_volume_right: u8,
    pub sample_counter: u32,
}

impl Dsp {
    pub open spec fn wf(self) -> bool {
        self.channels@.len() == 8
    }

    pub fn new() -> (r: Self)
        ensures
            r.wf(),
            forall|i: int| 0 <= i < 8 ==> r.channels@[i] == AudioChannel::spec_default(),
            r.sample_counter == 0,
            r.main_volume_left == 0 && r.main_volume_right == 0,
            r.echo_volume_left == 0 && r.echo_volume_right == 0,
    {
        let mut channels: Vec<AudioChannel> = Vec::new();
        let mut i: usize = 0;
        while i < 8
            invariant
                i <= 8,
                channels@.len() == i,
                forall|j: int| 0 <= j < i ==> channels@[j] == AudioChannel::spec_default(),
            decreases 8 - i,
        {
            channels.push(AudioChannel::default());
            i = i + 1;
        }
        Self {
            channels,
            main_volume_left: 0,
            main_volume_right: 0,
            echo_volume_left: 0,
            echo_volume_right: 0,
            sample_counter: 0,
        }
    }

    pub fn reset(&mut self)
        ensures
            final(self).wf(),
            forall|i: int| 0 <= i < 8 ==> final(self).channels@[i] == AudioChannel::spec_default(),
            final(self).sample_counter == 0,
    {
        *self = Self::new();
    }

    /// One sample tick: the clock advances; the sample value itself is
    /// the frontend's synthesis work.
    pub fn step(&mut self)
        ensures
            *final(self) == (Dsp {
                sample_counter: old(self).sample_counter.wrapping_add(1),
                ..*old(self)
            }),
    {
        self.sample_counter = self.sample_counter.wrapping_add(1);
    }

    /// A mixer register write: the upper address nibble names the
    /// voice, the lower the field.
    pub fn write_register(&mut self, address: u8, value: u8)
        requires
            old(self).wf(),
        ensures
            final(self).wf(),
            ({
                let channel = ((address >> 4) & 0x07) as int;
                let reg = address & 0x0F;
                let ch = old(self).channels@[channel];
                if reg == 0x0 {
                    final(self).channels@ == old(self).channels@.update(
                        channel,
                        AudioChannel { volume_left: value, ..ch },
                    )
                } else if reg == 0x1 {
                    final(self).channels@ == old(self).channels@.update(
                        channel,
                        AudioChannel { volume_right: value, ..ch },
                    )
                } else if reg == 0x2 {
                    final(self).channels@ == old(self).channels@.update(
                        channel,
                        AudioChannel { pitch: (ch.pitch & 0xFF00) | value as u16, ..ch },
                    )
                } else if reg == 0x3 {
                    final(self).channels@ == old(self).channels@.update(
                        channel,
                        AudioChannel {
                            pitch: (ch.pitch & 0x00FF) | ((value as u16) << 8),
                            ..ch
                        },
                    )
                } else if reg == 0x4 {
                    final(self).channels@ == old(self).channels@.update(
                        channel,
                        AudioChannel { source_number: value, ..ch },
                    )
                } else if reg == 0x5 {
                    final(self).channels@ == old(self).channels@.update(
                        channel,
                        AudioChannel { adsr: (ch.adsr & 0xFF00) | value as u16, ..ch },
                    )
                } else if reg == 0x6 {
                    final(self).channels@ == old(self).channels@.update(
                        channel,
                        AudioChannel { adsr: (ch.adsr & 0x00FF) | ((value as u16) << 8), ..ch },
                    )
                } else if reg == 0x7 {
                    final(self).channels@ == old(self).channels@.update(
                        channel,
                        AudioChannel { gain: value, ..ch },
                    )
                } else {
                    *final(self) == *old(self)
                }
            }),
    {
        let channel = ((address >> 4) & 0x07) as usize;
        let reg = address & 0x0F;
        proof {
            assert((address >> 4) & 0x07 <= 7) by (bit_vector);
        }
        if reg == 0x0 {
            self.channels[channel].volume_left = value;
        } else if reg == 0x1 {
            self.channels[channel].volume_right = value;
        } else if reg == 0x2 {
            self.channels[channel].pitch = (self.channels[channel].pitch & 0xFF00) | value as u16;
        } else if reg == 0x3 {
            self.channels[channel].pitch = (self.channels[channel].pitch & 0x00FF) | ((
            value as u16) << 8);
        } else if reg == 0x4 {
            self.channels[channel].source_number = value;
        } else if reg == 0x5 {
            self.channels[channel].adsr = (self.channels[channel].adsr & 0xFF00) | value as u16;
        } else if reg == 0x6 {
            self.channels[channel].adsr = (self.channels[channel].adsr & 0x00FF) | ((value as u16)
                << 8);
        } else if reg == 0x7 {
            self.channels[channel].gain = value;
        }
    }

    /// A mixer register read: only the envelope bytes answer.
    pub fn read_register(&self, address: u8) -> (r: u8)
        requires
            self.wf(),
        ensures
            ({
                let channel = ((address >> 4) & 0x07) as int;
                let reg = address & 0x0F;
                if reg == 0x8 {
                    r == (self.channels@[channel].envelope & 0xFF) as u8
                } else if reg == 0x9 {
                    r == ((self.channels@[channel].envelope >> 8) & 0xFF) as u8
                } else {
                    r == 0
                }
            }),
    {
        let channel = ((address >> 4) & 0x07) as usize;
        let reg = address & 0x0F;
        proof {
            assert((address >> 4) & 0x07 <= 7) by (bit_vector);
        }
        if reg == 0x8 {
            (self.channels[channel].envelope & 0xFF) as u8
        } else if reg == 0x9 {
            ((self.channels[channel].envelope >> 8) & 0xFF) as u8
        } else {
            0
        }
    }

    /// A serialisable snapshot of the mixer.
    pub fn save_state(&self) -> (r: DspState)
        requires
            self.wf(),
        ensures
            r.channels@.len() == 8,
            r.sample_counter == self.sample_counter,
    {
        let mut channel_states: Vec<ChannelState> = Vec::new();
        let mut i: usize = 0;
        while i < 8
            invariant
                self.wf(),
                i <= 8,
                channel_states@.len() == i,
            decreases 8 - i,
        {
            let ch = self.channels[i];
            channel_states.push(
                ChannelState {
                    volume_left: ch.volume_left,
                    volume_right: ch.volume_right,
                    pitch: ch.pitch,
                    source_number: ch.source_number,
                    adsr: ch.adsr,
                    gain: ch.gain,
                    envelope: ch.envelope,
                },
            );
            i = i + 1;
        }
        DspState {
            channels: channel_states,
            main_volume_left: self.main_volume_left,
            main_volume_right: self.main_volume_right,
            echo_volume_left: self.echo_volume_left,
            echo_volume_right: self.echo_volume_right,
            sample_counter: self.sample_counter,
        }
    }

    /// Restores the mixer from a snapshot.
    pub fn load_state(&mut self, state: &DspState)
        requires
            old(self).wf(),
        ensures
            final(self).wf(),
            final(self).sample_counter == state.sample_counter,
    {
        let n = if state.channels.len() < 8 {
            state.channels.len()
        } else {
            8
        };
        let mut i: usize = 0;
        while i < n
            invariant
                self.wf(),
                n <= 8,
                n <= state.channels@.len(),
                i <= n,
            decreases n - i,
        {
            let ch_state = state.channels[i];
            self.channels[i].volume_left = ch_state.volume_left;
            self.channels[i].volume_right = ch_state.volume_right;
            self.channels[i].pitch = ch_state.pitch;
            self.channels[i].source_number = ch_state.source_number;
            self.channels[i].adsr = ch_state.adsr;
            self.channels[i].gain = ch_state.gain;
            self.channels[i].envelope = ch_state.envelope;
            i = i + 1;
        }
        self.main_volume_left = state.main_volume_left;
        self.main_volume_right = state.main_volume_right;
        self.echo_volume_left = state.echo_volume_left;
        self.echo_volume_right = state.echo_volume_right;
        self.sample_counter = state.sample_counter;
    }
}

} // verus!
