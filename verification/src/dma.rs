use vstd::prelude::*;
use crate::memory::bus::Bus;
use crate::ppu::Ppu;

verus! {

/// The eight block-transfer modes: how many bytes move per unit and
/// how they spread over the peripheral-bus registers.
#[derive(Debug, Clone, Copy, PartialEq, Eq, Structural)]
pub enum DmaMode {
    SingleByte,
    TwoRegisters,
    SingleToTwoSame,
    TwoToTwoSame,
    FourRegisters,
    TwoAlternating,
    SingleToTwoAlternating,
    TwoToTwoAlternating,
}

pub open spec fn spec_dma_mode(value: u8) -> DmaMode {
    let m = value & 0x07;
    if m == 0 {
        DmaMode::SingleByte
    } else if m == 1 {
        DmaMode::TwoRegisters
    } else if m == 2 {
        DmaMode::SingleToTwoSame
    } else if m == 3 {
        DmaMode::TwoToTwoSame
    } else if m == 4 {
        DmaMode::FourRegisters
    } else if m == 5 {
        DmaMode::TwoAlternating
    } else if m == 6 {
        DmaMode::SingleToTwoAlternating
    } else {
        DmaMode::TwoToTwoAlternating
    }
}

pub fn dma_mode_of(value: u8) -> (r: DmaMode)
    ensures
        r == spec_dma_mode(value),
{
    match value & 0x07 {
        0 => DmaMode::SingleByte,
        1 => DmaMode::TwoRegisters,
        2 => DmaMode::SingleToTwoSame,
        3 => DmaMode::TwoToTwoSame,
        4 => DmaMode::FourRegisters,
        5 => DmaMode::TwoAlternating,
        6 => DmaMode::SingleToTwoAlternating,
        _ => DmaMode::TwoToTwoAlternating,
    }
}

/// One transfer channel's registers and per-frame table state.
#[derive(Debug, Clone, Copy, PartialEq, Eq, Structural)]
pub struct DmaChannel {
    pub control: u8,
    pub b_address: u8,
    pub a_address: u16,
    pub a_bank: u8,
    pub transfer_size: u16,
    pub indirect_bank: u8,
    pub table_address: u16,
    pub line_counter: u8,
    pub hdma_active: bool,
    pub hdma_completed: bool,
    pub hdma_indirect_mode: bool,
    pub hdma_repeat_mode: bool,
}

impl DmaChannel {
    pub open spec fn initial_state() -> DmaChannel {
        DmaChannel {
            control: 0,
            b_address: 0,
            a_address: 0,
            a_bank: 0,
            transfer_size: 0,
            indirect_bank: 0,
            table_address: 0,
            line_counter: 0,
            hdma_active: false,
            hdma_completed: false,
            hdma_indirect_mode: false,
            hdma_repeat_mode: false,
        }
    }

    pub fn new() -> (r: Self)
        ensures
            r == DmaChannel::initial_state(),
    {
        DmaChannel {
            control: 0,
            b_address: 0,
            a_address: 0,
            a_bank: 0,
            transfer_size: 0,
            indirect_bank: 0,
            table_address: 0,
            line_counter: 0,
            hdma_active: false,
            hdma_completed: false,
            hdma_indirect_mode: false,
            hdma_repeat_mode: false,
        }
    }

    pub fn reset(&mut self)
        ensures
            *final(self) == DmaChannel::initial_state(),
    {
        *self = Self::new();
    }

    pub fn get_mode(&self) -> (r: DmaMode)
        ensures
            r == spec_dma_mode(self.control),
    {
        dma_mode_of(self.control)
    }

    /// Bit 7 of the control byte reverses the transfer direction.
    pub fn is_direction_b_to_a(&self) -> (r: bool)
        ensures
            r == (self.control & 0x80 != 0),
    {
        (self.control & 0x80) != 0
    }

    /// Bit 6 selects indirect per-scanline tables.
    pub fn is_indirect_hdma(&self) -> (r: bool)
        ensures
            r == (self.control & 0x40 != 0),
    {
        (self.control & 0x40) != 0
    }

    pub fn is_address_increment(&self) -> (r: bool)
        ensures
            r == ((self.control >> 3) & 0x03 == 0 || (self.control >> 3) & 0x03 == 3),
    {
        let f = (self.control >> 3) & 0x03;
        f == 0 || f == 3
    }

    pub fn is_address_decrement(&self) -> (r: bool)
        ensures
            r == ((self.control >> 3) & 0x03 == 2),
    {
        ((self.control >> 3) & 0x03) == 2
    }

    /// The signed step the source address takes per byte.
    pub fn get_address_step(&self) -> (r: i16)
        ensures
            -1 <= r <= 1,
            (self.control >> 3) & 0x03 == 0 ==> r == 1,
            (self.control >> 3) & 0x03 == 1 ==> r == 0,
            (self.control >> 3) & 0x03 == 2 ==> r == -1,
            (self.control >> 3) & 0x03 == 3 ==> r == 1,
    {
        let f = (self.control >> 3) & 0x03;
        if f == 0 {
            1
        } else if f == 1 {
            0
        } else if f == 2 {
            -1
        } else {
            1
        }
    }
}

/// The cycle cost of draining one channel in a general transfer:
/// eight cycles per byte moved, except the write-twice single-register
/// mode, which costs sixteen per pair it starts. A zero count means a
/// full 65536 bytes.
pub open spec fn spec_channel_dma_cycles(ch: DmaChannel) -> int {
    let bytes: int = if ch.transfer_size == 0 {
        0x10000
    } else {
        ch.transfer_size as int
    };
    if spec_dma_mode(ch.control) == DmaMode::SingleToTwoSame {
        16 * ((bytes + 1) / 2)
    } else {
        8 * bytes
    }
}

/// The summed cost of the enabled channels from index `i` up.
pub open spec fn spec_dma_cycles_from(channels: Seq<DmaChannel>, enable: u8, i: int) -> int
    decreases 8 - i,
{
    if i < 0 || i >= 8 {
        0
    } else {
        (if enable & (1u8 << i) != 0 {
            spec_channel_dma_cycles(channels[i])
        } else {
            0
        }) + spec_dma_cycles_from(channels, enable, i + 1)
    }
}

/// One channel's cost is at most eight cycles per possible byte.
pub proof fn lemma_channel_cycles_bound(ch: DmaChannel)
    ensures
        0 <= spec_channel_dma_cycles(ch) <= 0x80000,
{
}

/// The summed cost over the channels stays below 2^23.
pub proof fn lemma_dma_cycles_bound(channels: Seq<DmaChannel>, enable: u8, i: int)
    ensures
        0 <= spec_dma_cycles_from(channels, enable, i),
        i <= 8 ==> spec_dma_cycles_from(channels, enable, i) <= (8 - i) * 0x80000,
        !(0 <= i < 8) ==> spec_dma_cycles_from(channels, enable, i) == 0,
    decreases 8 - i,
{
    if 0 <= i < 8 {
        lemma_dma_cycles_bound(channels, enable, i + 1);
        lemma_channel_cycles_bound(channels[i]);
    }
}

/// The block-transfer controller: eight channels plus the two enable
/// ports. General transfers steal the bus for whole channels at a
/// time; per-scanline transfers feed a few bytes from a table each
/// line. The byte traffic itself is conventional copying, stated here
/// at its boundary: which channels run, what the enables read
/// afterwards, and that each enabled channel's count drains to zero.
pub struct DmaController {
    pub channels: Vec<DmaChannel>,
    pub dma_enable: u8,
    pub hdma_enable: u8,
}

impl DmaController {
    pub open spec fn wf(self) -> bool {
        self.channels@.len() == 8
    }

    pub fn new() -> (r: Self)
        ensures
            r.wf(),
            forall|i: int| 0 <= i < 8 ==> r.channels@[i] == DmaChannel::initial_state(),
            r.dma_enable == 0 && r.hdma_enable == 0,
    {
        let mut channels: Vec<DmaChannel> = Vec::new();
        let mut i: usize = 0;
        while i < 8
            invariant
                i <= 8,
                channels@.len() == i,
                forall|j: int| 0 <= j < i ==> channels@[j] == DmaChannel::initial_state(),
            decreases 8 - i,
        {
            channels.push(DmaChannel::new());
            i = i + 1;
        }
        Self { channels, dma_enable: 0, hdma_enable: 0 }
    }

    pub fn reset(&mut self)
        requires
            old(self).wf(),
        ensures
            final(self).wf(),
            forall|i: int| 0 <= i < 8 ==> final(self).channels@[i] == DmaChannel::initial_state(),
            final(self).dma_enable == 0 && final(self).hdma_enable == 0,
    {
        *self = Self::new();
    }

    /// Runs every channel whose enable bit is set, in channel order,
    /// then clears the enable port. Costs exactly the fixed setup
    /// overhead of eight cycles plus the sum of the enabled channels'
    /// transfer cycles; each enabled channel's remaining count drains
    /// to zero, and the picture unit's timing is untouched.
    pub fn execute_dma(&mut self, bus: &mut Bus, ppu: &mut Ppu) -> (r: u32)
        requires
            old(self).wf(),
            old(bus)@.wf(),
            old(ppu).wf(),
        ensures
            final(self).wf(),
            final(bus)@.wf(),
            final(ppu).wf(),
            final(self).dma_enable == 0,
            final(self).hdma_enable == old(self).hdma_enable,
            r == 8 + spec_dma_cycles_from(old(self).channels@, old(self).dma_enable, 0),
            forall|i: int|
                0 <= i < 8 && old(self).dma_enable & (1u8 << i) != 0
                    ==> (#[trigger] final(self).channels@[i]).transfer_size == 0,
            forall|i: int|
                0 <= i < 8 && old(self).dma_enable & (1u8 << i) == 0
                    ==> (#[trigger] final(self).channels@[i]) == old(self).channels@[i],
            final(ppu).dot == old(ppu).dot,
            final(ppu).scanline == old(ppu).scanline,
            final(ppu).frame == old(ppu).frame,
            final(ppu).nmi_pending == old(ppu).nmi_pending,
            final(ppu).irq_pending == old(ppu).irq_pending,
    {
        proof {
            lemma_dma_cycles_bound(old(self).channels@, old(self).dma_enable, 0);
        }
        let mut total_cycles: u32 = 8;
        let mut channel_num: usize = 0;
        while channel_num < 8
            invariant
                self.wf(),
                bus@.wf(),
                ppu.wf(),
                channel_num <= 8,
                total_cycles == 8 + spec_dma_cycles_from(
                    old(self).channels@,
                    old(self).dma_enable,
                    0,
                ) - spec_dma_cycles_from(
                    old(self).channels@,
                    old(self).dma_enable,
                    channel_num as int,
                ),
                self.dma_enable == old(self).dma_enable,
                self.hdma_enable == old(self).hdma_enable,
                forall|i: int|
                    0 <= i < channel_num && old(self).dma_enable & (1u8 << i) != 0 ==> (
                    #[trigger] self.channels@[i]).transfer_size == 0,
                forall|i: int|
                    0 <= i < 8 && (channel_num <= i || old(self).dma_enable & (1u8 << i) == 0)
                        ==> (#[trigger] self.channels@[i]) == old(self).channels@[i],
                ppu.dot == old(ppu).dot,
                ppu.scanline == old(ppu).scanline,
                ppu.frame == old(ppu).frame,
                ppu.nmi_pending == old(ppu).nmi_pending,
                ppu.irq_pending == old(ppu).irq_pending,
            decreases 8 - channel_num,
        {
            proof {
                lemma_dma_cycles_bound(old(self).channels@, old(self).dma_enable, 0);
                lemma_dma_cycles_bound(
                    old(self).channels@,
                    old(self).dma_enable,
                    channel_num as int,
                );
                lemma_dma_cycles_bound(
                    old(self).channels@,
                    old(self).dma_enable,
                    channel_num + 1,
                );
                lemma_channel_cycles_bound(old(self).channels@[channel_num as int]);
            }
            if (self.dma_enable & (1u8 << channel_num)) != 0 {
                let c = self.execute_channel_dma(channel_num, bus, ppu);
                total_cycles = total_cycles + c;
            }
            channel_num = channel_num + 1;
        }
        self.dma_enable = 0;
        total_cycles
    }

    /// Drains one channel: bytes move between the source address and
    /// the peripheral register its mode names until the count, with
    /// zero meaning a full 65536 bytes, runs out. Returns exactly the
    /// channel's transfer cost.
    fn execute_channel_dma(&mut self, channel: usize, bus: &mut Bus, ppu: &mut Ppu) -> (r: u32)
        requires
            old(self).wf(),
            old(bus)@.wf(),
            old(ppu).wf(),
            channel < 8,
        ensures
            final(self).wf(),
            final(bus)@.wf(),
            final(ppu).wf(),
            final(self).channels@[channel as int].transfer_size == 0,
            r == spec_channel_dma_cycles(old(self).channels@[channel as int]),
            forall|i: int|
                0 <= i < 8 && i != channel ==> (#[trigger] final(self).channels@[i]) == old(
                self).channels@[i],
            final(self).dma_enable == old(self).dma_enable,
            final(self).hdma_enable == old(self).hdma_enable,
            final(ppu).dot == old(ppu).dot,
            final(ppu).scanline == old(ppu).scanline,
            final(ppu).frame == old(ppu).frame,
            final(ppu).nmi_pending == old(ppu).nmi_pending,
            final(ppu).irq_pending == old(ppu).irq_pending,
    {
        let mode = self.channels[channel].get_mode();
        let mut cycles: u32 = 0;
        let mut remaining: u32 = self.channels[channel].transfer_size as u32;
        if remaining == 0 {
            remaining = 0x10000;
        }
        let ghost bytes_total = remaining as int;
        let b_to_a = self.channels[channel].is_direction_b_to_a();
        let step = self.channels[channel].get_address_step();
        let b_address = self.channels[channel].b_address;
        let a_bank = self.channels[channel].a_bank;
        while remaining > 0
            invariant
                self.wf(),
                bus@.wf(),
                ppu.wf(),
                channel < 8,
                -1 <= step <= 1,
                mode == spec_dma_mode(old(self).channels@[channel as int].control),
                bytes_total == (if old(self).channels@[channel as int].transfer_size == 0 {
                    0x10000int
                } else {
                    old(self).channels@[channel as int].transfer_size as int
                }),
                bytes_total <= 0x10000,
                remaining <= bytes_total,
                mode == DmaMode::SingleToTwoSame ==> cycles == 16 * ((bytes_total - remaining + 1)
                    / 2) && (remaining > 0 ==> (bytes_total - remaining) % 2 == 0),
                mode != DmaMode::SingleToTwoSame ==> cycles == 8 * (bytes_total - remaining),
                forall|i: int|
                    0 <= i < 8 && i != channel ==> (#[trigger] self.channels@[i]) == old(
                    self).channels@[i],
                self.dma_enable == old(self).dma_enable,
                self.hdma_enable == old(self).hdma_enable,
                ppu.dot == old(ppu).dot,
                ppu.scanline == old(ppu).scanline,
                ppu.frame == old(ppu).frame,
                ppu.nmi_pending == old(ppu).nmi_pending,
                ppu.irq_pending == old(ppu).irq_pending,
            decreases remaining,
        {
            let a_address = self.channels[channel].a_address;
            match mode {
                DmaMode::SingleByte => {
                    self.transfer_one(channel, bus, ppu, b_to_a, b_address, a_bank, a_address);
                    self.step_a_address(channel, step);
                    remaining = remaining - 1;
                    cycles = cycles + 8;
                },
                DmaMode::TwoRegisters => {
                    let ghost r_start = remaining;
                    let mut i: u8 = 0;
                    while i < 2 && remaining > 0
                        invariant
                            self.wf(),
                            bus@.wf(),
                            ppu.wf(),
                            channel < 8,
                            -1 <= step <= 1,
                            i <= 2,
                            i == 0 ==> remaining == r_start,
                            i > 0 ==> remaining < r_start,
                            bytes_total == (if old(self).channels@[channel as int].transfer_size == 0 {
                                0x10000int
                            } else {
                                old(self).channels@[channel as int].transfer_size as int
                            }),
                            bytes_total <= 0x10000,
                            remaining <= bytes_total,
                            cycles == 8 * (bytes_total - remaining),
                            ppu.dot == old(ppu).dot,
                            ppu.scanline == old(ppu).scanline,
                            ppu.frame == old(ppu).frame,
                            ppu.nmi_pending == old(ppu).nmi_pending,
                            ppu.irq_pending == old(ppu).irq_pending,
                            forall|k: int|
                                0 <= k < 8 && k != channel ==> (#[trigger] self.channels@[k])
                                    == old(self).channels@[k],
                            self.dma_enable == old(self).dma_enable,
                            self.hdma_enable == old(self).hdma_enable,
                        decreases 2 - i,
                    {
                        let a_address = self.channels[channel].a_address;
                        self.transfer_one(
                            channel,
                            bus,
                            ppu,
                            b_to_a,
                            b_address.wrapping_add(i),
                            a_bank,
                            a_address,
                        );
                        self.step_a_address(channel, step);
                        remaining = remaining - 1;
                        cycles = cycles + 8;
                        i = i + 1;
                    }
                },
                DmaMode::SingleToTwoSame => {
                    self.transfer_one(channel, bus, ppu, b_to_a, b_address, a_bank, a_address);
                    self.step_a_address(channel, step);
                    if remaining > 1 {
                        let a_address = self.channels[channel].a_address;
                        self.transfer_one(channel, bus, ppu, b_to_a, b_address, a_bank, a_address);
                        self.step_a_address(channel, step);
                    }
                    remaining = if remaining >= 2 {
                        remaining - 2
                    } else {
                        0
                    };
                    cycles = cycles + 16;
                },
                DmaMode::TwoToTwoSame => {
                    let ghost r_start = remaining;
                    let mut i: u8 = 0;
                    while i < 4 && remaining > 0
                        invariant
                            self.wf(),
                            bus@.wf(),
                            ppu.wf(),
                            channel < 8,
                            -1 <= step <= 1,
                            i <= 4,
                            i == 0 ==> remaining == r_start,
                            i > 0 ==> remaining < r_start,
                            bytes_total == (if old(self).channels@[channel as int].transfer_size == 0 {
                                0x10000int
                            } else {
                                old(self).channels@[channel as int].transfer_size as int
                            }),
                            bytes_total <= 0x10000,
                            remaining <= bytes_total,
                            cycles == 8 * (bytes_total - remaining),
                            ppu.dot == old(ppu).dot,
                            ppu.scanline == old(ppu).scanline,
                            ppu.frame == old(ppu).frame,
                            ppu.nmi_pending == old(ppu).nmi_pending,
                            ppu.irq_pending == old(ppu).irq_pending,
                            forall|k: int|
                                0 <= k < 8 && k != channel ==> (#[trigger] self.channels@[k])
                                    == old(self).channels@[k],
                            self.dma_enable == old(self).dma_enable,
                            self.hdma_enable == old(self).hdma_enable,
                        decreases 4 - i,
                    {
                        let a_address = self.channels[channel].a_address;
                        self.transfer_one(
                            channel,
                            bus,
                            ppu,
                            b_to_a,
                            b_address.wrapping_add(i & 1),
                            a_bank,
                            a_address,
                        );
                        self.step_a_address(channel, step);
                        remaining = remaining - 1;
                        cycles = cycles + 8;
                        i = i + 1;
                    }
                },
                DmaMode::FourRegisters => {
                    let ghost r_start = remaining;
                    let mut i: u8 = 0;
                    while i < 4 && remaining > 0
                        invariant
                            self.wf(),
                            bus@.wf(),
                            ppu.wf(),
                            channel < 8,
                            -1 <= step <= 1,
                            i <= 4,
                            i == 0 ==> remaining == r_start,
                            i > 0 ==> remaining < r_start,
                            bytes_total == (if old(self).channels@[channel as int].transfer_size == 0 {
                                0x10000int
                            } else {
                                old(self).channels@[channel as int].transfer_size as int
                            }),
                            bytes_total <= 0x10000,
                            remaining <= bytes_total,
                            cycles == 8 * (bytes_total - remaining),
                            ppu.dot == old(ppu).dot,
                            ppu.scanline == old(ppu).scanline,
                            ppu.frame == old(ppu).frame,
                            ppu.nmi_pending == old(ppu).nmi_pending,
                            ppu.irq_pending == old(ppu).irq_pending,
                            forall|k: int|
                                0 <= k < 8 && k != channel ==> (#[trigger] self.channels@[k])
                                    == old(self).channels@[k],
                            self.dma_enable == old(self).dma_enable,
                            self.hdma_enable == old(self).hdma_enable,
                        decreases 4 - i,
                    {
                        let a_address = self.channels[channel].a_address;
                        self.transfer_one(
                            channel,
                            bus,
                            ppu,
                            b_to_a,
                            b_address.wrapping_add(i),
                            a_bank,
                            a_address,
                        );
                        self.step_a_address(channel, step);
                        remaining = remaining - 1;
                        cycles = cycles + 8;
                        i = i + 1;
                    }
                },
                _ => {
                    // The alternating modes exist only for per-scanline
                    // transfers; a general transfer treats them as
                    // single bytes.
                    self.transfer_one(channel, bus, ppu, b_to_a, b_address, a_bank, a_address);
                    self.step_a_address(channel, step);
                    remaining = remaining - 1;
                    cycles = cycles + 8;
                },
            }
        }
        let ch = &mut self.channels[channel];
        ch.transfer_size = 0;
        cycles
    }

    /// Moves one byte between the source side and the peripheral side.
    fn transfer_one(
        &mut self,
        channel: usize,
        bus: &mut Bus,
        ppu: &mut Ppu,
        b_to_a: bool,
        b_address: u8,
        a_bank: u8,
        a_address: u16,
    )
        requires
            old(self).wf(),
            old(bus)@.wf(),
            old(ppu).wf(),
            channel < 8,
        ensures
            final(self).wf(),
            final(bus)@.wf(),
            final(ppu).wf(),
            *final(self) == *old(self),
            final(ppu).dot == old(ppu).dot,
            final(ppu).scanline == old(ppu).scanline,
            final(ppu).frame == old(ppu).frame,
            final(ppu).nmi_pending == old(ppu).nmi_pending,
            final(ppu).irq_pending == old(ppu).irq_pending,
    {
        if b_to_a {
            let value = read_b_bus(bus, ppu, b_address);
            write_a_bus(bus, a_bank, a_address, value);
        } else {
            let value = bus.read8(((a_bank as u32) << 16) | a_address as u32);
            write_b_bus(bus, ppu, b_address, value);
        }
    }

    /// Steps the channel's source address by the configured direction.
    fn step_a_address(&mut self, channel: usize, step: i16)
        requires
            old(self).wf(),
            channel < 8,
            -1 <= step <= 1,
        ensures
            final(self).wf(),
            final(self).channels@ == old(self).channels@.update(
                channel as int,
                DmaChannel {
                    a_address: old(self).channels@[channel as int].a_address.wrapping_add(
                        step as u16,
                    ),
                    ..old(self).channels@[channel as int]
                },
            ),
            final(self).dma_enable == old(self).dma_enable,
            final(self).hdma_enable == old(self).hdma_enable,
    {
        let a = self.channels[channel].a_address;
        self.channels[channel].a_address = a.wrapping_add(step as u16);
    }

    /// Prepares every enabled per-scanline channel at the top of a
    /// frame: table pointers reset and the first table entry loads.
    pub fn init_hdma(&mut self, bus: &mut Bus)
        requires
            old(self).wf(),
            old(bus)@.wf(),
        ensures
            final(self).wf(),
            final(bus)@.wf(),
            final(self).dma_enable == old(self).dma_enable,
            final(self).hdma_enable == old(self).hdma_enable,
    {
        let mut channel_num: usize = 0;
        while channel_num < 8
            invariant
                self.wf(),
                bus@.wf(),
                channel_num <= 8,
                self.dma_enable == old(self).dma_enable,
                self.hdma_enable == old(self).hdma_enable,
            decreases 8 - channel_num,
        {
            if (self.hdma_enable & (1u8 << channel_num)) != 0 {
                let a_address = self.channels[channel_num].a_address;
                let indirect = self.channels[channel_num].is_indirect_hdma();
                self.channels[channel_num].hdma_active = true;
                self.channels[channel_num].hdma_completed = false;
                self.channels[channel_num].table_address = a_address;
                self.channels[channel_num].hdma_indirect_mode = indirect;
                self.reload_hdma_channel(channel_num, bus);
            }
            channel_num = channel_num + 1;
        }
    }

    /// Runs every enabled, unfinished per-scanline channel for one
    /// scanline; costs the per-line overhead plus per-channel work.
    pub fn execute_hdma(&mut self, bus: &mut Bus, ppu: &mut Ppu) -> (r: u32)
        requires
            old(self).wf(),
            old(bus)@.wf(),
            old(ppu).wf(),
        ensures
            final(self).wf(),
            final(bus)@.wf(),
            final(ppu).wf(),
            r >= 18,
            final(self).dma_enable == old(self).dma_enable,
            final(self).hdma_enable == old(self).hdma_enable,
            final(ppu).dot == old(ppu).dot,
            final(ppu).scanline == old(ppu).scanline,
            final(ppu).frame == old(ppu).frame,
            final(ppu).nmi_pending == old(ppu).nmi_pending,
            final(ppu).irq_pending == old(ppu).irq_pending,
    {
        let mut cycles: u32 = 18;
        let mut channel_num: usize = 0;
        while channel_num < 8
            invariant
                self.wf(),
                bus@.wf(),
                ppu.wf(),
                channel_num <= 8,
                cycles >= 18,
                self.dma_enable == old(self).dma_enable,
                self.hdma_enable == old(self).hdma_enable,
                ppu.dot == old(ppu).dot,
                ppu.scanline == old(ppu).scanline,
                ppu.frame == old(ppu).frame,
                ppu.nmi_pending == old(ppu).nmi_pending,
                ppu.irq_pending == old(ppu).irq_pending,
            decreases 8 - channel_num,
        {
            if (self.hdma_enable & (1u8 << channel_num)) != 0 {
                let active = self.channels[channel_num].hdma_active;
                let completed = self.channels[channel_num].hdma_completed;
                if !completed && active {
                    let c = self.execute_channel_hdma(channel_num, bus, ppu);
                    cycles = cycles.wrapping_add(c);
                    if cycles < 18 {
                        cycles = 18;
                    }
                }
            }
            channel_num = channel_num + 1;
        }
        cycles
    }

    /// One channel's share of a scanline: reload the table entry when
    /// the line counter ran out, transfer this line's bytes, count the
    /// line down.
    fn execute_channel_hdma(&mut self, channel: usize, bus: &mut Bus, ppu: &mut Ppu) -> (r: u32)
        requires
            old(self).wf(),
            old(bus)@.wf(),
            old(ppu).wf(),
            channel < 8,
        ensures
            final(self).wf(),
            final(bus)@.wf(),
            final(ppu).wf(),
            final(self).dma_enable == old(self).dma_enable,
            final(self).hdma_enable == old(self).hdma_enable,
            final(ppu).dot == old(ppu).dot,
            final(ppu).scanline == old(ppu).scanline,
            final(ppu).frame == old(ppu).frame,
            final(ppu).nmi_pending == old(ppu).nmi_pending,
            final(ppu).irq_pending == old(ppu).irq_pending,
    {
        let mut cycles: u32 = 8;
        if self.channels[channel].line_counter == 0 {
            self.reload_hdma_channel(channel, bus);
            if self.channels[channel].hdma_completed {
                return cycles;
            }
        }
        let hdma_repeat_mode = self.channels[channel].hdma_repeat_mode;
        let line_counter = self.channels[channel].line_counter;
        let mode = self.channels[channel].get_mode();
        let b_to_a = self.channels[channel].is_direction_b_to_a();
        let b_address = self.channels[channel].b_address;
        let a_bank = self.channels[channel].a_bank;
        let a_address = self.channels[channel].a_address;
        if hdma_repeat_mode || line_counter == 1 {
            match mode {
                DmaMode::SingleByte => {
                    self.transfer_one(channel, bus, ppu, b_to_a, b_address, a_bank, a_address);
                    self.channels[channel].a_address = a_address.wrapping_add(1);
                    cycles = cycles.wrapping_add(8);
                },
                DmaMode::TwoRegisters => {
                    let mut i: u8 = 0;
                    while i < 2
                        invariant
                            self.wf(),
                            bus@.wf(),
                            ppu.wf(),
                            channel < 8,
                            i <= 2,
                            self.dma_enable == old(self).dma_enable,
                            self.hdma_enable == old(self).hdma_enable,
                            ppu.dot == old(ppu).dot,
                            ppu.scanline == old(ppu).scanline,
                            ppu.frame == old(ppu).frame,
                            ppu.nmi_pending == old(ppu).nmi_pending,
                            ppu.irq_pending == old(ppu).irq_pending,
                        decreases 2 - i,
                    {
                        let current_a = self.channels[channel].a_address;
                        self.transfer_one(
                            channel,
                            bus,
                            ppu,
                            b_to_a,
                            b_address.wrapping_add(i),
                            a_bank,
                            current_a,
                        );
                        self.channels[channel].a_address = current_a.wrapping_add(1);
                        cycles = cycles.wrapping_add(8);
                        i = i + 1;
                    }
                },
                _ => {
                    cycles = cycles.wrapping_add(8);
                },
            }
        }
        let lc = self.channels[channel].line_counter;
        self.channels[channel].line_counter = lc.wrapping_sub(1);
        cycles
    }

    /// Reads the next table header for a channel: zero ends the table;
    /// otherwise the count and repeat bit load, and the data address
    /// comes inline or through an indirect pointer.
    fn reload_hdma_channel(&mut self, channel: usize, bus: &mut Bus)
        requires
            old(self).wf(),
            old(bus)@.wf(),
            channel < 8,
        ensures
            final(self).wf(),
            final(bus)@.wf(),
            final(self).dma_enable == old(self).dma_enable,
            final(self).hdma_enable == old(self).hdma_enable,
    {
        let a_bank = self.channels[channel].a_bank;
        let table_address = self.channels[channel].table_address;
        let header = bus.read8(((a_bank as u32) << 16) | table_address as u32);
        self.channels[channel].table_address = table_address.wrapping_add(1);
        if header == 0 {
            self.channels[channel].hdma_completed = true;
            self.channels[channel].hdma_active = false;
            return ;
        }
        self.channels[channel].line_counter = header & 0x7F;
        self.channels[channel].hdma_repeat_mode = (header & 0x80) != 0;
        if self.channels[channel].hdma_indirect_mode {
            let t1 = self.channels[channel].table_address;
            let low = bus.read8(((a_bank as u32) << 16) | t1 as u32);
            self.channels[channel].table_address = t1.wrapping_add(1);
            let t2 = self.channels[channel].table_address;
            let high = bus.read8(((a_bank as u32) << 16) | t2 as u32);
            self.channels[channel].table_address = t2.wrapping_add(1);
            self.channels[channel].a_address = ((high as u16) << 8) | (low as u16);
            let ib = self.channels[channel].indirect_bank;
            self.channels[channel].a_bank = ib;
        } else {
            let t = self.channels[channel].table_address;
            self.channels[channel].a_address = t;
            let mode = self.channels[channel].get_mode();
            let advance: u16 = match mode {
                DmaMode::SingleByte => 1,
                DmaMode::TwoRegisters => 2,
                DmaMode::SingleToTwoSame => 1,
                DmaMode::TwoToTwoSame => 2,
                DmaMode::FourRegisters => 4,
                _ => 1,
            };
            let hdma_repeat_mode = self.channels[channel].hdma_repeat_mode;
            let line_counter = self.channels[channel].line_counter;
            let table_address = self.channels[channel].table_address;
            if hdma_repeat_mode {
                self.channels[channel].table_address = table_address.wrapping_add(advance);
            } else {
                self.channels[channel].table_address = table_address.wrapping_add(
                    advance.wrapping_mul(line_counter as u16),
                );
            }
        }
    }

    /// One register read: the enable ports and each channel's register
    /// window.
    pub fn read_register(&self, address: u16) -> (r: u8)
        requires
            self.wf(),
        ensures
            address == 0x420B ==> r == self.dma_enable,
            address == 0x420C ==> r == self.hdma_enable,
            0x4300 <= address <= 0x437F ==> {
                let ch = self.channels@[((address - 0x4300) as int) / 16];
                let reg = address & 0x0F;
                if reg == 0x0 {
                    r == ch.control
                } else if reg == 0x1 {
                    r == ch.b_address
                } else if reg == 0x2 {
                    r == (ch.a_address & 0xFF) as u8
                } else if reg == 0x3 {
                    r == (ch.a_address >> 8) as u8
                } else if reg == 0x4 {
                    r == ch.a_bank
                } else if reg == 0x5 {
                    r == (ch.transfer_size & 0xFF) as u8
                } else if reg == 0x6 {
                    r == (ch.transfer_size >> 8) as u8
                } else if reg == 0x7 {
                    r == ch.indirect_bank
                } else if reg == 0x8 {
                    r == (ch.table_address & 0xFF) as u8
                } else if reg == 0x9 {
                    r == (ch.table_address >> 8) as u8
                } else if reg == 0xA {
                    r == ch.line_counter
                } else {
                    r == 0xFF
                }
            },
            !(address == 0x420B || address == 0x420C || (0x4300 <= address <= 0x437F)) ==> r
                == 0xFF,
    {
        if address == 0x420B {
            self.dma_enable
        } else if address == 0x420C {
            self.hdma_enable
        } else if 0x4300 <= address && address <= 0x437F {
            let channel = ((address - 0x4300) >> 4) as usize;
            let reg = address & 0x0F;
            proof {
                lemma_channel_index(address);
            }
            let ch = self.channels[channel];
            if reg == 0x0 {
                ch.control
            } else if reg == 0x1 {
                ch.b_address
            } else if reg == 0x2 {
                (ch.a_address & 0xFF) as u8
            } else if reg == 0x3 {
                (ch.a_address >> 8) as u8
            } else if reg == 0x4 {
                ch.a_bank
            } else if reg == 0x5 {
                (ch.transfer_size & 0xFF) as u8
            } else if reg == 0x6 {
                (ch.transfer_size >> 8) as u8
            } else if reg == 0x7 {
                ch.indirect_bank
            } else if reg == 0x8 {
                (ch.table_address & 0xFF) as u8
            } else if reg == 0x9 {
                (ch.table_address >> 8) as u8
            } else if reg == 0xA {
                ch.line_counter
            } else {
                0xFF
            }
        } else {
            0xFF
        }
    }

    /// One register write: the enable ports or a channel register.
    pub fn write_register(&mut self, address: u16, value: u8)
        requires
            old(self).wf(),
        ensures
            final(self).wf(),
            address == 0x420B ==> final(self).dma_enable == value && final(self).channels == old(
                self,
            ).channels && final(self).hdma_enable == old(self).hdma_enable,
            address == 0x420C ==> final(self).hdma_enable == value && final(self).channels == old(
                self,
            ).channels && final(self).dma_enable == old(self).dma_enable,
            0x4300 <= address <= 0x437F ==> final(self).dma_enable == old(self).dma_enable
                && final(self).hdma_enable == old(self).hdma_enable && {
                let cidx = ((address - 0x4300) as int) / 16;
                let ch = old(self).channels@[cidx];
                let reg = address & 0x0F;
                if reg == 0x0 {
                    final(self).channels@ == old(self).channels@.update(
                        cidx,
                        DmaChannel { control: value, ..ch },
                    )
                } else if reg == 0x1 {
                    final(self).channels@ == old(self).channels@.update(
                        cidx,
                        DmaChannel { b_address: value, ..ch },
                    )
                } else if reg == 0x2 {
                    final(self).channels@ == old(self).channels@.update(
                        cidx,
                        DmaChannel {
                            a_address: (ch.a_address & 0xFF00) | value as u16,
                            ..ch
                        },
                    )
                } else if reg == 0x3 {
                    final(self).channels@ == old(self).channels@.update(
                        cidx,
                        DmaChannel {
                            a_address: (ch.a_address & 0x00FF) | ((value as u16) << 8),
                            ..ch
                        },
                    )
                } else if reg == 0x4 {
                    final(self).channels@ == old(self).channels@.update(
                        cidx,
                        DmaChannel { a_bank: value, ..ch },
                    )
                } else if reg == 0x5 {
                    final(self).channels@ == old(self).channels@.update(
                        cidx,
                        DmaChannel {
                            transfer_size: (ch.transfer_size & 0xFF00) | value as u16,
                            ..ch
                        },
                    )
                } else if reg == 0x6 {
                    final(self).channels@ == old(self).channels@.update(
                        cidx,
                        DmaChannel {
                            transfer_size: (ch.transfer_size & 0x00FF) | ((value as u16) << 8),
                            ..ch
                        },
                    )
                } else if reg == 0x7 {
                    final(self).channels@ == old(self).channels@.update(
                        cidx,
                        DmaChannel { indirect_bank: value, ..ch },
                    )
                } else if reg == 0x8 {
                    final(self).channels@ == old(self).channels@.update(
                        cidx,
                        DmaChannel {
                            table_address: (ch.table_address & 0xFF00) | value as u16,
                            ..ch
                        },
                    )
                } else if reg == 0x9 {
                    final(self).channels@ == old(self).channels@.update(
                        cidx,
                        DmaChannel {
                            table_address: (ch.table_address & 0x00FF) | ((value as u16) << 8),
                            ..ch
                        },
                    )
                } else if reg == 0xA {
                    final(self).channels@ == old(self).channels@.update(
                        cidx,
                        DmaChannel { line_counter: value, ..ch },
                    )
                } else {
                    final(self).channels == old(self).channels
                }
            },
            !(address == 0x420B || address == 0x420C || (0x4300 <= address <= 0x437F))
                ==> *final(self) == *old(self),
    {
        if address == 0x420B {
            self.dma_enable = value;
        } else if address == 0x420C {
            self.hdma_enable = value;
        } else if 0x4300 <= address && address <= 0x437F {
            let channel = ((address - 0x4300) >> 4) as usize;
            let reg = address & 0x0F;
            proof {
                lemma_channel_index(address);
            }
            if reg == 0x0 {
                self.channels[channel].control = value;
            } else if reg == 0x1 {
                self.channels[channel].b_address = value;
            } else if reg == 0x2 {
                self.channels[channel].a_address = (self.channels[channel].a_address & 0xFF00)
                    | value as u16;
            } else if reg == 0x3 {
                self.channels[channel].a_address = (self.channels[channel].a_address & 0x00FF) | ((
                value as u16) << 8);
            } else if reg == 0x4 {
                self.channels[channel].a_bank = value;
            } else if reg == 0x5 {
                self.channels[channel].transfer_size = (self.channels[channel].transfer_size
                    & 0xFF00) | value as u16;
            } else if reg == 0x6 {
                self.channels[channel].transfer_size = (self.channels[channel].transfer_size
                    & 0x00FF) | ((value as u16) << 8);
            } else if reg == 0x7 {
                self.channels[channel].indirect_bank = value;
            } else if reg == 0x8 {
                self.channels[channel].table_address = (self.channels[channel].table_address
                    & 0xFF00) | value as u16;
            } else if reg == 0x9 {
                self.channels[channel].table_address = (self.channels[channel].table_address
                    & 0x00FF) | ((value as u16) << 8);
            } else if reg == 0xA {
                self.channels[channel].line_counter = value;
            }
        }
    }
}

/// The channel index a register address decodes to stays under eight,
/// and shifting by four is division by sixteen.
proof fn lemma_channel_index(address: u16)
    by (bit_vector)
    requires
        0x4300 <= address <= 0x437F,
    ensures
        (((address - 0x4300) as u16) >> 4) < 8,
        (((address - 0x4300) as u16) >> 4) == ((address - 0x4300) as u16) / 16,
        ((address - 0x4300) as u16) / 16 == (address - 0x4300) / 16,
{
}

/// A peripheral-bus read: picture-unit register window or plain bus.
fn read_b_bus(bus: &mut Bus, ppu: &mut Ppu, address: u8) -> (r: u8)
    requires
        old(bus)@.wf(),
        old(ppu).wf(),
    ensures
        final(bus)@.wf(),
        final(ppu).wf(),
        final(ppu).dot == old(ppu).dot,
        final(ppu).scanline == old(ppu).scanline,
        final(ppu).frame == old(ppu).frame,
        final(ppu).nmi_pending == old(ppu).nmi_pending,
        final(ppu).irq_pending == old(ppu).irq_pending,
{
    let full_address = 0x2100 + address as u16;
    if full_address <= 0x213F {
        ppu.read_register(full_address)
    } else {
        bus.read8(full_address as u32)
    }
}

/// A peripheral-bus write: picture-unit register window or plain bus.
fn write_b_bus(bus: &mut Bus, ppu: &mut Ppu, address: u8, value: u8)
    requires
        old(bus)@.wf(),
        old(ppu).wf(),
    ensures
        final(bus)@.wf(),
        final(ppu).wf(),
        final(ppu).dot == old(ppu).dot,
        final(ppu).scanline == old(ppu).scanline,
        final(ppu).frame == old(ppu).frame,
        final(ppu).nmi_pending == old(ppu).nmi_pending,
        final(ppu).irq_pending == old(ppu).irq_pending,
{
    let full_address = 0x2100 + address as u16;
    if full_address <= 0x213F {
        ppu.write_register(full_address, value);
    } else {
        bus.write8(full_address as u32, value);
    }
}

/// A main-bus write for the source side.
fn write_a_bus(bus: &mut Bus, bank: u8, address: u16, value: u8)
    requires
        old(bus)@.wf(),
    ensures
        final(bus)@.wf(),
{
    let full_address = ((bank as u32) << 16) | address as u32;
    bus.write8(full_address, value);
}

} // verus!
