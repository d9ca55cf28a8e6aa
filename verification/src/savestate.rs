use vstd::prelude::*;
use crate::cartridge::loader::zero_bytes;
use crate::error::EmulatorError;

verus! {

/// Version stamp written into every save state.
pub const SAVE_STATE_VERSION: u32 = 1;

/// Snapshot of the processor's register file and run state.
#[derive(Debug, Clone, PartialEq, Eq, Structural)]
pub struct CpuState {
    pub a: u16,
    pub x: u16,
    pub y: u16,
    pub s: u16,
    pub d: u16,
    pub db: u8,
    pub pb: u8,
    pub pc: u16,
    pub p: u8,
    pub emulation_mode: bool,
    pub stopped: bool,
    pub waiting_for_interrupt: bool,
    pub nmi_pending: bool,
    pub irq_pending: bool,
}

/// Snapshot of the picture unit.
#[derive(Debug, Clone)]
pub struct PpuState {
    pub registers: Vec<u8>,
    pub vram: Vec<u8>,
    pub cgram: Vec<u8>,
    pub oam: Vec<u8>,
    pub current_scanline: u16,
    pub current_cycle: u16,
    pub frame_count: u64,
    pub vblank: bool,
    pub hblank: bool,
    pub nmi_flag: bool,
    pub irq_flag: bool,
}

/// Snapshot of the audio unit's processor.
#[derive(Debug, Clone)]
pub struct Spc700State {
    pub a: u8,
    pub x: u8,
    pub y: u8,
    pub sp: u8,
    pub pc: u16,
    pub psw: u8,
    pub ram: Vec<u8>,
    pub ipl_rom_enable: bool,
    pub port_in: [u8; 4],
    pub port_out: [u8; 4],
    pub timer_enable: u8,
    pub timer_target: [u8; 3],
    pub timer_counter: [u8; 3],
    pub timer_output: [u8; 3],
    pub cycles: u64,
}

/// Snapshot of one audio channel's registers.
#[derive(Debug, Clone, Copy, PartialEq, Eq, Structural)]
pub struct ChannelState {
    pub volume_left: u8,
    pub volume_right: u8,
    pub pitch: u16,
    pub source_number: u8,
    pub adsr: u16,
    pub gain: u8,
    pub envelope: u16,
}

/// Snapshot of the audio mixer.
#[derive(Debug, Clone)]
pub struct DspState {
    pub channels: Vec<ChannelState>,
    pub main_volume_left: u8,
    pub main_volume_right: u8,
    pub echo_volume_left: u8,
    pub echo_volume_right: u8,
    pub sample_counter: u32,
}

/// Snapshot of the whole audio unit.
#[derive(Debug, Clone)]
pub struct ApuState {
    pub spc700: Spc700State,
    pub dsp: DspState,
}

/// Snapshot of the bus memories the state file carries.
#[derive(Debug, Clone)]
pub struct MemoryState {
    pub wram: Vec<u8>,
    pub sram: Option<Vec<u8>>,
}

/// Snapshot of one block-transfer channel.
#[derive(Debug, Clone, Copy, PartialEq, Eq, Structural)]
pub struct DmaChannelState {
    pub enabled: bool,
    pub hdma_enabled: bool,
    pub direction: u8,
    pub indirect: bool,
    pub reverse_transfer: bool,
    pub fixed_transfer: bool,
    pub transfer_mode: u8,
    pub b_address: u8,
    pub a_address: u16,
    pub a_bank: u8,
    pub transfer_size: u16,
    pub indirect_bank: u8,
    pub hdma_line_counter: u8,
    pub hdma_address: u16,
    pub hdma_completed: bool,
}

/// Snapshot of the block-transfer controller.
#[derive(Debug, Clone)]
pub struct DmaState {
    pub channels: Vec<DmaChannelState>,
}

/// A whole-machine snapshot, taken and restored only between ticks.
#[derive(Debug, Clone)]
pub struct SaveState {
    pub version: u32,
    pub cpu: CpuState,
    pub ppu: PpuState,
    pub apu: ApuState,
    pub memory: MemoryState,
    pub dma: DmaState,
    pub cycles: u64,
}

impl CpuState {
    pub open spec fn spec_default() -> CpuState {
        CpuState {
            a: 0,
            x: 0,
            y: 0,
            s: 0x01FF,
            d: 0,
            db: 0,
            pb: 0,
            pc: 0,
            p: 0x34,
            emulation_mode: true,
            stopped: false,
            waiting_for_interrupt: false,
            nmi_pending: false,
            irq_pending: false,
        }
    }
}

impl Default for CpuState {
    fn default() -> (r: Self)
        ensures
            r == CpuState::spec_default(),
    {
        CpuState {
            a: 0,
            x: 0,
            y: 0,
            s: 0x01FF,
            d: 0,
            db: 0,
            pb: 0,
            pc: 0,
            p: 0x34,
            emulation_mode: true,
            stopped: false,
            waiting_for_interrupt: false,
            nmi_pending: false,
            irq_pending: false,
        }
    }
}

impl Default for PpuState {
    fn default() -> (r: Self)
        ensures
            r.registers@ == Seq::new(0x40, |i: int| 0u8),
            r.vram@ == Seq::new(0x10000, |i: int| 0u8),
            r.cgram@ == Seq::new(0x200, |i: int| 0u8),
            r.oam@ == Seq::new(0x220, |i: int| 0u8),
            r.current_scanline == 0,
            r.current_cycle == 0,
            r.frame_count == 0,
            !r.vblank && !r.hblank && !r.nmi_flag && !r.irq_flag,
    {
        PpuState {
            registers: zero_bytes(0x40),
            vram: zero_bytes(0x10000),
            cgram: zero_bytes(0x200),
            oam: zero_bytes(0x220),
            current_scanline: 0,
            current_cycle: 0,
            frame_count: 0,
            vblank: false,
            hblank: false,
            nmi_flag: false,
            irq_flag: false,
        }
    }
}

impl Default for Spc700State {
    fn default() -> (r: Self)
        ensures
            r.a == 0 && r.x == 0 && r.y == 0,
            r.sp == 0xFF,
            r.pc == 0xFFC0,
            r.psw == 0x02,
            r.ram@ == Seq::new(0x10000, |i: int| 0u8),
            r.ipl_rom_enable,
            r.port_in@ == Seq::new(4, |i: int| 0u8),
            r.port_out@ == Seq::new(4, |i: int| 0u8),
            r.timer_enable == 0,
            r.timer_target@ == Seq::new(3, |i: int| 0u8),
            r.timer_counter@ == Seq::new(3, |i: int| 0u8),
            r.timer_output@ == Seq::new(3, |i: int| 0u8),
            r.cycles == 0,
    {
        Spc700State {
            a: 0,
            x: 0,
            y: 0,
            sp: 0xFF,
            pc: 0xFFC0,
            psw: 0x02,
            ram: zero_bytes(0x10000),
            ipl_rom_enable: true,
            port_in: [0, 0, 0, 0],
            port_out: [0, 0, 0, 0],
            timer_enable: 0,
            timer_target: [0, 0, 0],
            timer_counter: [0, 0, 0],
            timer_output: [0, 0, 0],
            cycles: 0,
        }
    }
}

impl ChannelState {
    pub open spec fn spec_default() -> ChannelState {
        ChannelState {
            volume_left: 0,
            volume_right: 0,
            pitch: 0,
            source_number: 0,
            adsr: 0,
            gain: 0,
            envelope: 0,
        }
    }
}

impl Default for ChannelState {
    fn default() -> (r: Self)
        ensures
            r == ChannelState::spec_default(),
    {
        ChannelState {
            volume_left: 0,
            volume_right: 0,
            pitch: 0,
            source_number: 0,
            adsr: 0,
            gain: 0,
            envelope: 0,
        }
    }
}

impl Default for DspState {
    fn default() -> (r: Self)
        ensures
            r.channels@ == Seq::new(8, |i: int| ChannelState::spec_default()),
            r.main_volume_left == 0 && r.main_volume_right == 0,
            r.echo_volume_left == 0 && r.echo_volume_right == 0,
            r.sample_counter == 0,
    {
        let mut channels: Vec<ChannelState> = Vec::new();
        let mut i: usize = 0;
        while i < 8
            invariant
                0 <= i <= 8,
                channels@ == Seq::new(i as nat, |j: int| ChannelState::spec_default()),
            decreases 8 - i,
        {
            channels.push(ChannelState::default());
            proof {
                assert(channels@ =~= Seq::new((i + 1) as nat, |j: int| ChannelState::spec_default()));
            }
            i = i + 1;
        }
        DspState {
            channels,
            main_volume_left: 0,
            main_volume_right: 0,
            echo_volume_left: 0,
            echo_volume_right: 0,
            sample_counter: 0,
        }
    }
}

impl Default for ApuState {
    fn default() -> (r: Self)
        ensures
            r.spc700.sp == 0xFF,
            r.spc700.pc == 0xFFC0,
            r.spc700.ram@.len() == 0x10000,
            r.dsp.channels@.len() == 8,
    {
        ApuState { spc700: Spc700State::default(), dsp: DspState::default() }
    }
}

impl Default for MemoryState {
    fn default() -> (r: Self)
        ensures
            r.wram@ == Seq::new(0x20000, |i: int| 0u8),
            r.sram is None,
    {
        MemoryState { wram: zero_bytes(0x20000), sram: None }
    }
}

impl DmaChannelState {
    pub open spec fn spec_default() -> DmaChannelState {
        DmaChannelState {
            enabled: false,
            hdma_enabled: false,
            direction: 0,
            indirect: false,
            reverse_transfer: false,
            fixed_transfer: false,
            transfer_mode: 0,
            b_address: 0,
            a_address: 0,
            a_bank: 0,
            transfer_size: 0,
            indirect_bank: 0,
            hdma_line_counter: 0,
            hdma_address: 0,
            hdma_completed: false,
        }
    }
}

impl Default for DmaChannelState {
    fn default() -> (r: Self)
        ensures
            r == DmaChannelState::spec_default(),
    {
        DmaChannelState {
            enabled: false,
            hdma_enabled: false,
            direction: 0,
            indirect: false,
            reverse_transfer: false,
            fixed_transfer: false,
            transfer_mode: 0,
            b_address: 0,
            a_address: 0,
            a_bank: 0,
            transfer_size: 0,
            indirect_bank: 0,
            hdma_line_counter: 0,
            hdma_address: 0,
            hdma_completed: false,
        }
    }
}

impl Default for DmaState {
    fn default() -> (r: Self)
        ensures
            r.channels@ == Seq::new(8, |i: int| DmaChannelState::spec_default()),
    {
        let mut channels: Vec<DmaChannelState> = Vec::new();
        let mut i: usize = 0;
        while i < 8
            invariant
                0 <= i <= 8,
                channels@ == Seq::new(i as nat, |j: int| DmaChannelState::spec_default()),
            decreases 8 - i,
        {
            channels.push(DmaChannelState::default());
            proof {
                assert(channels@ =~= Seq::new(
                    (i + 1) as nat,
                    |j: int| DmaChannelState::spec_default(),
                ));
            }
            i = i + 1;
        }
        DmaState { channels }
    }
}

impl SaveState {
    /// A fresh snapshot holding power-on state and the current version.
    pub fn new() -> (r: Self)
        ensures
            r.version == SAVE_STATE_VERSION,
            r.cpu == CpuState::spec_default(),
            r.memory.wram@.len() == 0x20000,
            r.memory.sram is None,
            r.apu.spc700.sp == 0xFF,
            r.apu.spc700.pc == 0xFFC0,
            r.apu.spc700.ram@.len() == 0x10000,
            r.dma.channels@.len() == 8,
            r.cycles == 0,
    {
        SaveState {
            version: SAVE_STATE_VERSION,
            cpu: CpuState::default(),
            ppu: PpuState::default(),
            apu: ApuState::default(),
            memory: MemoryState::default(),
            dma: DmaState::default(),
            cycles: 0,
        }
    }

    /// Accepts exactly the snapshots written by this version.
    pub fn check_version(&self) -> (r: Result<(), EmulatorError>)
        ensures
            (r is Ok) == (self.version == SAVE_STATE_VERSION),
    {
        if self.version == SAVE_STATE_VERSION {
            Ok(())
        } else {
            Err(EmulatorError::save_state(String::new()))
        }
    }
}

} // verus!
