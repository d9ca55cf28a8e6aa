use vstd::prelude::*;
use crate::apu::{spec_spc_run, Apu};
use crate::apu::spc700::SpcSnap;
use crate::cartridge::Cartridge;
use crate::cpu::cpu_core::{spec_interrupt, spec_step};
use crate::cpu::Cpu;
use crate::dma::{spec_dma_cycles_from, DmaController};
use crate::error::EmulatorError;
use crate::memory::bus::BusSnap;
use crate::memory::Bus;
use crate::ppu::ppu_core::spec_ppu_ticks;
use crate::ppu::Ppu;
use crate::savestate::{MemoryState, SaveState};

verus! {

/// Cycles in one video frame.
pub const CYCLES_PER_FRAME: u64 = 357366;

/// The scheduler: it owns every component and advances the machine one
/// instruction at a time in the hardware's order. On each tick: a
/// pending general block transfer steals the whole tick from the
/// processor; otherwise per-scanline transfers are prepared at the top
/// of a frame, buffered register writes flush, one instruction runs,
/// the picture unit advances four dots per cycle (running per-scanline
/// transfers at each new visible line), the audio unit advances one
/// tick per cycle, and finally edge-triggered interrupts deliver.
pub struct Emulator {
    pub cpu: Cpu,
    pub ppu: Ppu,
    pub apu: Apu,
    pub dma: DmaController,
    pub bus: Bus,
    pub cycles: u64,
    pub running: bool,
    pub hdma_init_pending: bool,
}

/// Interrupt delivery at an instruction boundary: the non-maskable
/// line first, then the maskable one unless entry just disabled it.
pub open spec fn spec_deliver_interrupts(
    cpu: crate::cpu::registers::CpuRegisters,
    bus: BusSnap,
    nmi: bool,
    irq: bool,
) -> (crate::cpu::registers::CpuRegisters, BusSnap) {
    let after_nmi = if nmi {
        spec_interrupt(cpu, bus, 0xFFFA, 0xFFEA)
    } else {
        (cpu, bus)
    };
    if irq && !after_nmi.0.spec_irq_disable() {
        spec_interrupt(after_nmi.0, after_nmi.1, 0xFFFE, 0xFFEE)
    } else {
        after_nmi
    }
}

/// The bus after the buffered picture-unit register bytes flush: the
/// register cache reads back all zero.
pub open spec fn spec_flushed_bus(b: BusSnap) -> BusSnap {
    BusSnap { ppu_regs: Seq::new(0x40, |i: int| 0u8), ..b }
}

/// Whether this tick prepares the per-scanline transfer tables: only
/// at the top of a frame, once, and only with the enable port set.
pub open spec fn spec_hdma_init_fires(e: Emulator) -> bool {
    e.ppu.scanline == 0 && !e.hdma_init_pending && e.bus@.controller_regs[14] != 0
}

/// Addresses inside one bank decode to bank zero and themselves.
proof fn lemma_low_addr_decode()
    by (bit_vector)
    ensures
        forall|a: u32| a <= 0xFFFF ==> ((a >> 16) & 0xFF) == 0 && (a & 0xFFFF) == a,
{
}

/// Dot ticks that stay inside one scanline just count the dot up.
proof fn lemma_ppu_ticks_no_wrap(dot: u32, scanline: u16, frame: u64, n: nat)
    requires
        dot + n < 341,
    ensures
        spec_ppu_ticks(dot, scanline, frame, n) == (((dot + n) as u32), scanline, frame),
    decreases n,
{
    if n > 0 {
        lemma_ppu_ticks_no_wrap(dot, scanline, frame, (n - 1) as nat);
    }
}

impl Emulator {
    pub open spec fn wf(self) -> bool {
        &&& self.bus@.wf()
        &&& self.ppu.wf()
        &&& self.apu.wf()
        &&& self.dma.wf()
    }

    pub fn new() -> (r: Result<Emulator, EmulatorError>)
        ensures
            r matches Ok(e) && e.wf() && e.cycles == 0 && !e.running && !e.hdma_init_pending
                && e.bus@.cart is None,
    {
        Ok(
            Emulator {
                cpu: Cpu::new(),
                ppu: Ppu::new(),
                apu: Apu::new(),
                dma: DmaController::new(),
                bus: Bus::new(),
                cycles: 0,
                running: false,
                hdma_init_pending: false,
            },
        )
    }

    /// Loads a ROM image: the cartridge parses and moves into the bus,
    /// the audio unit connects, and the machine resets.
    pub fn load_rom(&mut self, rom_data: &[u8]) -> (r: Result<(), EmulatorError>)
        requires
            old(self).wf(),
        ensures
            final(self).wf(),
            r is Ok ==> final(self).bus@.cart is Some && final(self).running,
            r is Err ==> final(self).bus@.cart == old(self).bus@.cart,
    {
        let cartridge = match Cartridge::load(rom_data) {
            Ok(c) => c,
            Err(e) => {
                return Err(e);
            },
        };
        self.bus.install_cartridge(cartridge);
        self.bus.connect_apu();
        self.reset()
    }

    /// Full machine reset: every component reinitialises, the counters
    /// clear, and the machine starts running.
    pub fn reset(&mut self) -> (r: Result<(), EmulatorError>)
        requires
            old(self).wf(),
        ensures
            r is Ok,
            final(self).wf(),
            final(self).cycles == 0,
            final(self).running,
            !final(self).hdma_init_pending,
            final(self).bus@.cart == old(self).bus@.cart,
            final(self).cpu.registers == (crate::cpu::registers::CpuRegisters {
                pc: old(self).bus@.read16_full(0xFFFC).0 as u32,
                ..crate::cpu::registers::CpuRegisters::power_on()
            }),
    {
        let cpu_result = self.cpu.reset(&mut self.bus);
        match cpu_result {
            Ok(()) => {},
            Err(e) => {
                return Err(e);
            },
        }
        self.ppu.reset();
        self.apu.reset();
        self.dma.reset();
        self.cycles = 0;
        self.running = true;
        self.hdma_init_pending = false;
        Ok(())
    }

    /// One scheduler tick. A nonzero general-transfer enable port runs
    /// the transfer exactly once, clears the port, adds exactly the
    /// transfer's cost, and skips processor, graphics and audio
    /// stepping entirely for this call: the processor executes zero
    /// instructions on such a tick. Otherwise exactly one instruction
    /// executes against the flushed bus, the picture unit advances
    /// four dots per processor cycle, the audio unit runs one tick per
    /// cycle, the counter grows by the instruction's cost, and the
    /// edge-triggered interrupt flags are each read (and so cleared)
    /// once at the instruction boundary, the non-maskable line first,
    /// entry happening exactly when a flag was set. The full state
    /// equation is stated for ticks that neither prepare per-scanline
    /// tables nor end a scanline, where no per-scanline transfer
    /// interleaves.
    #[verifier::rlimit(100)]
    #[verifier::spinoff_prover]
    pub fn step(&mut self) -> (r: Result<(), EmulatorError>)
        requires
            old(self).wf(),
        ensures
            r is Ok,
            final(self).wf(),
            final(self).running == old(self).running,
            !old(self).running ==> *final(self) == *old(self),
            old(self).running && old(self).bus@.controller_regs[13] != 0 ==> {
                &&& final(self).cpu == old(self).cpu
                &&& final(self).bus@.controller_regs[13] == 0
                &&& final(self).dma.dma_enable == 0
                &&& final(self).apu.spc700@.cycles == old(self).apu.spc700@.cycles
                &&& final(self).ppu.dot == old(self).ppu.dot
                &&& final(self).ppu.scanline == old(self).ppu.scanline
                &&& final(self).cycles == old(self).cycles.wrapping_add(
                    (8 + spec_dma_cycles_from(
                        old(self).dma.channels@,
                        old(self).dma.dma_enable,
                        0,
                    )) as u64,
                )
            },
            old(self).running && old(self).bus@.controller_regs[13] == 0 ==> {
                let st = spec_step(old(self).cpu.registers, spec_flushed_bus(old(self).bus@));
                &&& final(self).ppu.nmi_pending == false
                &&& final(self).ppu.irq_pending == false
                &&& (!spec_hdma_init_fires(*old(self)) ==> (
                    final(self).ppu.dot,
                    final(self).ppu.scanline,
                    final(self).ppu.frame,
                ) == spec_ppu_ticks(
                    old(self).ppu.dot,
                    old(self).ppu.scanline,
                    old(self).ppu.frame,
                    (4 * st.2) as nat,
                ))
                &&& (!spec_hdma_init_fires(*old(self)) && old(self).ppu.dot + 4 * st.2 < 341
                    ==> {
                    let spc0 = (SpcSnap {
                        port_out: st.1.apu_in_ports,
                        ..old(self).apu.spc700@
                    });
                    let spc_after = spec_spc_run(spc0, st.2 as nat);
                    let bus_after = (BusSnap { apu_out_ports: spc_after.port_in, ..st.1 });
                    let dl = spec_deliver_interrupts(
                        st.0,
                        bus_after,
                        old(self).ppu.nmi_pending,
                        old(self).ppu.irq_pending,
                    );
                    &&& final(self).cpu.registers == dl.0
                    &&& final(self).bus@ == dl.1
                    &&& final(self).apu.spc700@ == spc_after
                    &&& final(self).cycles == old(self).cycles.wrapping_add(st.2 as u64)
                })
            },
    {
        if !self.running {
            return Ok(());
        }
        proof {
            lemma_port_addresses();
        }
        let dma_enable = self.bus.read8(0x420B);
        if dma_enable != 0 {
            let dma_cycles = self.dma.execute_dma(&mut self.bus, &mut self.ppu);
            self.cycles = add_cycles(self.cycles, dma_cycles as u64);
            self.bus.write8(0x420B, 0);
            return Ok(());
        }
        let ghost fires = spec_hdma_init_fires(*old(self));
        // Prepare per-scanline transfers once at the top of each frame.
        if self.ppu.get_current_scanline() == 0 && !self.hdma_init_pending {
            let hdma_enable = self.bus.read8(0x420C);
            if hdma_enable != 0 {
                self.dma.init_hdma(&mut self.bus);
                self.hdma_init_pending = true;
            }
        }
        if self.ppu.get_current_scanline() > 0 {
            self.hdma_init_pending = false;
        }
        self.flush_buffered_registers();
        let ghost st = spec_step(old(self).cpu.registers, spec_flushed_bus(old(self).bus@));
        let ghost pre_regs = self.cpu.registers;
        let ghost pre_bus = self.bus@;
        proof {
            crate::cpu::cpu_core::lemma_step_cycles_bounds(pre_regs, pre_bus);
        }
        // One processor instruction.
        let cpu_cycles = match self.cpu.step(&mut self.bus) {
            Ok(c) => c,
            Err(e) => {
                return Err(e);
            },
        };
        proof {
            assert(!fires ==> (self.cpu.registers, self.bus@, cpu_cycles) == st);
        }
        self.advance_video(cpu_cycles);
        self.run_audio(cpu_cycles);
        self.cycles = add_cycles(self.cycles, cpu_cycles as u64);
        self.deliver_interrupts()
    }

    /// Reads the buffered transfer-channel bytes into the transfer
    /// controller and hands the cached picture-unit register bytes to
    /// the picture unit, clearing the cache. Only the cache region of
    /// the bus changes; processor, audio unit, timing counters and
    /// interrupt flags stay put.
    fn flush_buffered_registers(&mut self)
        requires
            old(self).wf(),
        ensures
            final(self).wf(),
            final(self).bus@ == spec_flushed_bus(old(self).bus@),
            final(self).cpu == old(self).cpu,
            final(self).apu == old(self).apu,
            final(self).cycles == old(self).cycles,
            final(self).running == old(self).running,
            final(self).hdma_init_pending == old(self).hdma_init_pending,
            final(self).ppu.dot == old(self).ppu.dot,
            final(self).ppu.scanline == old(self).ppu.scanline,
            final(self).ppu.frame == old(self).ppu.frame,
            final(self).ppu.nmi_pending == old(self).ppu.nmi_pending,
            final(self).ppu.irq_pending == old(self).ppu.irq_pending,
    {
        let mut addr: u16 = 0x4300;
        while addr <= 0x437F
            invariant
                self.wf(),
                0x4300 <= addr <= 0x4380,
                self.running == old(self).running,
                self.hdma_init_pending == old(self).hdma_init_pending,
                self.cpu == old(self).cpu,
                self.apu == old(self).apu,
                self.ppu == old(self).ppu,
                self.cycles == old(self).cycles,
                self.bus@ == old(self).bus@,
            decreases 0x4380 - addr,
        {
            proof {
                lemma_low_addr_decode();
            }
            let value = self.bus.read8(addr as u32);
            self.dma.write_register(addr, value);
            addr = addr + 1;
        }
        let mut reg: u16 = 0x2100;
        while reg <= 0x213F
            invariant
                self.wf(),
                0x2100 <= reg <= 0x2140,
                self.running == old(self).running,
                self.hdma_init_pending == old(self).hdma_init_pending,
                self.cpu == old(self).cpu,
                self.apu == old(self).apu,
                self.cycles == old(self).cycles,
                self.ppu.dot == old(self).ppu.dot,
                self.ppu.scanline == old(self).ppu.scanline,
                self.ppu.frame == old(self).ppu.frame,
                self.ppu.nmi_pending == old(self).ppu.nmi_pending,
                self.ppu.irq_pending == old(self).ppu.irq_pending,
                self.bus@ == (BusSnap { ppu_regs: self.bus@.ppu_regs, ..old(self).bus@ }),
                forall|j: int| 0 <= j < reg - 0x2100 ==> self.bus@.ppu_regs[j] == 0,
                forall|j: int|
                    reg - 0x2100 <= j < 0x40 ==> self.bus@.ppu_regs[j] == old(
                    self).bus@.ppu_regs[j],
            decreases 0x2140 - reg,
        {
            let value = self.bus.ppu_register(reg);
            if value != 0 {
                self.ppu.write_register(reg, value);
                self.bus.set_ppu_register(reg, 0);
            }
            reg = reg + 1;
        }
        proof {
            assert(self.bus@.ppu_regs =~= Seq::new(0x40, |i: int| 0u8));
        }
    }

    /// Advances the picture unit four dots per processor cycle,
    /// running per-scanline transfers at each crossing into a visible
    /// scanline. The timing counters advance exactly; when the dots
    /// stay inside the current scanline no transfer interleaves, so
    /// the bus, interrupt flags and cycle counter are untouched.
    #[verifier::rlimit(100)]
    #[verifier::spinoff_prover]
    fn advance_video(&mut self, cpu_cycles: u32)
        requires
            old(self).wf(),
            cpu_cycles <= 0x1002,
        ensures
            final(self).wf(),
            final(self).running == old(self).running,
            final(self).cpu == old(self).cpu,
            final(self).apu == old(self).apu,
            (final(self).ppu.dot, final(self).ppu.scanline, final(self).ppu.frame)
                == spec_ppu_ticks(
                old(self).ppu.dot,
                old(self).ppu.scanline,
                old(self).ppu.frame,
                (4 * cpu_cycles) as nat,
            ),
            old(self).ppu.dot + 4 * cpu_cycles < 341 ==> final(self).bus@ == old(self).bus@
                && final(self).ppu.nmi_pending == old(self).ppu.nmi_pending
                && final(self).ppu.irq_pending == old(self).ppu.irq_pending
                && final(self).cycles == old(self).cycles,
    {
        let ghost d0 = self.ppu.dot;
        let ghost s0 = self.ppu.scanline;
        let ghost f0 = self.ppu.frame;
        let ghost n0 = self.ppu.nmi_pending;
        let ghost i0 = self.ppu.irq_pending;
        let ghost bus0 = self.bus@;
        let ghost cyc0 = self.cycles;
        let ghost clean = d0 + 4 * (cpu_cycles as int) < 341;
        let old_scanline = self.ppu.get_current_scanline();
        let dots = cpu_cycles * 4;
        let mut d: u32 = 0;
        while d < dots
            invariant
                self.wf(),
                self.running == old(self).running,
                d <= dots,
                dots == cpu_cycles * 4,
                cpu_cycles <= 0x1002,
                old_scanline == s0,
                clean == (d0 + 4 * (cpu_cycles as int) < 341),
                (self.ppu.dot, self.ppu.scanline, self.ppu.frame) == spec_ppu_ticks(
                    d0,
                    s0,
                    f0,
                    d as nat,
                ),
                self.cpu == old(self).cpu,
                self.apu == old(self).apu,
                clean ==> self.bus@ == bus0 && self.ppu.nmi_pending == n0
                    && self.ppu.irq_pending == i0 && self.cycles == cyc0,
            decreases dots - d,
        {
            proof {
                if clean {
                    lemma_ppu_ticks_no_wrap(d0, s0, f0, d as nat);
                    lemma_ppu_ticks_no_wrap(d0, s0, f0, (d + 1) as nat);
                }
            }
            let ghost before = spec_ppu_ticks(d0, s0, f0, d as nat);
            self.ppu.step(&mut self.bus);
            let new_scanline = self.ppu.get_current_scanline();
            if new_scanline != old_scanline && new_scanline < 224 {
                let hdma_cycles = self.dma.execute_hdma(&mut self.bus, &mut self.ppu);
                self.cycles = add_cycles(self.cycles, hdma_cycles as u64);
            }
            proof {
                assert(spec_ppu_ticks(d0, s0, f0, (d + 1) as nat) == (
                    crate::ppu::ppu_core::spec_tick_dot(before.0),
                    crate::ppu::ppu_core::spec_tick_scanline(before.0, before.1),
                    crate::ppu::ppu_core::spec_tick_frame(before.0, before.1, before.2),
                ));
            }
            d = d + 1;
        }
    }

    /// Carries the processor-written port bytes to the audio unit,
    /// runs it one tick per processor cycle, and carries its replies
    /// back onto the bus; nothing else moves.
    #[verifier::rlimit(100)]
    #[verifier::spinoff_prover]
    fn run_audio(&mut self, cpu_cycles: u32)
        requires
            old(self).wf(),
        ensures
            final(self).wf(),
            final(self).running == old(self).running,
            final(self).cpu == old(self).cpu,
            final(self).ppu == old(self).ppu,
            final(self).cycles == old(self).cycles,
            final(self).apu.spc700@ == spec_spc_run(
                (SpcSnap {
                    port_out: old(self).bus@.apu_in_ports,
                    ..old(self).apu.spc700@
                }),
                cpu_cycles as nat,
            ),
            final(self).bus@ == (BusSnap {
                apu_out_ports: final(self).apu.spc700@.port_in,
                ..old(self).bus@
            }),
    {
        let ghost bus_pd = self.bus@;
        let ghost cyc2 = self.cycles;
        let ghost ppu2 = self.ppu;
        let ghost apu0spc = self.apu.spc700@;
        let mut p: usize = 0;
        while p < 4
            invariant
                self.wf(),
                self.running == old(self).running,
                p <= 4,
                self.cpu == old(self).cpu,
                self.bus@ == bus_pd,
                self.cycles == cyc2,
                self.ppu == ppu2,
                self.apu.spc700@ == (SpcSnap {
                    port_out: self.apu.spc700@.port_out,
                    ..apu0spc
                }),
                forall|j: int|
                    0 <= j < p ==> self.apu.spc700@.port_out[j] == bus_pd.apu_in_ports[j],
                forall|j: int|
                    p <= j < 4 ==> self.apu.spc700@.port_out[j] == apu0spc.port_out[j],
            decreases 4 - p,
        {
            let v = self.bus.apu_in_ports[p];
            self.apu.write_port(p, v);
            p = p + 1;
        }
        proof {
            assert(self.apu.spc700@.port_out =~= bus_pd.apu_in_ports);
            assert(self.apu.spc700@ == (SpcSnap { port_out: bus_pd.apu_in_ports, ..apu0spc }));
        }
        let ghost spc_base = self.apu.spc700@;
        let mut t: u32 = 0;
        while t < cpu_cycles
            invariant
                self.wf(),
                self.running == old(self).running,
                t <= cpu_cycles,
                self.cpu == old(self).cpu,
                self.bus@ == bus_pd,
                self.cycles == cyc2,
                self.ppu == ppu2,
                self.apu.spc700@ == spec_spc_run(spc_base, t as nat),
            decreases cpu_cycles - t,
        {
            self.apu.step();
            t = t + 1;
        }
        let ghost spc_done = self.apu.spc700@;
        let mut q: usize = 0;
        while q < 4
            invariant
                self.wf(),
                self.running == old(self).running,
                q <= 4,
                self.cpu == old(self).cpu,
                self.cycles == cyc2,
                self.ppu == ppu2,
                self.apu.spc700@ == spc_done,
                self.bus@ == (BusSnap { apu_out_ports: self.bus@.apu_out_ports, ..bus_pd }),
                forall|j: int|
                    0 <= j < q ==> self.bus@.apu_out_ports[j] == spc_done.port_in[j],
                forall|j: int|
                    q <= j < 4 ==> self.bus@.apu_out_ports[j] == bus_pd.apu_out_ports[j],
            decreases 4 - q,
        {
            let v = self.apu.read_port(q);
            self.bus.apu_out_ports[q] = v;
            q = q + 1;
        }
        proof {
            assert(self.bus@.apu_out_ports =~= spc_done.port_in);
        }
    }

    /// Reads each edge-triggered interrupt flag once, clearing it, the
    /// non-maskable line first, and performs interrupt entry exactly
    /// when a flag was set; nothing else moves.
    fn deliver_interrupts(&mut self) -> (r: Result<(), EmulatorError>)
        requires
            old(self).wf(),
        ensures
            r is Ok,
            final(self).wf(),
            final(self).running == old(self).running,
            final(self).apu == old(self).apu,
            final(self).cycles == old(self).cycles,
            final(self).dma == old(self).dma,
            final(self).ppu.nmi_pending == false,
            final(self).ppu.irq_pending == false,
            final(self).ppu.dot == old(self).ppu.dot,
            final(self).ppu.scanline == old(self).ppu.scanline,
            final(self).ppu.frame == old(self).ppu.frame,
            (final(self).cpu.registers, final(self).bus@) == spec_deliver_interrupts(
                old(self).cpu.registers,
                old(self).bus@,
                old(self).ppu.nmi_pending,
                old(self).ppu.irq_pending,
            ),
    {
        let nmi_now = self.ppu.nmi_pending();
        if nmi_now {
            match self.cpu.trigger_nmi(&mut self.bus) {
                Ok(()) => {},
                Err(e) => {
                    return Err(e);
                },
            }
        }
        let irq_now = self.ppu.irq_pending();
        if irq_now {
            match self.cpu.trigger_irq(&mut self.bus) {
                Ok(()) => {},
                Err(e) => {
                    return Err(e);
                },
            }
        }
        Ok(())
    }

    /// Runs ticks until one frame's worth of cycles has passed.
    pub fn step_frame(&mut self) -> (r: Result<(), EmulatorError>)
        requires
            old(self).wf(),
        ensures
            r is Ok,
            final(self).wf(),
            final(self).running == old(self).running,
    {
        if !self.running {
            return Ok(());
        }
        let start_cycles = self.cycles;
        // Every tick adds at least one cycle, so the frame budget of
        // 357366 cycles is always met within the tick allowance below.
        let mut fuel: u32 = 400000;
        while fuel > 0
            invariant
                self.wf(),
                self.running == old(self).running,
            decreases fuel,
        {
            if self.cycles.wrapping_sub(start_cycles) >= CYCLES_PER_FRAME {
                return Ok(());
            }
            match self.step() {
                Ok(()) => {},
                Err(e) => {
                    return Err(e);
                },
            }
            fuel = fuel - 1;
        }
        Ok(())
    }

    /// Latches controller buttons for one player.
    pub fn set_controller_input(&mut self, player: u8, buttons: u16)
        requires
            old(self).wf(),
        ensures
            final(self).wf(),
            final(self).running == old(self).running,
    {
        self.bus.input.set_controller_state(player, buttons);
    }

    pub fn get_video_buffer(&self) -> (r: &[u8])
        ensures
            r@ == self.ppu.frame_buffer@,
    {
        self.ppu.get_frame_buffer()
    }

    pub fn is_running(&self) -> (r: bool)
        ensures
            r == self.running,
    {
        self.running
    }

    pub fn pause(&mut self)
        ensures
            *final(self) == (Emulator { running: false, ..*old(self) }),
    {
        self.running = false;
    }

    pub fn resume(&mut self)
        ensures
            *final(self) == (Emulator { running: true, ..*old(self) }),
    {
        self.running = true;
    }

    /// A whole-machine snapshot; taken only between ticks. The
    /// processor part carries the full register file and run state,
    /// the scheduler counter rides along, and the memories copy over.
    pub fn save_state(&self) -> (r: Result<SaveState, EmulatorError>)
        requires
            self.wf(),
        ensures
            r matches Ok(s) && {
                &&& s.version == crate::savestate::SAVE_STATE_VERSION
                &&& s.cycles == self.cycles
                &&& s.cpu == (crate::savestate::CpuState {
                    a: self.cpu.registers.a,
                    x: self.cpu.registers.x,
                    y: self.cpu.registers.y,
                    s: self.cpu.registers.s,
                    d: self.cpu.registers.d,
                    db: self.cpu.registers.db,
                    pb: self.cpu.registers.spec_pc_bank(),
                    pc: self.cpu.registers.spec_pc_offset(),
                    p: self.cpu.registers.p,
                    emulation_mode: self.cpu.registers.emulation_mode,
                    stopped: self.cpu.registers.halt,
                    waiting_for_interrupt: self.cpu.registers.waiting_for_interrupt,
                    nmi_pending: false,
                    irq_pending: false,
                })
                &&& s.memory.wram@ == self.bus@.wram
                &&& (s.memory.sram is Some <==> (self.bus@.cart matches Some(c)
                    && c.sram.len() > 0))
                &&& s.ppu.vram@ == self.ppu.vram@
                &&& s.ppu.cgram@ == self.ppu.cgram@
                &&& s.ppu.current_scanline == self.ppu.scanline
                &&& s.ppu.current_cycle == self.ppu.dot as u16
                &&& s.ppu.frame_count == self.ppu.frame
                &&& s.ppu.nmi_flag == self.ppu.nmi_pending
                &&& s.ppu.irq_flag == self.ppu.irq_pending
                &&& s.apu.spc700.ram@ == self.apu.spc700@.ram
                &&& s.apu.spc700.pc == self.apu.spc700@.pc
                &&& s.dma.channels@.len() == 8
            },
    {
        let mut state = SaveState::new();
        state.cpu = self.cpu.save_state();
        state.ppu = self.ppu.save_state();
        state.apu = self.apu.save_state();
        state.memory = MemoryState {
            wram: vstd::slice::slice_to_vec(self.bus.wram.as_slice()),
            sram: match &self.bus.cartridge {
                Some(c) => match c.get_sram() {
                    Some(s) => Some(vstd::slice::slice_to_vec(s)),
                    None => None,
                },
                None => None,
            },
        };
        state.dma = self.dma_snapshot();
        state.cycles = self.cycles;
        Ok(state)
    }

    /// The transfer controller's channels as snapshot records.
    fn dma_snapshot(&self) -> (r: crate::savestate::DmaState)
        requires
            self.wf(),
        ensures
            r.channels@.len() == 8,
    {
        let mut channels: Vec<crate::savestate::DmaChannelState> = Vec::new();
        let mut i: usize = 0;
        while i < 8
            invariant
                self.wf(),
                i <= 8,
                channels@.len() == i,
            decreases 8 - i,
        {
            let ch = self.dma.channels[i];
            let enabled = (self.dma.dma_enable & (1u8 << (i as u8))) != 0;
            let hdma_enabled = (self.dma.hdma_enable & (1u8 << (i as u8))) != 0;
            channels.push(
                crate::savestate::DmaChannelState {
                    enabled,
                    hdma_enabled,
                    direction: if ch.control & 0x80 != 0 {
                        1
                    } else {
                        0
                    },
                    indirect: ch.control & 0x40 != 0,
                    reverse_transfer: false,
                    fixed_transfer: (ch.control >> 3) & 0x03 == 1 || (ch.control >> 3) & 0x03
                        == 2,
                    transfer_mode: ch.control & 0x07,
                    b_address: ch.b_address,
                    a_address: ch.a_address,
                    a_bank: ch.a_bank,
                    transfer_size: ch.transfer_size,
                    indirect_bank: ch.indirect_bank,
                    hdma_line_counter: ch.line_counter,
                    hdma_address: ch.table_address,
                    hdma_completed: ch.hdma_completed,
                },
            );
            i = i + 1;
        }
        crate::savestate::DmaState { channels }
    }

    /// Restores a snapshot taken by `save_state`.
    pub fn load_state(&mut self, state: &SaveState) -> (r: Result<(), EmulatorError>)
        requires
            old(self).wf(),
        ensures
            final(self).wf(),
            r is Ok ==> final(self).cycles == state.cycles,
    {
        self.cpu.load_state(&state.cpu);
        self.ppu.load_state(&state.ppu);
        self.apu.load_state(&state.apu);
        if state.memory.wram.len() == crate::memory::bus::WRAM_SIZE {
            self.bus.wram = vstd::slice::slice_to_vec(state.memory.wram.as_slice());
        }
        match (&state.memory.sram, &mut self.bus.cartridge) {
            (Some(sram_data), Some(cartridge)) => {
                let _ = cartridge.load_sram(sram_data.as_slice());
            },
            _ => {},
        }
        self.load_dma_snapshot(&state.dma);
        self.cycles = state.cycles;
        Ok(())
    }

    /// Rebuilds the transfer controller from snapshot records.
    fn load_dma_snapshot(&mut self, state: &crate::savestate::DmaState)
        requires
            old(self).wf(),
        ensures
            final(self).wf(),
    {
        self.dma.dma_enable = 0;
        self.dma.hdma_enable = 0;
        let n = if state.channels.len() < 8 {
            state.channels.len()
        } else {
            8
        };
        let mut i: usize = 0;
        while i < n
            invariant
                self.wf(),
                n <= 8,
                n <= state.channels@.len(),
                i <= n,
            decreases n - i,
        {
            let ch_state = state.channels[i];
            let mut control: u8 = ch_state.transfer_mode & 0x07;
            if ch_state.indirect {
                control = control | 0x40;
            }
            if ch_state.direction != 0 {
                control = control | 0x80;
            }
            if ch_state.fixed_transfer {
                control = control | 0x08;
            }
            self.dma.channels[i].control = control;
            self.dma.channels[i].b_address = ch_state.b_address;
            self.dma.channels[i].a_address = ch_state.a_address;
            self.dma.channels[i].a_bank = ch_state.a_bank;
            self.dma.channels[i].transfer_size = ch_state.transfer_size;
            self.dma.channels[i].indirect_bank = ch_state.indirect_bank;
            self.dma.channels[i].line_counter = ch_state.hdma_line_counter;
            self.dma.channels[i].table_address = ch_state.hdma_address;
            self.dma.channels[i].hdma_completed = ch_state.hdma_completed;
            self.dma.channels[i].hdma_active = ch_state.hdma_enabled;
            if ch_state.enabled {
                self.dma.dma_enable = self.dma.dma_enable | (1u8 << (i as u8));
            }
            if ch_state.hdma_enabled {
                self.dma.hdma_enable = self.dma.hdma_enable | (1u8 << (i as u8));
            }
            i = i + 1;
        }
    }

    /// The loaded ROM's summary, when one is loaded.
    pub fn get_rom_info(&self) -> (r: Option<crate::cartridge::header::RomInfo>)
        ensures
            (r is Some) == (self.bus@.cart is Some),
    {
        match &self.bus.cartridge {
            Some(cartridge) => Some(cartridge.get_info()),
            None => None,
        }
    }

    pub fn get_cycle_count(&self) -> (r: u64)
        ensures
            r == self.cycles,
    {
        self.cycles
    }

    pub fn get_frame_count(&self) -> (r: u64)
        ensures
            r == self.ppu.frame,
    {
        self.ppu.get_frame_count()
    }

    pub fn get_frame_buffer(&self) -> (r: &[u8])
        ensures
            r@ == self.ppu.frame_buffer@,
    {
        self.ppu.get_frame_buffer()
    }

    /// Replaces the cartridge's save RAM, when a cartridge is loaded
    /// and the sizes agree.
    pub fn load_sram(&mut self, sram_data: &[u8]) -> (r: Result<(), EmulatorError>)
        requires
            old(self).wf(),
        ensures
            final(self).wf(),
    {
        match &mut self.bus.cartridge {
            Some(cartridge) => {
                match cartridge.load_sram(sram_data) {
                    Ok(()) => Ok(()),
                    Err(e) => Err(e),
                }
            },
            None => Ok(()),
        }
    }

    /// A copy of the save RAM, when a cartridge with one is loaded.
    pub fn get_sram(&self) -> (r: Option<Vec<u8>>)
        ensures
            self.bus@.cart is None ==> r is None,
    {
        match &self.bus.cartridge {
            Some(cartridge) => match cartridge.get_sram() {
                Some(s) => Some(vstd::slice::slice_to_vec(s)),
                None => None,
            },
            None => None,
        }
    }
}

/// The transfer-enable ports decode to bank zero and their own
/// offsets.
proof fn lemma_port_addresses()
    by (bit_vector)
    ensures
        (0x420Bu32 >> 16) & 0xFF == 0,
        0x420Bu32 & 0xFFFF == 0x420B,
        (0x420Cu32 >> 16) & 0xFF == 0,
        0x420Cu32 & 0xFFFF == 0x420C,
{
}

/// The running cycle counter grows without overflow surprises.
fn add_cycles(total: u64, add: u64) -> (r: u64)
    ensures
        r == total.wrapping_add(add),
{
    total.wrapping_add(add)
}

} // verus!
