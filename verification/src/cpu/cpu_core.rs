use vstd::prelude::*;
use crate::cpu::execute::{execute_instruction, spec_execute};
use crate::cpu::instructions::{decode_opcode, spec_decode};
use crate::cpu::registers::CpuRegisters;
use crate::error::EmulatorError;
use crate::memory::bus::{Bus, BusSnap};
use crate::savestate::CpuState;

verus! {

/// The processor: its register file and a running cycle counter.
pub struct Cpu {
    pub registers: CpuRegisters,
    pub cycles: u64,
}

/// One step of the instruction state machine. Halted or waiting, the
/// processor only burns a cycle. Otherwise it fetches and decodes the
/// opcode at the program counter and executes it; an undefined opcode
/// would be skipped as a fixed two-cycle no-op rather than failing.
pub open spec fn spec_step(cpu: CpuRegisters, bus: BusSnap) -> (CpuRegisters, BusSnap, u32) {
    if cpu.halt || cpu.waiting_for_interrupt {
        (cpu, bus, 1)
    } else {
        let rd = bus.read8_full(cpu.pc);
        let c2 = cpu.spec_increment_pc(1);
        match spec_decode(rd.0) {
            Some(info) => {
                let out = spec_execute(info, c2, rd.1);
                (out.cpu, out.bus, out.cycles)
            },
            None => (c2, rd.1, 2),
        }
    }
}

/// Interrupt entry: any wait state clears, the program counter (bank
/// first, native mode only) and status byte go to the stack, further
/// maskable interrupts are disabled, and the handler address comes from
/// the mode's vector.
pub open spec fn spec_interrupt(
    cpu: CpuRegisters,
    bus: BusSnap,
    emu_vector: u32,
    native_vector: u32,
) -> (CpuRegisters, BusSnap) {
    let c0 = CpuRegisters { waiting_for_interrupt: false, ..cpu };
    let pushed = if !c0.emulation_mode {
        c0.spec_push8(bus, c0.spec_pc_bank())
    } else {
        (c0, bus)
    };
    let p2 = pushed.0.spec_push16(pushed.1, pushed.0.spec_pc_offset());
    let p3 = p2.0.spec_push8(p2.1, p2.0.p);
    let c2 = p3.0.with_flag(crate::cpu::registers::FLAG_IRQ_DISABLE, true);
    let vec_addr: u32 = if c2.emulation_mode {
        emu_vector
    } else {
        native_vector
    };
    let vr = p3.1.read16_full(vec_addr);
    (CpuRegisters { pc: vr.0 as u32, ..c2 }, vr.1)
}

/// One processor step burns at least one cycle and a bounded few.
pub proof fn lemma_step_cycles_bounds(cpu: CpuRegisters, bus: BusSnap)
    ensures
        1 <= spec_step(cpu, bus).2 <= 0x1002,
{
    if !(cpu.halt || cpu.waiting_for_interrupt) {
        let rd = bus.read8_full(cpu.pc);
        crate::cpu::instructions::lemma_decode_total(rd.0);
        match spec_decode(rd.0) {
            Some(info) => {
                crate::cpu::execute::lemma_execute_cycles_bounds(
                    info,
                    cpu.spec_increment_pc(1),
                    rd.1,
                );
            },
            None => {},
        }
    }
}

impl Cpu {
    pub fn new() -> (r: Self)
        ensures
            r.registers == CpuRegisters::power_on(),
            r.cycles == 0,
    {
        Self { registers: CpuRegisters::new(), cycles: 0 }
    }

    /// Full reinitialisation: the register file returns to its power-on
    /// state and the program counter reseeds from the bus reset vector.
    pub fn reset(&mut self, bus: &mut Bus) -> (r: Result<(), EmulatorError>)
        requires
            old(bus)@.wf(),
        ensures
            r is Ok,
            final(bus)@ == old(bus)@.read16_full(0xFFFC).1,
            final(self).registers == (CpuRegisters {
                pc: old(bus)@.read16_full(0xFFFC).0 as u32,
                ..CpuRegisters::power_on()
            }),
            final(self).cycles == 0,
            final(bus)@.wf(),
    {
        let reset_vector = bus.read16(0xFFFC);
        self.registers = CpuRegisters::new();
        self.registers.pc = reset_vector as u32;
        self.registers.s = 0x01FF;
        self.registers.p = 0x34;
        self.registers.emulation_mode = true;
        self.cycles = 0;
        self.registers.halt = false;
        self.registers.waiting_for_interrupt = false;
        Ok(())
    }

    /// Executes one instruction (or one idle cycle when halted or
    /// waiting) and returns the true cycle cost, which also joins the
    /// running counter. Stepping never fails.
    pub fn step(&mut self, bus: &mut Bus) -> (r: Result<u32, EmulatorError>)
        requires
            old(bus)@.wf(),
        ensures
            final(bus)@.wf(),
            r matches Ok(c) && (final(self).registers, final(bus)@, c) == spec_step(
                old(self).registers,
                old(bus)@,
            ),
            r matches Ok(c) && final(self).cycles == old(self).cycles.wrapping_add(c as u64),
    {
        if self.registers.halt || self.registers.waiting_for_interrupt {
            self.cycles = self.cycles.wrapping_add(1);
            return Ok(1);
        }
        let opcode = bus.read8(self.registers.pc);
        self.registers.increment_pc(1);
        if let Some(info) = decode_opcode(opcode) {
            let cycles = match execute_instruction(&mut self.registers, bus, &info) {
                Ok(c) => c,
                Err(e) => {
                    return Err(e);
                },
            };
            self.cycles = self.cycles.wrapping_add(cycles as u64);
            Ok(cycles)
        } else {
            // Undefined opcode: a deliberate graceful-degradation
            // policy, costing a fixed two cycles.
            self.cycles = self.cycles.wrapping_add(2);
            Ok(2)
        }
    }

    /// Non-maskable interrupt entry; costs a fixed eight cycles.
    pub fn trigger_nmi(&mut self, bus: &mut Bus) -> (r: Result<(), EmulatorError>)
        requires
            old(bus)@.wf(),
        ensures
            r is Ok,
            final(bus)@.wf(),
            (final(self).registers, final(bus)@) == spec_interrupt(
                old(self).registers,
                old(bus)@,
                0xFFFA,
                0xFFEA,
            ),
            final(self).cycles == old(self).cycles.wrapping_add(8),
    {
        if self.registers.waiting_for_interrupt {
            self.registers.waiting_for_interrupt = false;
        }
        if !self.registers.emulation_mode {
            let bank = self.registers.get_pc_bank();
            self.registers.push_8(bus, bank);
        }
        let off = self.registers.get_pc_offset();
        self.registers.push_16(bus, off);
        let p = self.registers.p;
        self.registers.push_8(bus, p);
        self.registers.set_irq_disable(true);
        let nmi_vector = if self.registers.emulation_mode {
            bus.read16(0xFFFA)
        } else {
            bus.read16(0xFFEA)
        };
        self.registers.pc = nmi_vector as u32;
        self.cycles = self.cycles.wrapping_add(8);
        Ok(())
    }

    /// Maskable interrupt entry: fully suppressed while the disable
    /// flag is set, otherwise the same push-and-vector sequence as the
    /// non-maskable line, for eight cycles.
    pub fn trigger_irq(&mut self, bus: &mut Bus) -> (r: Result<(), EmulatorError>)
        requires
            old(bus)@.wf(),
        ensures
            r is Ok,
            final(bus)@.wf(),
            old(self).registers.spec_irq_disable() ==> *final(self) == *old(self) && final(bus)@
                == old(bus)@,
            !old(self).registers.spec_irq_disable() ==> (final(self).registers, final(bus)@)
                == spec_interrupt(old(self).registers, old(bus)@, 0xFFFE, 0xFFEE) && final(
            self).cycles == old(self).cycles.wrapping_add(8),
    {
        if self.registers.irq_disable() {
            return Ok(());
        }
        if self.registers.waiting_for_interrupt {
            self.registers.waiting_for_interrupt = false;
        }
        if !self.registers.emulation_mode {
            let bank = self.registers.get_pc_bank();
            self.registers.push_8(bus, bank);
        }
        let off = self.registers.get_pc_offset();
        self.registers.push_16(bus, off);
        let p = self.registers.p;
        self.registers.push_8(bus, p);
        self.registers.set_irq_disable(true);
        let irq_vector = if self.registers.emulation_mode {
            bus.read16(0xFFFE)
        } else {
            bus.read16(0xFFEE)
        };
        self.registers.pc = irq_vector as u32;
        self.cycles = self.cycles.wrapping_add(8);
        Ok(())
    }

    pub fn get_registers(&self) -> (r: &CpuRegisters)
        ensures
            r == self.registers,
    {
        &self.registers
    }

    pub fn get_registers_mut(&mut self) -> &mut CpuRegisters {
        &mut self.registers
    }

    pub fn get_cycles(&self) -> (r: u64)
        ensures
            r == self.cycles,
    {
        self.cycles
    }

    /// A serialisable snapshot of the processor.
    pub fn save_state(&self) -> (r: CpuState)
        ensures
            r == (CpuState {
                a: self.registers.a,
                x: self.registers.x,
                y: self.registers.y,
                s: self.registers.s,
                d: self.registers.d,
                db: self.registers.db,
                pb: self.registers.spec_pc_bank(),
                pc: self.registers.spec_pc_offset(),
                p: self.registers.p,
                emulation_mode: self.registers.emulation_mode,
                stopped: self.registers.halt,
                waiting_for_interrupt: self.registers.waiting_for_interrupt,
                nmi_pending: false,
                irq_pending: false,
            }),
    {
        CpuState {
            a: self.registers.a,
            x: self.registers.x,
            y: self.registers.y,
            s: self.registers.s,
            d: self.registers.d,
            db: self.registers.db,
            pb: self.registers.get_pc_bank(),
            pc: self.registers.get_pc_offset(),
            p: self.registers.p,
            emulation_mode: self.registers.emulation_mode,
            stopped: self.registers.halt,
            waiting_for_interrupt: self.registers.waiting_for_interrupt,
            nmi_pending: false,
            irq_pending: false,
        }
    }

    /// Restores the register file from a snapshot; the cycle counter is
    /// not part of the processor snapshot.
    pub fn load_state(&mut self, state: &CpuState)
        ensures
            final(self).registers == (CpuRegisters {
                a: state.a,
                x: state.x,
                y: state.y,
                s: state.s,
                d: state.d,
                db: state.db,
                pc: ((state.pb as u32) << 16) | (state.pc as u32),
                p: state.p,
                emulation_mode: state.emulation_mode,
                halt: state.stopped,
                waiting_for_interrupt: state.waiting_for_interrupt,
            }),
            final(self).cycles == old(self).cycles,
    {
        self.registers.a = state.a;
        self.registers.x = state.x;
        self.registers.y = state.y;
        self.registers.s = state.s;
        self.registers.d = state.d;
        self.registers.db = state.db;
        self.registers.set_pc(state.pb, state.pc);
        self.registers.p = state.p;
        self.registers.emulation_mode = state.emulation_mode;
        self.registers.halt = state.stopped;
        self.registers.waiting_for_interrupt = state.waiting_for_interrupt;
    }
}

} // verus!
