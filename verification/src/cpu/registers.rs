use vstd::prelude::*;
use crate::memory::bus::{Bus, BusSnap};

verus! {

pub const FLAG_CARRY: u8 = 0x01;
pub const FLAG_ZERO: u8 = 0x02;
pub const FLAG_IRQ_DISABLE: u8 = 0x04;
pub const FLAG_DECIMAL: u8 = 0x08;
pub const FLAG_INDEX_WIDTH: u8 = 0x10;
pub const FLAG_MEMORY_WIDTH: u8 = 0x20;
pub const FLAG_OVERFLOW: u8 = 0x40;
pub const FLAG_NEGATIVE: u8 = 0x80;

/// The 65C816-class register file. The accumulator and index registers
/// always store 16 bits; the two width flags of `p` decide how much of
/// them reads and writes see. `pc` holds a 24-bit program counter: an
/// 8-bit bank over a 16-bit offset.
#[derive(Debug, Clone, Copy, PartialEq, Eq, Structural)]
pub struct CpuRegisters {
    pub a: u16,
    pub x: u16,
    pub y: u16,
    pub s: u16,
    pub pc: u32,
    pub p: u8,
    pub db: u8,
    pub d: u16,
    pub emulation_mode: bool,
    pub halt: bool,
    pub waiting_for_interrupt: bool,
}

impl CpuRegisters {
    /// Power-on state: stack at the top of page 1, both widths 8-bit,
    /// interrupts off, compatibility mode engaged.
    pub open spec fn power_on() -> CpuRegisters {
        CpuRegisters {
            a: 0,
            x: 0,
            y: 0,
            s: 0x01FF,
            pc: 0,
            p: 0x34,
            db: 0,
            d: 0,
            emulation_mode: true,
            halt: false,
            waiting_for_interrupt: false,
        }
    }

    /// The documented register-file invariant: in emulation mode both
    /// width flags read 8-bit and the stack pointer sits in page 1.
    pub open spec fn wf(self) -> bool {
        self.emulation_mode ==> {
            &&& self.spec_memory_width()
            &&& self.spec_index_width()
            &&& self.s & 0xFF00 == 0x0100
        }
    }

    pub open spec fn spec_get_flag(self, flag: u8) -> bool {
        self.p & flag != 0
    }

    pub open spec fn with_flag(self, flag: u8, value: bool) -> CpuRegisters {
        if value {
            CpuRegisters { p: self.p | flag, ..self }
        } else {
            CpuRegisters { p: self.p & !flag, ..self }
        }
    }

    pub open spec fn spec_carry(self) -> bool {
        self.spec_get_flag(FLAG_CARRY)
    }

    pub open spec fn spec_zero(self) -> bool {
        self.spec_get_flag(FLAG_ZERO)
    }

    pub open spec fn spec_irq_disable(self) -> bool {
        self.spec_get_flag(FLAG_IRQ_DISABLE)
    }

    pub open spec fn spec_decimal(self) -> bool {
        self.spec_get_flag(FLAG_DECIMAL)
    }

    /// True means the index registers read and write 8 bits.
    pub open spec fn spec_index_width(self) -> bool {
        self.spec_get_flag(FLAG_INDEX_WIDTH)
    }

    /// True means the accumulator and memory operands are 8 bits wide.
    pub open spec fn spec_memory_width(self) -> bool {
        self.spec_get_flag(FLAG_MEMORY_WIDTH)
    }

    pub open spec fn spec_overflow(self) -> bool {
        self.spec_get_flag(FLAG_OVERFLOW)
    }

    pub open spec fn spec_negative(self) -> bool {
        self.spec_get_flag(FLAG_NEGATIVE)
    }

    /// The accumulator as reads see it: masked to its current width.
    pub open spec fn spec_get_a(self) -> u16 {
        if self.spec_memory_width() {
            self.a & 0xFF
        } else {
            self.a
        }
    }

    /// An accumulator write: an 8-bit write keeps the stored high byte.
    pub open spec fn spec_with_a(self, value: u16) -> CpuRegisters {
        if self.spec_memory_width() {
            CpuRegisters { a: (self.a & 0xFF00) | (value & 0xFF), ..self }
        } else {
            CpuRegisters { a: value, ..self }
        }
    }

    pub open spec fn spec_get_x(self) -> u16 {
        if self.spec_index_width() {
            self.x & 0xFF
        } else {
            self.x
        }
    }

    pub open spec fn spec_with_x(self, value: u16) -> CpuRegisters {
        if self.spec_index_width() {
            CpuRegisters { x: (self.x & 0xFF00) | (value & 0xFF), ..self }
        } else {
            CpuRegisters { x: value, ..self }
        }
    }

    pub open spec fn spec_get_y(self) -> u16 {
        if self.spec_index_width() {
            self.y & 0xFF
        } else {
            self.y
        }
    }

    pub open spec fn spec_with_y(self, value: u16) -> CpuRegisters {
        if self.spec_index_width() {
            CpuRegisters { y: (self.y & 0xFF00) | (value & 0xFF), ..self }
        } else {
            CpuRegisters { y: value, ..self }
        }
    }

    /// Negative and zero refreshed from a value at the accumulator width.
    pub open spec fn spec_update_nz(self, value: u16) -> CpuRegisters {
        if self.spec_memory_width() {
            self.with_flag(FLAG_ZERO, value & 0xFF == 0).with_flag(
                FLAG_NEGATIVE,
                value & 0x80 != 0,
            )
        } else {
            self.with_flag(FLAG_ZERO, value == 0).with_flag(FLAG_NEGATIVE, value & 0x8000 != 0)
        }
    }

    /// Negative and zero refreshed at the index-register width.
    pub open spec fn spec_update_nz_index(self, value: u16) -> CpuRegisters {
        if self.spec_index_width() {
            self.with_flag(FLAG_ZERO, value & 0xFF == 0).with_flag(
                FLAG_NEGATIVE,
                value & 0x80 != 0,
            )
        } else {
            self.with_flag(FLAG_ZERO, value == 0).with_flag(FLAG_NEGATIVE, value & 0x8000 != 0)
        }
    }

    /// In emulation mode the stack pointer re-wraps into page 1 after
    /// every adjustment.
    pub open spec fn spec_wrap_s(self, s: u16) -> u16 {
        if self.emulation_mode {
            (s & 0xFF) | 0x0100
        } else {
            s
        }
    }

    /// One byte pushed: written at `s`, which then steps down.
    pub open spec fn spec_push8(self, bus: BusSnap, value: u8) -> (CpuRegisters, BusSnap) {
        let bus2 = bus.write8_full(self.s as u32, value);
        let s2 = self.spec_wrap_s(self.s.wrapping_sub(1));
        (CpuRegisters { s: s2, ..self }, bus2)
    }

    /// One byte popped: `s` steps up first, then the byte is read there.
    pub open spec fn spec_pop8(self, bus: BusSnap) -> (CpuRegisters, BusSnap, u8) {
        let s2 = self.spec_wrap_s(self.s.wrapping_add(1));
        let rd = bus.read8_full(s2 as u32);
        (CpuRegisters { s: s2, ..self }, rd.1, rd.0)
    }

    /// A 16-bit push writes the high byte first, so the low byte ends up
    /// at the lower address.
    pub open spec fn spec_push16(self, bus: BusSnap, value: u16) -> (CpuRegisters, BusSnap) {
        let hi = self.spec_push8(bus, (value >> 8) as u8);
        hi.0.spec_push8(hi.1, (value & 0xFF) as u8)
    }

    pub open spec fn spec_pop16(self, bus: BusSnap) -> (CpuRegisters, BusSnap, u16) {
        let lo = self.spec_pop8(bus);
        let hi = lo.0.spec_pop8(lo.1);
        (hi.0, hi.1, (lo.2 as u16) | ((hi.2 as u16) << 8))
    }

    pub open spec fn spec_pc_bank(self) -> u8 {
        ((self.pc >> 16) & 0xFF) as u8
    }

    pub open spec fn spec_pc_offset(self) -> u16 {
        (self.pc & 0xFFFF) as u16
    }

    pub open spec fn spec_with_pc(self, bank: u8, offset: u16) -> CpuRegisters {
        CpuRegisters { pc: ((bank as u32) << 16) | (offset as u32), ..self }
    }

    /// The program counter stepped forward inside the 24-bit space.
    pub open spec fn spec_increment_pc(self, amount: u32) -> CpuRegisters {
        CpuRegisters { pc: self.pc.wrapping_add(amount) & 0xFFFFFF, ..self }
    }

    /// Leaving emulation mode frees the stack pointer; nothing else moves.
    pub open spec fn spec_enter_native(self) -> CpuRegisters {
        CpuRegisters { emulation_mode: false, ..self }
    }

    /// Entering emulation mode pins the stack into page 1 and forces
    /// both widths to 8 bits.
    pub open spec fn spec_enter_emulation(self) -> CpuRegisters {
        let c = CpuRegisters {
            emulation_mode: true,
            s: (self.s & 0xFF) | 0x0100,
            ..self
        };
        c.with_flag(FLAG_MEMORY_WIDTH, true).with_flag(FLAG_INDEX_WIDTH, true)
    }

    pub fn new() -> (r: Self)
        ensures
            r == CpuRegisters::power_on(),
    {
        Self {
            a: 0,
            x: 0,
            y: 0,
            s: 0x01FF,
            pc: 0,
            p: 0x34,
            db: 0,
            d: 0,
            emulation_mode: true,
            halt: false,
            waiting_for_interrupt: false,
        }
    }

    pub fn set_flag(&mut self, flag: u8, value: bool)
        ensures
            *final(self) == old(self).with_flag(flag, value),
    {
        if value {
            self.p = self.p | flag;
        } else {
            self.p = self.p & !flag;
        }
    }

    pub fn get_flag(&self, flag: u8) -> (r: bool)
        ensures
            r == self.spec_get_flag(flag),
    {
        (self.p & flag) != 0
    }

    pub fn carry(&self) -> (r: bool)
        ensures
            r == self.spec_carry(),
    {
        self.get_flag(FLAG_CARRY)
    }

    pub fn zero(&self) -> (r: bool)
        ensures
            r == self.spec_zero(),
    {
        self.get_flag(FLAG_ZERO)
    }

    pub fn irq_disable(&self) -> (r: bool)
        ensures
            r == self.spec_irq_disable(),
    {
        self.get_flag(FLAG_IRQ_DISABLE)
    }

    pub fn decimal(&self) -> (r: bool)
        ensures
            r == self.spec_decimal(),
    {
        self.get_flag(FLAG_DECIMAL)
    }

    pub fn index_width(&self) -> (r: bool)
        ensures
            r == self.spec_index_width(),
    {
        self.get_flag(FLAG_INDEX_WIDTH)
    }

    pub fn memory_width(&self) -> (r: bool)
        ensures
            r == self.spec_memory_width(),
    {
        self.get_flag(FLAG_MEMORY_WIDTH)
    }

    pub fn overflow(&self) -> (r: bool)
        ensures
            r == self.spec_overflow(),
    {
        self.get_flag(FLAG_OVERFLOW)
    }

    pub fn negative(&self) -> (r: bool)
        ensures
            r == self.spec_negative(),
    {
        self.get_flag(FLAG_NEGATIVE)
    }

    pub fn set_carry(&mut self, value: bool)
        ensures
            *final(self) == old(self).with_flag(FLAG_CARRY, value),
    {
        self.set_flag(FLAG_CARRY, value);
    }

    pub fn set_zero(&mut self, value: bool)
        ensures
            *final(self) == old(self).with_flag(FLAG_ZERO, value),
    {
        self.set_flag(FLAG_ZERO, value);
    }

    pub fn set_irq_disable(&mut self, value: bool)
        ensures
            *final(self) == old(self).with_flag(FLAG_IRQ_DISABLE, value),
    {
        self.set_flag(FLAG_IRQ_DISABLE, value);
    }

    pub fn set_decimal(&mut self, value: bool)
        ensures
            *final(self) == old(self).with_flag(FLAG_DECIMAL, value),
    {
        self.set_flag(FLAG_DECIMAL, value);
    }

    pub fn set_index_width(&mut self, value: bool)
        ensures
            *final(self) == old(self).with_flag(FLAG_INDEX_WIDTH, value),
    {
        self.set_flag(FLAG_INDEX_WIDTH, value);
    }

    pub fn set_memory_width(&mut self, value: bool)
        ensures
            *final(self) == old(self).with_flag(FLAG_MEMORY_WIDTH, value),
    {
        self.set_flag(FLAG_MEMORY_WIDTH, value);
    }

    pub fn set_overflow(&mut self, value: bool)
        ensures
            *final(self) == old(self).with_flag(FLAG_OVERFLOW, value),
    {
        self.set_flag(FLAG_OVERFLOW, value);
    }

    pub fn set_negative(&mut self, value: bool)
        ensures
            *final(self) == old(self).with_flag(FLAG_NEGATIVE, value),
    {
        self.set_flag(FLAG_NEGATIVE, value);
    }

    pub fn get_a(&self) -> (r: u16)
        ensures
            r == self.spec_get_a(),
    {
        if self.memory_width() {
            self.a & 0xFF
        } else {
            self.a
        }
    }

    pub fn set_a(&mut self, value: u16)
        ensures
            *final(self) == old(self).spec_with_a(value),
    {
        if self.memory_width() {
            self.a = (self.a & 0xFF00) | (value & 0xFF);
        } else {
            self.a = value;
        }
    }

    pub fn get_x(&self) -> (r: u16)
        ensures
            r == self.spec_get_x(),
    {
        if self.index_width() {
            self.x & 0xFF
        } else {
            self.x
        }
    }

    pub fn set_x(&mut self, value: u16)
        ensures
            *final(self) == old(self).spec_with_x(value),
    {
        if self.index_width() {
            self.x = (self.x & 0xFF00) | (value & 0xFF);
        } else {
            self.x = value;
        }
    }

    pub fn get_y(&self) -> (r: u16)
        ensures
            r == self.spec_get_y(),
    {
        if self.index_width() {
            self.y & 0xFF
        } else {
            self.y
        }
    }

    pub fn set_y(&mut self, value: u16)
        ensures
            *final(self) == old(self).spec_with_y(value),
    {
        if self.index_width() {
            self.y = (self.y & 0xFF00) | (value & 0xFF);
        } else {
            self.y = value;
        }
    }

    pub fn update_nz_flags(&mut self, value: u16)
        ensures
            *final(self) == old(self).spec_update_nz(value),
    {
        if self.memory_width() {
            let val = (value & 0xFF) as u8;
            proof {
                lemma_low_byte_nz(value);
            }
            self.set_zero(val == 0);
            self.set_negative((val & 0x80) != 0);
        } else {
            self.set_zero(value == 0);
            self.set_negative((value & 0x8000) != 0);
        }
    }

    pub fn update_nz_flags_index(&mut self, value: u16)
        ensures
            *final(self) == old(self).spec_update_nz_index(value),
    {
        if self.index_width() {
            let val = (value & 0xFF) as u8;
            proof {
                lemma_low_byte_nz(value);
            }
            self.set_zero(val == 0);
            self.set_negative((val & 0x80) != 0);
        } else {
            self.set_zero(value == 0);
            self.set_negative((value & 0x8000) != 0);
        }
    }

    pub fn push_8(&mut self, bus: &mut Bus, value: u8)
        requires
            old(bus)@.wf(),
        ensures
            (*final(self), final(bus)@) == old(self).spec_push8(old(bus)@, value),
            final(bus)@.wf(),
    {
        bus.write8(self.s as u32, value);
        self.s = self.s.wrapping_sub(1);
        if self.emulation_mode {
            self.s = (self.s & 0xFF) | 0x0100;
        }
    }

    pub fn pop_8(&mut self, bus: &mut Bus) -> (r: u8)
        requires
            old(bus)@.wf(),
        ensures
            (*final(self), final(bus)@, r) == old(self).spec_pop8(old(bus)@),
            final(bus)@.wf(),
    {
        self.s = self.s.wrapping_add(1);
        if self.emulation_mode {
            self.s = (self.s & 0xFF) | 0x0100;
        }
        bus.read8(self.s as u32)
    }

    pub fn push_16(&mut self, bus: &mut Bus, value: u16)
        requires
            old(bus)@.wf(),
        ensures
            (*final(self), final(bus)@) == old(self).spec_push16(old(bus)@, value),
            final(bus)@.wf(),
    {
        self.push_8(bus, (value >> 8) as u8);
        self.push_8(bus, (value & 0xFF) as u8);
    }

    pub fn pop_16(&mut self, bus: &mut Bus) -> (r: u16)
        requires
            old(bus)@.wf(),
        ensures
            (*final(self), final(bus)@, r) == old(self).spec_pop16(old(bus)@),
            final(bus)@.wf(),
    {
        let low = self.pop_8(bus) as u16;
        let high = self.pop_8(bus) as u16;
        low | (high << 8)
    }

    pub fn get_pc_bank(&self) -> (r: u8)
        ensures
            r == self.spec_pc_bank(),
    {
        ((self.pc >> 16) & 0xFF) as u8
    }

    pub fn get_pc_offset(&self) -> (r: u16)
        ensures
            r == self.spec_pc_offset(),
    {
        (self.pc & 0xFFFF) as u16
    }

    pub fn set_pc(&mut self, bank: u8, offset: u16)
        ensures
            *final(self) == old(self).spec_with_pc(bank, offset),
    {
        self.pc = ((bank as u32) << 16) | (offset as u32);
    }

    pub fn increment_pc(&mut self, amount: u32)
        ensures
            *final(self) == old(self).spec_increment_pc(amount),
    {
        self.pc = self.pc.wrapping_add(amount) & 0xFFFFFF;
    }

    pub fn enter_native_mode(&mut self)
        ensures
            *final(self) == old(self).spec_enter_native(),
    {
        self.emulation_mode = false;
    }

    pub fn enter_emulation_mode(&mut self)
        ensures
            *final(self) == old(self).spec_enter_emulation(),
            final(self).wf(),
    {
        self.emulation_mode = true;
        self.s = (self.s & 0xFF) | 0x0100;
        self.set_memory_width(true);
        self.set_index_width(true);
        proof {
            lemma_width_flags_forced(old(self).p);
            lemma_pin_page1(old(self).s);
        }
    }

    /// The operand width in bits under the current accumulator width.
    pub fn get_memory_width(&self) -> (r: u8)
        ensures
            r == (if self.spec_memory_width() {
                8u8
            } else {
                16u8
            }),
    {
        if self.memory_width() {
            8
        } else {
            16
        }
    }

    /// The index-register width in bits.
    pub fn get_index_width(&self) -> (r: u8)
        ensures
            r == (if self.spec_index_width() {
                8u8
            } else {
                16u8
            }),
    {
        if self.index_width() {
            8
        } else {
            16
        }
    }
}

/// Setting both width bits makes both width flags read as set.
pub proof fn lemma_width_flags_forced(p: u8)
    by (bit_vector)
    ensures
        ((p | 0x20) | 0x10) & 0x20 != 0,
        ((p | 0x20) | 0x10) & 0x10 != 0,
        ((p | 0x10) | 0x20) & 0x20 != 0,
        ((p | 0x10) | 0x20) & 0x10 != 0,
{
}

/// The low byte of a value carries its 8-bit zero and sign tests.
pub proof fn lemma_low_byte_nz(value: u16)
    by (bit_vector)
    ensures
        (((value & 0xFF) as u8) == 0) <==> (value & 0xFF == 0),
        ((((value & 0xFF) as u8) & 0x80) != 0) <==> ((value & 0x80) != 0),
{
}

/// Masking into page 1 leaves the high byte at 0x01.
pub proof fn lemma_pin_page1(s: u16)
    by (bit_vector)
    ensures
        ((s & 0xFF) | 0x0100) & 0xFF00 == 0x0100,
{
}

/// Stack invariant: in emulation mode, every push and pop of one or
/// two bytes leaves the stack pointer's high byte equal to 0x01.
pub proof fn lemma_stack_stays_in_page_one(
    cpu: CpuRegisters,
    bus: crate::memory::bus::BusSnap,
    value: u8,
    value16: u16,
)
    requires
        cpu.emulation_mode,
    ensures
        cpu.spec_push8(bus, value).0.s & 0xFF00 == 0x0100,
        cpu.spec_pop8(bus).0.s & 0xFF00 == 0x0100,
        cpu.spec_push16(bus, value16).0.s & 0xFF00 == 0x0100,
        cpu.spec_pop16(bus).0.s & 0xFF00 == 0x0100,
{
    lemma_pin_page1(cpu.s.wrapping_sub(1));
    lemma_pin_page1(cpu.s.wrapping_add(1));
    let p1 = cpu.spec_push8(bus, (value16 >> 8) as u8);
    lemma_pin_page1(p1.0.s.wrapping_sub(1));
    let q1 = cpu.spec_pop8(bus);
    lemma_pin_page1(q1.0.s.wrapping_add(1));
}

} // verus!
