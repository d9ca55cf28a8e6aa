use vstd::prelude::*;
use crate::cpu::registers::CpuRegisters;
use crate::memory::bus::{Bus, BusSnap};

verus! {

/// The operand-addressing modes of the instruction set.
#[derive(Debug, Clone, Copy, PartialEq, Eq, Structural)]
pub enum AddressingMode {
    Implied,
    Accumulator,
    Immediate,
    DirectPage,
    DirectPageX,
    DirectPageY,
    DirectPageIndirect,
    DirectPageIndirectX,
    DirectPageIndirectY,
    DirectPageIndirectLong,
    DirectPageIndirectLongY,
    Absolute,
    AbsoluteX,
    AbsoluteY,
    AbsoluteIndirect,
    AbsoluteIndirectX,
    AbsoluteLong,
    AbsoluteLongX,
    AbsoluteIndirectLong,
    StackRelative,
    StackRelativeIndirectY,
    BlockMove,
    Relative,
    RelativeLong,
}

/// What resolving a mode yields: the effective address, the operand
/// already fetched at the current memory width, the extra cycles this
/// resolution cost, and whether a page boundary was crossed (used by
/// branch timing).
#[derive(Debug, Clone, Copy, PartialEq, Eq, Structural)]
pub struct AddressingResult {
    pub address: u32,
    pub value: u16,
    pub cycles: u32,
    pub crossed_page: bool,
}

/// The full effect of resolving a mode: registers moved past the
/// operand bytes, the bus as the reads leave it, and the result.
pub struct ResolveOut {
    pub cpu: CpuRegisters,
    pub bus: BusSnap,
    pub res: AddressingResult,
}

/// The operand value at the current memory width, with the bus state
/// the fetch leaves behind.
pub open spec fn fetch_operand(cpu: CpuRegisters, bus: BusSnap, address: u32) -> (u16, BusSnap) {
    if cpu.spec_memory_width() {
        let rd = bus.read8_full(address);
        (rd.0 as u16, rd.1)
    } else {
        bus.read16_full(address)
    }
}

/// The direct-page penalty: one cycle when the direct-page register is
/// not page aligned.
pub open spec fn dp_penalty(cpu: CpuRegisters) -> u32 {
    if cpu.d & 0xFF != 0 {
        1
    } else {
        0
    }
}

/// What `resolve` does for each mode, stated as a function of the
/// register file and the bus.
pub open spec fn spec_resolve(mode: AddressingMode, cpu: CpuRegisters, bus: BusSnap) -> ResolveOut {
    match mode {
        AddressingMode::Implied => ResolveOut {
            cpu,
            bus,
            res: AddressingResult { address: 0, value: 0, cycles: 0, crossed_page: false },
        },
        AddressingMode::Accumulator => ResolveOut {
            cpu,
            bus,
            res: AddressingResult {
                address: 0,
                value: cpu.spec_get_a(),
                cycles: 0,
                crossed_page: false,
            },
        },
        AddressingMode::Immediate => {
            let pc = cpu.pc;
            if cpu.spec_memory_width() {
                let rd = bus.read8_full(pc);
                ResolveOut {
                    cpu: cpu.spec_increment_pc(1),
                    bus: rd.1,
                    res: AddressingResult {
                        address: pc,
                        value: rd.0 as u16,
                        cycles: 0,
                        crossed_page: false,
                    },
                }
            } else {
                let rd = bus.read16_full(pc);
                ResolveOut {
                    cpu: cpu.spec_increment_pc(2),
                    bus: rd.1,
                    res: AddressingResult {
                        address: pc,
                        value: rd.0,
                        cycles: 0,
                        crossed_page: false,
                    },
                }
            }
        },
        AddressingMode::DirectPage => {
            let rd = bus.read8_full(cpu.pc);
            let cpu2 = cpu.spec_increment_pc(1);
            let address = cpu.d.wrapping_add(rd.0 as u16) as u32;
            let fv = fetch_operand(cpu2, rd.1, address);
            ResolveOut {
                cpu: cpu2,
                bus: fv.1,
                res: AddressingResult {
                    address,
                    value: fv.0,
                    cycles: dp_penalty(cpu2),
                    crossed_page: false,
                },
            }
        },
        AddressingMode::DirectPageX => {
            let rd = bus.read8_full(cpu.pc);
            let cpu2 = cpu.spec_increment_pc(1);
            let address = cpu.d.wrapping_add(rd.0 as u16).wrapping_add(cpu2.spec_get_x()) as u32;
            let fv = fetch_operand(cpu2, rd.1, address);
            ResolveOut {
                cpu: cpu2,
                bus: fv.1,
                res: AddressingResult {
                    address,
                    value: fv.0,
                    cycles: dp_penalty(cpu2),
                    crossed_page: false,
                },
            }
        },
        AddressingMode::DirectPageY => {
            let rd = bus.read8_full(cpu.pc);
            let cpu2 = cpu.spec_increment_pc(1);
            let address = cpu.d.wrapping_add(rd.0 as u16).wrapping_add(cpu2.spec_get_y()) as u32;
            let fv = fetch_operand(cpu2, rd.1, address);
            ResolveOut {
                cpu: cpu2,
                bus: fv.1,
                res: AddressingResult {
                    address,
                    value: fv.0,
                    cycles: dp_penalty(cpu2),
                    crossed_page: false,
                },
            }
        },
        AddressingMode::DirectPageIndirect => {
            let rd = bus.read8_full(cpu.pc);
            let cpu2 = cpu.spec_increment_pc(1);
            let pointer = cpu.d.wrapping_add(rd.0 as u16) as u32;
            let pt = rd.1.read16_full(pointer);
            let address = (pt.0 as u32) | ((cpu2.db as u32) << 16);
            let fv = fetch_operand(cpu2, pt.1, address);
            ResolveOut {
                cpu: cpu2,
                bus: fv.1,
                res: AddressingResult {
                    address,
                    value: fv.0,
                    cycles: dp_penalty(cpu2),
                    crossed_page: false,
                },
            }
        },
        AddressingMode::DirectPageIndirectX => {
            let rd = bus.read8_full(cpu.pc);
            let cpu2 = cpu.spec_increment_pc(1);
            let pointer = cpu.d.wrapping_add(rd.0 as u16).wrapping_add(cpu2.spec_get_x()) as u32;
            let pt = rd.1.read16_full(pointer);
            let address = (pt.0 as u32) | ((cpu2.db as u32) << 16);
            let fv = fetch_operand(cpu2, pt.1, address);
            ResolveOut {
                cpu: cpu2,
                bus: fv.1,
                res: AddressingResult {
                    address,
                    value: fv.0,
                    cycles: dp_penalty(cpu2),
                    crossed_page: false,
                },
            }
        },
        AddressingMode::DirectPageIndirectY => {
            let rd = bus.read8_full(cpu.pc);
            let cpu2 = cpu.spec_increment_pc(1);
            let pointer = cpu.d.wrapping_add(rd.0 as u16) as u32;
            let pt = rd.1.read16_full(pointer);
            let base = (pt.0 as u32) | ((cpu2.db as u32) << 16);
            let address = base.wrapping_add(cpu2.spec_get_y() as u32);
            let fv = fetch_operand(cpu2, pt.1, address);
            let crossed = (base & 0xFF00) != (address & 0xFF00);
            ResolveOut {
                cpu: cpu2,
                bus: fv.1,
                res: AddressingResult {
                    address,
                    value: fv.0,
                    cycles: if crossed {
                        dp_penalty(cpu2).wrapping_add(1)
                    } else {
                        dp_penalty(cpu2)
                    },
                    crossed_page: crossed,
                },
            }
        },
        AddressingMode::DirectPageIndirectLong => {
            let rd = bus.read8_full(cpu.pc);
            let cpu2 = cpu.spec_increment_pc(1);
            let pointer = cpu.d.wrapping_add(rd.0 as u16) as u32;
            let pt = rd.1.read24_full(pointer);
            let fv = fetch_operand(cpu2, pt.1, pt.0);
            ResolveOut {
                cpu: cpu2,
                bus: fv.1,
                res: AddressingResult {
                    address: pt.0,
                    value: fv.0,
                    cycles: dp_penalty(cpu2),
                    crossed_page: false,
                },
            }
        },
        AddressingMode::DirectPageIndirectLongY => {
            let rd = bus.read8_full(cpu.pc);
            let cpu2 = cpu.spec_increment_pc(1);
            let pointer = cpu.d.wrapping_add(rd.0 as u16) as u32;
            let pt = rd.1.read24_full(pointer);
            let address = pt.0.wrapping_add(cpu2.spec_get_y() as u32);
            let fv = fetch_operand(cpu2, pt.1, address);
            ResolveOut {
                cpu: cpu2,
                bus: fv.1,
                res: AddressingResult {
                    address,
                    value: fv.0,
                    cycles: dp_penalty(cpu2),
                    crossed_page: false,
                },
            }
        },
        AddressingMode::Absolute => {
            let rd = bus.read16_full(cpu.pc);
            let address = (rd.0 as u32) | ((cpu.db as u32) << 16);
            let cpu2 = cpu.spec_increment_pc(2);
            let fv = fetch_operand(cpu2, rd.1, address);
            ResolveOut {
                cpu: cpu2,
                bus: fv.1,
                res: AddressingResult { address, value: fv.0, cycles: 0, crossed_page: false },
            }
        },
        AddressingMode::AbsoluteX => {
            let rd = bus.read16_full(cpu.pc);
            let base = (rd.0 as u32) | ((cpu.db as u32) << 16);
            let cpu2 = cpu.spec_increment_pc(2);
            let address = base.wrapping_add(cpu2.spec_get_x() as u32);
            let fv = fetch_operand(cpu2, rd.1, address);
            let crossed = (base & 0xFF00) != (address & 0xFF00);
            ResolveOut {
                cpu: cpu2,
                bus: fv.1,
                res: AddressingResult {
                    address,
                    value: fv.0,
                    cycles: if crossed {
                        1u32
                    } else {
                        0u32
                    },
                    crossed_page: crossed,
                },
            }
        },
        AddressingMode::AbsoluteY => {
            let rd = bus.read16_full(cpu.pc);
            let base = (rd.0 as u32) | ((cpu.db as u32) << 16);
            let cpu2 = cpu.spec_increment_pc(2);
            let address = base.wrapping_add(cpu2.spec_get_y() as u32);
            let fv = fetch_operand(cpu2, rd.1, address);
            let crossed = (base & 0xFF00) != (address & 0xFF00);
            ResolveOut {
                cpu: cpu2,
                bus: fv.1,
                res: AddressingResult {
                    address,
                    value: fv.0,
                    cycles: if crossed {
                        1u32
                    } else {
                        0u32
                    },
                    crossed_page: crossed,
                },
            }
        },
        AddressingMode::AbsoluteIndirect => {
            let rd = bus.read16_full(cpu.pc);
            let cpu2 = cpu.spec_increment_pc(2);
            let pt = rd.1.read16_full(rd.0 as u32);
            let address = pt.0 as u32;
            let fv = fetch_operand(cpu2, pt.1, address);
            ResolveOut {
                cpu: cpu2,
                bus: fv.1,
                res: AddressingResult { address, value: fv.0, cycles: 0, crossed_page: false },
            }
        },
        AddressingMode::AbsoluteIndirectX => {
            let rd = bus.read16_full(cpu.pc);
            let cpu2 = cpu.spec_increment_pc(2);
            let pointer = (rd.0 as u32).wrapping_add(cpu2.spec_get_x() as u32);
            let pt = rd.1.read16_full(pointer);
            let address = (pt.0 as u32) | ((cpu2.spec_pc_bank() as u32) << 16);
            let fv = fetch_operand(cpu2, pt.1, address);
            ResolveOut {
                cpu: cpu2,
                bus: fv.1,
                res: AddressingResult { address, value: fv.0, cycles: 0, crossed_page: false },
            }
        },
        AddressingMode::AbsoluteLong => {
            let rd = bus.read24_full(cpu.pc);
            let cpu2 = cpu.spec_increment_pc(3);
            let fv = fetch_operand(cpu2, rd.1, rd.0);
            ResolveOut {
                cpu: cpu2,
                bus: fv.1,
                res: AddressingResult {
                    address: rd.0,
                    value: fv.0,
                    cycles: 0,
                    crossed_page: false,
                },
            }
        },
        AddressingMode::AbsoluteLongX => {
            let rd = bus.read24_full(cpu.pc);
            let cpu2 = cpu.spec_increment_pc(3);
            let address = rd.0.wrapping_add(cpu2.spec_get_x() as u32);
            let fv = fetch_operand(cpu2, rd.1, address);
            ResolveOut {
                cpu: cpu2,
                bus: fv.1,
                res: AddressingResult { address, value: fv.0, cycles: 0, crossed_page: false },
            }
        },
        AddressingMode::AbsoluteIndirectLong => {
            let rd = bus.read16_full(cpu.pc);
            let cpu2 = cpu.spec_increment_pc(2);
            let pt = rd.1.read24_full(rd.0 as u32);
            let fv = fetch_operand(cpu2, pt.1, pt.0);
            ResolveOut {
                cpu: cpu2,
                bus: fv.1,
                res: AddressingResult {
                    address: pt.0,
                    value: fv.0,
                    cycles: 0,
                    crossed_page: false,
                },
            }
        },
        AddressingMode::StackRelative => {
            let rd = bus.read8_full(cpu.pc);
            let cpu2 = cpu.spec_increment_pc(1);
            let address = cpu.s.wrapping_add(rd.0 as u16) as u32;
            let fv = fetch_operand(cpu2, rd.1, address);
            ResolveOut {
                cpu: cpu2,
                bus: fv.1,
                res: AddressingResult { address, value: fv.0, cycles: 0, crossed_page: false },
            }
        },
        AddressingMode::StackRelativeIndirectY => {
            let rd = bus.read8_full(cpu.pc);
            let cpu2 = cpu.spec_increment_pc(1);
            let pointer = cpu.s.wrapping_add(rd.0 as u16) as u32;
            let pt = rd.1.read16_full(pointer);
            let base = (pt.0 as u32) | ((cpu2.db as u32) << 16);
            let address = base.wrapping_add(cpu2.spec_get_y() as u32);
            let fv = fetch_operand(cpu2, pt.1, address);
            ResolveOut {
                cpu: cpu2,
                bus: fv.1,
                res: AddressingResult { address, value: fv.0, cycles: 0, crossed_page: false },
            }
        },
        AddressingMode::BlockMove => {
            let rd1 = bus.read8_full(cpu.pc);
            let rd2 = rd1.1.read8_full(cpu.pc.wrapping_add(1));
            let src_bank = rd1.0 as u16;
            let dst_bank = rd2.0 as u16;
            let cpu2 = cpu.spec_increment_pc(2);
            ResolveOut {
                cpu: cpu2,
                bus: rd2.1,
                res: AddressingResult {
                    address: ((dst_bank as u32) << 16) | (src_bank as u32),
                    value: src_bank | (dst_bank << 8),
                    cycles: 0,
                    crossed_page: false,
                },
            }
        },
        AddressingMode::Relative => {
            let rd = bus.read8_full(cpu.pc);
            let offset = ((rd.0 as i8) as i32) as u32;
            let cpu2 = cpu.spec_increment_pc(1);
            let address = cpu2.pc.wrapping_add(offset) & 0xFFFFFF;
            ResolveOut {
                cpu: cpu2,
                bus: rd.1,
                res: AddressingResult {
                    address,
                    value: 0,
                    cycles: 0,
                    crossed_page: (cpu2.pc & 0xFF00) != (address & 0xFF00),
                },
            }
        },
        AddressingMode::RelativeLong => {
            let rd = bus.read16_full(cpu.pc);
            let offset = ((rd.0 as i16) as i32) as u32;
            let cpu2 = cpu.spec_increment_pc(2);
            let address = cpu2.pc.wrapping_add(offset) & 0xFFFFFF;
            ResolveOut {
                cpu: cpu2,
                bus: rd.1,
                res: AddressingResult { address, value: 0, cycles: 0, crossed_page: false },
            }
        },
    }
}

/// What writing an operand back does: accumulator mode writes the
/// accumulator, every other mode writes through the bus at the current
/// memory width.
pub open spec fn spec_write_result(
    mode: AddressingMode,
    cpu: CpuRegisters,
    bus: BusSnap,
    address: u32,
    value: u16,
) -> (CpuRegisters, BusSnap) {
    if mode == AddressingMode::Accumulator {
        (cpu.spec_with_a(value), bus)
    } else {
        if cpu.spec_memory_width() {
            (cpu, bus.write8_full(address, (value & 0xFF) as u8))
        } else {
            (cpu, bus.write16_full(address, value))
        }
    }
}

impl AddressingMode {
    /// Resolves this mode: steps the program counter past the operand
    /// bytes, computes the effective address, fetches the operand at the
    /// current width, and reports penalty cycles and page crossing.
    pub fn resolve(&self, cpu: &mut CpuRegisters, bus: &mut Bus) -> (r: AddressingResult)
        requires
            old(bus)@.wf(),
        ensures
            spec_resolve(*self, *old(cpu), old(bus)@) == (ResolveOut {
                cpu: *final(cpu),
                bus: final(bus)@,
                res: r,
            }),
            final(bus)@.wf(),
    {
        match self {
            AddressingMode::Implied | AddressingMode::Accumulator | AddressingMode::Immediate => {
                self.resolve_basic(cpu, bus)
            },
            AddressingMode::DirectPage
            | AddressingMode::DirectPageX
            | AddressingMode::DirectPageY
            | AddressingMode::DirectPageIndirect
            | AddressingMode::DirectPageIndirectX
            | AddressingMode::DirectPageIndirectY
            | AddressingMode::DirectPageIndirectLong
            | AddressingMode::DirectPageIndirectLongY => self.resolve_direct_page(cpu, bus),
            AddressingMode::Absolute
            | AddressingMode::AbsoluteX
            | AddressingMode::AbsoluteY
            | AddressingMode::AbsoluteIndirect
            | AddressingMode::AbsoluteIndirectX
            | AddressingMode::AbsoluteLong
            | AddressingMode::AbsoluteLongX
            | AddressingMode::AbsoluteIndirectLong => self.resolve_absolute(cpu, bus),
            AddressingMode::StackRelative
            | AddressingMode::StackRelativeIndirectY
            | AddressingMode::BlockMove
            | AddressingMode::Relative
            | AddressingMode::RelativeLong => self.resolve_stack_block_relative(cpu, bus),
        }
    }

    #[verifier::rlimit(100)]
    #[verifier::spinoff_prover]
    fn resolve_basic(&self, cpu: &mut CpuRegisters, bus: &mut Bus) -> (r: AddressingResult)
        requires
            old(bus)@.wf(),
            *self == AddressingMode::Implied
                || *self == AddressingMode::Accumulator
                || *self == AddressingMode::Immediate,
        ensures
            spec_resolve(*self, *old(cpu), old(bus)@) == (ResolveOut {
                cpu: *final(cpu),
                bus: final(bus)@,
                res: r,
            }),
            final(bus)@.wf(),
    {
        match self {
            AddressingMode::Implied => {
                AddressingResult { address: 0, value: 0, cycles: 0, crossed_page: false }
            },
            AddressingMode::Accumulator => {
                AddressingResult {
                    address: 0,
                    value: cpu.get_a(),
                    cycles: 0,
                    crossed_page: false,
                }
            },
            AddressingMode::Immediate => {
                let pc = cpu.pc;
                let value: u16 = if cpu.memory_width() {
                    let val = bus.read8(pc) as u16;
                    cpu.increment_pc(1);
                    val
                } else {
                    let val = bus.read16(pc);
                    cpu.increment_pc(2);
                    val
                };
                AddressingResult { address: pc, value, cycles: 0, crossed_page: false }
            },
            _ => {
                proof {
                    assert(false);
                }
                AddressingResult { address: 0, value: 0, cycles: 0, crossed_page: false }
            },
        }
    }

    #[verifier::rlimit(100)]
    #[verifier::spinoff_prover]
    fn resolve_direct_page(&self, cpu: &mut CpuRegisters, bus: &mut Bus) -> (r: AddressingResult)
        requires
            old(bus)@.wf(),
            *self == AddressingMode::DirectPage
                || *self == AddressingMode::DirectPageX
                || *self == AddressingMode::DirectPageY
                || *self == AddressingMode::DirectPageIndirect
                || *self == AddressingMode::DirectPageIndirectX
                || *self == AddressingMode::DirectPageIndirectY
                || *self == AddressingMode::DirectPageIndirectLong
                || *self == AddressingMode::DirectPageIndirectLongY,
        ensures
            spec_resolve(*self, *old(cpu), old(bus)@) == (ResolveOut {
                cpu: *final(cpu),
                bus: final(bus)@,
                res: r,
            }),
            final(bus)@.wf(),
    {
        match self {
            AddressingMode::DirectPage => {
                let offset = bus.read8(cpu.pc) as u16;
                cpu.increment_pc(1);
                let address = cpu.d.wrapping_add(offset) as u32;
                let value = self.fetch_value(cpu, bus, address);
                let cycles: u32 = if cpu.d & 0xFF != 0 {
                    1
                } else {
                    0
                };
                AddressingResult { address, value, cycles, crossed_page: false }
            },
            AddressingMode::DirectPageX => {
                let offset = bus.read8(cpu.pc) as u16;
                cpu.increment_pc(1);
                let address = cpu.d.wrapping_add(offset).wrapping_add(cpu.get_x()) as u32;
                let value = self.fetch_value(cpu, bus, address);
                let cycles: u32 = if cpu.d & 0xFF != 0 {
                    1
                } else {
                    0
                };
                AddressingResult { address, value, cycles, crossed_page: false }
            },
            AddressingMode::DirectPageY => {
                let offset = bus.read8(cpu.pc) as u16;
                cpu.increment_pc(1);
                let address = cpu.d.wrapping_add(offset).wrapping_add(cpu.get_y()) as u32;
                let value = self.fetch_value(cpu, bus, address);
                let cycles: u32 = if cpu.d & 0xFF != 0 {
                    1
                } else {
                    0
                };
                AddressingResult { address, value, cycles, crossed_page: false }
            },
            AddressingMode::DirectPageIndirect => {
                let offset = bus.read8(cpu.pc) as u16;
                cpu.increment_pc(1);
                let pointer_addr = cpu.d.wrapping_add(offset) as u32;
                let address = bus.read16(pointer_addr) as u32 | ((cpu.db as u32) << 16);
                let value = self.fetch_value(cpu, bus, address);
                let cycles: u32 = if cpu.d & 0xFF != 0 {
                    1
                } else {
                    0
                };
                AddressingResult { address, value, cycles, crossed_page: false }
            },
            AddressingMode::DirectPageIndirectX => {
                let offset = bus.read8(cpu.pc) as u16;
                cpu.increment_pc(1);
                let pointer_addr = cpu.d.wrapping_add(offset).wrapping_add(cpu.get_x()) as u32;
                let address = bus.read16(pointer_addr) as u32 | ((cpu.db as u32) << 16);
                let value = self.fetch_value(cpu, bus, address);
                let cycles: u32 = if cpu.d & 0xFF != 0 {
                    1
                } else {
                    0
                };
                AddressingResult { address, value, cycles, crossed_page: false }
            },
            AddressingMode::DirectPageIndirectY => {
                let offset = bus.read8(cpu.pc) as u16;
                cpu.increment_pc(1);
                let pointer_addr = cpu.d.wrapping_add(offset) as u32;
                let base_address = bus.read16(pointer_addr) as u32 | ((cpu.db as u32) << 16);
                let address = base_address.wrapping_add(cpu.get_y() as u32);
                let value = self.fetch_value(cpu, bus, address);
                let crossed_page = (base_address & 0xFF00) != (address & 0xFF00);
                let mut cycles: u32 = if cpu.d & 0xFF != 0 {
                    1
                } else {
                    0
                };
                if crossed_page {
                    cycles = cycles + 1;
                }
                AddressingResult { address, value, cycles, crossed_page }
            },
            AddressingMode::DirectPageIndirectLong => {
                let offset = bus.read8(cpu.pc) as u16;
                cpu.increment_pc(1);
                let pointer_addr = cpu.d.wrapping_add(offset) as u32;
                let address = bus.read24(pointer_addr);
                let value = self.fetch_value(cpu, bus, address);
                let cycles: u32 = if cpu.d & 0xFF != 0 {
                    1
                } else {
                    0
                };
                AddressingResult { address, value, cycles, crossed_page: false }
            },
            AddressingMode::DirectPageIndirectLongY => {
                let offset = bus.read8(cpu.pc) as u16;
                cpu.increment_pc(1);
                let pointer_addr = cpu.d.wrapping_add(offset) as u32;
                let base_address = bus.read24(pointer_addr);
                let address = base_address.wrapping_add(cpu.get_y() as u32);
                let value = self.fetch_value(cpu, bus, address);
                let cycles: u32 = if cpu.d & 0xFF != 0 {
                    1
                } else {
                    0
                };
                AddressingResult { address, value, cycles, crossed_page: false }
            },
            _ => {
                proof {
                    assert(false);
                }
                AddressingResult { address: 0, value: 0, cycles: 0, crossed_page: false }
            },
        }
    }

    #[verifier::rlimit(100)]
    #[verifier::spinoff_prover]
    fn resolve_absolute(&self, cpu: &mut CpuRegisters, bus: &mut Bus) -> (r: AddressingResult)
        requires
            old(bus)@.wf(),
            *self == AddressingMode::Absolute
                || *self == AddressingMode::AbsoluteX
                || *self == AddressingMode::AbsoluteY
                || *self == AddressingMode::AbsoluteIndirect
                || *self == AddressingMode::AbsoluteIndirectX
                || *self == AddressingMode::AbsoluteLong
                || *self == AddressingMode::AbsoluteLongX
                || *self == AddressingMode::AbsoluteIndirectLong,
        ensures
            spec_resolve(*self, *old(cpu), old(bus)@) == (ResolveOut {
                cpu: *final(cpu),
                bus: final(bus)@,
                res: r,
            }),
            final(bus)@.wf(),
    {
        match self {
            AddressingMode::Absolute => {
                let address = bus.read16(cpu.pc) as u32 | ((cpu.db as u32) << 16);
                cpu.increment_pc(2);
                let value = self.fetch_value(cpu, bus, address);
                AddressingResult { address, value, cycles: 0, crossed_page: false }
            },
            AddressingMode::AbsoluteX => {
                let base_address = bus.read16(cpu.pc) as u32 | ((cpu.db as u32) << 16);
                cpu.increment_pc(2);
                let address = base_address.wrapping_add(cpu.get_x() as u32);
                let value = self.fetch_value(cpu, bus, address);
                let crossed_page = (base_address & 0xFF00) != (address & 0xFF00);
                let cycles: u32 = if crossed_page {
                    1
                } else {
                    0
                };
                AddressingResult { address, value, cycles, crossed_page }
            },
            AddressingMode::AbsoluteY => {
                let base_address = bus.read16(cpu.pc) as u32 | ((cpu.db as u32) << 16);
                cpu.increment_pc(2);
                let address = base_address.wrapping_add(cpu.get_y() as u32);
                let value = self.fetch_value(cpu, bus, address);
                let crossed_page = (base_address & 0xFF00) != (address & 0xFF00);
                let cycles: u32 = if crossed_page {
                    1
                } else {
                    0
                };
                AddressingResult { address, value, cycles, crossed_page }
            },
            AddressingMode::AbsoluteIndirect => {
                let pointer_addr = bus.read16(cpu.pc) as u32;
                cpu.increment_pc(2);
                let address = bus.read16(pointer_addr) as u32;
                let value = self.fetch_value(cpu, bus, address);
                AddressingResult { address, value, cycles: 0, crossed_page: false }
            },
            AddressingMode::AbsoluteIndirectX => {
                let base_pointer = bus.read16(cpu.pc) as u32;
                cpu.increment_pc(2);
                let pointer_addr = base_pointer.wrapping_add(cpu.get_x() as u32);
                let address = bus.read16(pointer_addr) as u32 | ((cpu.get_pc_bank() as u32) << 16);
                let value = self.fetch_value(cpu, bus, address);
                AddressingResult { address, value, cycles: 0, crossed_page: false }
            },
            AddressingMode::AbsoluteLong => {
                let address = bus.read24(cpu.pc);
                cpu.increment_pc(3);
                let value = self.fetch_value(cpu, bus, address);
                AddressingResult { address, value, cycles: 0, crossed_page: false }
            },
            AddressingMode::AbsoluteLongX => {
                let base_address = bus.read24(cpu.pc);
                cpu.increment_pc(3);
                let address = base_address.wrapping_add(cpu.get_x() as u32);
                let value = self.fetch_value(cpu, bus, address);
                AddressingResult { address, value, cycles: 0, crossed_page: false }
            },
            AddressingMode::AbsoluteIndirectLong => {
                let pointer_addr = bus.read16(cpu.pc) as u32;
                cpu.increment_pc(2);
                let address = bus.read24(pointer_addr);
                let value = self.fetch_value(cpu, bus, address);
                AddressingResult { address, value, cycles: 0, crossed_page: false }
            },
            _ => {
                proof {
                    assert(false);
                }
                AddressingResult { address: 0, value: 0, cycles: 0, crossed_page: false }
            },
        }
    }

    #[verifier::rlimit(100)]
    #[verifier::spinoff_prover]
    fn resolve_stack_block_relative(&self, cpu: &mut CpuRegisters, bus: &mut Bus) -> (r: AddressingResult)
        requires
            old(bus)@.wf(),
            *self == AddressingMode::StackRelative
                || *self == AddressingMode::StackRelativeIndirectY
                || *self == AddressingMode::BlockMove
                || *self == AddressingMode::Relative
                || *self == AddressingMode::RelativeLong,
        ensures
            spec_resolve(*self, *old(cpu), old(bus)@) == (ResolveOut {
                cpu: *final(cpu),
                bus: final(bus)@,
                res: r,
            }),
            final(bus)@.wf(),
    {
        match self {
            AddressingMode::StackRelative => {
                let offset = bus.read8(cpu.pc) as u16;
                cpu.increment_pc(1);
                let address = cpu.s.wrapping_add(offset) as u32;
                let value = self.fetch_value(cpu, bus, address);
                AddressingResult { address, value, cycles: 0, crossed_page: false }
            },
            AddressingMode::StackRelativeIndirectY => {
                let offset = bus.read8(cpu.pc) as u16;
                cpu.increment_pc(1);
                let pointer_addr = cpu.s.wrapping_add(offset) as u32;
                let base_address = bus.read16(pointer_addr) as u32 | ((cpu.db as u32) << 16);
                let address = base_address.wrapping_add(cpu.get_y() as u32);
                let value = self.fetch_value(cpu, bus, address);
                AddressingResult { address, value, cycles: 0, crossed_page: false }
            },
            AddressingMode::BlockMove => {
                let src_bank = bus.read8(cpu.pc) as u16;
                let dst_bank = bus.read8(cpu.pc.wrapping_add(1)) as u16;
                cpu.increment_pc(2);
                AddressingResult {
                    address: ((dst_bank as u32) << 16) | (src_bank as u32),
                    value: src_bank | (dst_bank << 8),
                    cycles: 0,
                    crossed_page: false,
                }
            },
            AddressingMode::Relative => {
                let offset = ((bus.read8(cpu.pc) as i8) as i32) as u32;
                cpu.increment_pc(1);
                let address = cpu.pc.wrapping_add(offset) & 0xFFFFFF;
                AddressingResult {
                    address,
                    value: 0,
                    cycles: 0,
                    crossed_page: (cpu.pc & 0xFF00) != (address & 0xFF00),
                }
            },
            AddressingMode::RelativeLong => {
                let offset = ((bus.read16(cpu.pc) as i16) as i32) as u32;
                cpu.increment_pc(2);
                let address = cpu.pc.wrapping_add(offset) & 0xFFFFFF;
                AddressingResult { address, value: 0, cycles: 0, crossed_page: false }
            },
            _ => {
                proof {
                    assert(false);
                }
                AddressingResult { address: 0, value: 0, cycles: 0, crossed_page: false }
            },
        }
    }

    /// Fetches the operand at the current memory width.
    fn fetch_value(&self, cpu: &CpuRegisters, bus: &mut Bus, address: u32) -> (r: u16)
        requires
            old(bus)@.wf(),
        ensures
            (r, final(bus)@) == fetch_operand(*cpu, old(bus)@, address),
            final(bus)@.wf(),
    {
        if cpu.memory_width() {
            bus.read8(address) as u16
        } else {
            bus.read16(address)
        }
    }

    /// Writes a resolved operand back: to the accumulator for
    /// accumulator mode, through the bus at the current width otherwise.
    pub fn write_result(
        &self,
        cpu: &mut CpuRegisters,
        bus: &mut Bus,
        result: &AddressingResult,
        value: u16,
    )
        requires
            old(bus)@.wf(),
        ensures
            (*final(cpu), final(bus)@) == spec_write_result(
                *self,
                *old(cpu),
                old(bus)@,
                result.address,
                value,
            ),
            final(bus)@.wf(),
    {
        match self {
            AddressingMode::Accumulator => {
                cpu.set_a(value);
            },
            _ => {
                if cpu.memory_width() {
                    bus.write8(result.address, (value & 0xFF) as u8);
                } else {
                    bus.write16(result.address, value);
                }
            },
        }
    }

    /// How many operand bytes the mode consumes at the current widths.
    pub fn get_operand_size(&self, cpu: &CpuRegisters) -> (r: u8)
        ensures
            r == spec_operand_size(*self, *cpu),
    {
        match self {
            AddressingMode::Implied | AddressingMode::Accumulator => 0,
            AddressingMode::Immediate => {
                if cpu.memory_width() {
                    1
                } else {
                    2
                }
            },
            AddressingMode::DirectPage
            | AddressingMode::DirectPageX
            | AddressingMode::DirectPageY
            | AddressingMode::DirectPageIndirect
            | AddressingMode::DirectPageIndirectX
            | AddressingMode::DirectPageIndirectY
            | AddressingMode::DirectPageIndirectLong
            | AddressingMode::DirectPageIndirectLongY
            | AddressingMode::StackRelative
            | AddressingMode::StackRelativeIndirectY
            | AddressingMode::Relative => 1,
            AddressingMode::Absolute
            | AddressingMode::AbsoluteX
            | AddressingMode::AbsoluteY
            | AddressingMode::AbsoluteIndirect
            | AddressingMode::AbsoluteIndirectX
            | AddressingMode::AbsoluteIndirectLong
            | AddressingMode::RelativeLong => 2,
            AddressingMode::BlockMove => 2,
            AddressingMode::AbsoluteLong | AddressingMode::AbsoluteLongX => 3,
        }
    }
}

/// Resolving an addressing mode moves the program counter and reads
/// the bus, but never touches the status byte, the stack pointer, the
/// working registers or the operating mode.
#[verifier::rlimit(100)]
#[verifier::spinoff_prover]
pub proof fn lemma_resolve_preserves_registers(mode: AddressingMode, cpu: CpuRegisters, bus: BusSnap)
    ensures
        spec_resolve(mode, cpu, bus).cpu.p == cpu.p,
        spec_resolve(mode, cpu, bus).cpu.emulation_mode == cpu.emulation_mode,
        spec_resolve(mode, cpu, bus).cpu.s == cpu.s,
        spec_resolve(mode, cpu, bus).cpu.a == cpu.a,
        spec_resolve(mode, cpu, bus).cpu.x == cpu.x,
        spec_resolve(mode, cpu, bus).cpu.y == cpu.y,
        spec_resolve(mode, cpu, bus).cpu.d == cpu.d,
        spec_resolve(mode, cpu, bus).cpu.db == cpu.db,
        spec_resolve(mode, cpu, bus).cpu.halt == cpu.halt,
        spec_resolve(mode, cpu, bus).cpu.waiting_for_interrupt == cpu.waiting_for_interrupt,
{
}

/// Resolution never costs more than the two penalty cycles.
#[verifier::rlimit(100)]
#[verifier::spinoff_prover]
pub proof fn lemma_resolve_cycles_bound(mode: AddressingMode, cpu: CpuRegisters, bus: BusSnap)
    ensures
        spec_resolve(mode, cpu, bus).res.cycles <= 2,
{
}

/// Operand byte count of each mode; immediates follow the accumulator
/// width.
pub open spec fn spec_operand_size(mode: AddressingMode, cpu: CpuRegisters) -> u8 {
    match mode {
        AddressingMode::Implied | AddressingMode::Accumulator => 0,
        AddressingMode::Immediate => if cpu.spec_memory_width() {
            1
        } else {
            2
        },
        AddressingMode::DirectPage
        | AddressingMode::DirectPageX
        | AddressingMode::DirectPageY
        | AddressingMode::DirectPageIndirect
        | AddressingMode::DirectPageIndirectX
        | AddressingMode::DirectPageIndirectY
        | AddressingMode::DirectPageIndirectLong
        | AddressingMode::DirectPageIndirectLongY
        | AddressingMode::StackRelative
        | AddressingMode::StackRelativeIndirectY
        | AddressingMode::Relative => 1,
        AddressingMode::Absolute
        | AddressingMode::AbsoluteX
        | AddressingMode::AbsoluteY
        | AddressingMode::AbsoluteIndirect
        | AddressingMode::AbsoluteIndirectX
        | AddressingMode::AbsoluteIndirectLong
        | AddressingMode::RelativeLong => 2,
        AddressingMode::BlockMove => 2,
        AddressingMode::AbsoluteLong | AddressingMode::AbsoluteLongX => 3,
    }
}

} // verus!
