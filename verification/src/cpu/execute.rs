use vstd::prelude::*;
use crate::cpu::addressing::{spec_resolve, spec_write_result, AddressingMode, AddressingResult};
use crate::cpu::instructions::{Instruction, InstructionInfo};
use crate::cpu::registers::{
    CpuRegisters, FLAG_CARRY, FLAG_INDEX_WIDTH, FLAG_MEMORY_WIDTH, FLAG_NEGATIVE, FLAG_OVERFLOW,
    FLAG_ZERO, FLAG_IRQ_DISABLE, FLAG_DECIMAL,
};
use crate::error::EmulatorError;
use crate::memory::bus::{Bus, BusSnap};

verus! {

/// The full effect of executing one decoded instruction.
pub struct ExecOut {
    pub cpu: CpuRegisters,
    pub bus: BusSnap,
    pub cycles: u32,
}

/// Bounds on byte masks the arithmetic below leans on.
proof fn lemma_mask_byte_bounds()
    by (bit_vector)
    ensures
        forall|x: u16| #[trigger] (x & 0xFF) <= 0xFF,
{
}

/// Add with carry at 8 bits: binary addition of the low bytes, carry
/// from the 9th bit, signed overflow from the sign bits, result stored
/// at the accumulator width with negative/zero refreshed.
pub open spec fn spec_adc8(cpu: CpuRegisters, value: u16) -> CpuRegisters {
    let a = cpu.spec_get_a();
    let carry: u16 = if cpu.spec_carry() {
        1
    } else {
        0
    };
    let result = (a as u8).wrapping_add(value as u8).wrapping_add(carry as u8);
    let signed_a = a as i8;
    let signed_val = value as i8;
    let signed_result = signed_a.wrapping_add(signed_val).wrapping_add(carry as i8);
    cpu.with_flag(FLAG_CARRY, result as u16 != (a & 0xFF).wrapping_add(value & 0xFF).wrapping_add(carry))
        .with_flag(
        FLAG_OVERFLOW,
        (signed_a >= 0 && signed_val >= 0 && signed_result < 0) || (signed_a < 0 && signed_val < 0
            && signed_result >= 0),
    ).spec_with_a(result as u16).spec_update_nz(result as u16)
}

/// Add with carry at 16 bits.
pub open spec fn spec_adc16(cpu: CpuRegisters, value: u16) -> CpuRegisters {
    let a = cpu.spec_get_a();
    let carry: u16 = if cpu.spec_carry() {
        1
    } else {
        0
    };
    let result = a.wrapping_add(value).wrapping_add(carry);
    let signed_a = a as i16;
    let signed_val = value as i16;
    let signed_result = signed_a.wrapping_add(signed_val).wrapping_add(carry as i16);
    cpu.with_flag(FLAG_CARRY, a as u32 + value as u32 + carry as u32 > 0xFFFF).with_flag(
        FLAG_OVERFLOW,
        (signed_a >= 0 && signed_val >= 0 && signed_result < 0) || (signed_a < 0 && signed_val < 0
            && signed_result >= 0),
    ).spec_with_a(result).spec_update_nz(result)
}

/// Subtract with borrow at 8 bits: carry set afterwards means no
/// borrow was needed.
pub open spec fn spec_sbc8(cpu: CpuRegisters, value: u16) -> CpuRegisters {
    let a = cpu.spec_get_a();
    let borrow: u16 = if cpu.spec_carry() {
        0
    } else {
        1
    };
    let result = (a as u8).wrapping_sub(value as u8).wrapping_sub(borrow as u8);
    let signed_a = a as i8;
    let signed_val = value as i8;
    let signed_result = signed_a.wrapping_sub(signed_val).wrapping_sub(borrow as i8);
    cpu.with_flag(FLAG_CARRY, (a & 0xFF) as u32 >= (value & 0xFF) as u32 + borrow as u32)
        .with_flag(
        FLAG_OVERFLOW,
        (signed_a >= 0 && signed_val < 0 && signed_result < 0) || (signed_a < 0 && signed_val >= 0
            && signed_result >= 0),
    ).spec_with_a(result as u16).spec_update_nz(result as u16)
}

/// Subtract with borrow at 16 bits.
pub open spec fn spec_sbc16(cpu: CpuRegisters, value: u16) -> CpuRegisters {
    let a = cpu.spec_get_a();
    let borrow: u16 = if cpu.spec_carry() {
        0
    } else {
        1
    };
    let result = a.wrapping_sub(value).wrapping_sub(borrow);
    let signed_a = a as i16;
    let signed_val = value as i16;
    let signed_result = signed_a.wrapping_sub(signed_val).wrapping_sub(borrow as i16);
    cpu.with_flag(FLAG_CARRY, a as u32 >= value as u32 + borrow as u32).with_flag(
        FLAG_OVERFLOW,
        (signed_a >= 0 && signed_val < 0 && signed_result < 0) || (signed_a < 0 && signed_val >= 0
            && signed_result >= 0),
    ).spec_with_a(result).spec_update_nz(result)
}

/// A taken branch: one extra cycle, and in emulation mode one more
/// when source and target lie in different pages.
pub open spec fn spec_branch_taken(cpu: CpuRegisters, target: u32, cycles: u32) -> (
    CpuRegisters,
    u32,
) {
    let c1 = cycles.wrapping_add(1);
    let c2 = if cpu.emulation_mode && (cpu.pc & 0xFF00) != (target & 0xFF00) {
        c1.wrapping_add(1)
    } else {
        c1
    };
    (CpuRegisters { pc: target, ..cpu }, c2)
}

/// Loads, stores and register-to-register transfers.
pub open spec fn spec_op_load_store(
    info: InstructionInfo,
    cpu: CpuRegisters,
    bus: BusSnap,
    res: AddressingResult,
    cycles: u32,
) -> ExecOut {
    match info.instruction {
        Instruction::LDA => ExecOut {
            cpu: cpu.spec_with_a(res.value).spec_update_nz(res.value),
            bus,
            cycles,
        },
        Instruction::LDX => ExecOut {
            cpu: cpu.spec_with_x(res.value).spec_update_nz_index(res.value),
            bus,
            cycles,
        },
        Instruction::LDY => ExecOut {
            cpu: cpu.spec_with_y(res.value).spec_update_nz_index(res.value),
            bus,
            cycles,
        },
        Instruction::STA => {
            let w = spec_write_result(info.addressing_mode, cpu, bus, res.address, cpu.spec_get_a());
            ExecOut { cpu: w.0, bus: w.1, cycles }
        },
        Instruction::STX => {
            let w = spec_write_result(info.addressing_mode, cpu, bus, res.address, cpu.spec_get_x());
            ExecOut { cpu: w.0, bus: w.1, cycles }
        },
        Instruction::STY => {
            let w = spec_write_result(info.addressing_mode, cpu, bus, res.address, cpu.spec_get_y());
            ExecOut { cpu: w.0, bus: w.1, cycles }
        },
        Instruction::STZ => {
            let w = spec_write_result(info.addressing_mode, cpu, bus, res.address, 0);
            ExecOut { cpu: w.0, bus: w.1, cycles }
        },
        _ => ExecOut { cpu, bus, cycles },
    }
}

/// Transfers between registers; TXS and TCS leave the flags alone.
pub open spec fn spec_op_transfer(
    info: InstructionInfo,
    cpu: CpuRegisters,
    bus: BusSnap,
    res: AddressingResult,
    cycles: u32,
) -> ExecOut {
    match info.instruction {
        Instruction::TAX => ExecOut {
            cpu: cpu.spec_with_x(cpu.spec_get_a()).spec_update_nz_index(cpu.spec_get_a()),
            bus,
            cycles,
        },
        Instruction::TAY => ExecOut {
            cpu: cpu.spec_with_y(cpu.spec_get_a()).spec_update_nz_index(cpu.spec_get_a()),
            bus,
            cycles,
        },
        Instruction::TXA => ExecOut {
            cpu: cpu.spec_with_a(cpu.spec_get_x()).spec_update_nz(cpu.spec_get_x()),
            bus,
            cycles,
        },
        Instruction::TYA => ExecOut {
            cpu: cpu.spec_with_a(cpu.spec_get_y()).spec_update_nz(cpu.spec_get_y()),
            bus,
            cycles,
        },
        Instruction::TSX => ExecOut {
            cpu: cpu.spec_with_x(cpu.s).spec_update_nz_index(cpu.s),
            bus,
            cycles,
        },
        Instruction::TXS => ExecOut {
            cpu: CpuRegisters { s: cpu.spec_get_x(), ..cpu },
            bus,
            cycles,
        },
        Instruction::TXY => ExecOut {
            cpu: cpu.spec_with_y(cpu.spec_get_x()).spec_update_nz_index(cpu.spec_get_x()),
            bus,
            cycles,
        },
        Instruction::TYX => ExecOut {
            cpu: cpu.spec_with_x(cpu.spec_get_y()).spec_update_nz_index(cpu.spec_get_y()),
            bus,
            cycles,
        },
        Instruction::TCD => ExecOut {
            cpu: (CpuRegisters { d: cpu.a, ..cpu }).spec_update_nz(cpu.a),
            bus,
            cycles,
        },
        Instruction::TDC => ExecOut {
            cpu: (CpuRegisters { a: cpu.d, ..cpu }).spec_update_nz(cpu.d),
            bus,
            cycles,
        },
        Instruction::TCS => ExecOut { cpu: CpuRegisters { s: cpu.a, ..cpu }, bus, cycles },
        Instruction::TSC => ExecOut {
            cpu: (CpuRegisters { a: cpu.s, ..cpu }).spec_update_nz(cpu.s),
            bus,
            cycles,
        },
        Instruction::XBA => {
            let swapped = ((cpu.a & 0xFF) << 8) | ((cpu.a >> 8) & 0xFF);
            ExecOut {
                cpu: (CpuRegisters { a: swapped, ..cpu }).spec_update_nz(swapped & 0xFF),
                bus,
                cycles,
            }
        },
        _ => ExecOut { cpu, bus, cycles },
    }
}

/// Pushes and pulls. Accumulator and index pulls honour their widths;
/// a pulled status byte re-forces 8-bit widths in emulation mode.
pub open spec fn spec_op_stack(
    info: InstructionInfo,
    cpu: CpuRegisters,
    bus: BusSnap,
    res: AddressingResult,
    cycles: u32,
) -> ExecOut {
    match info.instruction {
        Instruction::PHA => {
            let value = cpu.spec_get_a();
            if cpu.spec_memory_width() {
                let p = cpu.spec_push8(bus, value as u8);
                ExecOut { cpu: p.0, bus: p.1, cycles }
            } else {
                let p = cpu.spec_push16(bus, value);
                ExecOut { cpu: p.0, bus: p.1, cycles }
            }
        },
        Instruction::PLA => {
            if cpu.spec_memory_width() {
                let p = cpu.spec_pop8(bus);
                let v = p.2 as u16;
                ExecOut { cpu: p.0.spec_with_a(v).spec_update_nz(v), bus: p.1, cycles }
            } else {
                let p = cpu.spec_pop16(bus);
                ExecOut { cpu: p.0.spec_with_a(p.2).spec_update_nz(p.2), bus: p.1, cycles }
            }
        },
        Instruction::PHP => {
            let p = cpu.spec_push8(bus, cpu.p);
            ExecOut { cpu: p.0, bus: p.1, cycles }
        },
        Instruction::PLP => {
            let p = cpu.spec_pop8(bus);
            let c1 = CpuRegisters { p: p.2, ..p.0 };
            let c2 = if c1.emulation_mode {
                c1.with_flag(FLAG_MEMORY_WIDTH, true).with_flag(FLAG_INDEX_WIDTH, true)
            } else {
                c1
            };
            ExecOut { cpu: c2, bus: p.1, cycles }
        },
        Instruction::PHX => {
            let value = cpu.spec_get_x();
            if cpu.spec_index_width() {
                let p = cpu.spec_push8(bus, value as u8);
                ExecOut { cpu: p.0, bus: p.1, cycles }
            } else {
                let p = cpu.spec_push16(bus, value);
                ExecOut { cpu: p.0, bus: p.1, cycles }
            }
        },
        Instruction::PLX => {
            if cpu.spec_index_width() {
                let p = cpu.spec_pop8(bus);
                let v = p.2 as u16;
                ExecOut { cpu: p.0.spec_with_x(v).spec_update_nz_index(v), bus: p.1, cycles }
            } else {
                let p = cpu.spec_pop16(bus);
                ExecOut {
                    cpu: p.0.spec_with_x(p.2).spec_update_nz_index(p.2),
                    bus: p.1,
                    cycles,
                }
            }
        },
        Instruction::PHY => {
            let value = cpu.spec_get_y();
            if cpu.spec_index_width() {
                let p = cpu.spec_push8(bus, value as u8);
                ExecOut { cpu: p.0, bus: p.1, cycles }
            } else {
                let p = cpu.spec_push16(bus, value);
                ExecOut { cpu: p.0, bus: p.1, cycles }
            }
        },
        Instruction::PLY => {
            if cpu.spec_index_width() {
                let p = cpu.spec_pop8(bus);
                let v = p.2 as u16;
                ExecOut { cpu: p.0.spec_with_y(v).spec_update_nz_index(v), bus: p.1, cycles }
            } else {
                let p = cpu.spec_pop16(bus);
                ExecOut {
                    cpu: p.0.spec_with_y(p.2).spec_update_nz_index(p.2),
                    bus: p.1,
                    cycles,
                }
            }
        },
        Instruction::PHB => {
            let p = cpu.spec_push8(bus, cpu.db);
            ExecOut { cpu: p.0, bus: p.1, cycles }
        },
        Instruction::PLB => {
            let p = cpu.spec_pop8(bus);
            let c1 = CpuRegisters { db: p.2, ..p.0 };
            ExecOut { cpu: c1.spec_update_nz(p.2 as u16), bus: p.1, cycles }
        },
        Instruction::PHD => {
            let p = cpu.spec_push16(bus, cpu.d);
            ExecOut { cpu: p.0, bus: p.1, cycles }
        },
        Instruction::PLD => {
            let p = cpu.spec_pop16(bus);
            let c1 = CpuRegisters { d: p.2, ..p.0 };
            ExecOut { cpu: c1.spec_update_nz(p.2), bus: p.1, cycles }
        },
        Instruction::PHK => {
            let p = cpu.spec_push8(bus, cpu.spec_pc_bank());
            ExecOut { cpu: p.0, bus: p.1, cycles }
        },
        Instruction::PEA => {
            let p = cpu.spec_push16(bus, res.value);
            ExecOut { cpu: p.0, bus: p.1, cycles }
        },
        Instruction::PEI => {
            let p = cpu.spec_push16(bus, res.value);
            ExecOut { cpu: p.0, bus: p.1, cycles }
        },
        Instruction::PER => {
            let p = cpu.spec_push16(bus, res.address as u16);
            ExecOut { cpu: p.0, bus: p.1, cycles }
        },
        _ => ExecOut { cpu, bus, cycles },
    }
}

/// Binary add/subtract at the accumulator width, plus increments and
/// decrements. The decimal flag is deliberately not honoured.
pub open spec fn spec_op_arith(
    info: InstructionInfo,
    cpu: CpuRegisters,
    bus: BusSnap,
    res: AddressingResult,
    cycles: u32,
) -> ExecOut {
    match info.instruction {
        Instruction::ADC => {
            if cpu.spec_memory_width() {
                ExecOut { cpu: spec_adc8(cpu, res.value), bus, cycles }
            } else {
                ExecOut { cpu: spec_adc16(cpu, res.value), bus, cycles }
            }
        },
        Instruction::SBC => {
            if cpu.spec_memory_width() {
                ExecOut { cpu: spec_sbc8(cpu, res.value), bus, cycles }
            } else {
                ExecOut { cpu: spec_sbc16(cpu, res.value), bus, cycles }
            }
        },
        Instruction::INC => {
            let value = res.value.wrapping_add(1);
            if info.addressing_mode == AddressingMode::Accumulator {
                ExecOut { cpu: cpu.spec_with_a(value).spec_update_nz(value), bus, cycles }
            } else {
                let w = spec_write_result(info.addressing_mode, cpu, bus, res.address, value);
                ExecOut { cpu: w.0.spec_update_nz(value), bus: w.1, cycles }
            }
        },
        Instruction::INX => {
            let value = cpu.spec_get_x().wrapping_add(1);
            ExecOut { cpu: cpu.spec_with_x(value).spec_update_nz_index(value), bus, cycles }
        },
        Instruction::INY => {
            let value = cpu.spec_get_y().wrapping_add(1);
            ExecOut { cpu: cpu.spec_with_y(value).spec_update_nz_index(value), bus, cycles }
        },
        Instruction::DEC => {
            let value = res.value.wrapping_sub(1);
            if info.addressing_mode == AddressingMode::Accumulator {
                ExecOut { cpu: cpu.spec_with_a(value).spec_update_nz(value), bus, cycles }
            } else {
                let w = spec_write_result(info.addressing_mode, cpu, bus, res.address, value);
                ExecOut { cpu: w.0.spec_update_nz(value), bus: w.1, cycles }
            }
        },
        Instruction::DEX => {
            let value = cpu.spec_get_x().wrapping_sub(1);
            ExecOut { cpu: cpu.spec_with_x(value).spec_update_nz_index(value), bus, cycles }
        },
        Instruction::DEY => {
            let value = cpu.spec_get_y().wrapping_sub(1);
            ExecOut { cpu: cpu.spec_with_y(value).spec_update_nz_index(value), bus, cycles }
        },
        _ => ExecOut { cpu, bus, cycles },
    }
}

/// Bitwise logic and bit tests. BIT takes negative and overflow from
/// the operand's top bits, not from the result.
pub open spec fn spec_op_logic(
    info: InstructionInfo,
    cpu: CpuRegisters,
    bus: BusSnap,
    res: AddressingResult,
    cycles: u32,
) -> ExecOut {
    match info.instruction {
        Instruction::AND => {
            let result = cpu.spec_get_a() & res.value;
            ExecOut { cpu: cpu.spec_with_a(result).spec_update_nz(result), bus, cycles }
        },
        Instruction::ORA => {
            let result = cpu.spec_get_a() | res.value;
            ExecOut { cpu: cpu.spec_with_a(result).spec_update_nz(result), bus, cycles }
        },
        Instruction::EOR => {
            let result = cpu.spec_get_a() ^ res.value;
            ExecOut { cpu: cpu.spec_with_a(result).spec_update_nz(result), bus, cycles }
        },
        Instruction::BIT => {
            let value = res.value;
            let result = cpu.spec_get_a() & value;
            let c1 = cpu.with_flag(FLAG_ZERO, result == 0);
            let c2 = if c1.spec_memory_width() {
                c1.with_flag(FLAG_NEGATIVE, value & 0x80 != 0).with_flag(
                    FLAG_OVERFLOW,
                    value & 0x40 != 0,
                )
            } else {
                c1.with_flag(FLAG_NEGATIVE, value & 0x8000 != 0).with_flag(
                    FLAG_OVERFLOW,
                    value & 0x4000 != 0,
                )
            };
            ExecOut { cpu: c2, bus, cycles }
        },
        Instruction::TSB => {
            let value = res.value;
            let a = cpu.spec_get_a();
            let c1 = cpu.with_flag(FLAG_ZERO, value & a == 0);
            let w = spec_write_result(info.addressing_mode, c1, bus, res.address, value | a);
            ExecOut { cpu: w.0, bus: w.1, cycles }
        },
        Instruction::TRB => {
            let value = res.value;
            let a = cpu.spec_get_a();
            let c1 = cpu.with_flag(FLAG_ZERO, value & a == 0);
            let w = spec_write_result(info.addressing_mode, c1, bus, res.address, value & !a);
            ExecOut { cpu: w.0, bus: w.1, cycles }
        },
        _ => ExecOut { cpu, bus, cycles },
    }
}

/// Shifts and rotates at the operand width: the carry takes the bit
/// shifted off, and a rotate shifts the old carry in.
pub open spec fn spec_op_shift(
    info: InstructionInfo,
    cpu: CpuRegisters,
    bus: BusSnap,
    res: AddressingResult,
    cycles: u32,
) -> ExecOut {
    match info.instruction {
        Instruction::ASL => {
            let value = res.value;
            let result = value << 1;
            let carry_out = if cpu.spec_memory_width() {
                value & 0x80 != 0
            } else {
                value & 0x8000 != 0
            };
            let c1 = cpu.with_flag(FLAG_CARRY, carry_out);
            if info.addressing_mode == AddressingMode::Accumulator {
                ExecOut { cpu: c1.spec_with_a(result).spec_update_nz(result), bus, cycles }
            } else {
                let w = spec_write_result(info.addressing_mode, c1, bus, res.address, result);
                ExecOut { cpu: w.0.spec_update_nz(result), bus: w.1, cycles }
            }
        },
        Instruction::LSR => {
            let value = res.value;
            let result = value >> 1;
            let c1 = cpu.with_flag(FLAG_CARRY, value & 0x01 != 0);
            if info.addressing_mode == AddressingMode::Accumulator {
                ExecOut { cpu: c1.spec_with_a(result).spec_update_nz(result), bus, cycles }
            } else {
                let w = spec_write_result(info.addressing_mode, c1, bus, res.address, result);
                ExecOut { cpu: w.0.spec_update_nz(result), bus: w.1, cycles }
            }
        },
        Instruction::ROL => {
            let value = res.value;
            let carry_in: u16 = if cpu.spec_carry() {
                1
            } else {
                0
            };
            let result = (value << 1) | carry_in;
            let carry_out = if cpu.spec_memory_width() {
                value & 0x80 != 0
            } else {
                value & 0x8000 != 0
            };
            let c1 = cpu.with_flag(FLAG_CARRY, carry_out);
            if info.addressing_mode == AddressingMode::Accumulator {
                ExecOut { cpu: c1.spec_with_a(result).spec_update_nz(result), bus, cycles }
            } else {
                let w = spec_write_result(info.addressing_mode, c1, bus, res.address, result);
                ExecOut { cpu: w.0.spec_update_nz(result), bus: w.1, cycles }
            }
        },
        Instruction::ROR => {
            let value = res.value;
            let carry_in: u16 = if cpu.spec_carry() {
                if cpu.spec_memory_width() {
                    0x80
                } else {
                    0x8000
                }
            } else {
                0
            };
            let result = (value >> 1) | carry_in;
            let c1 = cpu.with_flag(FLAG_CARRY, value & 0x01 != 0);
            if info.addressing_mode == AddressingMode::Accumulator {
                ExecOut { cpu: c1.spec_with_a(result).spec_update_nz(result), bus, cycles }
            } else {
                let w = spec_write_result(info.addressing_mode, c1, bus, res.address, result);
                ExecOut { cpu: w.0.spec_update_nz(result), bus: w.1, cycles }
            }
        },
        _ => ExecOut { cpu, bus, cycles },
    }
}

/// Compares: a subtraction that only lands in the flags; carry set
/// means the register is at least the operand, unsigned.
pub open spec fn spec_op_compare(
    info: InstructionInfo,
    cpu: CpuRegisters,
    bus: BusSnap,
    res: AddressingResult,
    cycles: u32,
) -> ExecOut {
    match info.instruction {
        Instruction::CMP => {
            let a = cpu.spec_get_a();
            let result = a.wrapping_sub(res.value);
            ExecOut {
                cpu: cpu.with_flag(FLAG_CARRY, a >= res.value).spec_update_nz(result),
                bus,
                cycles,
            }
        },
        Instruction::CPX => {
            let x = cpu.spec_get_x();
            let result = x.wrapping_sub(res.value);
            ExecOut {
                cpu: cpu.with_flag(FLAG_CARRY, x >= res.value).spec_update_nz_index(result),
                bus,
                cycles,
            }
        },
        Instruction::CPY => {
            let y = cpu.spec_get_y();
            let result = y.wrapping_sub(res.value);
            ExecOut {
                cpu: cpu.with_flag(FLAG_CARRY, y >= res.value).spec_update_nz_index(result),
                bus,
                cycles,
            }
        },
        _ => ExecOut { cpu, bus, cycles },
    }
}

/// Conditional branches cost one extra cycle when taken; the long
/// branch is always taken and costs exactly one more.
pub open spec fn spec_op_branch(
    info: InstructionInfo,
    cpu: CpuRegisters,
    bus: BusSnap,
    res: AddressingResult,
    cycles: u32,
) -> ExecOut {
    match info.instruction {
        Instruction::BCC => {
            if !cpu.spec_carry() {
                let b = spec_branch_taken(cpu, res.address, cycles);
                ExecOut { cpu: b.0, bus, cycles: b.1 }
            } else {
                ExecOut { cpu, bus, cycles }
            }
        },
        Instruction::BCS => {
            if cpu.spec_carry() {
                let b = spec_branch_taken(cpu, res.address, cycles);
                ExecOut { cpu: b.0, bus, cycles: b.1 }
            } else {
                ExecOut { cpu, bus, cycles }
            }
        },
        Instruction::BEQ => {
            if cpu.spec_zero() {
                let b = spec_branch_taken(cpu, res.address, cycles);
                ExecOut { cpu: b.0, bus, cycles: b.1 }
            } else {
                ExecOut { cpu, bus, cycles }
            }
        },
        Instruction::BNE => {
            if !cpu.spec_zero() {
                let b = spec_branch_taken(cpu, res.address, cycles);
                ExecOut { cpu: b.0, bus, cycles: b.1 }
            } else {
                ExecOut { cpu, bus, cycles }
            }
        },
        Instruction::BMI => {
            if cpu.spec_negative() {
                let b = spec_branch_taken(cpu, res.address, cycles);
                ExecOut { cpu: b.0, bus, cycles: b.1 }
            } else {
                ExecOut { cpu, bus, cycles }
            }
        },
        Instruction::BPL => {
            if !cpu.spec_negative() {
                let b = spec_branch_taken(cpu, res.address, cycles);
                ExecOut { cpu: b.0, bus, cycles: b.1 }
            } else {
                ExecOut { cpu, bus, cycles }
            }
        },
        Instruction::BVC => {
            if !cpu.spec_overflow() {
                let b = spec_branch_taken(cpu, res.address, cycles);
                ExecOut { cpu: b.0, bus, cycles: b.1 }
            } else {
                ExecOut { cpu, bus, cycles }
            }
        },
        Instruction::BVS => {
            if cpu.spec_overflow() {
                let b = spec_branch_taken(cpu, res.address, cycles);
                ExecOut { cpu: b.0, bus, cycles: b.1 }
            } else {
                ExecOut { cpu, bus, cycles }
            }
        },
        Instruction::BRA => {
            let b = spec_branch_taken(cpu, res.address, cycles);
            ExecOut { cpu: b.0, bus, cycles: b.1 }
        },
        Instruction::BRL => ExecOut {
            cpu: CpuRegisters { pc: res.address, ..cpu },
            bus,
            cycles: cycles.wrapping_add(1),
        },
        _ => ExecOut { cpu, bus, cycles },
    }
}

/// Jumps, calls and returns. Calls push the return address minus one;
/// the long forms carry the program bank as well.
pub open spec fn spec_op_jump(
    info: InstructionInfo,
    cpu: CpuRegisters,
    bus: BusSnap,
    res: AddressingResult,
    cycles: u32,
) -> ExecOut {
    match info.instruction {
        Instruction::JMP => ExecOut { cpu: CpuRegisters { pc: res.address, ..cpu }, bus, cycles },
        Instruction::JML => ExecOut { cpu: CpuRegisters { pc: res.address, ..cpu }, bus, cycles },
        Instruction::JSR => {
            let return_addr = cpu.pc.wrapping_sub(1);
            let p = cpu.spec_push16(bus, return_addr as u16);
            ExecOut { cpu: CpuRegisters { pc: res.address, ..p.0 }, bus: p.1, cycles }
        },
        Instruction::JSL => {
            let return_addr = cpu.pc.wrapping_sub(1);
            let p1 = cpu.spec_push8(bus, cpu.spec_pc_bank());
            let p2 = p1.0.spec_push16(p1.1, return_addr as u16);
            ExecOut { cpu: CpuRegisters { pc: res.address, ..p2.0 }, bus: p2.1, cycles }
        },
        Instruction::RTS => {
            let p = cpu.spec_pop16(bus);
            let newpc = (p.0.pc & 0xFF0000) | (p.2 as u32).wrapping_add(1);
            ExecOut { cpu: CpuRegisters { pc: newpc, ..p.0 }, bus: p.1, cycles }
        },
        Instruction::RTL => {
            let p = cpu.spec_pop16(bus);
            let pb = p.0.spec_pop8(p.1);
            let newpc = ((pb.2 as u32) << 16) | (p.2 as u32).wrapping_add(1);
            ExecOut { cpu: CpuRegisters { pc: newpc, ..pb.0 }, bus: pb.1, cycles }
        },
        Instruction::RTI => {
            let ps = cpu.spec_pop8(bus);
            let c1 = CpuRegisters { p: ps.2, ..ps.0 };
            let c2 = if c1.emulation_mode {
                c1.with_flag(FLAG_MEMORY_WIDTH, true).with_flag(FLAG_INDEX_WIDTH, true)
            } else {
                c1
            };
            let pa = c2.spec_pop16(ps.1);
            if !pa.0.emulation_mode {
                let pb = pa.0.spec_pop8(pa.1);
                let newpc = ((pb.2 as u32) << 16) | (pa.2 as u32);
                ExecOut { cpu: CpuRegisters { pc: newpc, ..pb.0 }, bus: pb.1, cycles }
            } else {
                let newpc = (pa.0.pc & 0xFF0000) | (pa.2 as u32);
                ExecOut { cpu: CpuRegisters { pc: newpc, ..pa.0 }, bus: pa.1, cycles }
            }
        },
        _ => ExecOut { cpu, bus, cycles },
    }
}

/// Flag instructions; the width bits re-force to 8-bit under emulation
/// after a mask clear.
pub open spec fn spec_op_flags(
    info: InstructionInfo,
    cpu: CpuRegisters,
    bus: BusSnap,
    res: AddressingResult,
    cycles: u32,
) -> ExecOut {
    match info.instruction {
        Instruction::CLC => ExecOut { cpu: cpu.with_flag(FLAG_CARRY, false), bus, cycles },
        Instruction::SEC => ExecOut { cpu: cpu.with_flag(FLAG_CARRY, true), bus, cycles },
        Instruction::CLD => ExecOut { cpu: cpu.with_flag(FLAG_DECIMAL, false), bus, cycles },
        Instruction::SED => ExecOut { cpu: cpu.with_flag(FLAG_DECIMAL, true), bus, cycles },
        Instruction::CLI => ExecOut { cpu: cpu.with_flag(FLAG_IRQ_DISABLE, false), bus, cycles },
        Instruction::SEI => ExecOut { cpu: cpu.with_flag(FLAG_IRQ_DISABLE, true), bus, cycles },
        Instruction::CLV => ExecOut { cpu: cpu.with_flag(FLAG_OVERFLOW, false), bus, cycles },
        Instruction::REP => {
            let mask = res.value as u8;
            let c1 = CpuRegisters { p: cpu.p & !mask, ..cpu };
            let c2 = if c1.emulation_mode {
                c1.with_flag(FLAG_MEMORY_WIDTH, true).with_flag(FLAG_INDEX_WIDTH, true)
            } else {
                c1
            };
            ExecOut { cpu: c2, bus, cycles }
        },
        Instruction::SEP => {
            let mask = res.value as u8;
            ExecOut { cpu: CpuRegisters { p: cpu.p | mask, ..cpu }, bus, cycles }
        },
        _ => ExecOut { cpu, bus, cycles },
    }
}

/// Mode switches, waits and software interrupts. BRK and COP skip
/// their signature byte, push state and take the mode's vector.
pub open spec fn spec_op_misc(
    info: InstructionInfo,
    cpu: CpuRegisters,
    bus: BusSnap,
    res: AddressingResult,
    cycles: u32,
) -> ExecOut {
    match info.instruction {
        Instruction::NOP => ExecOut { cpu, bus, cycles },
        Instruction::WDM => ExecOut { cpu: cpu.spec_increment_pc(1), bus, cycles },
        Instruction::XCE => {
            let old_carry = cpu.spec_carry();
            let c1 = cpu.with_flag(FLAG_CARRY, cpu.emulation_mode);
            let c2 = if old_carry {
                c1.spec_enter_emulation()
            } else {
                c1.spec_enter_native()
            };
            ExecOut { cpu: c2, bus, cycles }
        },
        Instruction::STP => ExecOut { cpu: CpuRegisters { halt: true, ..cpu }, bus, cycles },
        Instruction::WAI => ExecOut {
            cpu: CpuRegisters { waiting_for_interrupt: true, ..cpu },
            bus,
            cycles,
        },
        Instruction::BRK => {
            let c1 = cpu.spec_increment_pc(1);
            let pushed = if !c1.emulation_mode {
                c1.spec_push8(bus, c1.spec_pc_bank())
            } else {
                (c1, bus)
            };
            let p2 = pushed.0.spec_push16(pushed.1, pushed.0.spec_pc_offset());
            let p3 = p2.0.spec_push8(p2.1, p2.0.p | 0x10);
            let c2 = p3.0.with_flag(FLAG_IRQ_DISABLE, true);
            let vec_addr: u32 = if c2.emulation_mode {
                0xFFFE
            } else {
                0xFFEE
            };
            let vr = p3.1.read16_full(vec_addr);
            ExecOut { cpu: CpuRegisters { pc: vr.0 as u32, ..c2 }, bus: vr.1, cycles }
        },
        Instruction::COP => {
            let c1 = cpu.spec_increment_pc(1);
            let pushed = if !c1.emulation_mode {
                c1.spec_push8(bus, c1.spec_pc_bank())
            } else {
                (c1, bus)
            };
            let p2 = pushed.0.spec_push16(pushed.1, pushed.0.spec_pc_offset());
            let p3 = p2.0.spec_push8(p2.1, p2.0.p);
            let c2 = p3.0.with_flag(FLAG_IRQ_DISABLE, true);
            let vec_addr: u32 = if c2.emulation_mode {
                0xFFF4
            } else {
                0xFFE4
            };
            let vr = p3.1.read16_full(vec_addr);
            ExecOut { cpu: CpuRegisters { pc: vr.0 as u32, ..c2 }, bus: vr.1, cycles }
        },
        _ => ExecOut { cpu, bus, cycles },
    }
}

/// Block moves transfer one byte per execution, step the index
/// registers, count the accumulator down, and rewind the program
/// counter to repeat until the count wraps; each byte costs a fixed
/// seven cycles overriding the table cost.
pub open spec fn spec_op_block(
    info: InstructionInfo,
    cpu: CpuRegisters,
    bus: BusSnap,
    res: AddressingResult,
    cycles: u32,
) -> ExecOut {
    match info.instruction {
        Instruction::MVN => {
            let src_bank = (res.value & 0xFF) as u8;
            let dst_bank = ((res.value >> 8) & 0xFF) as u8;
            let src_addr = ((src_bank as u32) << 16) | (cpu.spec_get_x() as u32);
            let dst_addr = ((dst_bank as u32) << 16) | (cpu.spec_get_y() as u32);
            let rd = bus.read8_full(src_addr);
            let bus2 = rd.1.write8_full(dst_addr, rd.0);
            let c1 = cpu.spec_with_x(cpu.spec_get_x().wrapping_sub(1));
            let c2 = c1.spec_with_y(c1.spec_get_y().wrapping_sub(1));
            let c3 = c2.spec_with_a(c2.spec_get_a().wrapping_sub(1));
            let c4 = if c3.a != 0xFFFF {
                CpuRegisters { pc: c3.pc.wrapping_sub(3), ..c3 }
            } else {
                c3
            };
            ExecOut { cpu: c4, bus: bus2, cycles: 7 }
        },
        Instruction::MVP => {
            let src_bank = (res.value & 0xFF) as u8;
            let dst_bank = ((res.value >> 8) & 0xFF) as u8;
            let src_addr = ((src_bank as u32) << 16) | (cpu.spec_get_x() as u32);
            let dst_addr = ((dst_bank as u32) << 16) | (cpu.spec_get_y() as u32);
            let rd = bus.read8_full(src_addr);
            let bus2 = rd.1.write8_full(dst_addr, rd.0);
            let c1 = cpu.spec_with_x(cpu.spec_get_x().wrapping_add(1));
            let c2 = c1.spec_with_y(c1.spec_get_y().wrapping_add(1));
            let c3 = c2.spec_with_a(c2.spec_get_a().wrapping_sub(1));
            let c4 = if c3.a != 0xFFFF {
                CpuRegisters { pc: c3.pc.wrapping_sub(3), ..c3 }
            } else {
                c3
            };
            ExecOut { cpu: c4, bus: bus2, cycles: 7 }
        },
        _ => ExecOut { cpu, bus, cycles },
    }
}

/// The effect of one instruction after its addressing mode has been
/// resolved, dispatched by operation group.
pub open spec fn spec_execute_op(
    info: InstructionInfo,
    cpu: CpuRegisters,
    bus: BusSnap,
    res: AddressingResult,
    cycles: u32,
) -> ExecOut {
    match info.instruction {
        Instruction::LDA
        | Instruction::LDX
        | Instruction::LDY
        | Instruction::STA
        | Instruction::STX
        | Instruction::STY
        | Instruction::STZ => spec_op_load_store(info, cpu, bus, res, cycles),
        Instruction::TAX
        | Instruction::TAY
        | Instruction::TXA
        | Instruction::TYA
        | Instruction::TSX
        | Instruction::TXS
        | Instruction::TXY
        | Instruction::TYX
        | Instruction::TCD
        | Instruction::TDC
        | Instruction::TCS
        | Instruction::TSC
        | Instruction::XBA => spec_op_transfer(info, cpu, bus, res, cycles),
        Instruction::PHA
        | Instruction::PLA
        | Instruction::PHP
        | Instruction::PLP
        | Instruction::PHX
        | Instruction::PLX
        | Instruction::PHY
        | Instruction::PLY
        | Instruction::PHB
        | Instruction::PLB
        | Instruction::PHD
        | Instruction::PLD
        | Instruction::PHK
        | Instruction::PEA
        | Instruction::PEI
        | Instruction::PER => spec_op_stack(info, cpu, bus, res, cycles),
        Instruction::ADC
        | Instruction::SBC
        | Instruction::INC
        | Instruction::INX
        | Instruction::INY
        | Instruction::DEC
        | Instruction::DEX
        | Instruction::DEY => spec_op_arith(info, cpu, bus, res, cycles),
        Instruction::AND
        | Instruction::ORA
        | Instruction::EOR
        | Instruction::BIT
        | Instruction::TSB
        | Instruction::TRB => spec_op_logic(info, cpu, bus, res, cycles),
        Instruction::ASL | Instruction::LSR | Instruction::ROL | Instruction::ROR => spec_op_shift(
            info,
            cpu,
            bus,
            res,
            cycles,
        ),
        Instruction::CMP | Instruction::CPX | Instruction::CPY => spec_op_compare(
            info,
            cpu,
            bus,
            res,
            cycles,
        ),
        Instruction::BCC
        | Instruction::BCS
        | Instruction::BEQ
        | Instruction::BNE
        | Instruction::BMI
        | Instruction::BPL
        | Instruction::BVC
        | Instruction::BVS
        | Instruction::BRA
        | Instruction::BRL => spec_op_branch(info, cpu, bus, res, cycles),
        Instruction::JMP
        | Instruction::JML
        | Instruction::JSR
        | Instruction::JSL
        | Instruction::RTS
        | Instruction::RTL
        | Instruction::RTI => spec_op_jump(info, cpu, bus, res, cycles),
        Instruction::CLC
        | Instruction::SEC
        | Instruction::CLD
        | Instruction::SED
        | Instruction::CLI
        | Instruction::SEI
        | Instruction::CLV
        | Instruction::REP
        | Instruction::SEP => spec_op_flags(info, cpu, bus, res, cycles),
        Instruction::NOP
        | Instruction::WDM
        | Instruction::XCE
        | Instruction::STP
        | Instruction::WAI
        | Instruction::BRK
        | Instruction::COP => spec_op_misc(info, cpu, bus, res, cycles),
        Instruction::MVN | Instruction::MVP => spec_op_block(info, cpu, bus, res, cycles),
    }
}

/// Setting a bit with a mask cannot clear an already-set bit.
proof fn lemma_or_preserves_set_bits(p: u8, mask: u8)
    by (bit_vector)
    ensures
        p & 0x20 != 0 ==> (p | mask) & 0x20 != 0,
        p & 0x10 != 0 ==> (p | mask) & 0x10 != 0,
{
}

/// Forcing both width bits makes both width flags read as set.
proof fn lemma_forced_widths(p: u8)
    by (bit_vector)
    ensures
        ((p | 0x20) | 0x10) & 0x20 != 0,
        ((p | 0x20) | 0x10) & 0x10 != 0,
{
}

/// The complete effect of executing one decoded instruction: the
/// addressing mode resolves first, its penalty joins the base cycle
/// count, and the operation applies.
pub open spec fn spec_execute(info: InstructionInfo, cpu: CpuRegisters, bus: BusSnap) -> ExecOut {
    let ro = spec_resolve(info.addressing_mode, cpu, bus);
    let cycles = (info.base_cycles as u32).wrapping_add(ro.res.cycles);
    spec_execute_op(info, ro.cpu, ro.bus, ro.res, cycles)
}

/// Width invariant: from a well-formed register file in emulation
/// mode, both width flags read as 8-bit immediately after any of the
/// instructions that rewrite the status byte wholesale.
#[verifier::rlimit(100)]
#[verifier::spinoff_prover]
pub proof fn lemma_emulation_forces_widths(
    info: InstructionInfo,
    cpu: CpuRegisters,
    bus: BusSnap,
)
    requires
        cpu.wf(),
        cpu.emulation_mode,
        info.instruction == Instruction::REP || info.instruction == Instruction::SEP
            || info.instruction == Instruction::PLP || info.instruction == Instruction::RTI,
    ensures
        spec_execute(info, cpu, bus).cpu.spec_memory_width(),
        spec_execute(info, cpu, bus).cpu.spec_index_width(),
{
    crate::cpu::addressing::lemma_resolve_preserves_registers(info.addressing_mode, cpu, bus);
    let ro = spec_resolve(info.addressing_mode, cpu, bus);
    if info.instruction == Instruction::REP {
        let mask = ro.res.value as u8;
        lemma_forced_widths(ro.cpu.p & !mask);
    } else if info.instruction == Instruction::SEP {
        let mask = ro.res.value as u8;
        lemma_or_preserves_set_bits(ro.cpu.p, mask);
    } else if info.instruction == Instruction::PLP {
        let popped = ro.cpu.spec_pop8(ro.bus);
        lemma_forced_widths(popped.2);
    } else {
        let popped = ro.cpu.spec_pop8(ro.bus);
        lemma_forced_widths(popped.2);
    }
}

// Cycle-count bounds of each operation group, stated one group at a
// time so each unfolds only its own arms.
#[verifier::rlimit(100)]
#[verifier::spinoff_prover]
proof fn lemma_op_load_store_cycles(
    info: InstructionInfo,
    cpu: CpuRegisters,
    bus: BusSnap,
    res: AddressingResult,
    cycles: u32,
)
    ensures
        spec_op_load_store(info, cpu, bus, res, cycles).cycles == cycles,
{
}

#[verifier::rlimit(100)]
#[verifier::spinoff_prover]
proof fn lemma_op_transfer_cycles(
    info: InstructionInfo,
    cpu: CpuRegisters,
    bus: BusSnap,
    res: AddressingResult,
    cycles: u32,
)
    ensures
        spec_op_transfer(info, cpu, bus, res, cycles).cycles == cycles,
{
}

#[verifier::rlimit(100)]
#[verifier::spinoff_prover]
proof fn lemma_op_stack_cycles(
    info: InstructionInfo,
    cpu: CpuRegisters,
    bus: BusSnap,
    res: AddressingResult,
    cycles: u32,
)
    ensures
        spec_op_stack(info, cpu, bus, res, cycles).cycles == cycles,
{
}

#[verifier::rlimit(100)]
#[verifier::spinoff_prover]
proof fn lemma_op_arith_cycles(
    info: InstructionInfo,
    cpu: CpuRegisters,
    bus: BusSnap,
    res: AddressingResult,
    cycles: u32,
)
    ensures
        spec_op_arith(info, cpu, bus, res, cycles).cycles == cycles,
{
}

#[verifier::rlimit(100)]
#[verifier::spinoff_prover]
proof fn lemma_op_logic_cycles(
    info: InstructionInfo,
    cpu: CpuRegisters,
    bus: BusSnap,
    res: AddressingResult,
    cycles: u32,
)
    ensures
        spec_op_logic(info, cpu, bus, res, cycles).cycles == cycles,
{
}

#[verifier::rlimit(100)]
#[verifier::spinoff_prover]
proof fn lemma_op_shift_cycles(
    info: InstructionInfo,
    cpu: CpuRegisters,
    bus: BusSnap,
    res: AddressingResult,
    cycles: u32,
)
    ensures
        spec_op_shift(info, cpu, bus, res, cycles).cycles == cycles,
{
}

#[verifier::rlimit(100)]
#[verifier::spinoff_prover]
proof fn lemma_op_compare_cycles(
    info: InstructionInfo,
    cpu: CpuRegisters,
    bus: BusSnap,
    res: AddressingResult,
    cycles: u32,
)
    ensures
        spec_op_compare(info, cpu, bus, res, cycles).cycles == cycles,
{
}

#[verifier::rlimit(100)]
#[verifier::spinoff_prover]
proof fn lemma_op_flags_cycles(
    info: InstructionInfo,
    cpu: CpuRegisters,
    bus: BusSnap,
    res: AddressingResult,
    cycles: u32,
)
    ensures
        spec_op_flags(info, cpu, bus, res, cycles).cycles == cycles,
{
}

#[verifier::rlimit(100)]
#[verifier::spinoff_prover]
proof fn lemma_op_jump_cycles(
    info: InstructionInfo,
    cpu: CpuRegisters,
    bus: BusSnap,
    res: AddressingResult,
    cycles: u32,
)
    ensures
        spec_op_jump(info, cpu, bus, res, cycles).cycles == cycles,
{
}

#[verifier::rlimit(100)]
#[verifier::spinoff_prover]
proof fn lemma_op_misc_cycles(
    info: InstructionInfo,
    cpu: CpuRegisters,
    bus: BusSnap,
    res: AddressingResult,
    cycles: u32,
)
    ensures
        spec_op_misc(info, cpu, bus, res, cycles).cycles == cycles,
{
}

#[verifier::rlimit(100)]
#[verifier::spinoff_prover]
proof fn lemma_op_branch_cycles(
    info: InstructionInfo,
    cpu: CpuRegisters,
    bus: BusSnap,
    res: AddressingResult,
    cycles: u32,
)
    requires
        cycles <= 0x1000,
    ensures
        cycles <= spec_op_branch(info, cpu, bus, res, cycles).cycles <= cycles + 2,
{
}

#[verifier::rlimit(100)]
#[verifier::spinoff_prover]
proof fn lemma_op_block_cycles(
    info: InstructionInfo,
    cpu: CpuRegisters,
    bus: BusSnap,
    res: AddressingResult,
    cycles: u32,
)
    ensures
        spec_op_block(info, cpu, bus, res, cycles).cycles == 7 || spec_op_block(info, cpu, bus, res, cycles).cycles == cycles,
{
}

/// An instruction's final cost stays between one cycle and a small
/// bound, whatever the operands: most groups keep the incoming count,
/// branches add at most two, and block moves fix it at seven.
#[verifier::rlimit(100)]
#[verifier::spinoff_prover]
pub proof fn lemma_execute_op_cycles_bounds(
    info: InstructionInfo,
    cpu: CpuRegisters,
    bus: BusSnap,
    res: AddressingResult,
    cycles: u32,
)
    requires
        1 <= cycles <= 0x1000,
    ensures
        1 <= spec_execute_op(info, cpu, bus, res, cycles).cycles <= 0x1002,
{
    lemma_op_load_store_cycles(info, cpu, bus, res, cycles);
    lemma_op_transfer_cycles(info, cpu, bus, res, cycles);
    lemma_op_stack_cycles(info, cpu, bus, res, cycles);
    lemma_op_arith_cycles(info, cpu, bus, res, cycles);
    lemma_op_logic_cycles(info, cpu, bus, res, cycles);
    lemma_op_shift_cycles(info, cpu, bus, res, cycles);
    lemma_op_compare_cycles(info, cpu, bus, res, cycles);
    lemma_op_flags_cycles(info, cpu, bus, res, cycles);
    lemma_op_jump_cycles(info, cpu, bus, res, cycles);
    lemma_op_misc_cycles(info, cpu, bus, res, cycles);
    lemma_op_branch_cycles(info, cpu, bus, res, cycles);
    lemma_op_block_cycles(info, cpu, bus, res, cycles);
}

/// One whole instruction, decoded entry included, costs at least one
/// and at most a few thousand cycles.
pub proof fn lemma_execute_cycles_bounds(info: InstructionInfo, cpu: CpuRegisters, bus: BusSnap)
    requires
        2 <= info.base_cycles <= 8,
    ensures
        1 <= spec_execute(info, cpu, bus).cycles <= 0x1002,
{
    let ro = spec_resolve(info.addressing_mode, cpu, bus);
    crate::cpu::addressing::lemma_resolve_cycles_bound(info.addressing_mode, cpu, bus);
    let c0 = (info.base_cycles as u32).wrapping_add(ro.res.cycles);
    lemma_execute_op_cycles_bounds(info, ro.cpu, ro.bus, ro.res, c0);
}

/// Executes one decoded instruction against the registers and the bus,
/// returning its true cycle cost. Execution is infallible: the result
/// is always `Ok`, and its whole effect is `spec_execute`.
pub fn execute_instruction(cpu: &mut CpuRegisters, bus: &mut Bus, info: &InstructionInfo) -> (r:
    Result<u32, EmulatorError>)
    requires
        old(bus)@.wf(),
    ensures
        final(bus)@.wf(),
        r matches Ok(c) && spec_execute(*info, *old(cpu), old(bus)@) == (ExecOut {
            cpu: *final(cpu),
            bus: final(bus)@,
            cycles: c,
        }),
{
    let addressing_result = info.addressing_mode.resolve(cpu, bus);
    let cycles = (info.base_cycles as u32).wrapping_add(addressing_result.cycles);
    let c = match info.instruction {
        Instruction::LDA
        | Instruction::LDX
        | Instruction::LDY
        | Instruction::STA
        | Instruction::STX
        | Instruction::STY
        | Instruction::STZ => op_load_store(cpu, bus, info, &addressing_result, cycles),
        Instruction::TAX
        | Instruction::TAY
        | Instruction::TXA
        | Instruction::TYA
        | Instruction::TSX
        | Instruction::TXS
        | Instruction::TXY
        | Instruction::TYX
        | Instruction::TCD
        | Instruction::TDC
        | Instruction::TCS
        | Instruction::TSC
        | Instruction::XBA => op_transfer(cpu, bus, info, &addressing_result, cycles),
        Instruction::PHA
        | Instruction::PLA
        | Instruction::PHP
        | Instruction::PLP
        | Instruction::PHX
        | Instruction::PLX
        | Instruction::PHY
        | Instruction::PLY
        | Instruction::PHB
        | Instruction::PLB
        | Instruction::PHD
        | Instruction::PLD
        | Instruction::PHK
        | Instruction::PEA
        | Instruction::PEI
        | Instruction::PER => op_stack(cpu, bus, info, &addressing_result, cycles),
        Instruction::ADC
        | Instruction::SBC
        | Instruction::INC
        | Instruction::INX
        | Instruction::INY
        | Instruction::DEC
        | Instruction::DEX
        | Instruction::DEY => op_arith(cpu, bus, info, &addressing_result, cycles),
        Instruction::AND
        | Instruction::ORA
        | Instruction::EOR
        | Instruction::BIT
        | Instruction::TSB
        | Instruction::TRB => op_logic(cpu, bus, info, &addressing_result, cycles),
        Instruction::ASL | Instruction::LSR | Instruction::ROL | Instruction::ROR => op_shift(
            cpu,
            bus,
            info,
            &addressing_result,
            cycles,
        ),
        Instruction::CMP | Instruction::CPX | Instruction::CPY => op_compare(
            cpu,
            bus,
            info,
            &addressing_result,
            cycles,
        ),
        Instruction::BCC
        | Instruction::BCS
        | Instruction::BEQ
        | Instruction::BNE
        | Instruction::BMI
        | Instruction::BPL
        | Instruction::BVC
        | Instruction::BVS
        | Instruction::BRA
        | Instruction::BRL => op_branch(cpu, bus, info, &addressing_result, cycles),
        Instruction::JMP
        | Instruction::JML
        | Instruction::JSR
        | Instruction::JSL
        | Instruction::RTS
        | Instruction::RTL
        | Instruction::RTI => op_jump(cpu, bus, info, &addressing_result, cycles),
        Instruction::CLC
        | Instruction::SEC
        | Instruction::CLD
        | Instruction::SED
        | Instruction::CLI
        | Instruction::SEI
        | Instruction::CLV
        | Instruction::REP
        | Instruction::SEP => op_flags(cpu, bus, info, &addressing_result, cycles),
        Instruction::NOP
        | Instruction::WDM
        | Instruction::XCE
        | Instruction::STP
        | Instruction::WAI
        | Instruction::BRK
        | Instruction::COP => op_misc(cpu, bus, info, &addressing_result, cycles),
        Instruction::MVN | Instruction::MVP => op_block(cpu, bus, info, &addressing_result, cycles),
    };
    Ok(c)
}

#[verifier::rlimit(100)]
#[verifier::spinoff_prover]
fn op_load_store(
    cpu: &mut CpuRegisters,
    bus: &mut Bus,
    info: &InstructionInfo,
    res: &AddressingResult,
    cycles: u32,
) -> (r: u32)
    requires
        old(bus)@.wf(),
        info.instruction == Instruction::LDA || info.instruction == Instruction::LDX
            || info.instruction == Instruction::LDY || info.instruction == Instruction::STA
            || info.instruction == Instruction::STX || info.instruction == Instruction::STY
            || info.instruction == Instruction::STZ,
    ensures
        final(bus)@.wf(),
        spec_op_load_store(*info, *old(cpu), old(bus)@, *res, cycles) == (ExecOut {
            cpu: *final(cpu),
            bus: final(bus)@,
            cycles: r,
        }),
{
    match info.instruction {
        Instruction::LDA => {
            let value = res.value;
            cpu.set_a(value);
            cpu.update_nz_flags(value);
        },
        Instruction::LDX => {
            let value = res.value;
            cpu.set_x(value);
            cpu.update_nz_flags_index(value);
        },
        Instruction::LDY => {
            let value = res.value;
            cpu.set_y(value);
            cpu.update_nz_flags_index(value);
        },
        Instruction::STA => {
            let value = cpu.get_a();
            info.addressing_mode.write_result(cpu, bus, res, value);
        },
        Instruction::STX => {
            let value = cpu.get_x();
            info.addressing_mode.write_result(cpu, bus, res, value);
        },
        Instruction::STY => {
            let value = cpu.get_y();
            info.addressing_mode.write_result(cpu, bus, res, value);
        },
        _ => {
            info.addressing_mode.write_result(cpu, bus, res, 0);
        },
    }
    cycles
}

#[verifier::rlimit(100)]
#[verifier::spinoff_prover]
fn op_transfer(
    cpu: &mut CpuRegisters,
    bus: &mut Bus,
    info: &InstructionInfo,
    res: &AddressingResult,
    cycles: u32,
) -> (r: u32)
    requires
        old(bus)@.wf(),
        info.instruction == Instruction::TAX || info.instruction == Instruction::TAY
            || info.instruction == Instruction::TXA || info.instruction == Instruction::TYA
            || info.instruction == Instruction::TSX || info.instruction == Instruction::TXS
            || info.instruction == Instruction::TXY || info.instruction == Instruction::TYX
            || info.instruction == Instruction::TCD || info.instruction == Instruction::TDC
            || info.instruction == Instruction::TCS || info.instruction == Instruction::TSC
            || info.instruction == Instruction::XBA,
    ensures
        final(bus)@.wf(),
        spec_op_transfer(*info, *old(cpu), old(bus)@, *res, cycles) == (ExecOut {
            cpu: *final(cpu),
            bus: final(bus)@,
            cycles: r,
        }),
{
    match info.instruction {
        Instruction::TAX => {
            let value = cpu.get_a();
            cpu.set_x(value);
            cpu.update_nz_flags_index(value);
        },
        Instruction::TAY => {
            let value = cpu.get_a();
            cpu.set_y(value);
            cpu.update_nz_flags_index(value);
        },
        Instruction::TXA => {
            let value = cpu.get_x();
            cpu.set_a(value);
            cpu.update_nz_flags(value);
        },
        Instruction::TYA => {
            let value = cpu.get_y();
            cpu.set_a(value);
            cpu.update_nz_flags(value);
        },
        Instruction::TSX => {
            let value = cpu.s;
            cpu.set_x(value);
            cpu.update_nz_flags_index(value);
        },
        Instruction::TXS => {
            cpu.s = cpu.get_x();
        },
        Instruction::TXY => {
            let value = cpu.get_x();
            cpu.set_y(value);
            cpu.update_nz_flags_index(value);
        },
        Instruction::TYX => {
            let value = cpu.get_y();
            cpu.set_x(value);
            cpu.update_nz_flags_index(value);
        },
        Instruction::TCD => {
            cpu.d = cpu.a;
            let value = cpu.d;
            cpu.update_nz_flags(value);
        },
        Instruction::TDC => {
            cpu.a = cpu.d;
            let value = cpu.a;
            cpu.update_nz_flags(value);
        },
        Instruction::TCS => {
            cpu.s = cpu.a;
        },
        Instruction::TSC => {
            cpu.a = cpu.s;
            let value = cpu.a;
            cpu.update_nz_flags(value);
        },
        _ => {
            let a = cpu.a;
            cpu.a = ((a & 0xFF) << 8) | ((a >> 8) & 0xFF);
            let low = cpu.a & 0xFF;
            cpu.update_nz_flags(low);
        },
    }
    cycles
}

#[verifier::rlimit(100)]
#[verifier::spinoff_prover]
fn op_stack(
    cpu: &mut CpuRegisters,
    bus: &mut Bus,
    info: &InstructionInfo,
    res: &AddressingResult,
    cycles: u32,
) -> (r: u32)
    requires
        old(bus)@.wf(),
        info.instruction == Instruction::PHA || info.instruction == Instruction::PLA
            || info.instruction == Instruction::PHP || info.instruction == Instruction::PLP
            || info.instruction == Instruction::PHX || info.instruction == Instruction::PLX
            || info.instruction == Instruction::PHY || info.instruction == Instruction::PLY
            || info.instruction == Instruction::PHB || info.instruction == Instruction::PLB
            || info.instruction == Instruction::PHD || info.instruction == Instruction::PLD
            || info.instruction == Instruction::PHK || info.instruction == Instruction::PEA
            || info.instruction == Instruction::PEI || info.instruction == Instruction::PER,
    ensures
        final(bus)@.wf(),
        spec_op_stack(*info, *old(cpu), old(bus)@, *res, cycles) == (ExecOut {
            cpu: *final(cpu),
            bus: final(bus)@,
            cycles: r,
        }),
{
    match info.instruction {
        Instruction::PHA => {
            let value = cpu.get_a();
            if cpu.memory_width() {
                cpu.push_8(bus, value as u8);
            } else {
                cpu.push_16(bus, value);
            }
        },
        Instruction::PLA => {
            let value: u16 = if cpu.memory_width() {
                cpu.pop_8(bus) as u16
            } else {
                cpu.pop_16(bus)
            };
            cpu.set_a(value);
            cpu.update_nz_flags(value);
        },
        Instruction::PHP => {
            let p = cpu.p;
            cpu.push_8(bus, p);
        },
        Instruction::PLP => {
            cpu.p = cpu.pop_8(bus);
            if cpu.emulation_mode {
                cpu.set_memory_width(true);
                cpu.set_index_width(true);
            }
        },
        Instruction::PHX => {
            let value = cpu.get_x();
            if cpu.index_width() {
                cpu.push_8(bus, value as u8);
            } else {
                cpu.push_16(bus, value);
            }
        },
        Instruction::PLX => {
            let value: u16 = if cpu.index_width() {
                cpu.pop_8(bus) as u16
            } else {
                cpu.pop_16(bus)
            };
            cpu.set_x(value);
            cpu.update_nz_flags_index(value);
        },
        Instruction::PHY => {
            let value = cpu.get_y();
            if cpu.index_width() {
                cpu.push_8(bus, value as u8);
            } else {
                cpu.push_16(bus, value);
            }
        },
        Instruction::PLY => {
            let value: u16 = if cpu.index_width() {
                cpu.pop_8(bus) as u16
            } else {
                cpu.pop_16(bus)
            };
            cpu.set_y(value);
            cpu.update_nz_flags_index(value);
        },
        Instruction::PHB => {
            let db = cpu.db;
            cpu.push_8(bus, db);
        },
        Instruction::PLB => {
            cpu.db = cpu.pop_8(bus);
            let value = cpu.db as u16;
            cpu.update_nz_flags(value);
        },
        Instruction::PHD => {
            let d = cpu.d;
            cpu.push_16(bus, d);
        },
        Instruction::PLD => {
            cpu.d = cpu.pop_16(bus);
            let value = cpu.d;
            cpu.update_nz_flags(value);
        },
        Instruction::PHK => {
            let bank = cpu.get_pc_bank();
            cpu.push_8(bus, bank);
        },
        Instruction::PEA => {
            cpu.push_16(bus, res.value);
        },
        Instruction::PEI => {
            cpu.push_16(bus, res.value);
        },
        _ => {
            cpu.push_16(bus, res.address as u16);
        },
    }
    cycles
}

#[verifier::rlimit(100)]
#[verifier::spinoff_prover]
fn op_arith(
    cpu: &mut CpuRegisters,
    bus: &mut Bus,
    info: &InstructionInfo,
    res: &AddressingResult,
    cycles: u32,
) -> (r: u32)
    requires
        old(bus)@.wf(),
        info.instruction == Instruction::ADC || info.instruction == Instruction::SBC
            || info.instruction == Instruction::INC || info.instruction == Instruction::INX
            || info.instruction == Instruction::INY || info.instruction == Instruction::DEC
            || info.instruction == Instruction::DEX || info.instruction == Instruction::DEY,
    ensures
        final(bus)@.wf(),
        spec_op_arith(*info, *old(cpu), old(bus)@, *res, cycles) == (ExecOut {
            cpu: *final(cpu),
            bus: final(bus)@,
            cycles: r,
        }),
{
    proof {
        lemma_mask_byte_bounds();
    }
    match info.instruction {
        Instruction::ADC => {
            let a = cpu.get_a();
            let value = res.value;
            let carry: u16 = if cpu.carry() {
                1
            } else {
                0
            };
            if cpu.memory_width() {
                let result = (a as u8).wrapping_add(value as u8).wrapping_add(carry as u8);
                let signed_a = a as i8;
                let signed_val = value as i8;
                let signed_result = signed_a.wrapping_add(signed_val).wrapping_add(carry as i8);
                cpu.set_carry(result as u16 != (a & 0xFF) + (value & 0xFF) + carry);
                cpu.set_overflow(
                    (signed_a >= 0 && signed_val >= 0 && signed_result < 0) || (signed_a < 0
                        && signed_val < 0 && signed_result >= 0),
                );
                cpu.set_a(result as u16);
                cpu.update_nz_flags(result as u16);
            } else {
                let result = a.wrapping_add(value).wrapping_add(carry);
                let signed_a = a as i16;
                let signed_val = value as i16;
                let signed_result = signed_a.wrapping_add(signed_val).wrapping_add(carry as i16);
                cpu.set_carry((a as u32) + (value as u32) + (carry as u32) > 0xFFFF);
                cpu.set_overflow(
                    (signed_a >= 0 && signed_val >= 0 && signed_result < 0) || (signed_a < 0
                        && signed_val < 0 && signed_result >= 0),
                );
                cpu.set_a(result);
                cpu.update_nz_flags(result);
            }
        },
        Instruction::SBC => {
            let a = cpu.get_a();
            let value = res.value;
            let borrow: u16 = if cpu.carry() {
                0
            } else {
                1
            };
            if cpu.memory_width() {
                let result = (a as u8).wrapping_sub(value as u8).wrapping_sub(borrow as u8);
                let signed_a = a as i8;
                let signed_val = value as i8;
                let signed_result = signed_a.wrapping_sub(signed_val).wrapping_sub(borrow as i8);
                cpu.set_carry((a & 0xFF) as u32 >= (value & 0xFF) as u32 + borrow as u32);
                cpu.set_overflow(
                    (signed_a >= 0 && signed_val < 0 && signed_result < 0) || (signed_a < 0
                        && signed_val >= 0 && signed_result >= 0),
                );
                cpu.set_a(result as u16);
                cpu.update_nz_flags(result as u16);
            } else {
                let result = a.wrapping_sub(value).wrapping_sub(borrow);
                let signed_a = a as i16;
                let signed_val = value as i16;
                let signed_result = signed_a.wrapping_sub(signed_val).wrapping_sub(borrow as i16);
                cpu.set_carry(a as u32 >= value as u32 + borrow as u32);
                cpu.set_overflow(
                    (signed_a >= 0 && signed_val < 0 && signed_result < 0) || (signed_a < 0
                        && signed_val >= 0 && signed_result >= 0),
                );
                cpu.set_a(result);
                cpu.update_nz_flags(result);
            }
        },
        Instruction::INC => {
            let value = res.value.wrapping_add(1);
            if info.addressing_mode == AddressingMode::Accumulator {
                cpu.set_a(value);
                cpu.update_nz_flags(value);
            } else {
                info.addressing_mode.write_result(cpu, bus, res, value);
                cpu.update_nz_flags(value);
            }
        },
        Instruction::INX => {
            let value = cpu.get_x().wrapping_add(1);
            cpu.set_x(value);
            cpu.update_nz_flags_index(value);
        },
        Instruction::INY => {
            let value = cpu.get_y().wrapping_add(1);
            cpu.set_y(value);
            cpu.update_nz_flags_index(value);
        },
        Instruction::DEC => {
            let value = res.value.wrapping_sub(1);
            if info.addressing_mode == AddressingMode::Accumulator {
                cpu.set_a(value);
                cpu.update_nz_flags(value);
            } else {
                info.addressing_mode.write_result(cpu, bus, res, value);
                cpu.update_nz_flags(value);
            }
        },
        Instruction::DEX => {
            let value = cpu.get_x().wrapping_sub(1);
            cpu.set_x(value);
            cpu.update_nz_flags_index(value);
        },
        _ => {
            let value = cpu.get_y().wrapping_sub(1);
            cpu.set_y(value);
            cpu.update_nz_flags_index(value);
        },
    }
    cycles
}

#[verifier::rlimit(100)]
#[verifier::spinoff_prover]
fn op_logic(
    cpu: &mut CpuRegisters,
    bus: &mut Bus,
    info: &InstructionInfo,
    res: &AddressingResult,
    cycles: u32,
) -> (r: u32)
    requires
        old(bus)@.wf(),
        info.instruction == Instruction::AND || info.instruction == Instruction::ORA
            || info.instruction == Instruction::EOR || info.instruction == Instruction::BIT
            || info.instruction == Instruction::TSB || info.instruction == Instruction::TRB,
    ensures
        final(bus)@.wf(),
        spec_op_logic(*info, *old(cpu), old(bus)@, *res, cycles) == (ExecOut {
            cpu: *final(cpu),
            bus: final(bus)@,
            cycles: r,
        }),
{
    match info.instruction {
        Instruction::AND => {
            let result = cpu.get_a() & res.value;
            cpu.set_a(result);
            cpu.update_nz_flags(result);
        },
        Instruction::ORA => {
            let result = cpu.get_a() | res.value;
            cpu.set_a(result);
            cpu.update_nz_flags(result);
        },
        Instruction::EOR => {
            let result = cpu.get_a() ^ res.value;
            cpu.set_a(result);
            cpu.update_nz_flags(result);
        },
        Instruction::BIT => {
            let value = res.value;
            let result = cpu.get_a() & value;
            cpu.set_zero(result == 0);
            if cpu.memory_width() {
                cpu.set_negative((value & 0x80) != 0);
                cpu.set_overflow((value & 0x40) != 0);
            } else {
                cpu.set_negative((value & 0x8000) != 0);
                cpu.set_overflow((value & 0x4000) != 0);
            }
        },
        Instruction::TSB => {
            let value = res.value;
            let a = cpu.get_a();
            cpu.set_zero((value & a) == 0);
            info.addressing_mode.write_result(cpu, bus, res, value | a);
        },
        _ => {
            let value = res.value;
            let a = cpu.get_a();
            cpu.set_zero((value & a) == 0);
            info.addressing_mode.write_result(cpu, bus, res, value & !a);
        },
    }
    cycles
}

#[verifier::rlimit(100)]
#[verifier::spinoff_prover]
fn op_shift(
    cpu: &mut CpuRegisters,
    bus: &mut Bus,
    info: &InstructionInfo,
    res: &AddressingResult,
    cycles: u32,
) -> (r: u32)
    requires
        old(bus)@.wf(),
        info.instruction == Instruction::ASL || info.instruction == Instruction::LSR
            || info.instruction == Instruction::ROL || info.instruction == Instruction::ROR,
    ensures
        final(bus)@.wf(),
        spec_op_shift(*info, *old(cpu), old(bus)@, *res, cycles) == (ExecOut {
            cpu: *final(cpu),
            bus: final(bus)@,
            cycles: r,
        }),
{
    match info.instruction {
        Instruction::ASL => {
            let value = res.value;
            let result = value << 1;
            let carry_out = if cpu.memory_width() {
                (value & 0x80) != 0
            } else {
                (value & 0x8000) != 0
            };
            cpu.set_carry(carry_out);
            if info.addressing_mode == AddressingMode::Accumulator {
                cpu.set_a(result);
                cpu.update_nz_flags(result);
            } else {
                info.addressing_mode.write_result(cpu, bus, res, result);
                cpu.update_nz_flags(result);
            }
        },
        Instruction::LSR => {
            let value = res.value;
            let result = value >> 1;
            cpu.set_carry((value & 0x01) != 0);
            if info.addressing_mode == AddressingMode::Accumulator {
                cpu.set_a(result);
                cpu.update_nz_flags(result);
            } else {
                info.addressing_mode.write_result(cpu, bus, res, result);
                cpu.update_nz_flags(result);
            }
        },
        Instruction::ROL => {
            let value = res.value;
            let carry_in: u16 = if cpu.carry() {
                1
            } else {
                0
            };
            let result = (value << 1) | carry_in;
            let carry_out = if cpu.memory_width() {
                (value & 0x80) != 0
            } else {
                (value & 0x8000) != 0
            };
            cpu.set_carry(carry_out);
            if info.addressing_mode == AddressingMode::Accumulator {
                cpu.set_a(result);
                cpu.update_nz_flags(result);
            } else {
                info.addressing_mode.write_result(cpu, bus, res, result);
                cpu.update_nz_flags(result);
            }
        },
        _ => {
            let value = res.value;
            let carry_in: u16 = if cpu.carry() {
                if cpu.memory_width() {
                    0x80
                } else {
                    0x8000
                }
            } else {
                0
            };
            let result = (value >> 1) | carry_in;
            cpu.set_carry((value & 0x01) != 0);
            if info.addressing_mode == AddressingMode::Accumulator {
                cpu.set_a(result);
                cpu.update_nz_flags(result);
            } else {
                info.addressing_mode.write_result(cpu, bus, res, result);
                cpu.update_nz_flags(result);
            }
        },
    }
    cycles
}

#[verifier::rlimit(100)]
#[verifier::spinoff_prover]
fn op_compare(
    cpu: &mut CpuRegisters,
    bus: &mut Bus,
    info: &InstructionInfo,
    res: &AddressingResult,
    cycles: u32,
) -> (r: u32)
    requires
        old(bus)@.wf(),
        info.instruction == Instruction::CMP || info.instruction == Instruction::CPX
            || info.instruction == Instruction::CPY,
    ensures
        final(bus)@.wf(),
        spec_op_compare(*info, *old(cpu), old(bus)@, *res, cycles) == (ExecOut {
            cpu: *final(cpu),
            bus: final(bus)@,
            cycles: r,
        }),
{
    match info.instruction {
        Instruction::CMP => {
            let a = cpu.get_a();
            let result = a.wrapping_sub(res.value);
            cpu.set_carry(a >= res.value);
            cpu.update_nz_flags(result);
        },
        Instruction::CPX => {
            let x = cpu.get_x();
            let result = x.wrapping_sub(res.value);
            cpu.set_carry(x >= res.value);
            cpu.update_nz_flags_index(result);
        },
        _ => {
            let y = cpu.get_y();
            let result = y.wrapping_sub(res.value);
            cpu.set_carry(y >= res.value);
            cpu.update_nz_flags_index(result);
        },
    }
    cycles
}

#[verifier::rlimit(100)]
#[verifier::spinoff_prover]
fn op_branch(
    cpu: &mut CpuRegisters,
    bus: &mut Bus,
    info: &InstructionInfo,
    res: &AddressingResult,
    cycles: u32,
) -> (r: u32)
    requires
        old(bus)@.wf(),
        info.instruction == Instruction::BCC || info.instruction == Instruction::BCS
            || info.instruction == Instruction::BEQ || info.instruction == Instruction::BNE
            || info.instruction == Instruction::BMI || info.instruction == Instruction::BPL
            || info.instruction == Instruction::BVC || info.instruction == Instruction::BVS
            || info.instruction == Instruction::BRA || info.instruction == Instruction::BRL,
    ensures
        final(bus)@.wf(),
        spec_op_branch(*info, *old(cpu), old(bus)@, *res, cycles) == (ExecOut {
            cpu: *final(cpu),
            bus: final(bus)@,
            cycles: r,
        }),
{
    let taken: bool = match info.instruction {
        Instruction::BCC => !cpu.carry(),
        Instruction::BCS => cpu.carry(),
        Instruction::BEQ => cpu.zero(),
        Instruction::BNE => !cpu.zero(),
        Instruction::BMI => cpu.negative(),
        Instruction::BPL => !cpu.negative(),
        Instruction::BVC => !cpu.overflow(),
        Instruction::BVS => cpu.overflow(),
        Instruction::BRA => true,
        _ => false,
    };
    if matches!(info.instruction, Instruction::BRL) {
        cpu.pc = res.address;
        return cycles.wrapping_add(1);
    }
    if taken {
        let mut c = cycles.wrapping_add(1);
        if cpu.emulation_mode && (cpu.pc & 0xFF00) != (res.address & 0xFF00) {
            c = c.wrapping_add(1);
        }
        cpu.pc = res.address;
        c
    } else {
        cycles
    }
}

#[verifier::rlimit(100)]
#[verifier::spinoff_prover]
fn op_jump(
    cpu: &mut CpuRegisters,
    bus: &mut Bus,
    info: &InstructionInfo,
    res: &AddressingResult,
    cycles: u32,
) -> (r: u32)
    requires
        old(bus)@.wf(),
        info.instruction == Instruction::JMP || info.instruction == Instruction::JML
            || info.instruction == Instruction::JSR || info.instruction == Instruction::JSL
            || info.instruction == Instruction::RTS || info.instruction == Instruction::RTL
            || info.instruction == Instruction::RTI,
    ensures
        final(bus)@.wf(),
        spec_op_jump(*info, *old(cpu), old(bus)@, *res, cycles) == (ExecOut {
            cpu: *final(cpu),
            bus: final(bus)@,
            cycles: r,
        }),
{
    match info.instruction {
        Instruction::JMP => {
            cpu.pc = res.address;
        },
        Instruction::JML => {
            cpu.pc = res.address;
        },
        Instruction::JSR => {
            let return_addr = cpu.pc.wrapping_sub(1);
            cpu.push_16(bus, return_addr as u16);
            cpu.pc = res.address;
        },
        Instruction::JSL => {
            let return_addr = cpu.pc.wrapping_sub(1);
            let bank = cpu.get_pc_bank();
            cpu.push_8(bus, bank);
            cpu.push_16(bus, return_addr as u16);
            cpu.pc = res.address;
        },
        Instruction::RTS => {
            let return_addr = cpu.pop_16(bus);
            cpu.pc = (cpu.pc & 0xFF0000) | (return_addr as u32).wrapping_add(1);
        },
        Instruction::RTL => {
            let return_addr = cpu.pop_16(bus);
            let return_bank = cpu.pop_8(bus);
            cpu.pc = ((return_bank as u32) << 16) | (return_addr as u32).wrapping_add(1);
        },
        _ => {
            cpu.p = cpu.pop_8(bus);
            if cpu.emulation_mode {
                cpu.set_memory_width(true);
                cpu.set_index_width(true);
            }
            let return_addr = cpu.pop_16(bus);
            if !cpu.emulation_mode {
                let return_bank = cpu.pop_8(bus);
                cpu.pc = ((return_bank as u32) << 16) | (return_addr as u32);
            } else {
                cpu.pc = (cpu.pc & 0xFF0000) | (return_addr as u32);
            }
        },
    }
    cycles
}

#[verifier::rlimit(100)]
#[verifier::spinoff_prover]
fn op_flags(
    cpu: &mut CpuRegisters,
    bus: &mut Bus,
    info: &InstructionInfo,
    res: &AddressingResult,
    cycles: u32,
) -> (r: u32)
    requires
        old(bus)@.wf(),
        info.instruction == Instruction::CLC || info.instruction == Instruction::SEC
            || info.instruction == Instruction::CLD || info.instruction == Instruction::SED
            || info.instruction == Instruction::CLI || info.instruction == Instruction::SEI
            || info.instruction == Instruction::CLV || info.instruction == Instruction::REP
            || info.instruction == Instruction::SEP,
    ensures
        final(bus)@.wf(),
        spec_op_flags(*info, *old(cpu), old(bus)@, *res, cycles) == (ExecOut {
            cpu: *final(cpu),
            bus: final(bus)@,
            cycles: r,
        }),
{
    match info.instruction {
        Instruction::CLC => cpu.set_carry(false),
        Instruction::SEC => cpu.set_carry(true),
        Instruction::CLD => cpu.set_decimal(false),
        Instruction::SED => cpu.set_decimal(true),
        Instruction::CLI => cpu.set_irq_disable(false),
        Instruction::SEI => cpu.set_irq_disable(true),
        Instruction::CLV => cpu.set_overflow(false),
        Instruction::REP => {
            let mask = res.value as u8;
            cpu.p = cpu.p & !mask;
            if cpu.emulation_mode {
                cpu.set_memory_width(true);
                cpu.set_index_width(true);
            }
        },
        _ => {
            let mask = res.value as u8;
            cpu.p = cpu.p | mask;
        },
    }
    cycles
}

#[verifier::rlimit(100)]
#[verifier::spinoff_prover]
fn op_misc(
    cpu: &mut CpuRegisters,
    bus: &mut Bus,
    info: &InstructionInfo,
    res: &AddressingResult,
    cycles: u32,
) -> (r: u32)
    requires
        old(bus)@.wf(),
        info.instruction == Instruction::NOP || info.instruction == Instruction::WDM
            || info.instruction == Instruction::XCE || info.instruction == Instruction::STP
            || info.instruction == Instruction::WAI || info.instruction == Instruction::BRK
            || info.instruction == Instruction::COP,
    ensures
        final(bus)@.wf(),
        spec_op_misc(*info, *old(cpu), old(bus)@, *res, cycles) == (ExecOut {
            cpu: *final(cpu),
            bus: final(bus)@,
            cycles: r,
        }),
{
    match info.instruction {
        Instruction::NOP => {},
        Instruction::WDM => {
            cpu.increment_pc(1);
        },
        Instruction::XCE => {
            let old_carry = cpu.carry();
            let emu = cpu.emulation_mode;
            cpu.set_carry(emu);
            if old_carry {
                cpu.enter_emulation_mode();
            } else {
                cpu.enter_native_mode();
            }
        },
        Instruction::STP => {
            cpu.halt = true;
        },
        Instruction::WAI => {
            cpu.waiting_for_interrupt = true;
        },
        Instruction::BRK => {
            cpu.increment_pc(1);
            if !cpu.emulation_mode {
                let bank = cpu.get_pc_bank();
                cpu.push_8(bus, bank);
            }
            let off = cpu.get_pc_offset();
            cpu.push_16(bus, off);
            let pushed_p = cpu.p | 0x10;
            cpu.push_8(bus, pushed_p);
            cpu.set_irq_disable(true);
            let vector = if cpu.emulation_mode {
                bus.read16(0xFFFE)
            } else {
                bus.read16(0xFFEE)
            };
            cpu.pc = vector as u32;
        },
        _ => {
            cpu.increment_pc(1);
            if !cpu.emulation_mode {
                let bank = cpu.get_pc_bank();
                cpu.push_8(bus, bank);
            }
            let off = cpu.get_pc_offset();
            cpu.push_16(bus, off);
            let pushed_p = cpu.p;
            cpu.push_8(bus, pushed_p);
            cpu.set_irq_disable(true);
            let vector = if cpu.emulation_mode {
                bus.read16(0xFFF4)
            } else {
                bus.read16(0xFFE4)
            };
            cpu.pc = vector as u32;
        },
    }
    cycles
}

#[verifier::rlimit(100)]
#[verifier::spinoff_prover]
fn op_block(
    cpu: &mut CpuRegisters,
    bus: &mut Bus,
    info: &InstructionInfo,
    res: &AddressingResult,
    cycles: u32,
) -> (r: u32)
    requires
        old(bus)@.wf(),
        info.instruction == Instruction::MVN || info.instruction == Instruction::MVP,
    ensures
        final(bus)@.wf(),
        spec_op_block(*info, *old(cpu), old(bus)@, *res, cycles) == (ExecOut {
            cpu: *final(cpu),
            bus: final(bus)@,
            cycles: r,
        }),
{
    let src_bank = (res.value & 0xFF) as u8;
    let dst_bank = ((res.value >> 8) & 0xFF) as u8;
    let src_addr = ((src_bank as u32) << 16) | (cpu.get_x() as u32);
    let dst_addr = ((dst_bank as u32) << 16) | (cpu.get_y() as u32);
    let byte = bus.read8(src_addr);
    bus.write8(dst_addr, byte);
    if matches!(info.instruction, Instruction::MVN) {
        let x2 = cpu.get_x().wrapping_sub(1);
        cpu.set_x(x2);
        let y2 = cpu.get_y().wrapping_sub(1);
        cpu.set_y(y2);
    } else {
        let x2 = cpu.get_x().wrapping_add(1);
        cpu.set_x(x2);
        let y2 = cpu.get_y().wrapping_add(1);
        cpu.set_y(y2);
    }
    let a2 = cpu.get_a().wrapping_sub(1);
    cpu.set_a(a2);
    if cpu.a != 0xFFFF {
        cpu.pc = cpu.pc.wrapping_sub(3);
    }
    7
}

} // verus!
