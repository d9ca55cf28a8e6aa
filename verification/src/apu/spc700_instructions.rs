use vstd::prelude::*;
use crate::apu::spc700::{Spc700, SpcSnap};

verus! {

pub const SPC_FLAG_N: u8 = 0x80;
pub const SPC_FLAG_V: u8 = 0x40;
pub const SPC_FLAG_P: u8 = 0x20;
pub const SPC_FLAG_B: u8 = 0x10;
pub const SPC_FLAG_H: u8 = 0x08;
pub const SPC_FLAG_I: u8 = 0x04;
pub const SPC_FLAG_Z: u8 = 0x02;
pub const SPC_FLAG_C: u8 = 0x01;

/// Mask arithmetic the audio ALU leans on.
proof fn lemma_spc_masks()
    by (bit_vector)
    ensures
        forall|x: u8| #[trigger] (x & 0x0F) <= 0x0F,
{
}

impl SpcSnap {
    pub open spec fn with_flag(self, flag: u8, value: bool) -> SpcSnap {
        if value {
            SpcSnap { psw: self.psw | flag, ..self }
        } else {
            SpcSnap { psw: self.psw & !flag, ..self }
        }
    }

    pub open spec fn flag(self, flag: u8) -> bool {
        self.psw & flag != 0
    }

    pub open spec fn set_nz(self, value: u8) -> SpcSnap {
        self.with_flag(SPC_FLAG_N, value & 0x80 != 0).with_flag(SPC_FLAG_Z, value == 0)
    }

    /// One opcode byte fetched at the program counter.
    pub open spec fn fetch8(self) -> (u8, SpcSnap) {
        (self.spec_read8(self.pc), SpcSnap { pc: self.pc.wrapping_add(1), ..self })
    }

    pub open spec fn fetch16(self) -> (u16, SpcSnap) {
        let lo = self.fetch8();
        let hi = lo.1.fetch8();
        ((hi.0 as u16) << 8 | (lo.0 as u16), hi.1)
    }

    /// A zero-page address under the direct-page flag.
    pub open spec fn dp_addr(self, dp: u8) -> u16 {
        if self.flag(SPC_FLAG_P) {
            0x0100 | (dp as u16)
        } else {
            dp as u16
        }
    }

    pub open spec fn push8(self, value: u8) -> SpcSnap {
        let s1 = self.spec_write8(0x0100 | (self.sp as u16), value);
        SpcSnap { sp: s1.sp.wrapping_sub(1), ..s1 }
    }

    pub open spec fn pop8(self) -> (u8, SpcSnap) {
        let s1 = SpcSnap { sp: self.sp.wrapping_add(1), ..self };
        (s1.spec_read8(0x0100 | (s1.sp as u16)), s1)
    }

    pub open spec fn push16(self, value: u16) -> SpcSnap {
        self.push8((value >> 8) as u8).push8((value & 0xFF) as u8)
    }

    pub open spec fn pop16(self) -> (u16, SpcSnap) {
        let lo = self.pop8();
        let hi = lo.1.pop8();
        ((hi.0 as u16) << 8 | (lo.0 as u16), hi.1)
    }

    /// Binary add with carry: carry past bit 7, half carry past bit 3,
    /// signed overflow from the sign bits.
    pub open spec fn spec_adc(self, value: u8) -> SpcSnap {
        let carry: u16 = if self.flag(SPC_FLAG_C) {
            1
        } else {
            0
        };
        let result = self.a as u16 + value as u16 + carry;
        let half_carry = (self.a & 0x0F) as u16 + (value & 0x0F) as u16 + carry > 0x0F;
        let overflow = ((self.a ^ value ^ 0x80) & (self.a ^ (result as u8)) & 0x80) != 0;
        let s1 = SpcSnap { a: result as u8, ..self };
        s1.with_flag(SPC_FLAG_C, result > 0xFF).with_flag(SPC_FLAG_H, half_carry).with_flag(
            SPC_FLAG_V,
            overflow,
        ).set_nz(result as u8)
    }

    /// Binary subtract with borrow; carry afterwards means no borrow.
    pub open spec fn spec_sbc(self, value: u8) -> SpcSnap {
        let carry: u8 = if self.flag(SPC_FLAG_C) {
            0
        } else {
            1
        };
        let result = self.a as i16 - value as i16 - carry as i16;
        let half_carry = ((self.a & 0x0F) as u16) < ((value & 0x0F) as u16) + (carry as u16);
        let overflow = ((self.a ^ value) & (self.a ^ (result as u8)) & 0x80) != 0;
        let s1 = SpcSnap { a: result as u8, ..self };
        s1.with_flag(SPC_FLAG_C, result >= 0).with_flag(SPC_FLAG_H, !half_carry).with_flag(
            SPC_FLAG_V,
            overflow,
        ).set_nz(result as u8)
    }

    /// A comparison lands only in the flags.
    pub open spec fn spec_cmp(self, reg: u8, value: u8) -> SpcSnap {
        let result = reg as i16 - value as i16;
        self.with_flag(SPC_FLAG_C, result >= 0).with_flag(
            SPC_FLAG_N,
            (result as u8) & 0x80 != 0,
        ).with_flag(SPC_FLAG_Z, result == 0)
    }

    pub open spec fn bump(self, n: u64) -> SpcSnap {
        SpcSnap { cycles: self.cycles.wrapping_add(n), ..self }
    }

    pub open spec fn branch_to(self, offset: u8) -> SpcSnap {
        SpcSnap { pc: self.pc.wrapping_add(((offset as i8) as i16) as u16), ..self }
    }
}

/// What one instruction does: the opcode at the program counter
/// executes against the registers, RAM and ports, and the cycle
/// counter advances by its cost. An opcode outside the implemented set
/// costs two cycles and does nothing else.
pub open spec fn spec_spc_step(s0: SpcSnap) -> SpcSnap {
    let f = s0.fetch8();
    let op = f.0;
    let s = f.1;
    match op {
        0x00 => s.bump(2),
        0xE8 => {
            let i = s.fetch8();
            (SpcSnap { a: i.0, ..i.1 }).set_nz(i.0).bump(2)
        },
        0xCD => {
            let i = s.fetch8();
            (SpcSnap { x: i.0, ..i.1 }).set_nz(i.0).bump(2)
        },
        0x8D => {
            let i = s.fetch8();
            (SpcSnap { y: i.0, ..i.1 }).set_nz(i.0).bump(2)
        },
        0x7D => (SpcSnap { a: s.x, ..s }).set_nz(s.x).bump(2),
        0xDD => (SpcSnap { a: s.y, ..s }).set_nz(s.y).bump(2),
        0x5D => (SpcSnap { x: s.a, ..s }).set_nz(s.a).bump(2),
        0xFD => (SpcSnap { y: s.a, ..s }).set_nz(s.a).bump(2),
        0xC4 => {
            let i = s.fetch8();
            i.1.spec_write8(i.1.dp_addr(i.0), i.1.a).bump(4)
        },
        0xE4 => {
            let i = s.fetch8();
            let v = i.1.spec_read8(i.1.dp_addr(i.0));
            (SpcSnap { a: v, ..i.1 }).set_nz(v).bump(3)
        },
        0xC5 => {
            let i = s.fetch16();
            i.1.spec_write8(i.0, i.1.a).bump(5)
        },
        0xE5 => {
            let i = s.fetch16();
            let v = i.1.spec_read8(i.0);
            (SpcSnap { a: v, ..i.1 }).set_nz(v).bump(4)
        },
        0xBC => {
            let v = s.a.wrapping_add(1);
            (SpcSnap { a: v, ..s }).set_nz(v).bump(2)
        },
        0x3D => {
            let v = s.x.wrapping_add(1);
            (SpcSnap { x: v, ..s }).set_nz(v).bump(2)
        },
        0xFC => {
            let v = s.y.wrapping_add(1);
            (SpcSnap { y: v, ..s }).set_nz(v).bump(2)
        },
        0x9C => {
            let v = s.a.wrapping_sub(1);
            (SpcSnap { a: v, ..s }).set_nz(v).bump(2)
        },
        0x1D => {
            let v = s.x.wrapping_sub(1);
            (SpcSnap { x: v, ..s }).set_nz(v).bump(2)
        },
        0xDC => {
            let v = s.y.wrapping_sub(1);
            (SpcSnap { y: v, ..s }).set_nz(v).bump(2)
        },
        0x88 => {
            let i = s.fetch8();
            i.1.spec_adc(i.0).bump(2)
        },
        0x84 => {
            let i = s.fetch8();
            let v = i.1.spec_read8(i.1.dp_addr(i.0));
            i.1.spec_adc(v).bump(3)
        },
        0xA8 => {
            let i = s.fetch8();
            i.1.spec_sbc(i.0).bump(2)
        },
        0xA4 => {
            let i = s.fetch8();
            let v = i.1.spec_read8(i.1.dp_addr(i.0));
            i.1.spec_sbc(v).bump(3)
        },
        0x68 => {
            let i = s.fetch8();
            i.1.spec_cmp(i.1.a, i.0).bump(2)
        },
        0xC8 => {
            let i = s.fetch8();
            i.1.spec_cmp(i.1.x, i.0).bump(2)
        },
        0xAD => {
            let i = s.fetch8();
            i.1.spec_cmp(i.1.y, i.0).bump(2)
        },
        0x28 => {
            let i = s.fetch8();
            let v = i.1.a & i.0;
            (SpcSnap { a: v, ..i.1 }).set_nz(v).bump(2)
        },
        0x08 => {
            let i = s.fetch8();
            let v = i.1.a | i.0;
            (SpcSnap { a: v, ..i.1 }).set_nz(v).bump(2)
        },
        0x48 => {
            let i = s.fetch8();
            let v = i.1.a ^ i.0;
            (SpcSnap { a: v, ..i.1 }).set_nz(v).bump(2)
        },
        0x1C => {
            let carry = s.a & 0x80 != 0;
            let v = s.a << 1;
            (SpcSnap { a: v, ..s }).with_flag(SPC_FLAG_C, carry).set_nz(v).bump(2)
        },
        0x5C => {
            let carry = s.a & 0x01 != 0;
            let v = s.a >> 1;
            (SpcSnap { a: v, ..s }).with_flag(SPC_FLAG_C, carry).set_nz(v).bump(2)
        },
        0x3C => {
            let carry = s.a & 0x80 != 0;
            let v = (s.a << 1) | (if s.flag(SPC_FLAG_C) {
                1u8
            } else {
                0u8
            });
            (SpcSnap { a: v, ..s }).with_flag(SPC_FLAG_C, carry).set_nz(v).bump(2)
        },
        0x7C => {
            let carry = s.a & 0x01 != 0;
            let v = (s.a >> 1) | (if s.flag(SPC_FLAG_C) {
                0x80u8
            } else {
                0u8
            });
            (SpcSnap { a: v, ..s }).with_flag(SPC_FLAG_C, carry).set_nz(v).bump(2)
        },
        0x2D => s.push8(s.a).bump(4),
        0xAE => {
            let p = s.pop8();
            (SpcSnap { a: p.0, ..p.1 }).bump(4)
        },
        0x4D => s.push8(s.x).bump(4),
        0xCE => {
            let p = s.pop8();
            (SpcSnap { x: p.0, ..p.1 }).bump(4)
        },
        0x6D => s.push8(s.y).bump(4),
        0xEE => {
            let p = s.pop8();
            (SpcSnap { y: p.0, ..p.1 }).bump(4)
        },
        0xBD => (SpcSnap { sp: s.x, ..s }).bump(2),
        0xC6 => s.spec_write8(s.dp_addr(s.x), s.a).bump(4),
        0x5F => {
            let i = s.fetch16();
            (SpcSnap { pc: i.0, ..i.1 }).bump(3)
        },
        0x2F => {
            let i = s.fetch8();
            i.1.branch_to(i.0).bump(4)
        },
        0xF0 => {
            let i = s.fetch8();
            if i.1.flag(SPC_FLAG_Z) {
                i.1.branch_to(i.0).bump(4)
            } else {
                i.1.bump(2)
            }
        },
        0xD0 => {
            let i = s.fetch8();
            if !i.1.flag(SPC_FLAG_Z) {
                i.1.branch_to(i.0).bump(4)
            } else {
                i.1.bump(2)
            }
        },
        0x90 => {
            let i = s.fetch8();
            if !i.1.flag(SPC_FLAG_C) {
                i.1.branch_to(i.0).bump(4)
            } else {
                i.1.bump(2)
            }
        },
        0xB0 => {
            let i = s.fetch8();
            if i.1.flag(SPC_FLAG_C) {
                i.1.branch_to(i.0).bump(4)
            } else {
                i.1.bump(2)
            }
        },
        0x3F => {
            let i = s.fetch16();
            let s2 = i.1.push16(i.1.pc);
            (SpcSnap { pc: i.0, ..s2 }).bump(8)
        },
        0x6F => {
            let p = s.pop16();
            (SpcSnap { pc: p.0, ..p.1 }).bump(5)
        },
        0x60 => s.with_flag(SPC_FLAG_C, false).bump(2),
        0x80 => s.with_flag(SPC_FLAG_C, true).bump(2),
        0x20 => s.with_flag(SPC_FLAG_P, false).bump(2),
        0x40 => s.with_flag(SPC_FLAG_P, true).bump(2),
        0xA0 => s.with_flag(SPC_FLAG_I, false).bump(3),
        0xC0 => s.with_flag(SPC_FLAG_I, true).bump(3),
        _ => s.bump(2),
    }
}

impl Spc700 {
    fn fetch8(&mut self) -> (r: u8)
        requires
            old(self)@.wf(),
        ensures
            final(self)@.wf(),
            (r, final(self)@) == old(self)@.fetch8(),
    {
        let value = self.read8(self.pc);
        self.pc = self.pc.wrapping_add(1);
        value
    }

    fn fetch16(&mut self) -> (r: u16)
        requires
            old(self)@.wf(),
        ensures
            final(self)@.wf(),
            (r, final(self)@) == old(self)@.fetch16(),
    {
        let low = self.fetch8() as u16;
        let high = self.fetch8() as u16;
        (high << 8) | low
    }

    fn set_flag(&mut self, flag: u8, value: bool)
        ensures
            final(self)@ == old(self)@.with_flag(flag, value),
    {
        if value {
            self.psw = self.psw | flag;
        } else {
            self.psw = self.psw & !flag;
        }
    }

    fn get_flag(&self, flag: u8) -> (r: bool)
        ensures
            r == self@.flag(flag),
    {
        (self.psw & flag) != 0
    }

    fn set_nz(&mut self, value: u8)
        ensures
            final(self)@ == old(self)@.set_nz(value),
    {
        self.set_flag(SPC_FLAG_N, (value & 0x80) != 0);
        self.set_flag(SPC_FLAG_Z, value == 0);
    }

    fn get_dp_addr(&self, dp: u8) -> (r: u16)
        ensures
            r == self@.dp_addr(dp),
    {
        if self.get_flag(SPC_FLAG_P) {
            0x0100 | dp as u16
        } else {
            dp as u16
        }
    }

    fn push8(&mut self, value: u8)
        requires
            old(self)@.wf(),
        ensures
            final(self)@.wf(),
            final(self)@ == old(self)@.push8(value),
    {
        self.write8(0x0100 | self.sp as u16, value);
        self.sp = self.sp.wrapping_sub(1);
    }

    fn pop8(&mut self) -> (r: u8)
        requires
            old(self)@.wf(),
        ensures
            final(self)@.wf(),
            (r, final(self)@) == old(self)@.pop8(),
    {
        self.sp = self.sp.wrapping_add(1);
        self.read8(0x0100 | self.sp as u16)
    }

    fn push16(&mut self, value: u16)
        requires
            old(self)@.wf(),
        ensures
            final(self)@.wf(),
            final(self)@ == old(self)@.push16(value),
    {
        self.push8((value >> 8) as u8);
        self.push8((value & 0xFF) as u8);
    }

    fn pop16(&mut self) -> (r: u16)
        requires
            old(self)@.wf(),
        ensures
            final(self)@.wf(),
            (r, final(self)@) == old(self)@.pop16(),
    {
        let low = self.pop8() as u16;
        let high = self.pop8() as u16;
        (high << 8) | low
    }

    fn adc(&mut self, value: u8)
        ensures
            final(self)@ == old(self)@.spec_adc(value),
    {
        proof {
            lemma_spc_masks();
        }
        let carry: u16 = if self.get_flag(SPC_FLAG_C) {
            1
        } else {
            0
        };
        let result = self.a as u16 + value as u16 + carry;
        let half_carry = (self.a & 0x0F) as u16 + (value & 0x0F) as u16 + carry > 0x0F;
        let overflow = ((self.a ^ value ^ 0x80) & (self.a ^ (result as u8)) & 0x80) != 0;
        self.a = result as u8;
        self.set_flag(SPC_FLAG_C, result > 0xFF);
        self.set_flag(SPC_FLAG_H, half_carry);
        self.set_flag(SPC_FLAG_V, overflow);
        let a = self.a;
        self.set_nz(a);
    }

    fn sbc(&mut self, value: u8)
        ensures
            final(self)@ == old(self)@.spec_sbc(value),
    {
        proof {
            lemma_spc_masks();
        }
        let carry: u8 = if self.get_flag(SPC_FLAG_C) {
            0
        } else {
            1
        };
        let result = self.a as i16 - value as i16 - carry as i16;
        let half_carry = ((self.a & 0x0F) as u16) < ((value & 0x0F) as u16) + (carry as u16);
        let overflow = ((self.a ^ value) & (self.a ^ (result as u8)) & 0x80) != 0;
        self.a = result as u8;
        self.set_flag(SPC_FLAG_C, result >= 0);
        self.set_flag(SPC_FLAG_H, !half_carry);
        self.set_flag(SPC_FLAG_V, overflow);
        let a = self.a;
        self.set_nz(a);
    }

    fn cmp(&mut self, reg: u8, value: u8)
        ensures
            final(self)@ == old(self)@.spec_cmp(reg, value),
    {
        let result = reg as i16 - value as i16;
        self.set_flag(SPC_FLAG_C, result >= 0);
        self.set_flag(SPC_FLAG_N, ((result as u8) & 0x80) != 0);
        self.set_flag(SPC_FLAG_Z, result == 0);
    }

    fn bump(&mut self, n: u64)
        ensures
            final(self)@ == old(self)@.bump(n),
    {
        self.cycles = self.cycles.wrapping_add(n);
    }

    fn branch(&mut self, offset: u8)
        ensures
            final(self)@ == old(self)@.branch_to(offset),
    {
        self.pc = self.pc.wrapping_add(((offset as i8) as i16) as u16);
    }

    /// Executes the instruction at the program counter.
    #[verifier::rlimit(100)]
    #[verifier::spinoff_prover]
    pub fn execute_instruction(&mut self)
        requires
            old(self)@.wf(),
        ensures
            final(self)@.wf(),
            final(self)@ == spec_spc_step(old(self)@),
    {
        let opcode = self.fetch8();
        match opcode {
            0x00 => {
                self.bump(2);
            },
            0xE8 => {
                let imm = self.fetch8();
                self.a = imm;
                self.set_nz(imm);
                self.bump(2);
            },
            0xCD => {
                let imm = self.fetch8();
                self.x = imm;
                self.set_nz(imm);
                self.bump(2);
            },
            0x8D => {
                let imm = self.fetch8();
                self.y = imm;
                self.set_nz(imm);
                self.bump(2);
            },
            0x7D => {
                self.a = self.x;
                let v = self.a;
                self.set_nz(v);
                self.bump(2);
            },
            0xDD => {
                self.a = self.y;
                let v = self.a;
                self.set_nz(v);
                self.bump(2);
            },
            0x5D => {
                self.x = self.a;
                let v = self.x;
                self.set_nz(v);
                self.bump(2);
            },
            0xFD => {
                self.y = self.a;
                let v = self.y;
                self.set_nz(v);
                self.bump(2);
            },
            0xC4 => {
                let dp = self.fetch8();
                let addr = self.get_dp_addr(dp);
                let a = self.a;
                self.write8(addr, a);
                self.bump(4);
            },
            0xE4 => {
                let dp = self.fetch8();
                let addr = self.get_dp_addr(dp);
                let v = self.read8(addr);
                self.a = v;
                self.set_nz(v);
                self.bump(3);
            },
            0xC5 => {
                let addr = self.fetch16();
                let a = self.a;
                self.write8(addr, a);
                self.bump(5);
            },
            0xE5 => {
                let addr = self.fetch16();
                let v = self.read8(addr);
                self.a = v;
                self.set_nz(v);
                self.bump(4);
            },
            0xBC => {
                self.a = self.a.wrapping_add(1);
                let v = self.a;
                self.set_nz(v);
                self.bump(2);
            },
            0x3D => {
                self.x = self.x.wrapping_add(1);
                let v = self.x;
                self.set_nz(v);
                self.bump(2);
            },
            0xFC => {
                self.y = self.y.wrapping_add(1);
                let v = self.y;
                self.set_nz(v);
                self.bump(2);
            },
            0x9C => {
                self.a = self.a.wrapping_sub(1);
                let v = self.a;
                self.set_nz(v);
                self.bump(2);
            },
            0x1D => {
                self.x = self.x.wrapping_sub(1);
                let v = self.x;
                self.set_nz(v);
                self.bump(2);
            },
            0xDC => {
                self.y = self.y.wrapping_sub(1);
                let v = self.y;
                self.set_nz(v);
                self.bump(2);
            },
            0x88 => {
                let imm = self.fetch8();
                self.adc(imm);
                self.bump(2);
            },
            0x84 => {
                let dp = self.fetch8();
                let addr = self.get_dp_addr(dp);
                let v = self.read8(addr);
                self.adc(v);
                self.bump(3);
            },
            0xA8 => {
                let imm = self.fetch8();
                self.sbc(imm);
                self.bump(2);
            },
            0xA4 => {
                let dp = self.fetch8();
                let addr = self.get_dp_addr(dp);
                let v = self.read8(addr);
                self.sbc(v);
                self.bump(3);
            },
            0x68 => {
                let imm = self.fetch8();
                let a = self.a;
                self.cmp(a, imm);
                self.bump(2);
            },
            0xC8 => {
                let imm = self.fetch8();
                let x = self.x;
                self.cmp(x, imm);
                self.bump(2);
            },
            0xAD => {
                let imm = self.fetch8();
                let y = self.y;
                self.cmp(y, imm);
                self.bump(2);
            },
            0x28 => {
                let imm = self.fetch8();
                self.a = self.a & imm;
                let v = self.a;
                self.set_nz(v);
                self.bump(2);
            },
            0x08 => {
                let imm = self.fetch8();
                self.a = self.a | imm;
                let v = self.a;
                self.set_nz(v);
                self.bump(2);
            },
            0x48 => {
                let imm = self.fetch8();
                self.a = self.a ^ imm;
                let v = self.a;
                self.set_nz(v);
                self.bump(2);
            },
            0x1C => {
                let carry = (self.a & 0x80) != 0;
                self.a = self.a << 1;
                self.set_flag(SPC_FLAG_C, carry);
                let v = self.a;
                self.set_nz(v);
                self.bump(2);
            },
            0x5C => {
                let carry = (self.a & 0x01) != 0;
                self.a = self.a >> 1;
                self.set_flag(SPC_FLAG_C, carry);
                let v = self.a;
                self.set_nz(v);
                self.bump(2);
            },
            0x3C => {
                let carry = (self.a & 0x80) != 0;
                self.a = (self.a << 1) | (if self.get_flag(SPC_FLAG_C) {
                    1
                } else {
                    0
                });
                self.set_flag(SPC_FLAG_C, carry);
                let v = self.a;
                self.set_nz(v);
                self.bump(2);
            },
            0x7C => {
                let carry = (self.a & 0x01) != 0;
                self.a = (self.a >> 1) | (if self.get_flag(SPC_FLAG_C) {
                    0x80
                } else {
                    0
                });
                self.set_flag(SPC_FLAG_C, carry);
                let v = self.a;
                self.set_nz(v);
                self.bump(2);
            },
            0x2D => {
                let a = self.a;
                self.push8(a);
                self.bump(4);
            },
            0xAE => {
                self.a = self.pop8();
                self.bump(4);
            },
            0x4D => {
                let x = self.x;
                self.push8(x);
                self.bump(4);
            },
            0xCE => {
                self.x = self.pop8();
                self.bump(4);
            },
            0x6D => {
                let y = self.y;
                self.push8(y);
                self.bump(4);
            },
            0xEE => {
                self.y = self.pop8();
                self.bump(4);
            },
            0xBD => {
                self.sp = self.x;
                self.bump(2);
            },
            0xC6 => {
                let x = self.x;
                let addr = self.get_dp_addr(x);
                let a = self.a;
                self.write8(addr, a);
                self.bump(4);
            },
            0x5F => {
                let addr = self.fetch16();
                self.pc = addr;
                self.bump(3);
            },
            0x2F => {
                let offset = self.fetch8();
                self.branch(offset);
                self.bump(4);
            },
            0xF0 => {
                let offset = self.fetch8();
                if self.get_flag(SPC_FLAG_Z) {
                    self.branch(offset);
                    self.bump(4);
                } else {
                    self.bump(2);
                }
            },
            0xD0 => {
                let offset = self.fetch8();
                if !self.get_flag(SPC_FLAG_Z) {
                    self.branch(offset);
                    self.bump(4);
                } else {
                    self.bump(2);
                }
            },
            0x90 => {
                let offset = self.fetch8();
                if !self.get_flag(SPC_FLAG_C) {
                    self.branch(offset);
                    self.bump(4);
                } else {
                    self.bump(2);
                }
            },
            0xB0 => {
                let offset = self.fetch8();
                if self.get_flag(SPC_FLAG_C) {
                    self.branch(offset);
                    self.bump(4);
                } else {
                    self.bump(2);
                }
            },
            0x3F => {
                let addr = self.fetch16();
                let return_addr = self.pc;
                self.push16(return_addr);
                self.pc = addr;
                self.bump(8);
            },
            0x6F => {
                self.pc = self.pop16();
                self.bump(5);
            },
            0x60 => {
                self.set_flag(SPC_FLAG_C, false);
                self.bump(2);
            },
            0x80 => {
                self.set_flag(SPC_FLAG_C, true);
                self.bump(2);
            },
            0x20 => {
                self.set_flag(SPC_FLAG_P, false);
                self.bump(2);
            },
            0x40 => {
                self.set_flag(SPC_FLAG_P, true);
                self.bump(2);
            },
            0xA0 => {
                self.set_flag(SPC_FLAG_I, false);
                self.bump(3);
            },
            0xC0 => {
                self.set_flag(SPC_FLAG_I, true);
                self.bump(3);
            },
            _ => {
                self.bump(2);
            },
        }
    }
}

} // verus!
