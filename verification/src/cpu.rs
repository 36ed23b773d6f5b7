use vstd::prelude::*;
use crate::convention::Term;
use crate::memory::{Memory, word_of, lo_byte, hi_byte, next_addr};
use crate::register::{Flag, Register};
use crate::isa::{Machine, Outcome, cb_cycles, bit_of, half_carry, carry, borrow, sign_extend, alu_add, alu_adc, alu_sub, alu_sbc, alu_and, alu_or, alu_xor, alu_cp, alu_inc, alu_dec, alu_add_hl, alu_add_sp, alu_daa, daa_adjust, alu_cpl, alu_ccf, alu_scf, rot8, alu_bit, res_value, set_value, lowest_bit};

verus! {

/// The architectural state of the CPU. The bus is not part of it: every
/// operation that touches memory is handed the bus it drives.
#[derive(Clone, Copy, PartialEq, Eq, Structural, Debug)]
pub struct Cpu {
    pub reg: Register,
    /// Set by HALT; cleared when an interrupt becomes pending.
    pub halted: bool,
    /// The interrupt master enable (IME).
    pub ei: bool,
}

/// Cost of the unprefixed opcodes in machine cycles, without the penalty of
/// a taken conditional branch.
pub fn op_cycles(op: u8) -> (c: u32)
    ensures
        c == OP_CYCLES[op as int],
{
    OP_CYCLES[op as usize]
}

/// Cost of the 0xCB-prefixed opcodes in machine cycles.
pub fn ext_op_cycles(op: u8) -> (c: u32)
    ensures
        c == cb_cycles(op),
{
    let c = EXT_OP_CYCLES[op as usize];
    proof {
        lemma_ext_table(op);
    }
    c
}

pub const OP_CYCLES: [u32; 256] = [
//  0  1  2  3  4  5  6  7  8  9  a  b  c  d  e  f
    1, 3, 2, 2, 1, 1, 2, 1, 5, 2, 2, 2, 1, 1, 2, 1, // 0
    1, 3, 2, 2, 1, 1, 2, 1, 3, 2, 2, 2, 1, 1, 2, 1, // 1
    2, 3, 2, 2, 1, 1, 2, 1, 2, 2, 2, 2, 1, 1, 2, 1, // 2
    2, 3, 2, 2, 3, 3, 3, 1, 2, 2, 2, 2, 1, 1, 2, 1, // 3
    1, 1, 1, 1, 1, 1, 2, 1, 1, 1, 1, 1, 1, 1, 2, 1, // 4
    1, 1, 1, 1, 1, 1, 2, 1, 1, 1, 1, 1, 1, 1, 2, 1, // 5
    1, 1, 1, 1, 1, 1, 2, 1, 1, 1, 1, 1, 1, 1, 2, 1, // 6
    2, 2, 2, 2, 2, 2, 1, 2, 1, 1, 1, 1, 1, 1, 2, 1, // 7
    1, 1, 1, 1, 1, 1, 2, 1, 1, 1, 1, 1, 1, 1, 2, 1, // 8
    1, 1, 1, 1, 1, 1, 2, 1, 1, 1, 1, 1, 1, 1, 2, 1, // 9
    1, 1, 1, 1, 1, 1, 2, 1, 1, 1, 1, 1, 1, 1, 2, 1, // a
    1, 1, 1, 1, 1, 1, 2, 1, 1, 1, 1, 1, 1, 1, 2, 1, // b
    2, 3, 3, 4, 3, 4, 2, 4, 2, 4, 3, 0, 3, 6, 2, 4, // c
    2, 3, 3, 0, 3, 4, 2, 4, 2, 4, 3, 0, 3, 0, 2, 4, // d
    3, 3, 2, 0, 0, 4, 2, 4, 4, 1, 4, 0, 0, 0, 2, 4, // e
    3, 3, 2, 1, 0, 4, 2, 4, 3, 2, 4, 1, 0, 0, 2, 4, // f
];

pub const EXT_OP_CYCLES: [u32; 256] = [
//  0  1  2  3  4  5  6  7  8  9  a  b  c  d  e  f
    2, 2, 2, 2, 2, 2, 4, 2, 2, 2, 2, 2, 2, 2, 4, 2, // 0
    2, 2, 2, 2, 2, 2, 4, 2, 2, 2, 2, 2, 2, 2, 4, 2, // 1
    2, 2, 2, 2, 2, 2, 4, 2, 2, 2, 2, 2, 2, 2, 4, 2, // 2
    2, 2, 2, 2, 2, 2, 4, 2, 2, 2, 2, 2, 2, 2, 4, 2, // 3
    2, 2, 2, 2, 2, 2, 3, 2, 2, 2, 2, 2, 2, 2, 3, 2, // 4
    2, 2, 2, 2, 2, 2, 3, 2, 2, 2, 2, 2, 2, 2, 3, 2, // 5
    2, 2, 2, 2, 2, 2, 3, 2, 2, 2, 2, 2, 2, 2, 3, 2, // 6
    2, 2, 2, 2, 2, 2, 3, 2, 2, 2, 2, 2, 2, 2, 3, 2, // 7
    2, 2, 2, 2, 2, 2, 4, 2, 2, 2, 2, 2, 2, 2, 4, 2, // 8
    2, 2, 2, 2, 2, 2, 4, 2, 2, 2, 2, 2, 2, 2, 4, 2, // 9
    2, 2, 2, 2, 2, 2, 4, 2, 2, 2, 2, 2, 2, 2, 4, 2, // a
    2, 2, 2, 2, 2, 2, 4, 2, 2, 2, 2, 2, 2, 2, 4, 2, // b
    2, 2, 2, 2, 2, 2, 4, 2, 2, 2, 2, 2, 2, 2, 4, 2, // c
    2, 2, 2, 2, 2, 2, 4, 2, 2, 2, 2, 2, 2, 2, 4, 2, // d
    2, 2, 2, 2, 2, 2, 4, 2, 2, 2, 2, 2, 2, 2, 4, 2, // e
    2, 2, 2, 2, 2, 2, 4, 2, 2, 2, 2, 2, 2, 2, 4, 2, // f
];

/// Every entry of the prefixed cost table is the cost the instruction's
/// operand and kind call for.
pub proof fn lemma_ext_table(op: u8)
    ensures
        EXT_OP_CYCLES[op as int] == cb_cycles(op),
{
}


impl Cpu {
    /// This CPU on the bus `mem`.
    pub open spec fn on<M: Memory>(self, mem: &M) -> Machine<M> {
        Machine { cpu: self, mem: mem@ }
    }

    #[inline(always)]
    pub fn get_mem<M: Memory>(&self, mem: &M, a: u16) -> (v: u8)
        ensures
            v == M::read(mem@, a),
    {
        mem.get(a)
    }

    #[inline(always)]
    pub fn get_mem_word<M: Memory>(&self, mem: &M, a: u16) -> (v: u16)
        ensures
            v == self.on(mem).load_word(a),
    {
        mem.get_word(a)
    }

    #[inline(always)]
    pub fn set_mem<M: Memory>(&mut self, mem: &mut M, a: u16, v: u8)
        ensures
            final(self).on(final(mem)) == old(self).on(old(mem)).store(a, v),
    {
        mem.set(a, v);
    }

    #[inline(always)]
    pub fn set_mem_word<M: Memory>(&mut self, mem: &mut M, a: u16, v: u16)
        ensures
            final(self).on(final(mem)) == old(self).on(old(mem)).store_word(a, v),
    {
        mem.set_word(a, v);
    }

    /// The byte HL points at.
    #[inline(always)]
    pub fn get_mem_hl<M: Memory>(&self, mem: &M) -> (v: u8)
        ensures
            v == self.on(mem).r8(6),
    {
        mem.get(self.reg.get_hl())
    }

    #[inline(always)]
    pub fn is_half_carry(a: u8, b: u8, r: u8) -> (h: bool)
        ensures
            h == half_carry(a, b, r),
    {
        (a ^ b ^ r) & 0x10 != 0
    }

    #[inline(always)]
    pub fn is_half_borrow(a: u8, b: u8, r: u8) -> (h: bool)
        ensures
            h == half_carry(a, b, r),
    {
        Self::is_half_carry(a, b, r)
    }

    /// Whether `a + b + carry` leaves the 8-bit range.
    #[inline(always)]
    pub fn is_carry(a: u8, b: u8, carry: u8) -> (c: bool)
        ensures
            c == (a + b + carry > 0xff),
    {
        a as u16 + b as u16 + carry as u16 > 0xff
    }

    /// Whether `a - b - borrow` leaves the 8-bit range.
    #[inline(always)]
    pub fn is_borrow(a: u8, b: u8, borrow: u8) -> (c: bool)
        ensures
            c == (a < b + borrow),
    {
        (a as u16) < b as u16 + borrow as u16
    }

    /// Fetches the byte at PC and moves PC past it.
    pub fn imm<M: Memory>(&mut self, mem: &M) -> (v: u8)
        ensures
            v == old(self).on(mem).imm8(),
            final(self).on(mem) == old(self).on(mem).skip(1),
    {
        let v = mem.get(self.reg.pc);
        self.reg.pc = self.reg.pc.wrapping_add(1);
        v
    }

    /// Fetches the little-endian word at PC and moves PC past it.
    pub fn imm_word<M: Memory>(&mut self, mem: &M) -> (v: u16)
        ensures
            v == old(self).on(mem).imm16(),
            final(self).on(mem) == old(self).on(mem).skip(2),
    {
        let v = mem.get_word(self.reg.pc);
        self.reg.pc = self.reg.pc.wrapping_add(2);
        v
    }

    /// Decrements SP by two and stores the word at the new SP.
    pub fn stack_push<M: Memory>(&mut self, mem: &mut M, v: u16)
        ensures
            final(self).on(final(mem)) == old(self).on(old(mem)).push(v),
    {
        self.reg.sp = self.reg.sp.wrapping_sub(2);
        mem.set_word(self.reg.sp, v);
    }

    /// Loads the word at SP and increments SP by two.
    pub fn stack_pop<M: Memory>(&mut self, mem: &M) -> (v: u16)
        ensures
            v == old(self).on(mem).top(),
            final(self).on(mem) == old(self).on(mem).drop_top(),
    {
        let v = mem.get_word(self.reg.sp);
        self.reg.sp = self.reg.sp.wrapping_add(2);
        v
    }

    /// ADD A,v.
    pub fn add(&mut self, v: u8)
        ensures
            *final(self) == old(self).with_reg(alu_add(old(self).reg, v)),
    {
        let o = self.reg.a;
        let r = o.wrapping_add(v);
        self.reg.set_flag(Flag::Z, r == 0x00);
        self.reg.set_flag(Flag::N, false);
        self.reg.set_flag(Flag::H, Self::is_half_carry(o, v, r));
        self.reg.set_flag(Flag::C, Self::is_carry(o, v, 0));
        self.reg.a = r;
    }

    /// ADC A,v: the C flag is added into the sum.
    pub fn adc(&mut self, v: u8)
        ensures
            *final(self) == old(self).with_reg(alu_adc(old(self).reg, v)),
    {
        let o = self.reg.a;
        let c: u8 = if self.reg.get_flag(Flag::C) { 1 } else { 0 };
        let r = o.wrapping_add(v).wrapping_add(c);
        self.reg.set_flag(Flag::Z, r == 0x00);
        self.reg.set_flag(Flag::N, false);
        self.reg.set_flag(Flag::H, Self::is_half_carry(o, v, r));
        self.reg.set_flag(Flag::C, Self::is_carry(o, v, c));
        self.reg.a = r
    }

    /// SUB A,v: C is set on borrow.
    pub fn sub(&mut self, v: u8)
        ensures
            *final(self) == old(self).with_reg(alu_sub(old(self).reg, v)),
    {
        let o = self.reg.a;
        let r = o.wrapping_sub(v);
        self.reg.set_flag(Flag::Z, r == 0x00);
        self.reg.set_flag(Flag::N, true);
        self.reg.set_flag(Flag::H, Self::is_half_borrow(o, v, r));
        self.reg.set_flag(Flag::C, Self::is_borrow(o, v, 0));
        self.reg.a = r;
    }

    /// SBC A,v: the C flag is subtracted as well.
    pub fn sbc(&mut self, v: u8)
        ensures
            *final(self) == old(self).with_reg(alu_sbc(old(self).reg, v)),
    {
        let o = self.reg.a;
        let c: u8 = if self.reg.get_flag(Flag::C) { 1 } else { 0 };
        let r = o.wrapping_sub(v).wrapping_sub(c);
        self.reg.set_flag(Flag::Z, r == 0x00);
        self.reg.set_flag(Flag::N, true);
        self.reg.set_flag(Flag::H, Self::is_half_borrow(o, v, r));
        self.reg.set_flag(Flag::C, Self::is_borrow(o, v, c));
        self.reg.a = r;
    }

    /// AND A,v.
    pub fn and(&mut self, v: u8)
        ensures
            *final(self) == old(self).with_reg(alu_and(old(self).reg, v)),
    {
        let r = self.reg.a & v;
        self.reg.set_flag(Flag::Z, r == 0x00);
        self.reg.set_flag(Flag::N, false);
        self.reg.set_flag(Flag::H, true);
        self.reg.set_flag(Flag::C, false);
        self.reg.a = r;
    }

    /// OR A,v.
    pub fn or(&mut self, v: u8)
        ensures
            *final(self) == old(self).with_reg(alu_or(old(self).reg, v)),
    {
        let r = self.reg.a | v;
        self.reg.set_flag(Flag::Z, r == 0x00);
        self.reg.set_flag(Flag::N, false);
        self.reg.set_flag(Flag::H, false);
        self.reg.set_flag(Flag::C, false);
        self.reg.a = r;
    }

    /// XOR A,v.
    pub fn xor(&mut self, v: u8)
        ensures
            *final(self) == old(self).with_reg(alu_xor(old(self).reg, v)),
    {
        let r = self.reg.a ^ v;
        self.reg.set_flag(Flag::Z, r == 0x00);
        self.reg.set_flag(Flag::N, false);
        self.reg.set_flag(Flag::H, false);
        self.reg.set_flag(Flag::C, false);
        self.reg.a = r;
    }

    /// CP A,v: the flags of SUB, the accumulator kept.
    pub fn cp(&mut self, v: u8)
        ensures
            *final(self) == old(self).with_reg(alu_cp(old(self).reg, v)),
    {
        let a = self.reg.a;
        self.sub(v);
        self.reg.a = a;
    }

    /// INC on an 8-bit value; C is untouched.
    pub fn inc(&mut self, v: u8) -> (r: u8)
        ensures
            *final(self) == old(self).with_reg(alu_inc(old(self).reg, v).0),
            r == alu_inc(old(self).reg, v).1,
    {
        let r = v.wrapping_add(1);
        self.reg.set_flag(Flag::Z, r == 0x00);
        self.reg.set_flag(Flag::N, false);
        self.reg.set_flag(Flag::H, Self::is_half_carry(v, 1, r));
        r
    }

    /// DEC on an 8-bit value; C is untouched.
    pub fn dec(&mut self, v: u8) -> (r: u8)
        ensures
            *final(self) == old(self).with_reg(alu_dec(old(self).reg, v).0),
            r == alu_dec(old(self).reg, v).1,
    {
        let r = v.wrapping_sub(1);
        self.reg.set_flag(Flag::Z, r == 0x00);
        self.reg.set_flag(Flag::N, true);
        self.reg.set_flag(Flag::H, Self::is_half_borrow(v, 1, r));
        r
    }

    /// ADD HL,v.
    pub fn add_hl(&mut self, v: u16)
        ensures
            *final(self) == old(self).with_reg(alu_add_hl(old(self).reg, v)),
    {
        let o = self.reg.get_hl();
        let r = o.wrapping_add(v);
        self.reg.set_flag(Flag::N, false);
        self.reg.set_flag(Flag::H, (o ^ v ^ r) & 0x1000 != 0);
        self.reg.set_flag(Flag::C, o > 0xffff - v);
        self.reg.set_hl(r);
    }

    /// Fetches a signed 8-bit displacement and adds it to SP; returns the
    /// sum and sets the flags, SP itself is left alone.
    pub fn add_sp<M: Memory>(&mut self, mem: &M) -> (r: u16)
        ensures
            *final(self) == old(self).with_reg(
                alu_add_sp(old(self).on(mem).skip(1).cpu.reg, old(self).on(mem).imm8()).0,
            ),
            r == alu_add_sp(old(self).on(mem).skip(1).cpu.reg, old(self).on(mem).imm8()).1,
    {
        let o = self.reg.sp;
        let n = self.imm(mem);
        let d: u16 = if n < 0x80 { n as u16 } else { 0xff00 + n as u16 };
        let r = o.wrapping_add(d);
        self.reg.set_flag(Flag::Z, false);
        self.reg.set_flag(Flag::N, false);
        let r_noc = o ^ d ^ r;
        self.reg.set_flag(Flag::H, r_noc & 0x0010 != 0);
        self.reg.set_flag(Flag::C, r_noc & 0x0100 != 0);
        r
    }

    /// DAA: decimal correction of the accumulator after an addition or a
    /// subtraction of two binary-coded-decimal bytes.
    pub fn daa(&mut self)
        ensures
            *final(self) == old(self).with_reg(alu_daa(old(self).reg)),
    {
        let mut a = self.reg.a;
        let n = self.reg.get_flag(Flag::N);
        let hi: u8 = if self.reg.get_flag(Flag::C) || (!n && a > 0x99) { 0x60 } else { 0x00 };
        let lo: u8 = if self.reg.get_flag(Flag::H) || (!n && (a & 0x0f) > 0x09) { 0x06 } else { 0x00 };
        let adjust: u8 = hi + lo;
        if !n {
            a = a.wrapping_add(adjust);
        } else {
            a = a.wrapping_sub(adjust);
        }
        self.reg.set_flag(Flag::C, adjust >= 0x60);
        self.reg.set_flag(Flag::H, false);
        self.reg.set_flag(Flag::Z, a == 0x00);
        self.reg.a = a;
    }

    /// CPL: complements the accumulator.
    pub fn cpl(&mut self)
        ensures
            *final(self) == old(self).with_reg(alu_cpl(old(self).reg)),
    {
        let a = !self.reg.a;
        self.reg.set_flag(Flag::N, true);
        self.reg.set_flag(Flag::H, true);
        self.reg.a = a;
    }

    /// CCF: toggles C.
    pub fn ccf(&mut self)
        ensures
            *final(self) == old(self).with_reg(alu_ccf(old(self).reg)),
    {
        let c = self.reg.get_flag(Flag::C);
        self.reg.set_flag(Flag::N, false);
        self.reg.set_flag(Flag::H, false);
        self.reg.set_flag(Flag::C, !c);
        proof {
            crate::register::lemma_with_flag(old(self).reg, Flag::N, false, Flag::C);
            crate::register::lemma_with_flag(
                old(self).reg.with_flag(Flag::N, false),
                Flag::H,
                false,
                Flag::C,
            );
        }
    }

    /// SCF: sets C.
    pub fn scf(&mut self)
        ensures
            *final(self) == old(self).with_reg(alu_scf(old(self).reg)),
    {
        self.reg.set_flag(Flag::N, false);
        self.reg.set_flag(Flag::H, false);
        self.reg.set_flag(Flag::C, true);
    }

    /// Rotates left; bit 7 goes to bit 0 and to C.
    pub fn rlc(&mut self, v: u8) -> (r: u8)
        ensures
            *final(self) == old(self).with_reg(rot8(old(self).reg, 0, v).0),
            r == rot8(old(self).reg, 0, v).1,
    {
        let c = v >> 7;
        let r = (v << 1) | c;
        self.reg.set_flag(Flag::Z, r == 0x00);
        self.reg.set_flag(Flag::N, false);
        self.reg.set_flag(Flag::H, false);
        self.reg.set_flag(Flag::C, c == 0x01);
        r
    }

    /// Rotates left through C.
    pub fn rl(&mut self, v: u8) -> (r: u8)
        ensures
            *final(self) == old(self).with_reg(rot8(old(self).reg, 2, v).0),
            r == rot8(old(self).reg, 2, v).1,
    {
        let c: u8 = if self.reg.get_flag(Flag::C) { 1 } else { 0 };
        let r = (v << 1) | c;
        self.reg.set_flag(Flag::Z, r == 0x00);
        self.reg.set_flag(Flag::N, false);
        self.reg.set_flag(Flag::H, false);
        self.reg.set_flag(Flag::C, v >> 7 == 0x01);
        r
    }

    /// Rotates right; bit 0 goes to bit 7 and to C.
    pub fn rrc(&mut self, v: u8) -> (r: u8)
        ensures
            *final(self) == old(self).with_reg(rot8(old(self).reg, 1, v).0),
            r == rot8(old(self).reg, 1, v).1,
    {
        let c = v & 0x01;
        let r = (v >> 1) | (c << 7);
        self.reg.set_flag(Flag::Z, r == 0x00);
        self.reg.set_flag(Flag::N, false);
        self.reg.set_flag(Flag::H, false);
        self.reg.set_flag(Flag::C, c == 0x01);
        r
    }

    /// Rotates right through C.
    pub fn rr(&mut self, v: u8) -> (r: u8)
        ensures
            *final(self) == old(self).with_reg(rot8(old(self).reg, 3, v).0),
            r == rot8(old(self).reg, 3, v).1,
    {
        let c: u8 = if self.reg.get_flag(Flag::C) { 1 } else { 0 };
        let r = (v >> 1) | (c << 7);
        self.reg.set_flag(Flag::Z, r == 0x00);
        self.reg.set_flag(Flag::N, false);
        self.reg.set_flag(Flag::H, false);
        self.reg.set_flag(Flag::C, v & 0x01 == 0x01);
        r
    }

    /// Shifts left; bit 7 goes to C, bit 0 becomes 0.
    pub fn sla(&mut self, v: u8) -> (r: u8)
        ensures
            *final(self) == old(self).with_reg(rot8(old(self).reg, 4, v).0),
            r == rot8(old(self).reg, 4, v).1,
    {
        let r = v << 1;
        self.reg.set_flag(Flag::Z, r == 0x00);
        self.reg.set_flag(Flag::N, false);
        self.reg.set_flag(Flag::H, false);
        self.reg.set_flag(Flag::C, v >> 7 == 0x01);
        r
    }

    /// Shifts right; bit 0 goes to C, bit 7 is kept.
    pub fn sra(&mut self, v: u8) -> (r: u8)
        ensures
            *final(self) == old(self).with_reg(rot8(old(self).reg, 5, v).0),
            r == rot8(old(self).reg, 5, v).1,
    {
        let r = (v >> 1) | (v & 0x80);
        self.reg.set_flag(Flag::Z, r == 0x00);
        self.reg.set_flag(Flag::N, false);
        self.reg.set_flag(Flag::H, false);
        self.reg.set_flag(Flag::C, v & 0x01 == 0x01);
        r
    }

    /// Shifts right; bit 0 goes to C, bit 7 becomes 0.
    pub fn srl(&mut self, v: u8) -> (r: u8)
        ensures
            *final(self) == old(self).with_reg(rot8(old(self).reg, 7, v).0),
            r == rot8(old(self).reg, 7, v).1,
    {
        let r = v >> 1;
        self.reg.set_flag(Flag::Z, r == 0x00);
        self.reg.set_flag(Flag::N, false);
        self.reg.set_flag(Flag::H, false);
        self.reg.set_flag(Flag::C, v & 0x01 == 0x01);
        r
    }

    /// Exchanges the two nibbles; C is cleared.
    pub fn swap(&mut self, v: u8) -> (r: u8)
        ensures
            *final(self) == old(self).with_reg(rot8(old(self).reg, 6, v).0),
            r == rot8(old(self).reg, 6, v).1,
    {
        let r = (v >> 4) | (v << 4);
        self.reg.set_flag(Flag::Z, r == 0x00);
        self.reg.set_flag(Flag::N, false);
        self.reg.set_flag(Flag::H, false);
        self.reg.set_flag(Flag::C, false);
        r
    }

    /// Jumps to the fetched address if `con` holds.
    pub fn jp_if<M: Memory>(&mut self, mem: &M, con: bool)
        ensures
            final(self).on(mem) == (if con {
                old(self).on(mem).with_pc(old(self).on(mem).imm16())
            } else {
                old(self).on(mem).skip(2)
            }),
    {
        let addr = self.imm_word(mem);
        if con {
            self.reg.pc = addr;
        }
    }

    /// Jumps by the signed displacement `n`.
    pub fn jr(&mut self, n: u8)
        ensures
            *final(self) == old(self).with_reg(
                Register { pc: old(self).reg.pc.wrapping_add(sign_extend(n)), ..old(self).reg },
            ),
    {
        let d: u16 = if n < 0x80 { n as u16 } else { 0xff00 + n as u16 };
        self.reg.pc = self.reg.pc.wrapping_add(d);
    }

    /// Jumps by the fetched displacement if `con` holds.
    pub fn jr_if<M: Memory>(&mut self, mem: &M, con: bool)
        ensures
            final(self).on(mem) == (if con {
                old(self).on(mem).skip(1).jump_rel(old(self).on(mem).imm8())
            } else {
                old(self).on(mem).skip(1)
            }),
    {
        let n = self.imm(mem);
        if con {
            self.jr(n);
        }
    }

    /// Pushes PC and continues at `addr`.
    pub fn call<M: Memory>(&mut self, mem: &mut M, addr: u16)
        ensures
            final(self).on(final(mem)) == old(self).on(old(mem)).call(addr),
    {
        let pc = self.reg.pc;
        self.stack_push(mem, pc);
        self.reg.pc = addr;
    }

    /// Calls the fetched address if `con` holds.
    pub fn call_if<M: Memory>(&mut self, mem: &mut M, con: bool)
        ensures
            final(self).on(final(mem)) == (if con {
                old(self).on(old(mem)).skip(2).call(old(self).on(old(mem)).imm16())
            } else {
                old(self).on(old(mem)).skip(2)
            }),
    {
        let addr = self.imm_word(mem);
        if con {
            self.call(mem, addr);
        }
    }

    /// Pushes PC and continues at the fixed address `a`.
    pub fn rst<M: Memory>(&mut self, mem: &mut M, a: u16)
        ensures
            final(self).on(final(mem)) == old(self).on(old(mem)).call(a),
    {
        let pc = self.reg.pc;
        self.stack_push(mem, pc);
        self.reg.pc = a;
    }

    /// Pops PC.
    pub fn ret<M: Memory>(&mut self, mem: &M)
        ensures
            final(self).on(mem) == old(self).on(mem).ret(),
    {
        let pc = self.stack_pop(mem);
        self.reg.pc = pc;
    }

    /// Pops PC if `con` holds.
    pub fn ret_if<M: Memory>(&mut self, mem: &M, con: bool)
        ensures
            final(self).on(mem) == (if con {
                old(self).on(mem).ret()
            } else {
                old(self).on(mem)
            }),
    {
        if con {
            self.ret(mem);
        }
    }

    /// BIT p,r: tests bit `p` of `r`.
    pub fn bit(&mut self, r: u8, p: u8)
        requires
            p < 8,
        ensures
            *final(self) == old(self).with_reg(alu_bit(old(self).reg, r, p)),
    {
        let is_z = r & (1u8 << p) == 0x00;
        self.reg.set_flag(Flag::Z, is_z);
        self.reg.set_flag(Flag::N, false);
        self.reg.set_flag(Flag::H, true);
    }

    /// RES p,v: `v` with bit `p` cleared.
    pub fn res(&mut self, v: u8, p: u8) -> (r: u8)
        requires
            p < 8,
        ensures
            r == res_value(v, p),
            *final(self) == *old(self),
    {
        v & !(1u8 << p)
    }

    /// SET p,v: `v` with bit `p` set.
    pub fn set(&mut self, v: u8, p: u8) -> (r: u8)
        requires
            p < 8,
        ensures
            r == set_value(v, p),
            *final(self) == *old(self),
    {
        v | (1u8 << p)
    }

    /// The CPU as the boot ROM leaves it: registers at their post-boot
    /// values, running, interrupts enabled.
    pub fn power_up(term: Term) -> (r: Self)
        ensures
            r.reg == Register::power_up_value(term),
            !r.halted,
            r.ei,
    {
        Cpu { reg: Register::power_up(term), halted: false, ei: true }
    }
}

impl Cpu {
    /// The 0xCB-prefixed instructions of the rotates and shifts (0x00 to 0x3F).
    #[verifier::rlimit(50)]
    #[verifier::spinoff_prover]
    fn ex_rotate<M: Memory>(&mut self, mem: &mut M, opcode: u8)
        requires
            opcode < 0x40,
        ensures
            final(self).on(final(mem)) == old(self).on(old(mem)).exec_cb(opcode),
    {
        match opcode {
            // RLC r8
            0x00 => self.reg.b = self.rlc(self.reg.b),
            0x01 => self.reg.c = self.rlc(self.reg.c),
            0x02 => self.reg.d = self.rlc(self.reg.d),
            0x03 => self.reg.e = self.rlc(self.reg.e),
            0x04 => self.reg.h = self.rlc(self.reg.h),
            0x05 => self.reg.l = self.rlc(self.reg.l),
            0x06 => {
                let v = self.get_mem_hl(mem);
                let r = self.rlc(v);
                self.set_mem(mem, self.reg.get_hl(), r);
            }
            0x07 => self.reg.a = self.rlc(self.reg.a),
            // RRC r8
            0x08 => self.reg.b = self.rrc(self.reg.b),
            0x09 => self.reg.c = self.rrc(self.reg.c),
            0x0a => self.reg.d = self.rrc(self.reg.d),
            0x0b => self.reg.e = self.rrc(self.reg.e),
            0x0c => self.reg.h = self.rrc(self.reg.h),
            0x0d => self.reg.l = self.rrc(self.reg.l),
            0x0e => {
                let v = self.get_mem_hl(mem);
                let r = self.rrc(v);
                self.set_mem(mem, self.reg.get_hl(), r);
            }
            0x0f => self.reg.a = self.rrc(self.reg.a),
            // RL r8
            0x10 => self.reg.b = self.rl(self.reg.b),
            0x11 => self.reg.c = self.rl(self.reg.c),
            0x12 => self.reg.d = self.rl(self.reg.d),
            0x13 => self.reg.e = self.rl(self.reg.e),
            0x14 => self.reg.h = self.rl(self.reg.h),
            0x15 => self.reg.l = self.rl(self.reg.l),
            0x16 => {
                let v = self.get_mem_hl(mem);
                let r = self.rl(v);
                self.set_mem(mem, self.reg.get_hl(), r);
            }
            0x17 => self.reg.a = self.rl(self.reg.a),
            // RR r8
            0x18 => self.reg.b = self.rr(self.reg.b),
            0x19 => self.reg.c = self.rr(self.reg.c),
            0x1a => self.reg.d = self.rr(self.reg.d),
            0x1b => self.reg.e = self.rr(self.reg.e),
            0x1c => self.reg.h = self.rr(self.reg.h),
            0x1d => self.reg.l = self.rr(self.reg.l),
            0x1e => {
                let v = self.get_mem_hl(mem);
                let r = self.rr(v);
                self.set_mem(mem, self.reg.get_hl(), r);
            }
            0x1f => self.reg.a = self.rr(self.reg.a),
            // SLA r8
            0x20 => self.reg.b = self.sla(self.reg.b),
            0x21 => self.reg.c = self.sla(self.reg.c),
            0x22 => self.reg.d = self.sla(self.reg.d),
            0x23 => self.reg.e = self.sla(self.reg.e),
            0x24 => self.reg.h = self.sla(self.reg.h),
            0x25 => self.reg.l = self.sla(self.reg.l),
            0x26 => {
                let v = self.get_mem_hl(mem);
                let r = self.sla(v);
                self.set_mem(mem, self.reg.get_hl(), r);
            }
            0x27 => self.reg.a = self.sla(self.reg.a),
            // SRA r8
            0x28 => self.reg.b = self.sra(self.reg.b),
            0x29 => self.reg.c = self.sra(self.reg.c),
            0x2a => self.reg.d = self.sra(self.reg.d),
            0x2b => self.reg.e = self.sra(self.reg.e),
            0x2c => self.reg.h = self.sra(self.reg.h),
            0x2d => self.reg.l = self.sra(self.reg.l),
            0x2e => {
                let v = self.get_mem_hl(mem);
                let r = self.sra(v);
                self.set_mem(mem, self.reg.get_hl(), r);
            }
            0x2f => self.reg.a = self.sra(self.reg.a),
            // SRL r8
            0x38 => self.reg.b = self.srl(self.reg.b),
            0x39 => self.reg.c = self.srl(self.reg.c),
            0x3a => self.reg.d = self.srl(self.reg.d),
            0x3b => self.reg.e = self.srl(self.reg.e),
            0x3c => self.reg.h = self.srl(self.reg.h),
            0x3d => self.reg.l = self.srl(self.reg.l),
            0x3e => {
                let v = self.get_mem_hl(mem);
                let r = self.srl(v);
                self.set_mem(mem, self.reg.get_hl(), r);
            }
            0x3f => self.reg.a = self.srl(self.reg.a),
            // SWAP r8
            0x30 => self.reg.b = self.swap(self.reg.b),
            0x31 => self.reg.c = self.swap(self.reg.c),
            0x32 => self.reg.d = self.swap(self.reg.d),
            0x33 => self.reg.e = self.swap(self.reg.e),
            0x34 => self.reg.h = self.swap(self.reg.h),
            0x35 => self.reg.l = self.swap(self.reg.l),
            0x36 => {
                let v = self.get_mem_hl(mem);
                let r = self.swap(v);
                self.set_mem(mem, self.reg.get_hl(), r);
            }
            0x37 => self.reg.a = self.swap(self.reg.a),
            _ => {}
        };
    }

    /// The 0xCB-prefixed instructions of BIT (0x40 to 0x7F).
    #[verifier::rlimit(50)]
    #[verifier::spinoff_prover]
    fn ex_bit<M: Memory>(&mut self, mem: &mut M, opcode: u8)
        requires
            0x40 <= opcode < 0x80,
        ensures
            final(self).on(final(mem)) == old(self).on(old(mem)).exec_cb(opcode),
    {
        match opcode {
            // BIT
            0x40 => self.bit(self.reg.b, 0),
            0x41 => self.bit(self.reg.c, 0),
            0x42 => self.bit(self.reg.d, 0),
            0x43 => self.bit(self.reg.e, 0),
            0x44 => self.bit(self.reg.h, 0),
            0x45 => self.bit(self.reg.l, 0),
            0x46 => {
                let v = self.get_mem_hl(mem);
                self.bit(v, 0);
            }
            0x47 => self.bit(self.reg.a, 0),
            0x48 => self.bit(self.reg.b, 1),
            0x49 => self.bit(self.reg.c, 1),
            0x4a => self.bit(self.reg.d, 1),
            0x4b => self.bit(self.reg.e, 1),
            0x4c => self.bit(self.reg.h, 1),
            0x4d => self.bit(self.reg.l, 1),
            0x4e => {
                let v = self.get_mem_hl(mem);
                self.bit(v, 1);
            }
            0x4f => self.bit(self.reg.a, 1),
            0x50 => self.bit(self.reg.b, 2),
            0x51 => self.bit(self.reg.c, 2),
            0x52 => self.bit(self.reg.d, 2),
            0x53 => self.bit(self.reg.e, 2),
            0x54 => self.bit(self.reg.h, 2),
            0x55 => self.bit(self.reg.l, 2),
            0x56 => {
                let v = self.get_mem_hl(mem);
                self.bit(v, 2);
            }
            0x57 => self.bit(self.reg.a, 2),
            0x58 => self.bit(self.reg.b, 3),
            0x59 => self.bit(self.reg.c, 3),
            0x5a => self.bit(self.reg.d, 3),
            0x5b => self.bit(self.reg.e, 3),
            0x5c => self.bit(self.reg.h, 3),
            0x5d => self.bit(self.reg.l, 3),
            0x5e => {
                let v = self.get_mem_hl(mem);
                self.bit(v, 3);
            }
            0x5f => self.bit(self.reg.a, 3),
            0x60 => self.bit(self.reg.b, 4),
            0x61 => self.bit(self.reg.c, 4),
            0x62 => self.bit(self.reg.d, 4),
            0x63 => self.bit(self.reg.e, 4),
            0x64 => self.bit(self.reg.h, 4),
            0x65 => self.bit(self.reg.l, 4),
            0x66 => {
                let v = self.get_mem_hl(mem);
                self.bit(v, 4);
            }
            0x67 => self.bit(self.reg.a, 4),
            0x68 => self.bit(self.reg.b, 5),
            0x69 => self.bit(self.reg.c, 5),
            0x6a => self.bit(self.reg.d, 5),
            0x6b => self.bit(self.reg.e, 5),
            0x6c => self.bit(self.reg.h, 5),
            0x6d => self.bit(self.reg.l, 5),
            0x6e => {
                let v = self.get_mem_hl(mem);
                self.bit(v, 5);
            }
            0x6f => self.bit(self.reg.a, 5),
            0x70 => self.bit(self.reg.b, 6),
            0x71 => self.bit(self.reg.c, 6),
            0x72 => self.bit(self.reg.d, 6),
            0x73 => self.bit(self.reg.e, 6),
            0x74 => self.bit(self.reg.h, 6),
            0x75 => self.bit(self.reg.l, 6),
            0x76 => {
                let v = self.get_mem_hl(mem);
                self.bit(v, 6);
            }
            0x77 => self.bit(self.reg.a, 6),
            0x78 => self.bit(self.reg.b, 7),
            0x79 => self.bit(self.reg.c, 7),
            0x7a => self.bit(self.reg.d, 7),
            0x7b => self.bit(self.reg.e, 7),
            0x7c => self.bit(self.reg.h, 7),
            0x7d => self.bit(self.reg.l, 7),
            0x7e => {
                let v = self.get_mem_hl(mem);
                self.bit(v, 7);
            }
            0x7f => self.bit(self.reg.a, 7),
            _ => {}
        };
    }

    /// The 0xCB-prefixed instructions of RES (0x80 to 0xBF).
    #[verifier::rlimit(50)]
    #[verifier::spinoff_prover]
    fn ex_res<M: Memory>(&mut self, mem: &mut M, opcode: u8)
        requires
            0x80 <= opcode < 0xc0,
        ensures
            final(self).on(final(mem)) == old(self).on(old(mem)).exec_cb(opcode),
    {
        match opcode {
            // RES
            0x80 => self.reg.b = self.res(self.reg.b, 0),
            0x81 => self.reg.c = self.res(self.reg.c, 0),
            0x82 => self.reg.d = self.res(self.reg.d, 0),
            0x83 => self.reg.e = self.res(self.reg.e, 0),
            0x84 => self.reg.h = self.res(self.reg.h, 0),
            0x85 => self.reg.l = self.res(self.reg.l, 0),
            0x86 => {
                let v = self.get_mem_hl(mem);
                let r = self.res(v, 0);
                self.set_mem(mem, self.reg.get_hl(), r);
            }
            0x87 => self.reg.a = self.res(self.reg.a, 0),
            0x88 => self.reg.b = self.res(self.reg.b, 1),
            0x89 => self.reg.c = self.res(self.reg.c, 1),
            0x8a => self.reg.d = self.res(self.reg.d, 1),
            0x8b => self.reg.e = self.res(self.reg.e, 1),
            0x8c => self.reg.h = self.res(self.reg.h, 1),
            0x8d => self.reg.l = self.res(self.reg.l, 1),
            0x8e => {
                let v = self.get_mem_hl(mem);
                let r = self.res(v, 1);
                self.set_mem(mem, self.reg.get_hl(), r);
            }
            0x8f => self.reg.a = self.res(self.reg.a, 1),
            0x90 => self.reg.b = self.res(self.reg.b, 2),
            0x91 => self.reg.c = self.res(self.reg.c, 2),
            0x92 => self.reg.d = self.res(self.reg.d, 2),
            0x93 => self.reg.e = self.res(self.reg.e, 2),
            0x94 => self.reg.h = self.res(self.reg.h, 2),
            0x95 => self.reg.l = self.res(self.reg.l, 2),
            0x96 => {
                let v = self.get_mem_hl(mem);
                let r = self.res(v, 2);
                self.set_mem(mem, self.reg.get_hl(), r);
            }
            0x97 => self.reg.a = self.res(self.reg.a, 2),
            0x98 => self.reg.b = self.res(self.reg.b, 3),
            0x99 => self.reg.c = self.res(self.reg.c, 3),
            0x9a => self.reg.d = self.res(self.reg.d, 3),
            0x9b => self.reg.e = self.res(self.reg.e, 3),
            0x9c => self.reg.h = self.res(self.reg.h, 3),
            0x9d => self.reg.l = self.res(self.reg.l, 3),
            0x9e => {
                let v = self.get_mem_hl(mem);
                let r = self.res(v, 3);
                self.set_mem(mem, self.reg.get_hl(), r);
            }
            0x9f => self.reg.a = self.res(self.reg.a, 3),
            0xa0 => self.reg.b = self.res(self.reg.b, 4),
            0xa1 => self.reg.c = self.res(self.reg.c, 4),
            0xa2 => self.reg.d = self.res(self.reg.d, 4),
            0xa3 => self.reg.e = self.res(self.reg.e, 4),
            0xa4 => self.reg.h = self.res(self.reg.h, 4),
            0xa5 => self.reg.l = self.res(self.reg.l, 4),
            0xa6 => {
                let v = self.get_mem_hl(mem);
                let r = self.res(v, 4);
                self.set_mem(mem, self.reg.get_hl(), r);
            }
            0xa7 => self.reg.a = self.res(self.reg.a, 4),
            0xa8 => self.reg.b = self.res(self.reg.b, 5),
            0xa9 => self.reg.c = self.res(self.reg.c, 5),
            0xaa => self.reg.d = self.res(self.reg.d, 5),
            0xab => self.reg.e = self.res(self.reg.e, 5),
            0xac => self.reg.h = self.res(self.reg.h, 5),
            0xad => self.reg.l = self.res(self.reg.l, 5),
            0xae => {
                let v = self.get_mem_hl(mem);
                let r = self.res(v, 5);
                self.set_mem(mem, self.reg.get_hl(), r);
            }
            0xaf => self.reg.a = self.res(self.reg.a, 5),
            0xb0 => self.reg.b = self.res(self.reg.b, 6),
            0xb1 => self.reg.c = self.res(self.reg.c, 6),
            0xb2 => self.reg.d = self.res(self.reg.d, 6),
            0xb3 => self.reg.e = self.res(self.reg.e, 6),
            0xb4 => self.reg.h = self.res(self.reg.h, 6),
            0xb5 => self.reg.l = self.res(self.reg.l, 6),
            0xb6 => {
                let v = self.get_mem_hl(mem);
                let r = self.res(v, 6);
                self.set_mem(mem, self.reg.get_hl(), r);
            }
            0xb7 => self.reg.a = self.res(self.reg.a, 6),
            0xb8 => self.reg.b = self.res(self.reg.b, 7),
            0xb9 => self.reg.c = self.res(self.reg.c, 7),
            0xba => self.reg.d = self.res(self.reg.d, 7),
            0xbb => self.reg.e = self.res(self.reg.e, 7),
            0xbc => self.reg.h = self.res(self.reg.h, 7),
            0xbd => self.reg.l = self.res(self.reg.l, 7),
            0xbe => {
                let v = self.get_mem_hl(mem);
                let r = self.res(v, 7);
                self.set_mem(mem, self.reg.get_hl(), r);
            }
            0xbf => self.reg.a = self.res(self.reg.a, 7),
            _ => {}
        };
    }

    /// The 0xCB-prefixed instructions of SET (0xC0 to 0xFF).
    #[verifier::rlimit(50)]
    #[verifier::spinoff_prover]
    fn ex_set<M: Memory>(&mut self, mem: &mut M, opcode: u8)
        requires
            0xc0 <= opcode,
        ensures
            final(self).on(final(mem)) == old(self).on(old(mem)).exec_cb(opcode),
    {
        match opcode {
            // SET
            0xc0 => self.reg.b = self.set(self.reg.b, 0),
            0xc1 => self.reg.c = self.set(self.reg.c, 0),
            0xc2 => self.reg.d = self.set(self.reg.d, 0),
            0xc3 => self.reg.e = self.set(self.reg.e, 0),
            0xc4 => self.reg.h = self.set(self.reg.h, 0),
            0xc5 => self.reg.l = self.set(self.reg.l, 0),
            0xc6 => {
                let v = self.get_mem_hl(mem);
                let r = self.set(v, 0);
                self.set_mem(mem, self.reg.get_hl(), r);
            }
            0xc7 => self.reg.a = self.set(self.reg.a, 0),
            0xc8 => self.reg.b = self.set(self.reg.b, 1),
            0xc9 => self.reg.c = self.set(self.reg.c, 1),
            0xca => self.reg.d = self.set(self.reg.d, 1),
            0xcb => self.reg.e = self.set(self.reg.e, 1),
            0xcc => self.reg.h = self.set(self.reg.h, 1),
            0xcd => self.reg.l = self.set(self.reg.l, 1),
            0xce => {
                let v = self.get_mem_hl(mem);
                let r = self.set(v, 1);
                self.set_mem(mem, self.reg.get_hl(), r);
            }
            0xcf => self.reg.a = self.set(self.reg.a, 1),
            0xd0 => self.reg.b = self.set(self.reg.b, 2),
            0xd1 => self.reg.c = self.set(self.reg.c, 2),
            0xd2 => self.reg.d = self.set(self.reg.d, 2),
            0xd3 => self.reg.e = self.set(self.reg.e, 2),
            0xd4 => self.reg.h = self.set(self.reg.h, 2),
            0xd5 => self.reg.l = self.set(self.reg.l, 2),
            0xd6 => {
                let v = self.get_mem_hl(mem);
                let r = self.set(v, 2);
                self.set_mem(mem, self.reg.get_hl(), r);
            }
            0xd7 => self.reg.a = self.set(self.reg.a, 2),
            0xd8 => self.reg.b = self.set(self.reg.b, 3),
            0xd9 => self.reg.c = self.set(self.reg.c, 3),
            0xda => self.reg.d = self.set(self.reg.d, 3),
            0xdb => self.reg.e = self.set(self.reg.e, 3),
            0xdc => self.reg.h = self.set(self.reg.h, 3),
            0xdd => self.reg.l = self.set(self.reg.l, 3),
            0xde => {
                let v = self.get_mem_hl(mem);
                let r = self.set(v, 3);
                self.set_mem(mem, self.reg.get_hl(), r);
            }
            0xdf => self.reg.a = self.set(self.reg.a, 3),
            0xe0 => self.reg.b = self.set(self.reg.b, 4),
            0xe1 => self.reg.c = self.set(self.reg.c, 4),
            0xe2 => self.reg.d = self.set(self.reg.d, 4),
            0xe3 => self.reg.e = self.set(self.reg.e, 4),
            0xe4 => self.reg.h = self.set(self.reg.h, 4),
            0xe5 => self.reg.l = self.set(self.reg.l, 4),
            0xe6 => {
                let v = self.get_mem_hl(mem);
                let r = self.set(v, 4);
                self.set_mem(mem, self.reg.get_hl(), r);
            }
            0xe7 => self.reg.a = self.set(self.reg.a, 4),
            0xe8 => self.reg.b = self.set(self.reg.b, 5),
            0xe9 => self.reg.c = self.set(self.reg.c, 5),
            0xea => self.reg.d = self.set(self.reg.d, 5),
            0xeb => self.reg.e = self.set(self.reg.e, 5),
            0xec => self.reg.h = self.set(self.reg.h, 5),
            0xed => self.reg.l = self.set(self.reg.l, 5),
            0xee => {
                let v = self.get_mem_hl(mem);
                let r = self.set(v, 5);
                self.set_mem(mem, self.reg.get_hl(), r);
            }
            0xef => self.reg.a = self.set(self.reg.a, 5),
            0xf0 => self.reg.b = self.set(self.reg.b, 6),
            0xf1 => self.reg.c = self.set(self.reg.c, 6),
            0xf2 => self.reg.d = self.set(self.reg.d, 6),
            0xf3 => self.reg.e = self.set(self.reg.e, 6),
            0xf4 => self.reg.h = self.set(self.reg.h, 6),
            0xf5 => self.reg.l = self.set(self.reg.l, 6),
            0xf6 => {
                let v = self.get_mem_hl(mem);
                let r = self.set(v, 6);
                self.set_mem(mem, self.reg.get_hl(), r);
            }
            0xf7 => self.reg.a = self.set(self.reg.a, 6),
            0xf8 => self.reg.b = self.set(self.reg.b, 7),
            0xf9 => self.reg.c = self.set(self.reg.c, 7),
            0xfa => self.reg.d = self.set(self.reg.d, 7),
            0xfb => self.reg.e = self.set(self.reg.e, 7),
            0xfc => self.reg.h = self.set(self.reg.h, 7),
            0xfd => self.reg.l = self.set(self.reg.l, 7),
            0xfe => {
                let v = self.get_mem_hl(mem);
                let r = self.set(v, 7);
                self.set_mem(mem, self.reg.get_hl(), r);
            }
            0xff => self.reg.a = self.set(self.reg.a, 7),
            _ => {}
        };
    }

    /// Executes the 0xCB-prefixed instruction `opcode`.
    pub fn ex_ext<M: Memory>(&mut self, mem: &mut M, opcode: u8)
        ensures
            final(self).on(final(mem)) == old(self).on(old(mem)).exec_cb(opcode),
    {
        match opcode {
            0x00..=0x3f => self.ex_rotate(mem, opcode),
            0x40..=0x7f => self.ex_bit(mem, opcode),
            0x80..=0xbf => self.ex_res(mem, opcode),
            _ => self.ex_set(mem, opcode),
        };
    }

    /// The instructions 0x00 to 0x3F: 16-bit loads and arithmetic, indirect
    /// accumulator loads, 8-bit INC, DEC and immediate loads, relative jumps
    /// and the accumulator group.
    #[verifier::rlimit(50)]
    #[verifier::spinoff_prover]
    fn ex_low<M: Memory>(&mut self, mem: &mut M, opcode: u8) -> (cycles: u32)
        requires
            opcode < 0x40,
        ensures
            final(self).on(final(mem)) == old(self).on(old(mem)).exec_op(opcode).next,
            cycles == old(self).on(old(mem)).exec_op(opcode).cycles,
            cycles <= 6,
    {
        let mut extra_cycles: u32 = 0;
        match opcode {
            // LD r8,d8
            0x06 => self.reg.b = self.imm(mem),
            0x0e => self.reg.c = self.imm(mem),
            0x16 => self.reg.d = self.imm(mem),
            0x1e => self.reg.e = self.imm(mem),
            0x26 => self.reg.h = self.imm(mem),
            0x2e => self.reg.l = self.imm(mem),
            0x36 => {
                let v = self.imm(mem);
                self.set_mem(mem, self.reg.get_hl(), v);
            }
            0x3e => self.reg.a = self.imm(mem),
            // LD (BC),A / LD (DE),A / LD A,(BC) / LD A,(DE)
            0x02 => self.set_mem(mem, self.reg.get_bc(), self.reg.a),
            0x12 => self.set_mem(mem, self.reg.get_de(), self.reg.a),
            0x0a => self.reg.a = self.get_mem(mem, self.reg.get_bc()),
            0x1a => self.reg.a = self.get_mem(mem, self.reg.get_de()),
            // LD (HL+),A / LD (HL-),A / LD A,(HL+) / LD A,(HL-)
            0x22 => {
                let a = self.reg.get_hl();
                self.set_mem(mem, a, self.reg.a);
                self.reg.set_hl(a.wrapping_add(1));
            }
            0x32 => {
                let a = self.reg.get_hl();
                self.set_mem(mem, a, self.reg.a);
                self.reg.set_hl(a.wrapping_sub(1));
            }
            0x2a => {
                let a = self.reg.get_hl();
                self.reg.a = self.get_mem(mem, a);
                self.reg.set_hl(a.wrapping_add(1));
            }
            0x3a => {
                let a = self.reg.get_hl();
                self.reg.a = self.get_mem(mem, a);
                self.reg.set_hl(a.wrapping_sub(1));
            }
            // LD r16,d16
            0x01 => {
                let v = self.imm_word(mem);
                self.reg.set_bc(v);
            }
            0x11 => {
                let v = self.imm_word(mem);
                self.reg.set_de(v);
            }
            0x21 => {
                let v = self.imm_word(mem);
                self.reg.set_hl(v);
            }
            0x31 => self.reg.sp = self.imm_word(mem),
            // LD (a16),SP
            0x08 => {
                let a = self.imm_word(mem);
                self.set_mem_word(mem, a, self.reg.sp);
            }
            // INC r8
            0x04 => self.reg.b = self.inc(self.reg.b),
            0x0c => self.reg.c = self.inc(self.reg.c),
            0x14 => self.reg.d = self.inc(self.reg.d),
            0x1c => self.reg.e = self.inc(self.reg.e),
            0x24 => self.reg.h = self.inc(self.reg.h),
            0x2c => self.reg.l = self.inc(self.reg.l),
            0x34 => {
                let v = self.get_mem_hl(mem);
                let r = self.inc(v);
                self.set_mem(mem, self.reg.get_hl(), r);
            }
            0x3c => self.reg.a = self.inc(self.reg.a),
            // DEC r8
            0x05 => self.reg.b = self.dec(self.reg.b),
            0x0d => self.reg.c = self.dec(self.reg.c),
            0x15 => self.reg.d = self.dec(self.reg.d),
            0x1d => self.reg.e = self.dec(self.reg.e),
            0x25 => self.reg.h = self.dec(self.reg.h),
            0x2d => self.reg.l = self.dec(self.reg.l),
            0x35 => {
                let v = self.get_mem_hl(mem);
                let r = self.dec(v);
                self.set_mem(mem, self.reg.get_hl(), r);
            }
            0x3d => self.reg.a = self.dec(self.reg.a),
            // ADD HL,r16
            0x09 => self.add_hl(self.reg.get_bc()),
            0x19 => self.add_hl(self.reg.get_de()),
            0x29 => self.add_hl(self.reg.get_hl()),
            0x39 => self.add_hl(self.reg.sp),
            // INC r16
            0x03 => self.reg.set_bc(self.reg.get_bc().wrapping_add(1)),
            0x13 => self.reg.set_de(self.reg.get_de().wrapping_add(1)),
            0x23 => self.reg.set_hl(self.reg.get_hl().wrapping_add(1)),
            0x33 => self.reg.sp = self.reg.sp.wrapping_add(1),
            // DEC r16
            0x0b => self.reg.set_bc(self.reg.get_bc().wrapping_sub(1)),
            0x1b => self.reg.set_de(self.reg.get_de().wrapping_sub(1)),
            0x2b => self.reg.set_hl(self.reg.get_hl().wrapping_sub(1)),
            0x3b => self.reg.sp = self.reg.sp.wrapping_sub(1),
            // DAA, CPL, CCF, SCF
            0x27 => self.daa(),
            0x2f => self.cpl(),
            0x3f => self.ccf(),
            0x37 => self.scf(),
            // NOP
            0x00 => {}
            // STOP: a NOP that consumes its padding byte
            0x10 => {
                let _ = self.imm(mem);
            }
            // RLCA, RLA, RRCA, RRA: as the prefixed rotates on A, but Z is cleared
            0x07 => {
                self.reg.a = self.rlc(self.reg.a);
                self.reg.set_flag(Flag::Z, false);
            }
            0x17 => {
                self.reg.a = self.rl(self.reg.a);
                self.reg.set_flag(Flag::Z, false);
            }
            0x0f => {
                self.reg.a = self.rrc(self.reg.a);
                self.reg.set_flag(Flag::Z, false);
            }
            0x1f => {
                self.reg.a = self.rr(self.reg.a);
                self.reg.set_flag(Flag::Z, false);
            }
            // JR
            0x18 => {
                let n = self.imm(mem);
                self.jr(n);
            }
            // JR cc: a taken jump costs one more machine cycle
            0x20 => {
                let con = !self.reg.get_flag(Flag::Z);
                self.jr_if(mem, con);
                if con {
                    extra_cycles = 1;
                }
            }
            0x28 => {
                let con = self.reg.get_flag(Flag::Z);
                self.jr_if(mem, con);
                if con {
                    extra_cycles = 1;
                }
            }
            0x30 => {
                let con = !self.reg.get_flag(Flag::C);
                self.jr_if(mem, con);
                if con {
                    extra_cycles = 1;
                }
            }
            0x38 => {
                let con = self.reg.get_flag(Flag::C);
                self.jr_if(mem, con);
                if con {
                    extra_cycles = 1;
                }
            }
            _ => {}
        };
        op_cycles(opcode) + extra_cycles
    }

    /// The instructions 0x40 to 0x7F: loads between 8-bit operands, and HALT.
    #[verifier::rlimit(50)]
    #[verifier::spinoff_prover]
    fn ex_load<M: Memory>(&mut self, mem: &mut M, opcode: u8) -> (cycles: u32)
        requires
            0x40 <= opcode < 0x80,
        ensures
            final(self).on(final(mem)) == old(self).on(old(mem)).exec_op(opcode).next,
            cycles == old(self).on(old(mem)).exec_op(opcode).cycles,
            cycles <= 6,
    {
        match opcode {
            // LD r8,r8
            0x40 => {}
            0x41 => self.reg.b = self.reg.c,
            0x42 => self.reg.b = self.reg.d,
            0x43 => self.reg.b = self.reg.e,
            0x44 => self.reg.b = self.reg.h,
            0x45 => self.reg.b = self.reg.l,
            0x46 => self.reg.b = self.get_mem_hl(mem),
            0x47 => self.reg.b = self.reg.a,
            0x48 => self.reg.c = self.reg.b,
            0x49 => {}
            0x4a => self.reg.c = self.reg.d,
            0x4b => self.reg.c = self.reg.e,
            0x4c => self.reg.c = self.reg.h,
            0x4d => self.reg.c = self.reg.l,
            0x4e => self.reg.c = self.get_mem_hl(mem),
            0x4f => self.reg.c = self.reg.a,
            0x50 => self.reg.d = self.reg.b,
            0x51 => self.reg.d = self.reg.c,
            0x52 => {}
            0x53 => self.reg.d = self.reg.e,
            0x54 => self.reg.d = self.reg.h,
            0x55 => self.reg.d = self.reg.l,
            0x56 => self.reg.d = self.get_mem_hl(mem),
            0x57 => self.reg.d = self.reg.a,
            0x58 => self.reg.e = self.reg.b,
            0x59 => self.reg.e = self.reg.c,
            0x5a => self.reg.e = self.reg.d,
            0x5b => {}
            0x5c => self.reg.e = self.reg.h,
            0x5d => self.reg.e = self.reg.l,
            0x5e => self.reg.e = self.get_mem_hl(mem),
            0x5f => self.reg.e = self.reg.a,
            0x60 => self.reg.h = self.reg.b,
            0x61 => self.reg.h = self.reg.c,
            0x62 => self.reg.h = self.reg.d,
            0x63 => self.reg.h = self.reg.e,
            0x64 => {}
            0x65 => self.reg.h = self.reg.l,
            0x66 => self.reg.h = self.get_mem_hl(mem),
            0x67 => self.reg.h = self.reg.a,
            0x68 => self.reg.l = self.reg.b,
            0x69 => self.reg.l = self.reg.c,
            0x6a => self.reg.l = self.reg.d,
            0x6b => self.reg.l = self.reg.e,
            0x6c => self.reg.l = self.reg.h,
            0x6d => {}
            0x6e => self.reg.l = self.get_mem_hl(mem),
            0x6f => self.reg.l = self.reg.a,
            0x70 => self.set_mem(mem, self.reg.get_hl(), self.reg.b),
            0x71 => self.set_mem(mem, self.reg.get_hl(), self.reg.c),
            0x72 => self.set_mem(mem, self.reg.get_hl(), self.reg.d),
            0x73 => self.set_mem(mem, self.reg.get_hl(), self.reg.e),
            0x74 => self.set_mem(mem, self.reg.get_hl(), self.reg.h),
            0x75 => self.set_mem(mem, self.reg.get_hl(), self.reg.l),
            0x77 => self.set_mem(mem, self.reg.get_hl(), self.reg.a),
            0x78 => self.reg.a = self.reg.b,
            0x79 => self.reg.a = self.reg.c,
            0x7a => self.reg.a = self.reg.d,
            0x7b => self.reg.a = self.reg.e,
            0x7c => self.reg.a = self.reg.h,
            0x7d => self.reg.a = self.reg.l,
            0x7e => self.reg.a = self.get_mem_hl(mem),
            0x7f => {}
            // HALT: the CPU sleeps until an interrupt is pending
            0x76 => self.halted = true,
            _ => {}
        };
        op_cycles(opcode)
    }

    /// The instructions 0x80 to 0xBF: accumulator arithmetic and logic on an
    /// 8-bit operand.
    #[verifier::rlimit(50)]
    #[verifier::spinoff_prover]
    fn ex_alu<M: Memory>(&mut self, mem: &mut M, opcode: u8) -> (cycles: u32)
        requires
            0x80 <= opcode < 0xc0,
        ensures
            final(self).on(final(mem)) == old(self).on(old(mem)).exec_op(opcode).next,
            cycles == old(self).on(old(mem)).exec_op(opcode).cycles,
            cycles <= 6,
    {
        match opcode {
            // ADD A,r8/d8
            0x80 => self.add(self.reg.b),
            0x81 => self.add(self.reg.c),
            0x82 => self.add(self.reg.d),
            0x83 => self.add(self.reg.e),
            0x84 => self.add(self.reg.h),
            0x85 => self.add(self.reg.l),
            0x86 => {
                let v = self.get_mem_hl(mem);
                self.add(v);
            }
            0x87 => self.add(self.reg.a),
            // ADC A,r8/d8
            0x88 => self.adc(self.reg.b),
            0x89 => self.adc(self.reg.c),
            0x8a => self.adc(self.reg.d),
            0x8b => self.adc(self.reg.e),
            0x8c => self.adc(self.reg.h),
            0x8d => self.adc(self.reg.l),
            0x8e => {
                let v = self.get_mem_hl(mem);
                self.adc(v);
            }
            0x8f => self.adc(self.reg.a),
            // SUB A,r8/d8
            0x90 => self.sub(self.reg.b),
            0x91 => self.sub(self.reg.c),
            0x92 => self.sub(self.reg.d),
            0x93 => self.sub(self.reg.e),
            0x94 => self.sub(self.reg.h),
            0x95 => self.sub(self.reg.l),
            0x96 => {
                let v = self.get_mem_hl(mem);
                self.sub(v);
            }
            0x97 => self.sub(self.reg.a),
            // SBC A,r8/d8
            0x98 => self.sbc(self.reg.b),
            0x99 => self.sbc(self.reg.c),
            0x9a => self.sbc(self.reg.d),
            0x9b => self.sbc(self.reg.e),
            0x9c => self.sbc(self.reg.h),
            0x9d => self.sbc(self.reg.l),
            0x9e => {
                let v = self.get_mem_hl(mem);
                self.sbc(v);
            }
            0x9f => self.sbc(self.reg.a),
            // AND A,r8/d8
            0xa0 => self.and(self.reg.b),
            0xa1 => self.and(self.reg.c),
            0xa2 => self.and(self.reg.d),
            0xa3 => self.and(self.reg.e),
            0xa4 => self.and(self.reg.h),
            0xa5 => self.and(self.reg.l),
            0xa6 => {
                let v = self.get_mem_hl(mem);
                self.and(v);
            }
            0xa7 => self.and(self.reg.a),
            // OR A,r8/d8
            0xb0 => self.or(self.reg.b),
            0xb1 => self.or(self.reg.c),
            0xb2 => self.or(self.reg.d),
            0xb3 => self.or(self.reg.e),
            0xb4 => self.or(self.reg.h),
            0xb5 => self.or(self.reg.l),
            0xb6 => {
                let v = self.get_mem_hl(mem);
                self.or(v);
            }
            0xb7 => self.or(self.reg.a),
            // XOR A,r8/d8
            0xa8 => self.xor(self.reg.b),
            0xa9 => self.xor(self.reg.c),
            0xaa => self.xor(self.reg.d),
            0xab => self.xor(self.reg.e),
            0xac => self.xor(self.reg.h),
            0xad => self.xor(self.reg.l),
            0xae => {
                let v = self.get_mem_hl(mem);
                self.xor(v);
            }
            0xaf => self.xor(self.reg.a),
            // CP A,r8/d8
            0xb8 => self.cp(self.reg.b),
            0xb9 => self.cp(self.reg.c),
            0xba => self.cp(self.reg.d),
            0xbb => self.cp(self.reg.e),
            0xbc => self.cp(self.reg.h),
            0xbd => self.cp(self.reg.l),
            0xbe => {
                let v = self.get_mem_hl(mem);
                self.cp(v);
            }
            0xbf => self.cp(self.reg.a),
            _ => {}
        };
        op_cycles(opcode)
    }

    /// The instructions 0xC0 to 0xFF: returns, jumps, calls, the stack, the
    /// high-page loads, immediate arithmetic and the 0xCB prefix.
    #[verifier::rlimit(50)]
    #[verifier::spinoff_prover]
    fn ex_high<M: Memory>(&mut self, mem: &mut M, opcode: u8) -> (cycles: u32)
        requires
            0xc0 <= opcode,
        ensures
            final(self).on(final(mem)) == old(self).on(old(mem)).exec_op(opcode).next,
            cycles == old(self).on(old(mem)).exec_op(opcode).cycles,
            cycles <= 6,
    {
        let mut extra_cycles: u32 = 0;
        match opcode {
            // LD (C),A and LD A,(C): the address is 0xFF00 plus C
            0xe2 => {
                let a = 0xff00 + self.reg.c as u16;
                self.set_mem(mem, a, self.reg.a);
            }
            0xf2 => {
                let a = 0xff00 + self.reg.c as u16;
                self.reg.a = self.get_mem(mem, a);
            }
            // LD (a8),A and LD A,(a8): the address is 0xFF00 plus the immediate
            0xe0 => {
                let a = 0xff00 + self.imm(mem) as u16;
                self.set_mem(mem, a, self.reg.a);
            }
            0xf0 => {
                let a = 0xff00 + self.imm(mem) as u16;
                self.reg.a = self.get_mem(mem, a);
            }
            // LD (a16),A and LD A,(a16)
            0xea => {
                let a = self.imm_word(mem);
                self.set_mem(mem, a, self.reg.a);
            }
            0xfa => {
                let a = self.imm_word(mem);
                self.reg.a = self.get_mem(mem, a);
            }
            // LD SP,HL
            0xf9 => self.reg.sp = self.reg.get_hl(),
            // LD HL,SP+i8
            0xf8 => {
                let v = self.add_sp(mem);
                self.reg.set_hl(v);
            }
            // PUSH
            0xc5 => self.stack_push(mem, self.reg.get_bc()),
            0xd5 => self.stack_push(mem, self.reg.get_de()),
            0xe5 => self.stack_push(mem, self.reg.get_hl()),
            0xf5 => self.stack_push(mem, self.reg.get_af()),
            // POP; POP AF masks the low nibble of F
            0xc1 => {
                let v = self.stack_pop(mem);
                self.reg.set_bc(v);
            }
            0xd1 => {
                let v = self.stack_pop(mem);
                self.reg.set_de(v);
            }
            0xe1 => {
                let v = self.stack_pop(mem);
                self.reg.set_hl(v);
            }
            0xf1 => {
                let v = self.stack_pop(mem);
                self.reg.set_af(v);
            }
            // ADD A,r8/d8
            0xc6 => {
                let v = self.imm(mem);
                self.add(v);
            }
            // ADC A,r8/d8
            0xce => {
                let v = self.imm(mem);
                self.adc(v);
            }
            // SUB A,r8/d8
            0xd6 => {
                let v = self.imm(mem);
                self.sub(v);
            }
            // SBC A,r8/d8
            0xde => {
                let v = self.imm(mem);
                self.sbc(v);
            }
            // AND A,r8/d8
            0xe6 => {
                let v = self.imm(mem);
                self.and(v);
            }
            // OR A,r8/d8
            0xf6 => {
                let v = self.imm(mem);
                self.or(v);
            }
            // XOR A,r8/d8
            0xee => {
                let v = self.imm(mem);
                self.xor(v);
            }
            // CP A,r8/d8
            0xfe => {
                let v = self.imm(mem);
                self.cp(v);
            }
            // ADD SP,i8
            0xe8 => self.reg.sp = self.add_sp(mem),
            // DI and EI
            0xf3 => self.ei = false,
            0xfb => self.ei = true,
            // JP
            0xc3 => self.reg.pc = self.imm_word(mem),
            0xe9 => self.reg.pc = self.reg.get_hl(),
            // JP cc: a taken jump costs one more machine cycle
            0xc2 => {
                let con = !self.reg.get_flag(Flag::Z);
                self.jp_if(mem, con);
                if con {
                    extra_cycles = 1;
                }
            }
            0xca => {
                let con = self.reg.get_flag(Flag::Z);
                self.jp_if(mem, con);
                if con {
                    extra_cycles = 1;
                }
            }
            0xd2 => {
                let con = !self.reg.get_flag(Flag::C);
                self.jp_if(mem, con);
                if con {
                    extra_cycles = 1;
                }
            }
            0xda => {
                let con = self.reg.get_flag(Flag::C);
                self.jp_if(mem, con);
                if con {
                    extra_cycles = 1;
                }
            }
            // CALL
            0xcd => {
                let addr = self.imm_word(mem);
                self.call(mem, addr);
            }
            // CALL cc: a taken call costs three more machine cycles
            0xc4 => {
                let con = !self.reg.get_flag(Flag::Z);
                self.call_if(mem, con);
                if con {
                    extra_cycles = 3;
                }
            }
            0xcc => {
                let con = self.reg.get_flag(Flag::Z);
                self.call_if(mem, con);
                if con {
                    extra_cycles = 3;
                }
            }
            0xd4 => {
                let con = !self.reg.get_flag(Flag::C);
                self.call_if(mem, con);
                if con {
                    extra_cycles = 3;
                }
            }
            0xdc => {
                let con = self.reg.get_flag(Flag::C);
                self.call_if(mem, con);
                if con {
                    extra_cycles = 3;
                }
            }
            // RST
            0xc7 => self.rst(mem, 0x00),
            0xcf => self.rst(mem, 0x08),
            0xd7 => self.rst(mem, 0x10),
            0xdf => self.rst(mem, 0x18),
            0xe7 => self.rst(mem, 0x20),
            0xef => self.rst(mem, 0x28),
            0xf7 => self.rst(mem, 0x30),
            0xff => self.rst(mem, 0x38),
            // RET
            0xc9 => self.ret(mem),
            // RET cc: a taken return costs three more machine cycles
            0xc0 => {
                let con = !self.reg.get_flag(Flag::Z);
                self.ret_if(mem, con);
                if con {
                    extra_cycles = 3;
                }
            }
            0xc8 => {
                let con = self.reg.get_flag(Flag::Z);
                self.ret_if(mem, con);
                if con {
                    extra_cycles = 3;
                }
            }
            0xd0 => {
                let con = !self.reg.get_flag(Flag::C);
                self.ret_if(mem, con);
                if con {
                    extra_cycles = 3;
                }
            }
            0xd8 => {
                let con = self.reg.get_flag(Flag::C);
                self.ret_if(mem, con);
                if con {
                    extra_cycles = 3;
                }
            }
            // RETI: RET, then interrupts are enabled
            0xd9 => {
                self.ret(mem);
                self.ei = true;
            }
            // Prefix: the next byte selects from the second table
            0xcb => {
                let ext = self.imm(mem);
                self.ex_ext(mem, ext);
                return ext_op_cycles(ext);
            }
            // The unassigned opcodes do nothing
            _ => {}
        };
        op_cycles(opcode) + extra_cycles
    }

    /// Fetches the instruction at PC and executes it; returns its cost in
    /// machine cycles, the penalty of a taken conditional branch included.
    pub fn ex<M: Memory>(&mut self, mem: &mut M) -> (cycles: u32)
        ensures
            final(self).on(final(mem)) == old(self).on(old(mem)).exec_next().next,
            cycles == old(self).on(old(mem)).exec_next().cycles,
            cycles <= 6,
    {
        let opcode = self.imm(mem);
        match opcode {
            0x00..=0x3f => self.ex_low(mem, opcode),
            0x40..=0x7f => self.ex_load(mem, opcode),
            0x80..=0xbf => self.ex_alu(mem, opcode),
            _ => self.ex_high(mem, opcode),
        }
    }

    /// Interrupt dispatch at the top of a step. With a requested-and-enabled
    /// source pending and IME set, the lowest-numbered one is serviced at a
    /// cost of 4 machine cycles. With one pending and IME clear, a halted CPU
    /// is woken and nothing else happens. Returns 0 when nothing was
    /// serviced.
    pub fn hi<M: Memory>(&mut self, mem: &mut M) -> (cycles: u32)
        ensures
            old(self).on(old(mem)).pending() != 0 && old(self).ei ==> cycles == 4
                && final(self).on(final(mem)) == old(self).on(old(mem)).service(
                lowest_bit(old(self).on(old(mem)).pending()),
            ),
            old(self).on(old(mem)).pending() != 0 && !old(self).ei ==> cycles == 0
                && final(mem)@ == old(mem)@
                && *final(self) == (Cpu { halted: false, ..*old(self) }),
            old(self).on(old(mem)).pending() == 0 ==> cycles == 0 && final(mem)@ == old(mem)@
                && *final(self) == *old(self),
    {
        if !self.halted && !self.ei {
            return 0;
        }
        let intf = mem.get(0xff0f);
        let inte = mem.get(0xffff);
        let ii = inte & intf & 0x1f;
        if ii == 0x00 {
            return 0;
        }
        self.halted = false;
        if !self.ei {
            return 0;
        }
        self.ei = false;

        let n: u8 = if ii & 0x01 != 0 {
            0
        } else if ii & 0x02 != 0 {
            1
        } else if ii & 0x04 != 0 {
            2
        } else if ii & 0x08 != 0 {
            3
        } else {
            4
        };
        mem.set(0xff0f, intf & !(1u8 << n));
        let pc = self.reg.pc;
        self.stack_push(mem, pc);
        self.reg.pc = 0x0040 + 8 * (n as u16);
        4
    }

    /// One step of the CPU: services an interrupt, idles while halted, or
    /// executes one instruction. Returns the master-clock ticks consumed.
    pub fn next<M: Memory>(&mut self, mem: &mut M) -> (ticks: u32)
        ensures
            final(self).on(final(mem)) == old(self).on(old(mem)).step().next,
            ticks == old(self).on(old(mem)).step().cycles,
            ticks <= 24,
    {
        let mac = {
            let c = self.hi(mem);
            if c != 0 {
                c
            } else if self.halted {
                op_cycles(0x00)
            } else {
                self.ex(mem)
            }
        };
        mac * 4
    }
}

} // verus!
