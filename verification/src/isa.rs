//! The instruction set, stated as pure functions on the machine state.
//!
//! An opcode byte is read as the octal digits `x y z` (`x = op / 64`,
//! `y = op / 8 % 8`, `z = op % 8`), with `p = y / 2` and `q = y % 2`; the
//! operand tables `r8`, `rp`, `rp2`, the condition table `cc` and the
//! operation tables `alu8` and `rot8` are indexed by those digits.
use vstd::prelude::*;
use crate::memory::{Memory, word_of, lo_byte, hi_byte, next_addr};
use crate::register::{Register, Flag};
use crate::cpu::Cpu;

verus! {

/// A CPU together with the bus it drives.
pub struct Machine<M: Memory> {
    pub cpu: Cpu,
    /// The state of the bus.
    pub mem: M::V,
}

pub open spec fn bit_of(b: bool) -> u8 {
    if b {
        1
    } else {
        0
    }
}

/// Carry out of bit 3 of `a + b` (or borrow into bit 4 of `a - b`), read off
/// the result `r`.
pub open spec fn half_carry(a: u8, b: u8, r: u8) -> bool {
    (a ^ b ^ r) & 0x10 != 0
}

pub open spec fn carry(a: u8, b: u8, c: u8) -> bool {
    a + b + c > 0xff
}

pub open spec fn borrow(a: u8, b: u8, c: u8) -> bool {
    a < b + c
}

/// An 8-bit displacement read as a signed number, as a 16-bit addend.
pub open spec fn sign_extend(n: u8) -> u16 {
    if n < 0x80 {
        n as u16
    } else {
        (0xff00 + n) as u16
    }
}

// ---------------------------------------------------------------------------
// 8-bit arithmetic and logic on the accumulator

pub open spec fn alu_add(reg: Register, v: u8) -> Register {
    let r = reg.a.wrapping_add(v);
    Register { a: r, ..reg.with_flags(r == 0, false, half_carry(reg.a, v, r), carry(reg.a, v, 0)) }
}

pub open spec fn alu_adc(reg: Register, v: u8) -> Register {
    let c = bit_of(reg.flag(Flag::C));
    let r = reg.a.wrapping_add(v).wrapping_add(c);
    Register { a: r, ..reg.with_flags(r == 0, false, half_carry(reg.a, v, r), carry(reg.a, v, c)) }
}

pub open spec fn alu_sub(reg: Register, v: u8) -> Register {
    let r = reg.a.wrapping_sub(v);
    Register { a: r, ..reg.with_flags(r == 0, true, half_carry(reg.a, v, r), borrow(reg.a, v, 0)) }
}

pub open spec fn alu_sbc(reg: Register, v: u8) -> Register {
    let c = bit_of(reg.flag(Flag::C));
    let r = reg.a.wrapping_sub(v).wrapping_sub(c);
    Register { a: r, ..reg.with_flags(r == 0, true, half_carry(reg.a, v, r), borrow(reg.a, v, c)) }
}

pub open spec fn alu_and(reg: Register, v: u8) -> Register {
    let r = reg.a & v;
    Register { a: r, ..reg.with_flags(r == 0, false, true, false) }
}

pub open spec fn alu_or(reg: Register, v: u8) -> Register {
    let r = reg.a | v;
    Register { a: r, ..reg.with_flags(r == 0, false, false, false) }
}

pub open spec fn alu_xor(reg: Register, v: u8) -> Register {
    let r = reg.a ^ v;
    Register { a: r, ..reg.with_flags(r == 0, false, false, false) }
}

/// CP: the flags of SUB, the accumulator unchanged.
pub open spec fn alu_cp(reg: Register, v: u8) -> Register {
    Register { a: reg.a, ..alu_sub(reg, v) }
}

/// The eight accumulator operations, in opcode order:
/// ADD, ADC, SUB, SBC, AND, XOR, OR, CP.
pub open spec fn alu8(reg: Register, y: int, v: u8) -> Register {
    if y == 0 {
        alu_add(reg, v)
    } else if y == 1 {
        alu_adc(reg, v)
    } else if y == 2 {
        alu_sub(reg, v)
    } else if y == 3 {
        alu_sbc(reg, v)
    } else if y == 4 {
        alu_and(reg, v)
    } else if y == 5 {
        alu_xor(reg, v)
    } else if y == 6 {
        alu_or(reg, v)
    } else {
        alu_cp(reg, v)
    }
}

/// INC on an 8-bit value: the flags after it (C untouched) and the result.
pub open spec fn alu_inc(reg: Register, v: u8) -> (Register, u8) {
    let r = v.wrapping_add(1);
    (reg.with_flag(Flag::Z, r == 0).with_flag(Flag::N, false).with_flag(
        Flag::H,
        half_carry(v, 1, r),
    ), r)
}

/// DEC on an 8-bit value: the flags after it (C untouched) and the result.
pub open spec fn alu_dec(reg: Register, v: u8) -> (Register, u8) {
    let r = v.wrapping_sub(1);
    (reg.with_flag(Flag::Z, r == 0).with_flag(Flag::N, true).with_flag(
        Flag::H,
        half_carry(v, 1, r),
    ), r)
}

/// ADD HL,v: H is the carry out of bit 11, C the carry out of bit 15, Z is
/// untouched.
pub open spec fn alu_add_hl(reg: Register, v: u16) -> Register {
    let o = reg.hl();
    let r = o.wrapping_add(v);
    reg.with_flag(Flag::N, false).with_flag(Flag::H, (o ^ v ^ r) & 0x1000 != 0).with_flag(
        Flag::C,
        o + v > 0xffff,
    ).with_hl(r)
}

/// SP plus a signed 8-bit displacement: Z and N are cleared, H and C are the
/// carries out of bit 3 and bit 7 of the low byte.
pub open spec fn alu_add_sp(reg: Register, n: u8) -> (Register, u16) {
    let o = reg.sp;
    let d = sign_extend(n);
    let r = o.wrapping_add(d);
    (reg.with_flags(false, false, (o ^ d ^ r) & 0x0010 != 0, (o ^ d ^ r) & 0x0100 != 0), r)
}

/// The correction DAA applies: 0x06 for the low digit, 0x60 for the high one.
pub open spec fn daa_adjust(reg: Register) -> u8 {
    let hi: u8 = if reg.flag(Flag::C) || (!reg.flag(Flag::N) && reg.a > 0x99) {
        0x60
    } else {
        0x00
    };
    let lo: u8 = if reg.flag(Flag::H) || (!reg.flag(Flag::N) && (reg.a & 0x0f) > 0x09) {
        0x06
    } else {
        0x00
    };
    (hi + lo) as u8
}

/// DAA: binary-coded-decimal correction after an addition (N clear) or a
/// subtraction (N set). C tells whether a correction of at least 0x60 was
/// applied, H is cleared, N is kept.
pub open spec fn alu_daa(reg: Register) -> Register {
    let adjust = daa_adjust(reg);
    let a = if !reg.flag(Flag::N) {
        reg.a.wrapping_add(adjust)
    } else {
        reg.a.wrapping_sub(adjust)
    };
    Register {
        a,
        ..reg.with_flag(Flag::C, adjust >= 0x60).with_flag(Flag::H, false).with_flag(
            Flag::Z,
            a == 0,
        )
    }
}

pub open spec fn alu_cpl(reg: Register) -> Register {
    Register { a: !reg.a, ..reg.with_flag(Flag::N, true).with_flag(Flag::H, true) }
}

pub open spec fn alu_ccf(reg: Register) -> Register {
    reg.with_flag(Flag::N, false).with_flag(Flag::H, false).with_flag(
        Flag::C,
        !reg.flag(Flag::C),
    )
}

pub open spec fn alu_scf(reg: Register) -> Register {
    reg.with_flag(Flag::N, false).with_flag(Flag::H, false).with_flag(Flag::C, true)
}

// ---------------------------------------------------------------------------
// Rotates and shifts

pub open spec fn rlc_value(v: u8) -> u8 {
    (v << 1) | (v >> 7)
}

pub open spec fn rrc_value(v: u8) -> u8 {
    (v >> 1) | ((v & 0x01) << 7)
}

pub open spec fn rl_value(v: u8, c: bool) -> u8 {
    (v << 1) | bit_of(c)
}

pub open spec fn rr_value(v: u8, c: bool) -> u8 {
    (v >> 1) | (bit_of(c) << 7)
}

pub open spec fn sla_value(v: u8) -> u8 {
    v << 1
}

pub open spec fn sra_value(v: u8) -> u8 {
    (v >> 1) | (v & 0x80)
}

pub open spec fn srl_value(v: u8) -> u8 {
    v >> 1
}

pub open spec fn swap_value(v: u8) -> u8 {
    (v >> 4) | (v << 4)
}

/// The result of rotate/shift operation `y` on `v`, in opcode order:
/// RLC, RRC, RL, RR, SLA, SRA, SWAP, SRL.
pub open spec fn rot_value(y: int, v: u8, c: bool) -> u8 {
    if y == 0 {
        rlc_value(v)
    } else if y == 1 {
        rrc_value(v)
    } else if y == 2 {
        rl_value(v, c)
    } else if y == 3 {
        rr_value(v, c)
    } else if y == 4 {
        sla_value(v)
    } else if y == 5 {
        sra_value(v)
    } else if y == 6 {
        swap_value(v)
    } else {
        srl_value(v)
    }
}

/// The bit that rotate/shift operation `y` moves into C (SWAP clears C).
pub open spec fn rot_carry(y: int, v: u8) -> bool {
    if y == 0 || y == 2 || y == 4 {
        v >> 7 == 0x01
    } else if y == 6 {
        false
    } else {
        v & 0x01 == 0x01
    }
}

/// Rotate/shift operation `y` on `v`: Z from the result, N and H cleared, C
/// the bit moved out.
pub open spec fn rot8(reg: Register, y: int, v: u8) -> (Register, u8) {
    let r = rot_value(y, v, reg.flag(Flag::C));
    (reg.with_flags(r == 0, false, false, rot_carry(y, v)), r)
}

/// BIT p,v: Z is the complement of bit `p`, N cleared, H set, C kept.
pub open spec fn alu_bit(reg: Register, v: u8, p: u8) -> Register {
    reg.with_flag(Flag::Z, v & (1u8 << p) == 0).with_flag(Flag::N, false).with_flag(
        Flag::H,
        true,
    )
}

pub open spec fn res_value(v: u8, p: u8) -> u8 {
    v & !(1u8 << p)
}

pub open spec fn set_value(v: u8, p: u8) -> u8 {
    v | (1u8 << p)
}

// ---------------------------------------------------------------------------
// Operand tables

impl Cpu {
    pub open spec fn with_reg(self, reg: Register) -> Cpu {
        Cpu { reg, ..self }
    }
}

impl<M: Memory> Machine<M> {
    pub open spec fn with_reg(self, reg: Register) -> Self {
        Machine { cpu: self.cpu.with_reg(reg), mem: self.mem }
    }

    /// The machine with the state of its bus replaced.
    pub open spec fn with_bus(self, mem: M::V) -> Self {
        Machine { cpu: self.cpu, mem }
    }

    pub open spec fn with_pc(self, pc: u16) -> Self {
        self.with_reg(Register { pc, ..self.cpu.reg })
    }

    pub open spec fn store(self, a: u16, v: u8) -> Self {
        Machine { cpu: self.cpu, mem: M::written(self.mem, a, v) }
    }

    pub open spec fn store_word(self, a: u16, v: u16) -> Self {
        self.store(a, lo_byte(v)).store(next_addr(a), hi_byte(v))
    }

    pub open spec fn load_word(self, a: u16) -> u16 {
        word_of(M::read(self.mem, a), M::read(self.mem, next_addr(a)))
    }

    /// The byte at PC.
    pub open spec fn imm8(self) -> u8 {
        M::read(self.mem, self.cpu.reg.pc)
    }

    /// The little-endian word at PC.
    pub open spec fn imm16(self) -> u16 {
        self.load_word(self.cpu.reg.pc)
    }

    /// The machine with PC moved forward by `n` bytes.
    pub open spec fn skip(self, n: u16) -> Self {
        self.with_pc(self.cpu.reg.pc.wrapping_add(n))
    }

    /// PUSH: SP is decremented by two, then the word is stored at SP.
    pub open spec fn push(self, v: u16) -> Self {
        let sp = self.cpu.reg.sp.wrapping_sub(2);
        self.with_reg(Register { sp, ..self.cpu.reg }).store_word(sp, v)
    }

    /// The word POP reads.
    pub open spec fn top(self) -> u16 {
        self.load_word(self.cpu.reg.sp)
    }

    /// POP: the machine with SP incremented by two.
    pub open spec fn drop_top(self) -> Self {
        self.with_reg(Register { sp: self.cpu.reg.sp.wrapping_add(2), ..self.cpu.reg })
    }

    /// The 8-bit operand `i` of the table B, C, D, E, H, L, (HL), A.
    pub open spec fn r8(self, i: int) -> u8 {
        let reg = self.cpu.reg;
        if i == 0 {
            reg.b
        } else if i == 1 {
            reg.c
        } else if i == 2 {
            reg.d
        } else if i == 3 {
            reg.e
        } else if i == 4 {
            reg.h
        } else if i == 5 {
            reg.l
        } else if i == 6 {
            M::read(self.mem, reg.hl())
        } else {
            reg.a
        }
    }

    /// The machine with `v` written to the 8-bit operand `i`.
    pub open spec fn with_r8(self, i: int, v: u8) -> Self {
        let reg = self.cpu.reg;
        if i == 0 {
            self.with_reg(Register { b: v, ..reg })
        } else if i == 1 {
            self.with_reg(Register { c: v, ..reg })
        } else if i == 2 {
            self.with_reg(Register { d: v, ..reg })
        } else if i == 3 {
            self.with_reg(Register { e: v, ..reg })
        } else if i == 4 {
            self.with_reg(Register { h: v, ..reg })
        } else if i == 5 {
            self.with_reg(Register { l: v, ..reg })
        } else if i == 6 {
            self.store(reg.hl(), v)
        } else {
            self.with_reg(Register { a: v, ..reg })
        }
    }

    /// The 16-bit operand `p` of the table BC, DE, HL, SP.
    pub open spec fn rp(self, p: int) -> u16 {
        let reg = self.cpu.reg;
        if p == 0 {
            reg.bc()
        } else if p == 1 {
            reg.de()
        } else if p == 2 {
            reg.hl()
        } else {
            reg.sp
        }
    }

    pub open spec fn with_rp(self, p: int, v: u16) -> Self {
        let reg = self.cpu.reg;
        if p == 0 {
            self.with_reg(reg.with_bc(v))
        } else if p == 1 {
            self.with_reg(reg.with_de(v))
        } else if p == 2 {
            self.with_reg(reg.with_hl(v))
        } else {
            self.with_reg(Register { sp: v, ..reg })
        }
    }

    /// The 16-bit operand `p` of the table BC, DE, HL, AF (PUSH and POP).
    pub open spec fn rp2(self, p: int) -> u16 {
        let reg = self.cpu.reg;
        if p == 0 {
            reg.bc()
        } else if p == 1 {
            reg.de()
        } else if p == 2 {
            reg.hl()
        } else {
            reg.af()
        }
    }

    pub open spec fn with_rp2(self, p: int, v: u16) -> Self {
        let reg = self.cpu.reg;
        if p == 0 {
            self.with_reg(reg.with_bc(v))
        } else if p == 1 {
            self.with_reg(reg.with_de(v))
        } else if p == 2 {
            self.with_reg(reg.with_hl(v))
        } else {
            self.with_reg(reg.with_af(v))
        }
    }

    /// The branch condition `i` of the table NZ, Z, NC, C.
    pub open spec fn cc(self, i: int) -> bool {
        let reg = self.cpu.reg;
        if i == 0 {
            !reg.flag(Flag::Z)
        } else if i == 1 {
            reg.flag(Flag::Z)
        } else if i == 2 {
            !reg.flag(Flag::C)
        } else {
            reg.flag(Flag::C)
        }
    }

    /// The address the indirect accumulator loads and stores of column 2 use
    /// (BC, DE, HL with post-increment, HL with post-decrement), and HL after.
    pub open spec fn ind_addr(self, p: int) -> u16 {
        if p == 0 {
            self.cpu.reg.bc()
        } else if p == 1 {
            self.cpu.reg.de()
        } else {
            self.cpu.reg.hl()
        }
    }

    pub open spec fn ind_step(self, p: int) -> Self {
        let reg = self.cpu.reg;
        if p == 2 {
            self.with_reg(reg.with_hl(reg.hl().wrapping_add(1)))
        } else if p == 3 {
            self.with_reg(reg.with_hl(reg.hl().wrapping_sub(1)))
        } else {
            self
        }
    }

    /// A relative jump by the signed displacement `n`.
    pub open spec fn jump_rel(self, n: u8) -> Self {
        self.with_pc(self.cpu.reg.pc.wrapping_add(sign_extend(n)))
    }

    /// CALL and RST: the return address is pushed, then PC is set.
    pub open spec fn call(self, addr: u16) -> Self {
        self.push(self.cpu.reg.pc).with_pc(addr)
    }

    /// RET: PC is popped.
    pub open spec fn ret(self) -> Self {
        self.drop_top().with_pc(self.top())
    }
}

// ---------------------------------------------------------------------------
// Instructions

/// What one instruction leaves behind: the machine after it and its cost in
/// machine cycles (one machine cycle is four master-clock ticks).
pub struct Outcome<M: Memory> {
    pub next: Machine<M>,
    pub cycles: u32,
}

pub open spec fn done<M: Memory>(next: Machine<M>, cycles: u32) -> Outcome<M> {
    Outcome { next, cycles }
}

/// Cost of a prefixed instruction: 2, or with the (HL) operand 3 for BIT and
/// 4 for the others.
pub open spec fn cb_cycles(op: u8) -> u32 {
    if op % 8 == 6 {
        if op / 64 == 1 {
            3
        } else {
            4
        }
    } else {
        2
    }
}

impl<M: Memory> Machine<M> {
    /// A prefixed (0xCB) instruction: rotate/shift, BIT, RES or SET on the
    /// 8-bit operand `z`.
    pub open spec fn exec_cb(self, op: u8) -> Self {
        let x = op as int / 64;
        let y = op as int / 8 % 8;
        let z = op as int % 8;
        let v = self.r8(z);
        if x == 0 {
            let (reg, r) = rot8(self.cpu.reg, y, v);
            self.with_reg(reg).with_r8(z, r)
        } else if x == 1 {
            self.with_reg(alu_bit(self.cpu.reg, v, y as u8))
        } else if x == 2 {
            self.with_r8(z, res_value(v, y as u8))
        } else {
            self.with_r8(z, set_value(v, y as u8))
        }
    }

    /// Column 0 of the first quadrant: NOP, LD (nn),SP, STOP and the
    /// relative jumps.
    pub open spec fn exec_x0_z0(self, y: int) -> Outcome<M> {
        if y == 0 {
            done(self, 1)
        } else if y == 1 {
            done(self.skip(2).store_word(self.imm16(), self.cpu.reg.sp), 5)
        } else if y == 2 {
            done(self.skip(1), 1)
        } else if y == 3 {
            done(self.skip(1).jump_rel(self.imm8()), 3)
        } else if self.cc(y - 4) {
            done(self.skip(1).jump_rel(self.imm8()), 3)
        } else {
            done(self.skip(1), 2)
        }
    }

    /// Column 2 of the first quadrant: accumulator loads and stores through
    /// BC, DE, HL+ and HL-.
    pub open spec fn exec_x0_z2(self, p: int, q: int) -> Outcome<M> {
        let a = self.ind_addr(p);
        if q == 0 {
            done(self.store(a, self.cpu.reg.a).ind_step(p), 2)
        } else {
            done(self.with_r8(7, M::read(self.mem, a)).ind_step(p), 2)
        }
    }

    /// Column 7 of the first quadrant: the accumulator rotates (which force
    /// Z to 0), DAA, CPL, SCF and CCF.
    pub open spec fn exec_x0_z7(self, y: int) -> Outcome<M> {
        let reg = self.cpu.reg;
        if y < 4 {
            let (flags, r) = rot8(reg, y, reg.a);
            done(self.with_reg(Register { a: r, ..flags }.with_flag(Flag::Z, false)), 1)
        } else if y == 4 {
            done(self.with_reg(alu_daa(reg)), 1)
        } else if y == 5 {
            done(self.with_reg(alu_cpl(reg)), 1)
        } else if y == 6 {
            done(self.with_reg(alu_scf(reg)), 1)
        } else {
            done(self.with_reg(alu_ccf(reg)), 1)
        }
    }

    /// The first quadrant (opcodes 0x00 to 0x3F).
    pub open spec fn exec_x0(self, y: int, z: int) -> Outcome<M> {
        let p = y / 2;
        let q = y % 2;
        if z == 0 {
            self.exec_x0_z0(y)
        } else if z == 1 {
            if q == 0 {
                done(self.skip(2).with_rp(p, self.imm16()), 3)
            } else {
                done(self.with_reg(alu_add_hl(self.cpu.reg, self.rp(p))), 2)
            }
        } else if z == 2 {
            self.exec_x0_z2(p, q)
        } else if z == 3 {
            if q == 0 {
                done(self.with_rp(p, self.rp(p).wrapping_add(1)), 2)
            } else {
                done(self.with_rp(p, self.rp(p).wrapping_sub(1)), 2)
            }
        } else if z == 4 {
            let (reg, r) = alu_inc(self.cpu.reg, self.r8(y));
            done(self.with_reg(reg).with_r8(y, r), if y == 6 { 3 } else { 1 })
        } else if z == 5 {
            let (reg, r) = alu_dec(self.cpu.reg, self.r8(y));
            done(self.with_reg(reg).with_r8(y, r), if y == 6 { 3 } else { 1 })
        } else if z == 6 {
            done(self.skip(1).with_r8(y, self.imm8()), if y == 6 { 3 } else { 2 })
        } else {
            self.exec_x0_z7(y)
        }
    }

    /// Column 0 of the last quadrant: conditional returns, the high-page
    /// loads and stores with an immediate offset, and the two SP additions.
    pub open spec fn exec_x3_z0(self, y: int) -> Outcome<M> {
        if y < 4 {
            if self.cc(y) {
                done(self.ret(), 5)
            } else {
                done(self, 2)
            }
        } else if y == 4 {
            done(self.skip(1).store(word_of(self.imm8(), 0xff), self.cpu.reg.a), 3)
        } else if y == 5 {
            let (reg, r) = alu_add_sp(self.skip(1).cpu.reg, self.imm8());
            done(self.with_reg(Register { sp: r, ..reg }), 4)
        } else if y == 6 {
            done(self.skip(1).with_r8(7, M::read(self.mem, word_of(self.imm8(), 0xff))), 3)
        } else {
            let (reg, r) = alu_add_sp(self.skip(1).cpu.reg, self.imm8());
            done(self.with_reg(reg.with_hl(r)), 3)
        }
    }

    /// Column 1 of the last quadrant: POP, RET, RETI, JP HL and LD SP,HL.
    pub open spec fn exec_x3_z1(self, p: int, q: int) -> Outcome<M> {
        if q == 0 {
            done(self.drop_top().with_rp2(p, self.top()), 3)
        } else if p == 0 {
            done(self.ret(), 4)
        } else if p == 1 {
            done(Machine { cpu: Cpu { ei: true, ..self.ret().cpu }, mem: self.mem }, 4)
        } else if p == 2 {
            done(self.with_pc(self.cpu.reg.hl()), 1)
        } else {
            done(self.with_reg(Register { sp: self.cpu.reg.hl(), ..self.cpu.reg }), 2)
        }
    }

    /// Column 2 of the last quadrant: conditional jumps and the accumulator
    /// loads and stores through 0xFF00+C and through an immediate address.
    pub open spec fn exec_x3_z2(self, y: int) -> Outcome<M> {
        if y < 4 {
            if self.cc(y) {
                done(self.with_pc(self.imm16()), 4)
            } else {
                done(self.skip(2), 3)
            }
        } else if y == 4 {
            done(self.store(word_of(self.cpu.reg.c, 0xff), self.cpu.reg.a), 2)
        } else if y == 5 {
            done(self.skip(2).store(self.imm16(), self.cpu.reg.a), 4)
        } else if y == 6 {
            done(self.with_r8(7, M::read(self.mem, word_of(self.cpu.reg.c, 0xff))), 2)
        } else {
            done(self.skip(2).with_r8(7, M::read(self.mem, self.imm16())), 4)
        }
    }

    /// The last quadrant (opcodes 0xC0 to 0xFF) but for the 0xCB prefix.
    /// The eleven unassigned opcodes do nothing and cost nothing.
    pub open spec fn exec_x3(self, y: int, z: int) -> Outcome<M> {
        let p = y / 2;
        let q = y % 2;
        if z == 0 {
            self.exec_x3_z0(y)
        } else if z == 1 {
            self.exec_x3_z1(p, q)
        } else if z == 2 {
            self.exec_x3_z2(y)
        } else if z == 3 {
            if y == 0 {
                done(self.with_pc(self.imm16()), 4)
            } else if y == 6 {
                done(Machine { cpu: Cpu { ei: false, ..self.cpu }, mem: self.mem }, 1)
            } else if y == 7 {
                done(Machine { cpu: Cpu { ei: true, ..self.cpu }, mem: self.mem }, 1)
            } else {
                done(self, 0)
            }
        } else if z == 4 {
            if y < 4 {
                if self.cc(y) {
                    done(self.skip(2).call(self.imm16()), 6)
                } else {
                    done(self.skip(2), 3)
                }
            } else {
                done(self, 0)
            }
        } else if z == 5 {
            if q == 0 {
                done(self.push(self.rp2(p)), 4)
            } else if p == 0 {
                done(self.skip(2).call(self.imm16()), 6)
            } else {
                done(self, 0)
            }
        } else if z == 6 {
            done(self.skip(1).with_reg(alu8(self.skip(1).cpu.reg, y, self.imm8())), 2)
        } else {
            done(self.call((y * 8) as u16), 4)
        }
    }

    /// The instruction with opcode `op`, on the machine as it stands after
    /// the opcode byte has been fetched.
    pub open spec fn exec_op(self, op: u8) -> Outcome<M> {
        let x = op as int / 64;
        let y = op as int / 8 % 8;
        let z = op as int % 8;
        if op == 0xcb {
            done(self.skip(1).exec_cb(self.imm8()), cb_cycles(self.imm8()))
        } else if op == 0x76 {
            done(Machine { cpu: Cpu { halted: true, ..self.cpu }, mem: self.mem }, 1)
        } else if x == 0 {
            self.exec_x0(y, z)
        } else if x == 1 {
            done(self.with_r8(y, self.r8(z)), if y == 6 || z == 6 { 2 } else { 1 })
        } else if x == 2 {
            done(self.with_reg(alu8(self.cpu.reg, y, self.r8(z))), if z == 6 { 2 } else { 1 })
        } else {
            self.exec_x3(y, z)
        }
    }

    /// Fetch and execute: the opcode at PC is fetched, PC moves past it, and
    /// the instruction runs.
    pub open spec fn exec_next(self) -> Outcome<M> {
        self.skip(1).exec_op(self.imm8())
    }

    /// The requested-and-enabled interrupt sources (five bits).
    pub open spec fn pending(self) -> u8 {
        M::read(self.mem, 0xffff) & M::read(self.mem, 0xff0f) & 0x1f
    }

    /// Servicing interrupt source `n`: its request bit is cleared, IME is
    /// cleared, PC is pushed and execution continues at `0x40 + 8 * n`.
    pub open spec fn service(self, n: u8) -> Self {
        Machine {
            cpu: Cpu { halted: false, ei: false, ..self.cpu },
            mem: M::written(self.mem, 0xff0f, M::read(self.mem, 0xff0f) & !(1u8 << n)),
        }.call((0x40 + 8 * n) as u16)
    }

    /// One step of the CPU, with its cost in master-clock ticks.
    ///
    /// A pending interrupt with IME set is serviced (16 ticks). A halted CPU
    /// with nothing pending idles (4 ticks). Otherwise one instruction is
    /// fetched and executed; a halted CPU is woken by a pending interrupt
    /// even when IME is clear.
    pub open spec fn step(self) -> Outcome<M> {
        let pending = self.pending();
        if pending != 0 && self.cpu.ei {
            done(self.service(lowest_bit(pending)), 16)
        } else if self.cpu.halted && pending == 0 {
            done(self, 4)
        } else {
            let awake = Machine { cpu: Cpu { halted: false, ..self.cpu }, mem: self.mem };
            let o = awake.exec_next();
            done(o.next, (o.cycles * 4) as u32)
        }
    }
}

/// Index of the lowest set bit among the five interrupt bits.
pub open spec fn lowest_bit(m: u8) -> u8 {
    if m & 0x01 != 0 {
        0
    } else if m & 0x02 != 0 {
        1
    } else if m & 0x04 != 0 {
        2
    } else if m & 0x08 != 0 {
        3
    } else {
        4
    }
}

proof fn lemma_five_bits(p: u8, e: u8, r: u8)
    by (bit_vector)
    requires
        p == e & r & 0x1f,
    ensures
        p & 0x1f == p,
{
}

proof fn lemma_lowest_bit(p: u8, r: u8, n: u8, k: u8)
    by (bit_vector)
    requires
        p != 0,
        p & 0x1f == p,
        p & 0x01 != 0 ==> n == 0,
        p & 0x01 == 0 && p & 0x02 != 0 ==> n == 1,
        p & 0x01 == 0 && p & 0x02 == 0 && p & 0x04 != 0 ==> n == 2,
        p & 0x01 == 0 && p & 0x02 == 0 && p & 0x04 == 0 && p & 0x08 != 0 ==> n == 3,
        p & 0x01 == 0 && p & 0x02 == 0 && p & 0x04 == 0 && p & 0x08 == 0 ==> n == 4,
        k < 8,
    ensures
        n <= 4,
        p & (1u8 << n) != 0,
        k < n ==> p & (1u8 << k) == 0,
        (r & !(1u8 << n)) & (1u8 << n) == 0,
        k != n ==> (r & !(1u8 << n)) & (1u8 << k) == r & (1u8 << k),
{
}

/// NOP. Where no interrupt is serviced and the CPU is not halted, a step on
/// the opcode 0x00 moves PC past it, for 4 ticks, and changes nothing else.
pub proof fn lemma_nop<M: Memory>(m: Machine<M>)
    requires
        !m.cpu.halted,
        m.pending() == 0 || !m.cpu.ei,
        m.imm8() == 0x00,
    ensures
        m.step() == done(m.skip(1), 4),
{
    let awake = Machine::<M> { cpu: Cpu { halted: false, ..m.cpu }, mem: m.mem };
    assert(awake == m);
    assert(m.skip(1).exec_op(0x00) == m.skip(1).exec_x0(0, 0));
}

/// Interrupt dispatch. With IME set and a source both requested and
/// enabled, a step services the lowest-numbered such source `n`, for 16
/// ticks: the byte stored to the request register is the old one with bit
/// `n` cleared and no other changed, IME and the halted flag are cleared,
/// PC is pushed, and execution continues at `0x40 + 8 * n`.
pub proof fn lemma_interrupt_dispatch<M: Memory>(m: Machine<M>, k: u8)
    requires
        m.cpu.ei,
        m.pending() != 0,
        k < 8,
    ensures
        ({
            let n = lowest_bit(m.pending());
            let requests = M::read(m.mem, 0xff0f);
            let cleared = (requests & !(1u8 << n)) as u8;
            let o = m.step();
            &&& n <= 4
            &&& m.pending() & (1u8 << n) != 0
            &&& k < n ==> m.pending() & (1u8 << k) == 0
            &&& cleared & (1u8 << n) == 0
            &&& k != n ==> cleared & (1u8 << k) == requests & (1u8 << k)
            &&& o.cycles == 16
            &&& o.next == (Machine::<M> {
                cpu: Cpu { halted: false, ei: false, ..m.cpu },
                mem: M::written(m.mem, 0xff0f, cleared),
            }).push(m.cpu.reg.pc).with_pc((0x40 + 8 * n) as u16)
            &&& o.next.cpu.reg.pc == 0x40 + 8 * n
            &&& o.next.cpu.reg.sp == m.cpu.reg.sp.wrapping_sub(2)
            &&& !o.next.cpu.ei
            &&& !o.next.cpu.halted
        }),
{
    let p = m.pending();
    let e = M::read(m.mem, 0xffff);
    let r = M::read(m.mem, 0xff0f);
    lemma_five_bits(p, e, r);
    lemma_lowest_bit(p, r, lowest_bit(p), k);
}

// ---------------------------------------------------------------------------
// Laws of the arithmetic unit

proof fn lemma_nibble_carry(a: u8, v: u8, c: u8, r: u8, d: u8)
    by (bit_vector)
    requires
        c <= 1,
        a + v + c < 256 ==> r == a + v + c,
        a + v + c >= 256 ==> r == a + v + c - 256,
        a >= v + c ==> d == a - v - c,
        a < v + c ==> d == 256 + a - v - c,
    ensures
        ((a ^ v ^ r) & 0x10 != 0) == (a % 16 + v % 16 + c >= 16),
        ((a ^ v ^ d) & 0x10 != 0) == (a % 16 < v % 16 + c),
{
}

proof fn lemma_rotations(x: u8)
    by (bit_vector)
    ensures
        ((((x >> 4) | (x << 4)) >> 4) | (((x >> 4) | (x << 4)) << 4)) == x,
        ((((x >> 1) | ((x & 0x01) << 7)) << 1) | (((x >> 1) | ((x & 0x01) << 7)) >> 7)) == x,
        (((x << 1) | (x >> 7)) >> 1) | ((((x << 1) | (x >> 7)) & 0x01) << 7) == x,
        ((x >> 4) | (x << 4)) == 0 <==> x == 0,
{
}

proof fn lemma_decimal_adjust(a: u8, b: u8, r: u8, lo: u8, hi: u8, res: u8)
    by (bit_vector)
    requires
        a / 16 <= 9 && a % 16 <= 9,
        b / 16 <= 9 && b % 16 <= 9,
        a + b < 256 ==> r == a + b,
        a + b >= 256 ==> r == a + b - 256,
        a % 16 + b % 16 >= 16 || (r & 0x0f) > 9 ==> lo == 6,
        !(a % 16 + b % 16 >= 16 || (r & 0x0f) > 9) ==> lo == 0,
        a + b >= 256 || r > 0x99 ==> hi == 0x60,
        !(a + b >= 256 || r > 0x99) ==> hi == 0,
        r + hi + lo < 256 ==> res == r + hi + lo,
        r + hi + lo >= 256 ==> res == r + hi + lo - 256,
    ensures
        res / 16 <= 9 && res % 16 <= 9,
        a / 16 * 10 + a % 16 + b / 16 * 10 + b % 16 < 100 ==> res / 16 * 10 + res % 16 == a / 16
            * 10 + a % 16 + b / 16 * 10 + b % 16,
        a / 16 * 10 + a % 16 + b / 16 * 10 + b % 16 >= 100 ==> res / 16 * 10 + res % 16 + 100
            == a / 16 * 10 + a % 16 + b / 16 * 10 + b % 16,
        (hi == 0x60) == (a / 16 * 10 + a % 16 + b / 16 * 10 + b % 16 >= 100),
{
}

/// Whether both nibbles of `x` are decimal digits.
pub open spec fn bcd_valid(x: u8) -> bool {
    x / 16 <= 9 && x % 16 <= 9
}

/// The number 0..99 that the binary-coded-decimal byte `x` stands for.
pub open spec fn bcd_value(x: u8) -> int {
    (x / 16) * 10 + x % 16
}

/// ADD A,v leaves the low eight bits of `A + v` in A; H is set exactly when
/// the sum of the low nibbles reaches 0x10, C exactly when the sum reaches
/// 0x100, Z exactly when the result is zero, and N is cleared.
pub proof fn lemma_add_flags(reg: Register, v: u8)
    ensures
        alu_add(reg, v).a == (reg.a + v) % 256,
        alu_add(reg, v).flag(Flag::H) == (reg.a % 16 + v % 16 >= 0x10),
        alu_add(reg, v).flag(Flag::C) == (reg.a + v >= 0x100),
        alu_add(reg, v).flag(Flag::Z) == (alu_add(reg, v).a == 0),
        !alu_add(reg, v).flag(Flag::N),
{
    let r = reg.a.wrapping_add(v);
    let d = reg.a.wrapping_sub(v);
    lemma_nibble_carry(reg.a, v, 0, r, d);
    crate::register::lemma_with_flags(
        reg,
        r == 0,
        false,
        half_carry(reg.a, v, r),
        carry(reg.a, v, 0),
    );
}

/// ADC A,v adds the C flag into the sum, and H and C account for it.
pub proof fn lemma_adc_flags(reg: Register, v: u8)
    ensures
        alu_adc(reg, v).a == (reg.a + v + bit_of(reg.flag(Flag::C))) % 256,
        alu_adc(reg, v).flag(Flag::H) == (reg.a % 16 + v % 16 + bit_of(reg.flag(Flag::C))
            >= 0x10),
        alu_adc(reg, v).flag(Flag::C) == (reg.a + v + bit_of(reg.flag(Flag::C)) >= 0x100),
        alu_adc(reg, v).flag(Flag::Z) == (alu_adc(reg, v).a == 0),
        !alu_adc(reg, v).flag(Flag::N),
{
    let c = bit_of(reg.flag(Flag::C));
    let r = reg.a.wrapping_add(v).wrapping_add(c);
    let d = reg.a.wrapping_sub(v).wrapping_sub(c);
    lemma_nibble_carry(reg.a, v, c, r, d);
    crate::register::lemma_with_flags(
        reg,
        r == 0,
        false,
        half_carry(reg.a, v, r),
        carry(reg.a, v, c),
    );
}

/// SUB A,v leaves the low eight bits of `A - v` in A; H is set exactly on a
/// borrow out of the low nibble, C exactly when `A < v`, N is set. CP sets
/// the same flags and keeps A.
pub proof fn lemma_sub_flags(reg: Register, v: u8)
    ensures
        alu_sub(reg, v).a == (reg.a - v) % 256,
        alu_sub(reg, v).flag(Flag::H) == (reg.a % 16 < v % 16),
        alu_sub(reg, v).flag(Flag::C) == (reg.a < v),
        alu_sub(reg, v).flag(Flag::Z) == (reg.a == v),
        alu_sub(reg, v).flag(Flag::N),
        alu_cp(reg, v).f == alu_sub(reg, v).f,
        alu_cp(reg, v).a == reg.a,
{
    let r = reg.a.wrapping_add(v);
    let d = reg.a.wrapping_sub(v);
    lemma_nibble_carry(reg.a, v, 0, r, d);
    crate::register::lemma_with_flags(
        reg,
        d == 0,
        true,
        half_carry(reg.a, v, d),
        borrow(reg.a, v, 0),
    );
}

/// SBC A,v subtracts the C flag as well, and H and C account for it.
pub proof fn lemma_sbc_flags(reg: Register, v: u8)
    ensures
        alu_sbc(reg, v).a == (reg.a - v - bit_of(reg.flag(Flag::C))) % 256,
        alu_sbc(reg, v).flag(Flag::H) == (reg.a % 16 < v % 16 + bit_of(reg.flag(Flag::C))),
        alu_sbc(reg, v).flag(Flag::C) == (reg.a < v + bit_of(reg.flag(Flag::C))),
        alu_sbc(reg, v).flag(Flag::N),
{
    let c = bit_of(reg.flag(Flag::C));
    let r = reg.a.wrapping_add(v).wrapping_add(c);
    let d = reg.a.wrapping_sub(v).wrapping_sub(c);
    lemma_nibble_carry(reg.a, v, c, r, d);
    crate::register::lemma_with_flags(
        reg,
        d == 0,
        true,
        half_carry(reg.a, v, d),
        borrow(reg.a, v, c),
    );
}

/// SUB A,v followed by ADD A,v brings the accumulator back.
pub proof fn lemma_sub_then_add(reg: Register, v: u8)
    ensures
        alu_add(alu_sub(reg, v), v).a == reg.a,
{
}

/// SWAP is its own inverse, and it clears N, H and C; Z tells whether the
/// value is zero.
pub proof fn lemma_swap(reg: Register, x: u8)
    ensures
        swap_value(swap_value(x)) == x,
        rot8(reg, 6, x).1 == swap_value(x),
        rot8(reg, 6, x).0.flag(Flag::Z) == (x == 0),
        !rot8(reg, 6, x).0.flag(Flag::N),
        !rot8(reg, 6, x).0.flag(Flag::H),
        !rot8(reg, 6, x).0.flag(Flag::C),
{
    lemma_rotations(x);
    crate::register::lemma_with_flags(reg, swap_value(x) == 0, false, false, false);
}

/// RLC undoes RRC and RRC undoes RLC.
pub proof fn lemma_rlc_rrc(x: u8)
    ensures
        rlc_value(rrc_value(x)) == x,
        rrc_value(rlc_value(x)) == x,
{
    lemma_rotations(x);
}

/// DAA after ADD of two valid binary-coded-decimal bytes leaves a valid
/// binary-coded-decimal byte that stands for the sum modulo 100, with C set
/// exactly when the sum reaches 100.
pub proof fn lemma_daa_after_add(reg: Register, b: u8)
    requires
        bcd_valid(reg.a),
        bcd_valid(b),
    ensures
        bcd_valid(alu_daa(alu_add(reg, b)).a),
        bcd_value(alu_daa(alu_add(reg, b)).a) == (bcd_value(reg.a) + bcd_value(b)) % 100,
        alu_daa(alu_add(reg, b)).flag(Flag::C) == (bcd_value(reg.a) + bcd_value(b) >= 100),
{
    let a = reg.a;
    let s = alu_add(reg, b);
    lemma_add_flags(reg, b);
    let r = s.a;
    let lo: u8 = if a % 16 + b % 16 >= 16 || (r & 0x0f) > 9 { 6 } else { 0 };
    let hi: u8 = if a + b >= 256 || r > 0x99 { 0x60 } else { 0 };
    let adjust = daa_adjust(s);
    assert(adjust == hi + lo);
    let res = r.wrapping_add(adjust);
    lemma_decimal_adjust(a, b, r, lo, hi, res);
    let t = s.with_flag(Flag::C, adjust >= 0x60);
    crate::register::lemma_with_flag(s, Flag::C, adjust >= 0x60, Flag::C);
    crate::register::lemma_with_flag(t, Flag::H, false, Flag::C);
    crate::register::lemma_with_flag(t.with_flag(Flag::H, false), Flag::Z, res == 0, Flag::C);
}

/// POP AF leaves the low nibble of F zero whatever word is on the stack.
pub proof fn lemma_pop_af_masks_f<M: Memory>(m: Machine<M>)
    ensures
        m.exec_op(0xf1).next.cpu.reg.f & 0x0f == 0,
        m.exec_op(0xf1).next.cpu.reg.a == hi_byte(m.top()),
{
    crate::register::lemma_af_write_masks_low_nibble(m.drop_top().cpu.reg, m.top(), Flag::Z);
}

// ---------------------------------------------------------------------------
// The low nibble of F

/// The low nibble of F.
pub open spec fn low_f(reg: Register) -> u8 {
    reg.f & 0x0f
}

proof fn lemma_three_flags(
    reg: Register,
    f1: Flag,
    v1: bool,
    f2: Flag,
    v2: bool,
    f3: Flag,
    v3: bool,
)
    ensures
        low_f(reg.with_flag(f1, v1).with_flag(f2, v2).with_flag(f3, v3)) == low_f(reg),
        low_f(reg.with_flag(f1, v1).with_flag(f2, v2)) == low_f(reg),
        low_f(reg.with_flag(f1, v1)) == low_f(reg),
{
    crate::register::lemma_with_flag(reg, f1, v1, f1);
    crate::register::lemma_with_flag(reg.with_flag(f1, v1), f2, v2, f2);
    crate::register::lemma_with_flag(reg.with_flag(f1, v1).with_flag(f2, v2), f3, v3, f3);
}

/// No operation of the arithmetic unit touches the low nibble of F.
pub proof fn lemma_alu_keeps_low_f(reg: Register, y: int, v: u8, p: u8, w: u16)
    ensures
        low_f(alu8(reg, y, v)) == low_f(reg),
        low_f(alu_inc(reg, v).0) == low_f(reg),
        low_f(alu_dec(reg, v).0) == low_f(reg),
        low_f(alu_add_hl(reg, w)) == low_f(reg),
        low_f(alu_add_sp(reg, v).0) == low_f(reg),
        low_f(alu_daa(reg)) == low_f(reg),
        low_f(alu_cpl(reg)) == low_f(reg),
        low_f(alu_scf(reg)) == low_f(reg),
        low_f(alu_ccf(reg)) == low_f(reg),
        low_f(rot8(reg, y, v).0) == low_f(reg),
        low_f(rot8(reg, y, v).0.with_flag(Flag::Z, false)) == low_f(reg),
        low_f(alu_bit(reg, v, p)) == low_f(reg),
{
    let a = reg.a;
    let c = bit_of(reg.flag(Flag::C));
    let add = a.wrapping_add(v);
    let adc = a.wrapping_add(v).wrapping_add(c);
    let sub = a.wrapping_sub(v);
    let sbc = a.wrapping_sub(v).wrapping_sub(c);
    crate::register::lemma_with_flags(reg, add == 0, false, half_carry(a, v, add), carry(a, v, 0));
    crate::register::lemma_with_flags(reg, adc == 0, false, half_carry(a, v, adc), carry(a, v, c));
    crate::register::lemma_with_flags(reg, sub == 0, true, half_carry(a, v, sub), borrow(a, v, 0));
    crate::register::lemma_with_flags(reg, sbc == 0, true, half_carry(a, v, sbc), borrow(a, v, c));
    crate::register::lemma_with_flags(reg, (a & v) == 0, false, true, false);
    crate::register::lemma_with_flags(reg, (a | v) == 0, false, false, false);
    crate::register::lemma_with_flags(reg, (a ^ v) == 0, false, false, false);
    let inc = v.wrapping_add(1);
    let dec = v.wrapping_sub(1);
    lemma_three_flags(reg, Flag::Z, inc == 0, Flag::N, false, Flag::H, half_carry(v, 1, inc));
    lemma_three_flags(reg, Flag::Z, dec == 0, Flag::N, true, Flag::H, half_carry(v, 1, dec));
    let o = reg.hl();
    let r = o.wrapping_add(w);
    lemma_three_flags(
        reg,
        Flag::N,
        false,
        Flag::H,
        (o ^ w ^ r) & 0x1000 != 0,
        Flag::C,
        o + w > 0xffff,
    );
    let d = sign_extend(v);
    let q = reg.sp.wrapping_add(d);
    crate::register::lemma_with_flags(
        reg,
        false,
        false,
        (reg.sp ^ d ^ q) & 0x0010 != 0,
        (reg.sp ^ d ^ q) & 0x0100 != 0,
    );
    let adjust = daa_adjust(reg);
    let da = if !reg.flag(Flag::N) {
        a.wrapping_add(adjust)
    } else {
        a.wrapping_sub(adjust)
    };
    lemma_three_flags(reg, Flag::C, adjust >= 0x60, Flag::H, false, Flag::Z, da == 0);
    lemma_three_flags(reg, Flag::N, true, Flag::H, true, Flag::H, true);
    lemma_three_flags(reg, Flag::N, false, Flag::H, false, Flag::C, true);
    lemma_three_flags(reg, Flag::N, false, Flag::H, false, Flag::C, !reg.flag(Flag::C));
    let rv = rot_value(y, v, reg.flag(Flag::C));
    crate::register::lemma_with_flags(reg, rv == 0, false, false, rot_carry(y, v));
    crate::register::lemma_with_flag(rot8(reg, y, v).0, Flag::Z, false, Flag::Z);
    lemma_three_flags(reg, Flag::Z, v & (1u8 << p) == 0, Flag::N, false, Flag::H, true);
}

/// A prefixed instruction does not touch the low nibble of F.
pub proof fn lemma_cb_keeps_low_f<M: Memory>(m: Machine<M>, op: u8)
    ensures
        low_f(m.exec_cb(op).cpu.reg) == low_f(m.cpu.reg),
{
    let y = op as int / 8 % 8;
    let z = op as int % 8;
    lemma_alu_keeps_low_f(m.cpu.reg, y, m.r8(z), y as u8, 0);
}

proof fn lemma_x0_keeps_f_masked<M: Memory>(m: Machine<M>, y: int, z: int)
    requires
        m.cpu.reg.f_masked(),
        0 <= y < 8,
        0 <= z < 8,
    ensures
        m.exec_x0(y, z).next.cpu.reg.f_masked(),
{
    let reg = m.cpu.reg;
    let p = y / 2;
    if z == 1 {
        lemma_alu_keeps_low_f(reg, y, 0, 0, m.rp(p));
    } else if z == 4 || z == 5 {
        lemma_alu_keeps_low_f(reg, y, m.r8(y), 0, 0);
    } else if z == 7 {
        lemma_alu_keeps_low_f(reg, y, reg.a, 0, 0);
        let (flags, r) = rot8(reg, y, reg.a);
        crate::register::lemma_with_flag(Register { a: r, ..flags }, Flag::Z, false, Flag::Z);
    }
}

proof fn lemma_x3_keeps_f_masked<M: Memory>(m: Machine<M>, y: int, z: int)
    requires
        m.cpu.reg.f_masked(),
        0 <= y < 8,
        0 <= z < 8,
    ensures
        m.exec_x3(y, z).next.cpu.reg.f_masked(),
{
    if z == 0 {
        lemma_alu_keeps_low_f(m.skip(1).cpu.reg, y, m.imm8(), 0, 0);
    } else if z == 1 {
        crate::register::lemma_af_write_masks_low_nibble(m.drop_top().cpu.reg, m.top(), Flag::Z);
    } else if z == 6 {
        lemma_alu_keeps_low_f(m.skip(1).cpu.reg, y, m.imm8(), 0, 0);
    }
}

/// No instruction lets bits into the low nibble of F: if it reads as zero
/// before an instruction, it reads as zero after it. POP AF, the one
/// instruction that writes all of F, masks the nibble off.
pub proof fn lemma_instruction_keeps_f_masked<M: Memory>(m: Machine<M>, op: u8)
    requires
        m.cpu.reg.f_masked(),
    ensures
        m.exec_op(op).next.cpu.reg.f_masked(),
{
    let x = op as int / 64;
    let y = op as int / 8 % 8;
    let z = op as int % 8;
    if op == 0xcb {
        lemma_cb_keeps_low_f(m.skip(1), m.imm8());
    } else if op == 0x76 {
    } else if x == 0 {
        lemma_x0_keeps_f_masked(m, y, z);
    } else if x == 1 {
    } else if x == 2 {
        lemma_alu_keeps_low_f(m.cpu.reg, y, m.r8(z), 0, 0);
    } else {
        lemma_x3_keeps_f_masked(m, y, z);
    }
}

/// The low nibble of F stays zero through every step of the CPU.
pub proof fn lemma_step_keeps_f_masked<M: Memory>(m: Machine<M>)
    requires
        m.cpu.reg.f_masked(),
    ensures
        m.step().next.cpu.reg.f_masked(),
{
    let awake = Machine::<M> { cpu: Cpu { halted: false, ..m.cpu }, mem: m.mem };
    lemma_instruction_keeps_f_masked(awake.skip(1), awake.imm8());
}

} // verus!
