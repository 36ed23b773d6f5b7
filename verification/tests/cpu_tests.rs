use gb_emu::cartridge::{power_up, NINTENDO_LOGO};
use gb_emu::convention::Term;
use gb_emu::cpu::{ext_op_cycles, op_cycles, Cpu};
use gb_emu::memory::Memory;
use gb_emu::mmunit::MMUnit;
use gb_emu::register::{Flag, Register};

/// A plain 32 KiB ROM image with a valid header and `program` at 0x0150.
fn rom_with(program: &[u8]) -> Vec<u8> {
    let mut rom = vec![0u8; 0x8000];
    for i in 0..48 {
        rom[0x0104 + i] = NINTENDO_LOGO[i];
    }
    for (i, b) in program.iter().enumerate() {
        rom[0x0150 + i] = *b;
    }
    let mut x: u8 = 0;
    for i in 0x0134..0x014d {
        x = x.wrapping_sub(rom[i]).wrapping_sub(1);
    }
    rom[0x014d] = x;
    rom
}

/// A bus with `program` at 0x0150 and a CPU about to execute it.
fn machine(program: &[u8]) -> (Cpu, MMUnit) {
    let cart = power_up(rom_with(program), None, None, 0).unwrap();
    let mmu = MMUnit::power_up(cart);
    let mut cpu = Cpu::power_up(Term::GB);
    cpu.reg.pc = 0x0150;
    (cpu, mmu)
}

fn flags(cpu: &Cpu) -> (bool, bool, bool, bool) {
    (
        cpu.reg.get_flag(Flag::Z),
        cpu.reg.get_flag(Flag::N),
        cpu.reg.get_flag(Flag::H),
        cpu.reg.get_flag(Flag::C),
    )
}

#[test]
fn power_up_registers() {
    let r = Register::power_up(Term::GB);
    assert_eq!((r.a, r.f, r.b, r.c, r.d, r.e, r.h, r.l), (0x01, 0xb0, 0x00, 0x13, 0x00, 0xd8, 0x01, 0x4d));
    assert_eq!((r.sp, r.pc), (0xfffe, 0x0100));
    assert_eq!(Register::power_up(Term::GBC).a, 0x11);
    assert_eq!(Register::power_up(Term::GBP).a, 0xff);
    assert_eq!(Register::power_up(Term::SGB).a, 0x01);
    let cpu = Cpu::power_up(Term::GBC);
    assert!(!cpu.halted);
    assert!(cpu.ei);
}

#[test]
fn register_pairs() {
    let mut r = Register::power_up(Term::GB);
    r.set_bc(0x1234);
    r.set_de(0xabcd);
    r.set_hl(0xff01);
    assert_eq!((r.b, r.c, r.d, r.e, r.h, r.l), (0x12, 0x34, 0xab, 0xcd, 0xff, 0x01));
    assert_eq!((r.get_bc(), r.get_de(), r.get_hl()), (0x1234, 0xabcd, 0xff01));
    assert_eq!(Flag::Z.og(), 0x80);
    assert_eq!(Flag::N.og(), 0x40);
    assert_eq!(Flag::H.og(), 0x20);
    assert_eq!(Flag::C.og(), 0x10);
    assert_eq!(Flag::H.bw(), 0xdf);
}

#[test]
fn f_low_nibble_is_masked_on_every_write() {
    let mut r = Register::power_up(Term::GB);
    for w in 0..=0xffffu32 {
        r.set_af(w as u16);
        assert_eq!(r.f & 0x0f, 0);
        assert_eq!(r.a, (w >> 8) as u8);
        assert_eq!(r.f, (w & 0xf0) as u8);
        assert_eq!(r.get_af(), (w as u16) & 0xfff0);
    }
}

#[test]
fn pop_af_masks_low_nibble() {
    // LD BC,0x12FF; PUSH BC; POP AF
    let (mut cpu, mut mmu) = machine(&[0x01, 0xff, 0x12, 0xc5, 0xf1]);
    cpu.reg.sp = 0xdff0;
    assert_eq!(cpu.next(&mut mmu), 12);
    assert_eq!(cpu.next(&mut mmu), 16);
    assert_eq!(cpu.reg.sp, 0xdfee);
    assert_eq!(mmu.get(0xdfee), 0xff);
    assert_eq!(mmu.get(0xdfef), 0x12);
    assert_eq!(cpu.next(&mut mmu), 12);
    assert_eq!(cpu.reg.a, 0x12);
    assert_eq!(cpu.reg.f, 0xf0);
    assert_eq!(cpu.reg.sp, 0xdff0);
}

#[test]
fn add_flags_for_all_operands() {
    let mut cpu = Cpu::power_up(Term::GB);
    for a in 0..=255u16 {
        for v in 0..=255u16 {
            cpu.reg.a = a as u8;
            cpu.add(v as u8);
            assert_eq!(cpu.reg.a, ((a + v) & 0xff) as u8);
            let (z, n, h, c) = flags(&cpu);
            assert_eq!(z, (a + v) & 0xff == 0);
            assert!(!n);
            assert_eq!(h, (a & 0x0f) + (v & 0x0f) >= 0x10);
            assert_eq!(c, a + v >= 0x100);
            assert_eq!(cpu.reg.f & 0x0f, 0);
        }
    }
}

#[test]
fn adc_and_sbc_account_for_the_carry() {
    let mut cpu = Cpu::power_up(Term::GB);
    for a in 0..=255u16 {
        for v in 0..=255u16 {
            for carry in 0..=1u16 {
                cpu.reg.a = a as u8;
                cpu.reg.set_flag(Flag::C, carry == 1);
                cpu.adc(v as u8);
                assert_eq!(cpu.reg.a, ((a + v + carry) & 0xff) as u8);
                let (z, n, h, c) = flags(&cpu);
                assert_eq!(z, (a + v + carry) & 0xff == 0);
                assert!(!n);
                assert_eq!(h, (a & 0x0f) + (v & 0x0f) + carry >= 0x10);
                assert_eq!(c, a + v + carry >= 0x100);

                cpu.reg.a = a as u8;
                cpu.reg.set_flag(Flag::C, carry == 1);
                cpu.sbc(v as u8);
                assert_eq!(cpu.reg.a, (a.wrapping_sub(v).wrapping_sub(carry) & 0xff) as u8);
                let (z, n, h, c) = flags(&cpu);
                assert_eq!(z, cpu.reg.a == 0);
                assert!(n);
                assert_eq!(h, (a & 0x0f) < (v & 0x0f) + carry);
                assert_eq!(c, a < v + carry);
            }
        }
    }
}

#[test]
fn sub_then_add_reconstructs_a() {
    let mut cpu = Cpu::power_up(Term::GB);
    for a in 0..=255u8 {
        for v in 0..=255u8 {
            cpu.reg.a = a;
            cpu.sub(v);
            assert_eq!(cpu.reg.a, a.wrapping_sub(v));
            let (z, n, h, c) = flags(&cpu);
            assert_eq!(z, a == v);
            assert!(n);
            assert_eq!(h, (a & 0x0f) < (v & 0x0f));
            assert_eq!(c, a < v);
            cpu.add(v);
            assert_eq!(cpu.reg.a, a);
        }
    }
}

#[test]
fn cp_keeps_a_and_sets_the_flags_of_sub() {
    let mut cpu = Cpu::power_up(Term::GB);
    cpu.reg.a = 0x3c;
    cpu.cp(0x2f);
    assert_eq!(cpu.reg.a, 0x3c);
    assert_eq!(flags(&cpu), (false, true, true, false));
    cpu.cp(0x3c);
    assert_eq!(flags(&cpu), (true, true, false, false));
    cpu.cp(0x40);
    assert_eq!(flags(&cpu), (false, true, false, true));
}

#[test]
fn logic_operations() {
    let mut cpu = Cpu::power_up(Term::GB);
    cpu.reg.a = 0x5a;
    cpu.and(0x3f);
    assert_eq!(cpu.reg.a, 0x1a);
    assert_eq!(flags(&cpu), (false, false, true, false));
    cpu.and(0x00);
    assert_eq!(flags(&cpu), (true, false, true, false));
    cpu.reg.a = 0x5a;
    cpu.or(0x03);
    assert_eq!(cpu.reg.a, 0x5b);
    assert_eq!(flags(&cpu), (false, false, false, false));
    cpu.xor(0x5b);
    assert_eq!(cpu.reg.a, 0x00);
    assert_eq!(flags(&cpu), (true, false, false, false));
    cpu.reg.a = 0x35;
    cpu.cpl();
    assert_eq!(cpu.reg.a, 0xca);
    assert!(cpu.reg.get_flag(Flag::N));
    assert!(cpu.reg.get_flag(Flag::H));
    cpu.scf();
    assert_eq!(flags(&cpu), (true, false, false, true));
    cpu.ccf();
    assert_eq!(flags(&cpu), (true, false, false, false));
    cpu.ccf();
    assert_eq!(flags(&cpu), (true, false, false, true));
}

#[test]
fn inc_and_dec_leave_carry_alone() {
    let mut cpu = Cpu::power_up(Term::GB);
    cpu.reg.set_flag(Flag::C, true);
    assert_eq!(cpu.inc(0xff), 0x00);
    assert_eq!(flags(&cpu), (true, false, true, true));
    assert_eq!(cpu.inc(0x0f), 0x10);
    assert_eq!(flags(&cpu), (false, false, true, true));
    assert_eq!(cpu.dec(0x01), 0x00);
    assert_eq!(flags(&cpu), (true, true, false, true));
    assert_eq!(cpu.dec(0x10), 0x0f);
    assert_eq!(flags(&cpu), (false, true, true, true));
    cpu.reg.set_flag(Flag::C, false);
    assert_eq!(cpu.dec(0x00), 0xff);
    assert_eq!(flags(&cpu), (false, true, true, false));
}

#[test]
fn add_hl_sets_carries_of_bit_11_and_15() {
    let mut cpu = Cpu::power_up(Term::GB);
    cpu.reg.set_flag(Flag::Z, true);
    cpu.reg.set_hl(0x8a23);
    cpu.add_hl(0x0605);
    assert_eq!(cpu.reg.get_hl(), 0x9028);
    assert_eq!(flags(&cpu), (true, false, true, false));
    cpu.reg.set_hl(0x8a23);
    cpu.add_hl(0x8a23);
    assert_eq!(cpu.reg.get_hl(), 0x1446);
    assert_eq!(flags(&cpu), (true, false, true, true));
}

#[test]
fn add_sp_takes_a_signed_immediate() {
    // ADD SP,+2 ; ADD SP,-1 ; LD HL,SP+1
    let (mut cpu, mut mmu) = machine(&[0xe8, 0x02, 0xe8, 0xff, 0xf8, 0x01]);
    cpu.reg.sp = 0xfff8;
    assert_eq!(cpu.next(&mut mmu), 16);
    assert_eq!(cpu.reg.sp, 0xfffa);
    assert_eq!(flags(&cpu), (false, false, false, false));
    assert_eq!(cpu.next(&mut mmu), 16);
    assert_eq!(cpu.reg.sp, 0xfff9);
    assert_eq!(flags(&cpu), (false, false, true, true));
    cpu.reg.sp = 0x00ff;
    assert_eq!(cpu.next(&mut mmu), 12);
    assert_eq!(cpu.reg.get_hl(), 0x0100);
    assert_eq!(cpu.reg.sp, 0x00ff);
    assert_eq!(flags(&cpu), (false, false, true, true));
}

#[test]
fn swap_is_its_own_inverse_and_clears_flags() {
    let mut cpu = Cpu::power_up(Term::GB);
    for x in 0..=255u8 {
        cpu.reg.f = 0xf0;
        let y = cpu.swap(x);
        assert_eq!(y, (x << 4) | (x >> 4));
        assert_eq!(flags(&cpu), (x == 0, false, false, false));
        assert_eq!(cpu.swap(y), x);
    }
}

#[test]
fn rlc_undoes_rrc() {
    let mut cpu = Cpu::power_up(Term::GB);
    for x in 0..=255u8 {
        let y = cpu.rrc(x);
        assert_eq!(y, x.rotate_right(1));
        assert_eq!(cpu.reg.get_flag(Flag::C), x & 1 == 1);
        assert_eq!(cpu.rlc(y), x);
        assert_eq!(cpu.reg.get_flag(Flag::C), x & 1 == 1);
        let z = cpu.rlc(x);
        assert_eq!(z, x.rotate_left(1));
        assert_eq!(cpu.rrc(z), x);
    }
}

#[test]
fn shifts_and_rotates_through_carry() {
    let mut cpu = Cpu::power_up(Term::GB);
    cpu.reg.set_flag(Flag::C, true);
    assert_eq!(cpu.rl(0x80), 0x01);
    assert_eq!(flags(&cpu), (false, false, false, true));
    assert_eq!(cpu.rl(0x00), 0x01);
    assert_eq!(flags(&cpu), (false, false, false, false));
    assert_eq!(cpu.rr(0x01), 0x00);
    assert_eq!(flags(&cpu), (true, false, false, true));
    assert_eq!(cpu.rr(0x02), 0x81);
    assert_eq!(flags(&cpu), (false, false, false, false));
    assert_eq!(cpu.sla(0xc1), 0x82);
    assert!(cpu.reg.get_flag(Flag::C));
    assert_eq!(cpu.sra(0x81), 0xc0);
    assert!(cpu.reg.get_flag(Flag::C));
    assert_eq!(cpu.srl(0x81), 0x40);
    assert!(cpu.reg.get_flag(Flag::C));
    assert_eq!(cpu.srl(0x01), 0x00);
    assert_eq!(flags(&cpu), (true, false, false, true));
}

#[test]
fn bit_res_set() {
    let mut cpu = Cpu::power_up(Term::GB);
    cpu.reg.set_flag(Flag::C, true);
    cpu.bit(0b0001_0000, 4);
    assert_eq!(flags(&cpu), (false, false, true, true));
    cpu.bit(0b0001_0000, 3);
    assert_eq!(flags(&cpu), (true, false, true, true));
    assert_eq!(cpu.res(0xff, 0), 0xfe);
    assert_eq!(cpu.res(0xff, 7), 0x7f);
    assert_eq!(cpu.set(0x00, 0), 0x01);
    assert_eq!(cpu.set(0x00, 7), 0x80);
    assert_eq!(flags(&cpu), (true, false, true, true));
}

fn bcd(x: u8) -> u32 {
    ((x >> 4) as u32) * 10 + (x & 0x0f) as u32
}

#[test]
fn daa_after_add_of_all_bcd_pairs() {
    let mut cpu = Cpu::power_up(Term::GB);
    for a in 0..100u32 {
        for b in 0..100u32 {
            let xa = ((a / 10) << 4 | (a % 10)) as u8;
            let xb = ((b / 10) << 4 | (b % 10)) as u8;
            cpu.reg.a = xa;
            cpu.add(xb);
            cpu.daa();
            let r = cpu.reg.a;
            assert!(r >> 4 <= 9 && r & 0x0f <= 9);
            assert_eq!(bcd(r), (a + b) % 100);
            assert_eq!(cpu.reg.get_flag(Flag::C), a + b >= 100);
            assert!(!cpu.reg.get_flag(Flag::H));
            assert_eq!(cpu.reg.get_flag(Flag::Z), (a + b) % 100 == 0);
        }
    }
}

#[test]
fn daa_after_sub() {
    let mut cpu = Cpu::power_up(Term::GB);
    cpu.reg.a = 0x42;
    cpu.sub(0x17);
    cpu.daa();
    assert_eq!(cpu.reg.a, 0x25);
    assert!(cpu.reg.get_flag(Flag::N));
    assert!(!cpu.reg.get_flag(Flag::C));
    cpu.reg.a = 0x10;
    cpu.sub(0x20);
    cpu.daa();
    assert_eq!(cpu.reg.a, 0x90);
    assert!(cpu.reg.get_flag(Flag::C));
}

#[test]
fn loads_between_registers_and_memory() {
    // LD B,0x12; LD C,B; LD HL,0xC000; LD (HL),C; LD A,(HL); LD (HL+),A; LD A,(HL-); LD D,(HL)
    let (mut cpu, mut mmu) = machine(&[
        0x06, 0x12, 0x48, 0x21, 0x00, 0xc0, 0x71, 0x7e, 0x22, 0x3a, 0x56,
    ]);
    assert_eq!(cpu.next(&mut mmu), 8);
    assert_eq!(cpu.reg.b, 0x12);
    assert_eq!(cpu.next(&mut mmu), 4);
    assert_eq!(cpu.reg.c, 0x12);
    assert_eq!(cpu.next(&mut mmu), 12);
    assert_eq!(cpu.reg.get_hl(), 0xc000);
    assert_eq!(cpu.next(&mut mmu), 8);
    assert_eq!(mmu.get(0xc000), 0x12);
    assert_eq!(cpu.next(&mut mmu), 8);
    assert_eq!(cpu.reg.a, 0x12);
    assert_eq!(cpu.next(&mut mmu), 8);
    assert_eq!(cpu.reg.get_hl(), 0xc001);
    assert_eq!(cpu.next(&mut mmu), 8);
    assert_eq!(cpu.reg.a, 0x00);
    assert_eq!(cpu.reg.get_hl(), 0xc000);
    assert_eq!(cpu.next(&mut mmu), 8);
    assert_eq!(cpu.reg.d, 0x12);
    assert_eq!(cpu.reg.pc, 0x0150 + 11);
}

#[test]
fn high_page_loads() {
    // LD A,0x77; LDH (0x80),A; LD C,0x81; LD (C),A; XOR A; LDH A,(0x81); LD (0xC123),A; LD A,(0xFF80)
    let (mut cpu, mut mmu) = machine(&[
        0x3e, 0x77, 0xe0, 0x80, 0x0e, 0x81, 0xe2, 0xaf, 0xf0, 0x81, 0xea, 0x23, 0xc1, 0xfa, 0x80,
        0xff,
    ]);
    assert_eq!(cpu.next(&mut mmu), 8);
    assert_eq!(cpu.next(&mut mmu), 12);
    assert_eq!(mmu.get(0xff80), 0x77);
    assert_eq!(cpu.next(&mut mmu), 8);
    assert_eq!(cpu.next(&mut mmu), 8);
    assert_eq!(mmu.get(0xff81), 0x77);
    assert_eq!(cpu.next(&mut mmu), 4);
    assert_eq!(cpu.reg.a, 0);
    assert_eq!(cpu.next(&mut mmu), 12);
    assert_eq!(cpu.reg.a, 0x77);
    assert_eq!(cpu.next(&mut mmu), 16);
    assert_eq!(mmu.get(0xc123), 0x77);
    assert_eq!(cpu.next(&mut mmu), 16);
    assert_eq!(cpu.reg.a, 0x77);
}

#[test]
fn sixteen_bit_accesses_are_little_endian() {
    // LD SP,0xD000; LD (0xC010),SP
    let (mut cpu, mut mmu) = machine(&[0x31, 0x00, 0xd0, 0x08, 0x10, 0xc0]);
    assert_eq!(cpu.next(&mut mmu), 12);
    assert_eq!(cpu.reg.sp, 0xd000);
    assert_eq!(cpu.next(&mut mmu), 20);
    assert_eq!(mmu.get(0xc010), 0x00);
    assert_eq!(mmu.get(0xc011), 0xd0);
    assert_eq!(mmu.get_word(0xc010), 0xd000);
    mmu.set_word(0xc020, 0xbeef);
    assert_eq!(mmu.get(0xc020), 0xef);
    assert_eq!(mmu.get(0xc021), 0xbe);
}

#[test]
fn conditional_branches_cost_more_when_taken() {
    // 0x150: SCF; JR NC,+2 (not taken); JR C,+1 (taken); NOP; JP NC,0x0150 (not); JP C,0x0200
    let (mut cpu, mut mmu) = machine(&[
        0x37, 0x30, 0x02, 0x38, 0x01, 0x00, 0xd2, 0x50, 0x01, 0xda, 0x00, 0x02,
    ]);
    cpu.reg.set_flag(Flag::Z, false);
    assert_eq!(cpu.next(&mut mmu), 4);
    assert_eq!(cpu.next(&mut mmu), 8);
    assert_eq!(cpu.reg.pc, 0x0153);
    assert_eq!(cpu.next(&mut mmu), 12);
    assert_eq!(cpu.reg.pc, 0x0156);
    assert_eq!(cpu.next(&mut mmu), 12);
    assert_eq!(cpu.reg.pc, 0x0159);
    assert_eq!(cpu.next(&mut mmu), 16);
    assert_eq!(cpu.reg.pc, 0x0200);
}

#[test]
fn jr_goes_backwards() {
    // NOP; JR -3
    let (mut cpu, mut mmu) = machine(&[0x00, 0x18, 0xfd]);
    assert_eq!(cpu.next(&mut mmu), 4);
    assert_eq!(cpu.next(&mut mmu), 12);
    assert_eq!(cpu.reg.pc, 0x0150);
}

#[test]
fn call_ret_rst() {
    // 0x150: CALL 0x0160; ... 0x160: RET NZ (Z set: not taken); RET
    let mut program = vec![0u8; 0x20];
    program[0] = 0xcd;
    program[1] = 0x60;
    program[2] = 0x01;
    program[3] = 0xef; // RST 0x28
    program[0x10] = 0xc0;
    program[0x11] = 0xc9;
    let (mut cpu, mut mmu) = machine(&program);
    cpu.reg.sp = 0xdff0;
    cpu.reg.set_flag(Flag::Z, true);
    assert_eq!(cpu.next(&mut mmu), 24);
    assert_eq!(cpu.reg.pc, 0x0160);
    assert_eq!(cpu.reg.sp, 0xdfee);
    assert_eq!(mmu.get_word(0xdfee), 0x0153);
    assert_eq!(cpu.next(&mut mmu), 8);
    assert_eq!(cpu.reg.pc, 0x0161);
    assert_eq!(cpu.next(&mut mmu), 16);
    assert_eq!(cpu.reg.pc, 0x0153);
    assert_eq!(cpu.reg.sp, 0xdff0);
    assert_eq!(cpu.next(&mut mmu), 16);
    assert_eq!(cpu.reg.pc, 0x0028);
    assert_eq!(mmu.get_word(0xdfee), 0x0154);
}

#[test]
fn conditional_call_and_return_penalties() {
    // CALL NC,0x0160 (taken) ... 0x160: RET C (not taken); RET NC (taken)
    let mut program = vec![0u8; 0x20];
    program[0] = 0xd4;
    program[1] = 0x60;
    program[2] = 0x01;
    program[0x10] = 0xd8;
    program[0x11] = 0xd0;
    let (mut cpu, mut mmu) = machine(&program);
    cpu.reg.sp = 0xdff0;
    cpu.reg.f = 0x80; // Z set, C clear
    assert_eq!(cpu.next(&mut mmu), 24);
    assert_eq!(cpu.reg.pc, 0x0160);
    assert_eq!(cpu.next(&mut mmu), 8);
    assert_eq!(cpu.next(&mut mmu), 20);
    assert_eq!(cpu.reg.pc, 0x0153);
}

#[test]
fn prefixed_instructions() {
    // LD HL,0xC000; LD (HL),0x81; RLC (HL); BIT 0,(HL); SET 7,(HL); SWAP B
    let (mut cpu, mut mmu) = machine(&[
        0x21, 0x00, 0xc0, 0x36, 0x81, 0xcb, 0x06, 0xcb, 0x46, 0xcb, 0xfe, 0xcb, 0x30,
    ]);
    cpu.next(&mut mmu);
    assert_eq!(cpu.next(&mut mmu), 12);
    assert_eq!(cpu.next(&mut mmu), 16);
    assert_eq!(mmu.get(0xc000), 0x03);
    assert!(cpu.reg.get_flag(Flag::C));
    assert_eq!(cpu.next(&mut mmu), 12);
    assert!(!cpu.reg.get_flag(Flag::Z));
    assert_eq!(cpu.next(&mut mmu), 16);
    assert_eq!(mmu.get(0xc000), 0x83);
    cpu.reg.b = 0xa5;
    assert_eq!(cpu.next(&mut mmu), 8);
    assert_eq!(cpu.reg.b, 0x5a);
}

#[test]
fn accumulator_rotates_clear_z() {
    // XOR A; RLCA
    let (mut cpu, mut mmu) = machine(&[0xaf, 0x07, 0x17, 0x0f, 0x1f]);
    cpu.next(&mut mmu);
    assert!(cpu.reg.get_flag(Flag::Z));
    for _ in 0..4 {
        assert_eq!(cpu.next(&mut mmu), 4);
        assert_eq!(cpu.reg.a, 0);
        assert!(!cpu.reg.get_flag(Flag::Z));
    }
}

#[test]
fn stop_consumes_its_padding_byte() {
    let (mut cpu, mut mmu) = machine(&[0x10, 0x00, 0x3c]);
    // one machine cycle, as a NOP
    assert_eq!(cpu.next(&mut mmu), 4);
    assert_eq!(cpu.reg.pc, 0x0152);
    let a = cpu.reg.a;
    cpu.next(&mut mmu);
    assert_eq!(cpu.reg.a, a.wrapping_add(1));
}

#[test]
fn unassigned_opcodes_do_nothing() {
    let (mut cpu, mut mmu) = machine(&[0xd3, 0xdb, 0xdd, 0xe3, 0xe4, 0xeb, 0xec, 0xed, 0xf4, 0xfc, 0xfd]);
    let reg = cpu.reg;
    for i in 0..11 {
        assert_eq!(cpu.next(&mut mmu), 0);
        let mut expect = reg;
        expect.pc = 0x0151 + i;
        assert_eq!(cpu.reg, expect);
    }
}

#[test]
fn interrupt_is_serviced_lowest_first() {
    let (mut cpu, mut mmu) = machine(&[0x00, 0x00]);
    cpu.reg.sp = 0xdff0;
    mmu.set(0xffff, 0x1f);
    mmu.set(0xff0f, 0x14); // timer and joypad requested
    assert_eq!(cpu.next(&mut mmu), 16);
    assert_eq!(cpu.reg.pc, 0x0050);
    assert!(!cpu.ei);
    assert_eq!(mmu.get(0xff0f), 0x10);
    assert_eq!(mmu.get_word(0xdfee), 0x0150);
    // IME is clear now: the joypad interrupt waits
    assert_eq!(cpu.next(&mut mmu), 4);
    assert_eq!(cpu.reg.pc, 0x0051);
    assert_eq!(mmu.get(0xff0f), 0x10);
}

#[test]
fn only_enabled_interrupts_are_serviced() {
    let (mut cpu, mut mmu) = machine(&[0x00, 0x00]);
    cpu.reg.sp = 0xdff0;
    mmu.set(0xffff, 0x10);
    mmu.set(0xff0f, 0x05); // v-blank and timer requested, joypad enabled
    assert_eq!(cpu.next(&mut mmu), 4);
    assert_eq!(cpu.reg.pc, 0x0151);
    mmu.set(0xff0f, 0x15);
    assert_eq!(cpu.next(&mut mmu), 16);
    assert_eq!(cpu.reg.pc, 0x0060);
    assert_eq!(mmu.get(0xff0f), 0x05);
}

#[test]
fn halt_idles_until_an_interrupt_is_pending() {
    // HALT; INC A
    let (mut cpu, mut mmu) = machine(&[0x76, 0x3c]);
    cpu.ei = false;
    mmu.set(0xffff, 0x04);
    assert_eq!(cpu.next(&mut mmu), 4);
    assert!(cpu.halted);
    assert_eq!(cpu.next(&mut mmu), 4);
    assert_eq!(cpu.next(&mut mmu), 4);
    assert!(cpu.halted);
    assert_eq!(cpu.reg.pc, 0x0151);
    mmu.set(0xff0f, 0x04);
    let a = cpu.reg.a;
    // woken with IME clear: the next instruction runs, the request stays
    assert_eq!(cpu.next(&mut mmu), 4);
    assert!(!cpu.halted);
    assert_eq!(cpu.reg.a, a.wrapping_add(1));
    assert_eq!(mmu.get(0xff0f), 0x04);
}

#[test]
fn di_ei_reti() {
    // DI; EI; RETI
    let (mut cpu, mut mmu) = machine(&[0xf3, 0xfb, 0xf3, 0xd9]);
    cpu.reg.sp = 0xdff0;
    mmu.set_word(0xdff0, 0x0234);
    assert_eq!(cpu.next(&mut mmu), 4);
    assert!(!cpu.ei);
    assert_eq!(cpu.next(&mut mmu), 4);
    assert!(cpu.ei);
    cpu.next(&mut mmu);
    assert!(!cpu.ei);
    assert_eq!(cpu.next(&mut mmu), 16);
    assert!(cpu.ei);
    assert_eq!(cpu.reg.pc, 0x0234);
    assert_eq!(cpu.reg.sp, 0xdff2);
}

#[test]
fn cycle_tables() {
    assert_eq!(op_cycles(0x00), 1);
    assert_eq!(op_cycles(0x08), 5);
    assert_eq!(op_cycles(0x34), 3);
    assert_eq!(op_cycles(0xcd), 6);
    assert_eq!(op_cycles(0xc3), 4);
    assert_eq!(op_cycles(0x76), 1);
    assert_eq!(op_cycles(0x10), 1);
    assert_eq!(op_cycles(0xd3), 0);
    assert_eq!(ext_op_cycles(0x00), 2);
    assert_eq!(ext_op_cycles(0x06), 4);
    assert_eq!(ext_op_cycles(0x46), 3);
    assert_eq!(ext_op_cycles(0xfe), 4);
    assert_eq!(ext_op_cycles(0xff), 2);
}

#[test]
fn carries_and_borrows() {
    assert!(Cpu::is_half_carry(0x0f, 0x01, 0x10));
    assert!(!Cpu::is_half_carry(0x10, 0x01, 0x11));
    assert!(Cpu::is_half_borrow(0x10, 0x01, 0x0f));
    assert!(Cpu::is_carry(0xff, 0x00, 1));
    assert!(!Cpu::is_carry(0xfe, 0x00, 1));
    assert!(Cpu::is_borrow(0x00, 0x00, 1));
    assert!(!Cpu::is_borrow(0x01, 0x00, 1));
}

#[test]
fn program_counter_and_stack_pointer_wrap() {
    let (mut cpu, mut mmu) = machine(&[0x00]);
    cpu.reg.pc = 0xffff;
    mmu.set(0xffff, 0x00);
    cpu.ei = false;
    cpu.next(&mut mmu);
    assert_eq!(cpu.reg.pc, 0x0000);
    cpu.reg.sp = 0x0001;
    cpu.stack_push(&mut mmu, 0x1234);
    assert_eq!(cpu.reg.sp, 0xffff);
    assert_eq!(cpu.stack_pop(&mmu), mmu.get_word(0xffff));
    assert_eq!(cpu.reg.sp, 0x0001);
}
