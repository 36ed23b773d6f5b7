use gb_emu::apu::APU;
use gb_emu::cartridge::{power_up, NINTENDO_LOGO};
use gb_emu::clock::Clock;
use gb_emu::convention::Term;
use gb_emu::dma::{DMAMode, DMA};
use gb_emu::hram::HRAM;
use gb_emu::intf::{INTFlag, Intf};
use gb_emu::joypad::{Joypad, JoypadKey};
use gb_emu::memory::Memory;
use gb_emu::mmunit::MMUnit;
use gb_emu::motherboard::MotherBoard;
use gb_emu::rtc::{RTC, STEP_CYCLES};
use gb_emu::serial::Serial;
use gb_emu::speed::{Speed, SpeedMode};
use gb_emu::timer::Timer;
use gb_emu::wram::WRAM;

fn rom_with(kind: u8, ram_code: u8, cgb: bool, program: &[u8]) -> Vec<u8> {
    let mut rom = vec![0u8; 0x8000];
    for i in 0..48 {
        rom[0x0104 + i] = NINTENDO_LOGO[i];
    }
    // entry point: JP 0x0150
    rom[0x0100] = 0xc3;
    rom[0x0101] = 0x50;
    rom[0x0102] = 0x01;
    rom[0x0143] = if cgb { 0x80 } else { 0x00 };
    rom[0x0147] = kind;
    rom[0x0149] = ram_code;
    for (i, b) in program.iter().enumerate() {
        rom[0x0150 + i] = *b;
    }
    for i in 0x1000..0x8000 {
        rom[i] = (i % 251) as u8;
    }
    let mut x: u8 = 0;
    for i in 0x0134..0x014d {
        x = x.wrapping_sub(rom[i]).wrapping_sub(1);
    }
    rom[0x014d] = x;
    rom
}

fn bus() -> MMUnit {
    MMUnit::power_up(power_up(rom_with(0x03, 0x02, false, &[]), None, None, 0).unwrap())
}

#[test]
fn interrupt_request_register() {
    let mut intf = Intf::power_up();
    assert_eq!(intf.data, 0);
    intf.hi(INTFlag::Timer);
    assert_eq!(intf.data, 0x04);
    intf.hi(INTFlag::VBlank);
    intf.hi(INTFlag::Joypad);
    intf.hi(INTFlag::Timer);
    assert_eq!(intf.data, 0x15);
    intf.hi(INTFlag::LCDStat);
    intf.hi(INTFlag::Serial);
    assert_eq!(intf.data, 0x1f);
    assert_eq!(INTFlag::Serial.bit(), 0x08);
}

#[test]
fn prescaler() {
    let mut c = Clock::power_up(16);
    assert_eq!(c.next(15), 0);
    assert_eq!(c.n, 15);
    assert_eq!(c.next(1), 1);
    assert_eq!(c.n, 0);
    assert_eq!(c.next(100), 6);
    assert_eq!(c.n, 4);
    let mut z = Clock::power_up(0);
    assert_eq!(z.next(100), 0);
    assert_eq!(z.n, 0);
    let mut one = Clock { period: 1, n: u32::MAX };
    assert_eq!(one.next(u32::MAX), u32::MAX);
    assert_eq!(one.n, 0);
}

#[test]
fn ram_round_trip_on_the_bus() {
    let mut mmu = bus();
    let regions: [(u16, u16); 4] =
        [(0x8000, 0x9fff), (0xc000, 0xfdff), (0xfe00, 0xfe9f), (0xff80, 0xfffe)];
    for (lo, hi) in regions {
        let mut a = lo;
        loop {
            let v = (a as u8) ^ ((a >> 8) as u8) ^ 0x5a;
            mmu.set(a, v);
            assert_eq!(mmu.get(a), v);
            if a == hi {
                break;
            }
            a += 1;
        }
    }
    // cartridge RAM: only while enabled
    mmu.set(0xa000, 0x77);
    assert_eq!(mmu.get(0xa000), 0x00);
    mmu.set(0x0000, 0x0a);
    for a in [0xa000u16, 0xa123, 0xbfff] {
        mmu.set(a, 0x77);
        assert_eq!(mmu.get(a), 0x77);
    }
    // the ROM window reads the ROM whatever is stored
    let before = mmu.get(0x1234);
    mmu.set(0x1234, before.wrapping_add(1));
    assert_eq!(mmu.get(0x1234), before);
    assert_eq!(before, (0x1234 % 251) as u8);
}

#[test]
fn echo_region_mirrors_work_ram() {
    let mut mmu = bus();
    let mut a: u16 = 0xe000;
    while a <= 0xfdff {
        let v = (a as u8).wrapping_mul(3).wrapping_add(1);
        mmu.set(a - 0x2000, v);
        assert_eq!(mmu.get(a), v);
        mmu.set(a, !v);
        assert_eq!(mmu.get(a - 0x2000), !v);
        assert_eq!(mmu.get(a), mmu.get(a - 0x2000));
        a += 1;
    }
}

#[test]
fn work_ram_banks() {
    let mut w = WRAM::power_up();
    assert_eq!(w.get(0xff70), 1);
    w.set(0xd000, 0x11);
    w.set(0xff70, 0x02);
    assert_eq!(w.get(0xff70), 2);
    assert_eq!(w.get(0xd000), 0x00);
    w.set(0xd000, 0x22);
    w.set(0xff70, 0x00);
    assert_eq!(w.get(0xff70), 1);
    assert_eq!(w.get(0xd000), 0x11);
    w.set(0xff70, 0xfa);
    assert_eq!(w.get(0xff70), 2);
    assert_eq!(w.get(0xd000), 0x22);
    assert_eq!(w.get(0xf000), 0x22);
    w.set(0xc000, 0x33);
    assert_eq!(w.get(0xe000), 0x33);
    w.set(0xff70, 0x07);
    w.set(0xdfff, 0x44);
    assert_eq!(w.wram[0x7fff], 0x44);
    assert_eq!(w.get(0x0000), 0);
}

#[test]
fn high_ram_and_serial() {
    let mut h = HRAM::power_up();
    h.set(0xff80, 1);
    h.set(0xfffe, 2);
    h.set(0xffff, 3);
    h.set(0xff7f, 4);
    assert_eq!((h.get(0xff80), h.get(0xfffe), h.get(0xffff), h.get(0xff7f)), (1, 2, 0, 0));
    let mut s = Serial::power_up();
    s.set(0xff01, 0x41);
    s.set(0xff02, 0x81);
    assert_eq!((s.get(0xff01), s.get(0xff02), s.get(0xff03)), (0x41, 0x81, 0));
}

#[test]
fn unused_area_reads_zero() {
    let mut mmu = bus();
    for a in [0xfea0u16, 0xfeff, 0xff03, 0xff08, 0xff4c, 0xff50, 0xff7f] {
        mmu.set(a, 0xff);
        assert_eq!(mmu.get(a), 0x00);
    }
    // without an audio engine its registers read 0
    mmu.set(0xff26, 0x80);
    mmu.set(0xff11, 0xff);
    assert_eq!(mmu.get(0xff11), 0);
    assert_eq!(mmu.get(0xff46), 0);
}

#[test]
fn boot_values() {
    let mut mmu = bus();
    assert_eq!(mmu.get(0xff40), 0x91);
    assert_eq!(mmu.get(0xff47), 0xfc);
    assert_eq!(mmu.get(0xff48), 0xff);
    assert_eq!(mmu.get(0xff49), 0xff);
    assert_eq!(mmu.get(0xff05), 0x00);
    assert_eq!(mmu.get(0xff07), 0x00);
    assert_eq!(mmu.get(0xffff), 0x00);
    assert_eq!(mmu.get(0xff0f), 0x00);
    assert_eq!(mmu.term, Term::GB);
    mmu.set(0xffff, 0x1f);
    assert_eq!(mmu.get(0xffff), 0x1f);
    let cgb = MMUnit::power_up(power_up(rom_with(0x00, 0, true, &[]), None, None, 0).unwrap());
    assert_eq!(cgb.term, Term::GBC);
    assert_eq!(cgb.gpu.term, Term::GBC);
}

#[test]
fn oam_dma_copies_160_bytes() {
    for v in [0x10u8, 0x7f, 0xc0, 0xd1, 0xe0, 0xfe] {
        let mut mmu = bus();
        mmu.set(0x0000, 0x0a);
        for i in 0..0x100u16 {
            mmu.set(0xc000 + i, (i as u8) ^ 0xa5);
            mmu.set(0xd100 + i, (i as u8).wrapping_add(7));
            if i < 0xa0 {
                mmu.set(0xfe00 + i, 0xee ^ (i as u8));
            }
        }
        let base = (v as u16) << 8;
        let source: Vec<u8> = (0..0xa0u16).map(|i| mmu.get(base + i)).collect();
        mmu.set(0xff46, v);
        for i in 0..0xa0u16 {
            assert_eq!(mmu.get(0xfe00 + i), source[i as usize]);
            assert_eq!(mmu.get(base + i), source[i as usize]);
        }
        assert_eq!(mmu.gpu.oam.to_vec(), source);
    }
}

#[test]
fn vram_dma_registers() {
    let mut dma = DMA::power_up();
    assert_eq!((dma.src, dma.dst, dma.active, dma.remain), (0, 0x8000, false, 0));
    assert_eq!(dma.get(0xff55), 0x80);
    dma.set(0xff51, 0xc1);
    dma.set(0xff52, 0x2f);
    dma.set(0xff53, 0xf3);
    dma.set(0xff54, 0x4f);
    assert_eq!(dma.src, 0xc120);
    assert_eq!(dma.dst, 0x9340);
    assert_eq!((dma.get(0xff51), dma.get(0xff52), dma.get(0xff53), dma.get(0xff54)), (0xc1, 0x20, 0x93, 0x40));
    dma.set(0xff55, 0x83);
    assert!(dma.active);
    assert!(dma.mode == DMAMode::HDMA);
    assert_eq!(dma.get(0xff55), 0x03);
    dma.set(0xff55, 0x85); // bit 7 set while active: nothing happens
    assert_eq!(dma.remain, 3);
    dma.advance();
    assert_eq!((dma.src, dma.dst, dma.remain), (0xc130, 0x9350, 2));
    dma.set(0xff55, 0x00); // bit 7 clear: the transfer stops
    assert!(!dma.active);
    assert_eq!(dma.get(0xff55), 0x82);
    dma.set(0xff55, 0x7f);
    assert!(dma.active);
    assert!(dma.mode == DMAMode::GDMA);
    assert_eq!(dma.remain, 0x7f);
    dma.remain = 0;
    dma.advance();
    assert_eq!(dma.remain, 0x7f);
}

#[test]
fn general_dma_copies_all_blocks_at_once() {
    let mut mmu = bus();
    mmu.set(0xff40, 0x00);
    for i in 0..0x40u16 {
        mmu.set(0xc000 + i, 0x80 | i as u8);
    }
    mmu.set(0xff51, 0xc0);
    mmu.set(0xff52, 0x00);
    mmu.set(0xff53, 0x00);
    mmu.set(0xff54, 0x10);
    mmu.set(0xff55, 0x02); // three blocks
    assert_eq!(mmu.get(0xff55), 0x02);
    assert_eq!(mmu.run_dma(), 24);
    for i in 0..0x30u16 {
        assert_eq!(mmu.get(0x8010 + i), 0x80 | i as u8);
    }
    assert_eq!(mmu.get(0x8040), 0x00);
    assert_eq!(mmu.get(0xff55), 0xff);
    assert_eq!(mmu.dma.src, 0xc030);
    assert_eq!(mmu.dma.dst, 0x8040);
    assert_eq!(mmu.run_dma(), 0);
}

#[test]
fn hblank_dma_copies_one_block_per_hblank() {
    let mut mmu = bus();
    for i in 0..0x20u16 {
        mmu.set(0xc000 + i, 0x40 | i as u8);
    }
    mmu.set(0xff51, 0xc0);
    mmu.set(0xff52, 0x00);
    mmu.set(0xff53, 0x00);
    mmu.set(0xff54, 0x00);
    mmu.set(0xff55, 0x81);
    mmu.gpu.h_blank = false;
    assert_eq!(mmu.run_dma(), 0);
    assert_eq!(mmu.get(0x8000), 0);
    mmu.gpu.h_blank = true;
    assert_eq!(mmu.run_dma(), 8);
    for i in 0..0x10u16 {
        assert_eq!(mmu.get(0x8000 + i), 0x40 | i as u8);
    }
    assert_eq!(mmu.get(0x8010), 0);
    assert_eq!(mmu.get(0xff55), 0x00);
    assert_eq!(mmu.run_dma(), 8);
    assert_eq!(mmu.get(0x801f), 0x5f);
    assert_eq!(mmu.get(0xff55), 0x7f);
}

#[test]
fn speed_switch() {
    let mut s = Speed::power_up();
    assert_eq!(s.get(0xff4d), 0x00);
    s.switch_speed();
    assert!(s.mode == SpeedMode::Normal);
    s.set(0xff4d, 0x01);
    assert_eq!(s.get(0xff4d), 0x01);
    s.switch_speed();
    assert!(s.mode == SpeedMode::Double);
    assert_eq!(s.get(0xff4d), 0x80);
    s.set(0xff4d, 0xff);
    s.switch_speed();
    assert!(s.mode == SpeedMode::Normal);
    assert_eq!(SpeedMode::Double.multiplier(), 2);
    assert_eq!(SpeedMode::Normal.multiplier(), 1);
}

#[test]
fn joypad_register() {
    let mut intf = Intf::power_up();
    let mut j = Joypad::power_up();
    j.set(0xff00, 0x20); // directions selected
    assert_eq!(j.get(0xff00), 0x2f);
    j.keydown(JoypadKey::Left, &mut intf);
    assert_eq!(intf.data, 0x10);
    assert_eq!(j.get(0xff00), 0x2d);
    intf.data = 0;
    j.keydown(JoypadKey::Left, &mut intf); // held, no new edge
    assert_eq!(intf.data, 0x00);
    j.keydown(JoypadKey::Start, &mut intf);
    assert_eq!(intf.data, 0x10);
    assert_eq!(j.get(0xff00), 0x2d);
    j.set(0xff00, 0x10); // actions selected
    assert_eq!(j.get(0xff00), 0x17);
    j.keyup(JoypadKey::Start);
    assert_eq!(j.get(0xff00), 0x1f);
    j.set(0xff00, 0x30);
    assert_eq!(j.get(0xff00), 0x30);
    j.keyup(JoypadKey::Left);
    j.set(0xff00, 0x20);
    assert_eq!(j.get(0xff00), 0x2f);
    assert_eq!(j.get(0xff01), 0);
    assert_eq!(JoypadKey::Select.bit(), 0x40);
}

#[test]
fn timer_overflow_raises_the_interrupt() {
    let mut intf = Intf::power_up();
    let mut t = Timer::power_up();
    t.set(0xff06, 0x42);
    t.set(0xff07, 0b101);
    t.set(0xff05, 0xff);
    t.next(15, &mut intf);
    assert_eq!(t.get(0xff05), 0xff);
    assert_eq!(intf.data, 0);
    t.next(1, &mut intf);
    assert_eq!(t.get(0xff05), 0x42);
    assert_eq!(intf.data, 0x04);
}

#[test]
fn timer_through_the_bus() {
    let mut mmu = bus();
    mmu.set(0xff40, 0x00);
    mmu.set(0xff06, 0x99);
    mmu.set(0xff07, 0b101);
    mmu.set(0xff05, 0xff);
    mmu.next(16);
    assert_eq!(mmu.get(0xff0f) & 0x04, 0x04);
    assert_eq!(mmu.get(0xff05), 0x99);
}

#[test]
fn timer_divider_and_rates() {
    let mut intf = Intf::power_up();
    let mut t = Timer::power_up();
    t.next(255, &mut intf);
    assert_eq!(t.get(0xff04), 0);
    t.next(1, &mut intf);
    assert_eq!(t.get(0xff04), 1);
    t.next(256 * 300, &mut intf);
    assert_eq!(t.get(0xff04), 45);
    t.next(100, &mut intf);
    t.set(0xff04, 0x77);
    assert_eq!(t.get(0xff04), 0);
    t.next(156, &mut intf);
    assert_eq!(t.get(0xff04), 0);
    t.next(100, &mut intf);
    assert_eq!(t.get(0xff04), 1);
    // disabled: TIMA stands still
    t.set(0xff05, 5);
    t.next(100_000, &mut intf);
    assert_eq!(t.get(0xff05), 5);
    for (tac, div) in [(0b100u8, 1024u32), (0b101, 16), (0b110, 64), (0b111, 256)] {
        let mut t = Timer::power_up();
        t.set(0xff07, tac);
        t.set(0xff05, 0);
        t.next(div * 3 - 1, &mut intf);
        assert_eq!(t.get(0xff05), 2);
        t.next(1, &mut intf);
        assert_eq!(t.get(0xff05), 3);
        assert_eq!(t.get(0xff07), tac);
    }
    assert_eq!(intf.data, 0);
}

#[test]
fn timer_reloads_repeatedly_and_tac_change_reloads() {
    let mut intf = Intf::power_up();
    let mut t = Timer::power_up();
    t.set(0xff06, 0xfe);
    t.set(0xff07, 0b101);
    assert_eq!(t.get(0xff05), 0xfe); // divisor changed: TIMA reloaded from TMA
    t.next(16 * 5, &mut intf);
    // 0xfe -> 0xff -> reload 0xfe -> 0xff -> reload 0xfe -> 0xff
    assert_eq!(t.get(0xff05), 0xff);
    assert_eq!(intf.data, 0x04);
    t.set(0xff05, 0x10);
    t.next(8, &mut intf);
    t.set(0xff07, 0b101); // same divisor: nothing is reset
    t.next(8, &mut intf);
    assert_eq!(t.get(0xff05), 0x11);
    t.next(8, &mut intf);
    t.set(0xff07, 0b110); // other divisor: prescaler cleared, TIMA reloaded
    assert_eq!(t.get(0xff05), 0xfe);
    t.next(63, &mut intf);
    assert_eq!(t.get(0xff05), 0xfe);
    t.next(1, &mut intf);
    assert_eq!(t.get(0xff05), 0xff);
}

#[test]
fn pacing_clock() {
    let mut rtc = RTC::power_up(Term::GB, 1000);
    assert_eq!(rtc.pace(1005), 0);
    assert!(!rtc.flip());
    rtc.step_cycles = STEP_CYCLES;
    assert_eq!(rtc.pace(1005), 0);
    rtc.step_cycles = STEP_CYCLES + 10;
    assert_eq!(rtc.pace(1005), 11);
    assert_eq!(rtc.step_cycles, 10);
    assert_eq!(rtc.step_zero, 1016);
    assert!(rtc.flip());
    assert!(!rtc.flip());
    rtc.step_cycles = STEP_CYCLES + 1;
    assert_eq!(rtc.pace(1050), 0);
    assert_eq!(rtc.step_zero, 1050);
    rtc.step_cycles = STEP_CYCLES + 1;
    assert_eq!(rtc.pace(1040), 16);
    assert_eq!(rtc.step_zero, 1066);
    assert_eq!(STEP_CYCLES, 67108);
}

#[test]
fn timer_interrupt_latency() {
    // a tight loop of NOPs: 0x150: NOP; JR -3
    let cart = power_up(rom_with(0x00, 0, false, &[0x00, 0x18, 0xfd]), None, None, 0).unwrap();
    let mut board = MotherBoard::power_up(cart, 0);
    assert_eq!(board.next(), 16); // JP 0x0150
    assert_eq!(board.rtc.cpu.reg.pc, 0x0150);
    board.mmu.set(0xff40, 0x00);
    board.mmu.set(0xff04, 0x00);
    board.mmu.set(0xffff, 0x04);
    board.mmu.set(0xff0f, 0x00);
    board.mmu.set(0xff06, 0x00);
    board.mmu.set(0xff07, 0b110);
    board.mmu.set(0xff07, 0b100);
    board.mmu.set(0xff05, 0xfe);
    let mut ticks: u32 = 0;
    let mut steps = 0;
    while board.rtc.cpu.reg.pc != 0x0050 {
        ticks += board.next();
        steps += 1;
        assert!(steps < 10_000);
    }
    // two periods of 1024 ticks, then the loop's instruction in flight ends
    // and the interrupt is serviced in 16 ticks
    assert!(ticks >= 2048 + 16);
    assert!(ticks <= 2048 + 12 + 16);
    assert_eq!(board.mmu.get(0xff0f) & 0x04, 0);
    assert!(!board.rtc.cpu.ei);
    assert_eq!(board.mmu.get(0xff05), 0x00);
}

#[test]
fn stop_switches_speed_when_armed() {
    // STOP 0; NOP
    let cart = power_up(rom_with(0x00, 0, true, &[0x10, 0x00, 0x00]), None, None, 0).unwrap();
    let mut board = MotherBoard::power_up(cart, 0);
    board.next();
    board.mmu.set(0xff4d, 0x01);
    board.next();
    assert!(board.mmu.speed.mode == SpeedMode::Double);
    assert_eq!(board.mmu.get(0xff4d), 0x80);
    assert_eq!(board.rtc.cpu.reg.pc, 0x0152);
}

#[test]
fn frame_flag_is_reported_once() {
    let cart = power_up(rom_with(0x00, 0, false, &[0x00, 0x18, 0xfd]), None, None, 0).unwrap();
    let mut board = MotherBoard::power_up(cart, 0);
    board.check_and_reset_gpu_updated();
    let mut frames = 0;
    let mut ticks: u32 = 0;
    while ticks < 70224 * 3 {
        ticks += board.next();
        if board.check_and_reset_gpu_updated() {
            frames += 1;
        }
    }
    assert_eq!(frames, 3);
}

#[test]
fn audio_engine_on_the_bus() {
    let mut mmu = bus();
    mmu.apu = Some(APU::power_up(44100));
    mmu.set(0xff11, 0x80);
    assert_eq!(mmu.get(0xff11), 0x00); // engine off: the store is ignored
    mmu.set(0xff26, 0x80);
    mmu.set(0xff11, 0x80);
    assert_eq!(mmu.get(0xff11), 0x80);
    mmu.set(0xff30, 0x12);
    assert_eq!(mmu.get(0xff30), 0x12);
    mmu.set(0xff26, 0x00);
    assert_eq!(mmu.get(0xff11), 0x00);
    assert_eq!(mmu.get(0xff30), 0x12);
    mmu.set(0xff40, 0x00);
    mmu.next(24);
}

#[test]
fn timer_interrupt_comes_when_it_is_due() {
    // divisor 1024, TIMA two increments from overflow
    let mut intf = Intf::power_up();
    let mut t = Timer::power_up();
    t.set(0xff06, 0x10);
    t.set(0xff07, 0b100);
    t.set(0xff05, 0xfe);
    let mut ticks = 0;
    while ticks < 2044 {
        t.next(4, &mut intf);
        ticks += 4;
        assert_eq!(intf.data, 0);
    }
    assert_eq!(t.get(0xff05), 0xff);
    t.next(4, &mut intf);
    assert_eq!(intf.data, 0x04);
    assert_eq!(t.get(0xff05), 0x10);
    // without the enable bit it never comes
    let mut intf = Intf::power_up();
    let mut t = Timer::power_up();
    t.set(0xff05, 0xff);
    t.next(1 << 20, &mut intf);
    assert_eq!(intf.data, 0);
    assert_eq!(t.get(0xff05), 0xff);
}

#[test]
fn stores_to_the_timer_leave_the_other_registers() {
    let mut intf = Intf::power_up();
    let mut t = Timer::power_up();
    t.set(0xff07, 0b101);
    t.next(256 * 3 + 5, &mut intf);
    assert_eq!(t.get(0xff04), 3);
    let tima = t.get(0xff05);
    t.set(0xff06, 0x42);
    assert_eq!(t.get(0xff04), 3);
    assert_eq!(t.get(0xff05), tima);
    assert_eq!(t.get(0xff07), 0b101);
    t.set(0xff05, 0x07);
    assert_eq!(t.get(0xff04), 3);
    assert_eq!(t.get(0xff06), 0x42);
    t.set(0xff07, 0b110);
    assert_eq!(t.get(0xff04), 3);
    assert_eq!(t.get(0xff05), 0x42);
    // the prescaler of DIV went on counting through the stores
    t.next(251, &mut intf);
    assert_eq!(t.get(0xff04), 4);
}
