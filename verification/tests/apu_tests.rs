use gb_emu::apu::{
    Blip, Channel, ChannelNoise, ChannelSquare, ChannelWave, FrameSequencer, FrequencySweep,
    LengthCounter, Register, VolumeEnvelope, APU, FRAME_TICKS, LFSR,
};
use gb_emu::clock::Clock;
use gb_emu::memory::Memory;

fn reg(channel: Channel, n: [u8; 5]) -> Register {
    Register { channel, nrx0: n[0], nrx1: n[1], nrx2: n[2], nrx3: n[3], nrx4: n[4] }
}

#[test]
fn register_fields() {
    let r = reg(Channel::Square1, [0b0101_1011, 0b1010_0101, 0b1101_1010, 0x34, 0b1100_0110]);
    assert_eq!(r.get_sweep_period(), 5);
    assert!(r.get_negate());
    assert_eq!(r.get_shift(), 3);
    assert_eq!(r.get_duty(), 2);
    assert_eq!(r.get_length_load(), 64 - 0x25);
    assert_eq!(r.get_starting_volume(), 13);
    assert!(r.get_envelope_add_mode());
    assert_eq!(r.get_period(), 2);
    assert_eq!(r.get_frequency(), 0x634);
    assert!(r.get_trigger());
    assert!(r.get_length_enable());
    let w = reg(Channel::Wave, [0x80, 0x10, 0b0100_0000, 0xff, 0x07]);
    assert!(w.get_dac_power());
    assert_eq!(w.get_length_load(), 256 - 0x10);
    assert_eq!(w.get_volume_code(), 2);
    assert_eq!(w.get_frequency(), 0x7ff);
    assert!(!w.get_trigger());
    let n = reg(Channel::Noise, [0, 0, 0, 0b1011_1101, 0]);
    assert_eq!(n.get_clock_shift(), 11);
    assert!(n.get_lfsr_width_mode());
    assert_eq!(n.get_dividor_code(), 5);
    let m = reg(Channel::Mixer, [0b0101_0011, 0, 0x80, 0, 0]);
    assert_eq!(m.get_l_vol(), 5);
    assert_eq!(m.get_r_vol(), 3);
    assert!(m.get_power());
    let mut r = Register::power_up(Channel::Square2);
    r.nrx4 = 0x47;
    r.set_frequency(0x0123);
    assert_eq!((r.nrx3, r.nrx4), (0x23, 0x41));
    assert_eq!(r.get_frequency(), 0x123);
    r.set_frequency(0xffff);
    assert_eq!(r.get_frequency(), 0x7ff);
    assert_eq!(r.nrx4, 0x47);
    r.set_trigger(true);
    assert_eq!(r.nrx4, 0xc7);
    r.set_trigger(false);
    assert_eq!(r.nrx4, 0x47);
    r.reset();
    assert_eq!((r.nrx0, r.nrx1, r.nrx2, r.nrx3, r.nrx4), (0, 0, 0, 0, 0));
    assert!(r.channel == Channel::Square2);
}

#[test]
fn frame_sequencer_steps() {
    let mut fs = FrameSequencer::power_up();
    let steps: Vec<u8> = (0..10).map(|_| fs.next()).collect();
    assert_eq!(steps, vec![1, 2, 3, 4, 5, 6, 7, 0, 1, 2]);
}

#[test]
fn length_counter() {
    let mut r = reg(Channel::Square1, [0, 0, 0, 0, 0xc0]);
    let mut lc = LengthCounter::power_up();
    lc.reload(&r);
    assert_eq!(lc.n, 64);
    lc.n = 2;
    lc.reload(&r);
    assert_eq!(lc.n, 2);
    lc.next(&mut r);
    assert_eq!(lc.n, 1);
    assert!(r.get_trigger());
    lc.next(&mut r);
    assert_eq!(lc.n, 0);
    assert!(!r.get_trigger());
    lc.next(&mut r);
    assert_eq!(lc.n, 0);
    let mut w = reg(Channel::Wave, [0, 0, 0, 0, 0x80]);
    lc.reload(&w);
    assert_eq!(lc.n, 256);
    lc.next(&mut w); // length not enabled
    assert_eq!(lc.n, 256);
}

#[test]
fn volume_envelope() {
    let down = reg(Channel::Square1, [0, 0, 0xf3, 0, 0]);
    let mut ve = VolumeEnvelope::power_up();
    ve.reload(&down);
    assert_eq!(ve.volume, 15);
    assert_eq!(ve.timer.period, 3);
    ve.next(&down);
    ve.next(&down);
    assert_eq!(ve.volume, 15);
    ve.next(&down);
    assert_eq!(ve.volume, 14);
    for _ in 0..3 * 14 {
        ve.next(&down);
    }
    assert_eq!(ve.volume, 0);
    for _ in 0..9 {
        ve.next(&down);
    }
    assert_eq!(ve.volume, 0);
    let up = reg(Channel::Noise, [0, 0, 0xe9, 0, 0]);
    ve.reload(&up);
    assert_eq!((ve.volume, ve.timer.period), (14, 1));
    ve.next(&up);
    assert_eq!(ve.volume, 15);
    ve.next(&up);
    assert_eq!(ve.volume, 15);
    let still = reg(Channel::Square2, [0, 0, 0x50, 0, 0]);
    ve.reload(&still);
    assert_eq!((ve.volume, ve.timer.period), (5, 8));
    for _ in 0..20 {
        ve.next(&still);
    }
    assert_eq!(ve.volume, 5);
}

#[test]
fn frequency_sweep() {
    let mut r = reg(Channel::Square1, [0x11, 0, 0, 0x00, 0x84]); // period 1, add, shift 1
    let mut fs = FrequencySweep::power_up();
    fs.reload(&mut r);
    assert_eq!(fs.shadow, 0x400);
    assert!(fs.enable);
    assert_eq!(fs.new_freq, 0x600);
    assert!(r.get_trigger());
    fs.next(&mut r);
    // the candidate 0x600 is taken, and the next one, 0x900, overflows
    assert_eq!(fs.shadow, 0x600);
    assert_eq!(r.get_frequency(), 0x600);
    assert_eq!(fs.new_freq, 0x900);
    assert!(!r.get_trigger());
    let mut r = reg(Channel::Square1, [0x2a, 0, 0, 0x00, 0x84]); // period 2, subtract, shift 2
    fs.reload(&mut r);
    assert_eq!(fs.new_freq, 0x300);
    fs.next(&mut r);
    assert_eq!(fs.shadow, 0x400);
    fs.next(&mut r);
    assert_eq!(fs.shadow, 0x300);
    assert_eq!(r.get_frequency(), 0x300);
    assert_eq!(fs.new_freq, 0x240);
    assert!(r.get_trigger());
    let mut r = reg(Channel::Square1, [0x00, 0, 0, 0x00, 0x84]);
    fs.reload(&mut r);
    assert!(!fs.enable);
    assert_eq!(fs.timer.period, 8);
    fs.frequency_calculation(&r);
    assert_eq!(fs.new_freq, 0x800);
    fs.overflow_check(&mut r);
    assert!(!r.get_trigger());
}

#[test]
fn shift_register() {
    let wide = reg(Channel::Noise, [0, 0, 0, 0x00, 0]);
    let mut l = LFSR::power_up();
    assert_eq!(l.seed, 1);
    // 0b...0001: the XOR of the two lowest bits is 1 and goes to bit 14
    assert!(l.next(&wide));
    assert_eq!(l.seed, 0x4000);
    assert!(l.next(&wide));
    assert_eq!(l.seed, 0x2000);
    l.seed = 0x0003;
    assert!(!l.next(&wide));
    assert_eq!(l.seed, 0x0001);
    let narrow = reg(Channel::Noise, [0, 0, 0, 0x08, 0]);
    l.seed = 0x0041;
    assert!(l.next(&narrow));
    assert_eq!(l.seed, 0x4060);
    l.seed = 0x0043;
    assert!(!l.next(&narrow));
    assert_eq!(l.seed, 0x0021);
    // the register never leaves 15 bits and has period 32767
    let mut l = LFSR::power_up();
    let mut steps = 0u32;
    loop {
        l.next(&wide);
        steps += 1;
        assert!(l.seed < 0x8000 && l.seed != 0);
        if l.seed == 1 {
            break;
        }
    }
    assert_eq!(steps, 32767);
    l.seed = 0x1234;
    l.reload();
    assert_eq!(l.seed, 1);
}

#[test]
fn sample_buffer() {
    let mut b = Blip::power_up(44100);
    assert_eq!(b.samples_avail(), 0);
    b.set(0, 15);
    b.set(4096, -15);
    b.end_frame(FRAME_TICKS);
    // 8192 ticks at 44100 samples per second: 86 samples and a rest
    assert_eq!(b.samples_avail(), 86);
    b.end_frame(FRAME_TICKS);
    assert_eq!(b.samples_avail(), 172);
    let mut buf = [0i16; 2048];
    buf[100] = 77;
    assert_eq!(b.read(&mut buf, 100), 100);
    assert_eq!(b.samples_avail(), 72);
    assert_eq!(buf[100], 77);
    assert!(buf[..100].iter().any(|s| *s != 0));
    assert!(buf[..40].iter().any(|s| *s > 0));
    assert!(buf[44..86].iter().any(|s| *s < 0));
    assert_eq!(b.read(&mut buf, 2048), 72);
    assert_eq!(b.samples_avail(), 0);
    assert_eq!(b.read(&mut buf, 2048), 0);
    // an amplitude out of range is not taken
    b.set(10, 0x4001);
    b.end_frame(FRAME_TICKS);
    let n = b.read(&mut buf, 2048);
    assert!(n == 86 || n == 87);
    // a second of frames fills the buffer; after that frames no longer end
    let mut full = Blip::power_up(1000);
    for _ in 0..600 {
        full.end_frame(FRAME_TICKS);
    }
    let avail = full.samples_avail();
    assert!(avail <= 1000 && avail >= 997);
    full.end_frame(FRAME_TICKS);
    assert_eq!(full.samples_avail(), avail);
    // rates above the limit are taken as the limit
    let mut fast = Blip::power_up(u32::MAX);
    fast.end_frame(FRAME_TICKS);
    assert_eq!(fast.samples_avail(), 2048);
}

#[test]
fn pulse_channel_registers_and_waveform() {
    let mut c = ChannelSquare::power_up(44100, Channel::Square1);
    assert_eq!(c.core.timer.period, 8192);
    assert_eq!(c.core.wave_idx, 1);
    c.set(0xff11, 0x85);
    assert_eq!(c.get(0xff11), 0x85);
    assert_eq!(c.core.lc.n, 64 - 5);
    c.set(0xff13, 0x00);
    c.set(0xff12, 0xa0);
    c.set(0xff14, 0x87);
    assert_eq!(c.core.timer.period, 4 * (2048 - 0x700));
    assert_eq!(c.core.ve.volume, 10);
    assert_eq!(c.get(0xff14), 0x87);
    assert_eq!(c.get(0xff19), 0x87);
    assert_eq!(c.get(0xff1a), 0);
    // duty 2 is 0b1000_0111, read from bit 0 on
    c.core.wave_idx = 0;
    let amps: Vec<i32> = (0..8)
        .map(|_| {
            let a = c.core.compute_amplitude();
            c.core.wave_idx = (c.core.wave_idx + 1) % 8;
            a
        })
        .collect();
    assert_eq!(amps, vec![10, 10, 10, -10, -10, -10, -10, 10]);
    c.core.register.set_trigger(false);
    assert_eq!(c.core.compute_amplitude(), 0);
    c.core.register.set_trigger(true);
    c.core.ve.volume = 0;
    assert_eq!(c.core.compute_amplitude(), 0);
    // 8192 ticks at a period of 1024: eight steps
    c.core.wave_idx = 3;
    c.core.timer = Clock { period: 1024, n: 1000 };
    c.next(8192);
    assert_eq!(c.core.wave_idx, 3);
    assert_eq!(c.core.timer.n, 1000);
    c.next(24);
    assert_eq!(c.core.wave_idx, 4);
    assert_eq!(c.core.timer.n, 0);
}

#[test]
fn wave_channel() {
    let mut c = ChannelWave::power_up(44100);
    c.set(0xff30, 0x2f);
    c.set(0xff3f, 0xa4);
    assert_eq!(c.get(0xff30), 0x2f);
    assert_eq!(c.get(0xff3f), 0xa4);
    c.set(0xff1a, 0x80);
    c.set(0xff1b, 0x40);
    assert_eq!(c.core.lc.n, 192);
    c.set(0xff1c, 0x20);
    c.set(0xff1d, 0xff);
    c.set(0xff1e, 0x87);
    assert_eq!(c.core.timer.period, 2);
    assert_eq!(c.core.sample_idx, 0);
    assert_eq!(c.core.compute_amplitude(), 15);
    c.core.sample_idx = 1;
    assert_eq!(c.core.compute_amplitude(), 2);
    c.core.sample_idx = 31;
    assert_eq!(c.core.compute_amplitude(), 10);
    c.set(0xff1c, 0x40);
    assert_eq!(c.core.compute_amplitude(), 5);
    c.set(0xff1c, 0x60);
    assert_eq!(c.core.compute_amplitude(), 2);
    c.set(0xff1c, 0x00);
    assert_eq!(c.core.compute_amplitude(), 0);
    c.set(0xff1c, 0x20);
    c.set(0xff1a, 0x00);
    assert_eq!(c.core.compute_amplitude(), 0);
    c.core.sample_idx = 30;
    c.next(7);
    assert_eq!(c.core.sample_idx, 1);
    assert_eq!(c.core.timer.n, 1);
}

#[test]
fn noise_channel() {
    let mut c = ChannelNoise::power_up(44100);
    c.set(0xff22, 0x00);
    assert_eq!(c.core.timer.period, 8);
    c.set(0xff22, 0x31);
    assert_eq!(c.core.timer.period, 32 << 3);
    c.set(0xff22, 0xf7);
    assert_eq!(c.core.timer.period, 128 << 15);
    c.set(0xff20, 0x3f);
    assert_eq!(c.core.lc.n, 1);
    c.set(0xff21, 0x70);
    c.core.lfsr.seed = 0x1234;
    c.set(0xff23, 0x80);
    assert_eq!(c.core.lfsr.seed, 1);
    assert_eq!(c.core.ve.volume, 7);
    assert_eq!(c.core.tick(), 7);
    assert_eq!(c.core.lfsr.seed, 0x4000);
    c.core.lfsr.seed = 3;
    assert_eq!(c.core.tick(), -7);
    c.core.ve.volume = 0;
    assert_eq!(c.core.tick(), 0);
    assert_eq!(c.core.lfsr.seed, 1);
    c.core.ve.volume = 7;
    c.set(0xff22, 0x00);
    c.next(80);
    // ten steps from seed 1
    let mut l = LFSR::power_up();
    for _ in 0..10 {
        l.next(&c.core.register);
    }
    assert_eq!(c.core.lfsr.seed, l.seed);
    assert_eq!(c.get(0xff23), 0x80);
    assert_eq!(c.get(0xff24), 0);
}

#[test]
fn power_gates_the_registers() {
    let mut apu = APU::power_up(44100);
    assert_eq!(apu.get(0xff26), 0x00);
    apu.set(0xff12, 0xf3);
    apu.set(0xff24, 0x77);
    apu.set(0xff30, 0xab);
    assert_eq!((apu.get(0xff12), apu.get(0xff24), apu.get(0xff30)), (0, 0, 0));
    apu.set(0xff26, 0x80);
    assert_eq!(apu.get(0xff26), 0x80);
    apu.set(0xff12, 0xf3);
    apu.set(0xff17, 0x11);
    apu.set(0xff1c, 0x20);
    apu.set(0xff21, 0x22);
    apu.set(0xff24, 0x77);
    apu.set(0xff25, 0xf3);
    apu.set(0xff30, 0xab);
    apu.set(0xff28, 0xff);
    assert_eq!(apu.get(0xff12), 0xf3);
    assert_eq!(apu.get(0xff17), 0x11);
    assert_eq!(apu.get(0xff1c), 0x20);
    assert_eq!(apu.get(0xff21), 0x22);
    assert_eq!(apu.get(0xff24), 0x77);
    assert_eq!(apu.get(0xff25), 0xf3);
    assert_eq!(apu.get(0xff28), 0x00);
    apu.set(0xff14, 0x80);
    apu.set(0xff19, 0x80);
    assert_eq!(apu.get(0xff26), 0x83);
    apu.set(0xff1e, 0x80);
    apu.set(0xff23, 0x80);
    assert_eq!(apu.get(0xff26), 0xc3);
    apu.set(0xff26, 0x00);
    assert_eq!(apu.get(0xff12), 0x00);
    assert_eq!(apu.get(0xff24), 0x00);
    assert_eq!(apu.get(0xff25), 0x00);
    assert_eq!(apu.get(0xff26), 0x00);
    assert_eq!(apu.get(0xff30), 0xab);
    assert_eq!(apu.get(0x0000), 0x00);
}

fn sounding(sample_rate: u32) -> APU {
    let mut apu = APU::power_up(sample_rate);
    apu.set(0xff26, 0x80);
    apu.set(0xff24, 0x77);
    apu.set(0xff25, 0xff);
    apu.set(0xff10, 0x77);
    apu.set(0xff11, 0x80);
    apu.set(0xff12, 0xf3);
    apu.set(0xff13, 0x00);
    apu.set(0xff14, 0xc6);
    apu
}

#[test]
fn powered_off_engine_stands_still() {
    let mut apu = APU::power_up(44100);
    apu.next(100_000);
    assert_eq!(apu.fs.step, 0);
    assert_eq!(apu.timer.n, 0);
    assert!(apu.buffer.is_empty());
}

#[test]
fn sequencer_runs_at_512_hz_and_samples_are_queued() {
    let mut apu = sounding(44100);
    apu.next(8191);
    assert_eq!(apu.fs.step, 0);
    assert!(apu.buffer.is_empty());
    apu.next(1);
    assert_eq!(apu.fs.step, 1);
    assert_eq!(apu.buffer.len(), 86);
    apu.next(8192 * 7);
    assert_eq!(apu.fs.step, 0);
    // eight steps of 8192 ticks: 689 samples and a rest
    assert_eq!(apu.buffer.len(), 689);
    assert_eq!(apu.square1_channel.blip.samples_avail(), 0);
    assert_eq!(apu.noise_channel.blip.samples_avail(), 0);
    let taken = apu.take_samples();
    assert_eq!(taken.len(), 689);
    assert!(apu.buffer.is_empty());
    assert!(taken.iter().any(|s| s.0 != 0));
}

#[test]
fn envelope_lets_the_pulse_fade() {
    let mut apu = sounding(44100);
    let mut samples: Vec<(i32, i32)> = Vec::new();
    // one second in steps of 64 ticks
    for _ in 0..(4_194_304 / 64) {
        apu.next(64);
        samples.extend(apu.take_samples());
    }
    assert_eq!(samples.len(), 44100);
    // both sides carry the same signal at the same volume
    assert!(samples.iter().all(|s| s.0 == s.1));
    let peak = |from: usize, to: usize| samples[from..to].iter().map(|s| s.0.abs()).max().unwrap();
    // volume 15 at the start, one step down every 3/64 s
    let first = peak(0, 2000);
    let second = peak(2100, 4000);
    let third = peak(4200, 6100);
    assert!(first > second && second > third && third > 0);
    // amplitude 15 at master volume 7, with the overshoot of a band-limited step
    assert!(first >= 7 * 15 && first <= 7 * 22, "peak {}", first);
    // the length counter (64 steps at 256 Hz) ends the sound after 0.25 s
    assert_eq!(apu.get(0xff26) & 0x01, 0);
    assert!(samples[..11000].iter().filter(|s| s.0 != 0).count() > 10_000);
    assert!(samples[13000..].iter().all(|s| s.0 == 0));
    assert_eq!(apu.square1_channel.core.ve.volume, 0);
}

#[test]
fn queue_holds_one_second_at_most() {
    let mut apu = sounding(1000);
    for _ in 0..1200 {
        apu.next(FRAME_TICKS);
    }
    assert_eq!(apu.buffer.len(), 1000);
    let first = apu.buffer[0];
    apu.next(FRAME_TICKS * 10);
    assert_eq!(apu.buffer.len(), 1000);
    assert_eq!(apu.buffer[0], first);
    apu.take_samples();
    apu.next(FRAME_TICKS * 2);
    assert!(apu.buffer.len() >= 3 && apu.buffer.len() <= 4);
}

#[test]
fn mixer_routes_channels_and_scales_by_volume() {
    // a constant level on the wave channel: all samples 0xf, volume code 1
    let level = |nr50: u8, nr51: u8| -> (i32, i32) {
        let mut apu = APU::power_up(44100);
        apu.set(0xff26, 0x80);
        apu.set(0xff24, nr50);
        apu.set(0xff25, nr51);
        for a in 0xff30..=0xff3fu16 {
            apu.set(a, 0xff);
        }
        apu.set(0xff1a, 0x80);
        apu.set(0xff1c, 0x20);
        apu.set(0xff1e, 0x80);
        apu.next(FRAME_TICKS * 4);
        let s = apu.take_samples();
        let l = s.iter().map(|s| s.0).max().unwrap();
        let r = s.iter().map(|s| s.1).max().unwrap();
        (l, r)
    };
    let (l, r) = level(0x77, 0x44);
    assert!(l > 0 && l == r);
    let (l3, r0) = level(0x30, 0x44);
    assert_eq!(r0, 0);
    assert!(l3 > 0 && l3 < l);
    assert_eq!(l3 * 7, l * 3);
    assert_eq!(level(0x77, 0x04), (l, 0));
    assert_eq!(level(0x77, 0x40), (0, l));
    assert_eq!(level(0x77, 0xbb), (0, 0));
}

#[test]
fn sample_buffer_keeps_its_sums_in_range() {
    // a frame that would carry the clock past 32 bits does not end
    let mut b = Blip::power_up(44100);
    b.end_frame(86);
    assert_eq!(b.samples_avail(), 0);
    b.end_frame(389_500);
    assert_eq!(b.samples_avail(), 0);
    b.set(389_500, 1);
    b.end_frame(FRAME_TICKS);
    assert_eq!(b.samples_avail(), 87);
    // an amplitude beyond 16 either way is not taken
    let mut buf = [0i16; 2048];
    let mut b = Blip::power_up(44100);
    b.set(0, 0x4000);
    b.set(200, -0x4000);
    b.set(400, 17);
    b.end_frame(FRAME_TICKS);
    let n = b.read(&mut buf, 2048);
    assert_eq!(n, 86);
    assert!(buf[..n].iter().all(|s| *s == 0));
    // changes that come thick and fast are thinned out, and the sums stay
    // in range for as long as the buffer is fed
    let mut b = Blip::power_up(44100);
    let mut heard = false;
    for frame in 0..3000u32 {
        let mut t = 0;
        let mut a = 16;
        while t < FRAME_TICKS {
            b.set(t, a);
            a = -a;
            t += 1 + (t + frame) % 61;
        }
        b.end_frame(FRAME_TICKS);
        let n = b.read(&mut buf, 2048);
        assert!(n == 86 || n == 87);
        assert!(buf[..n].iter().all(|s| -64 <= *s && *s <= 64));
        heard = heard || buf[..n].iter().any(|s| *s != 0);
    }
    assert!(heard);
    // a staircase from one end of the range to the other and back
    let mut b = Blip::power_up(48000);
    for _ in 0..200 {
        let mut a = -16;
        let mut t = 0;
        while t < FRAME_TICKS {
            b.set(t, a);
            a = if a == 16 { -16 } else { a + 1 };
            t += 200;
        }
        b.end_frame(FRAME_TICKS);
        let n = b.read(&mut buf, 2048);
        assert!(n == 93 || n == 94);
        assert!(buf[..n].iter().all(|s| -64 <= *s && *s <= 64));
    }
}

#[test]
fn changes_within_one_sample_add_up_to_a_full_swing() {
    // at 44100 samples per second a sample takes about 95 ticks: the
    // ticks 1000 to 1040 lie in one sample, the tick 1100 in the next
    let mut buf = [0i16; 2048];
    let mut near = Blip::power_up(44100);
    near.set(1000, 15);
    near.set(1010, -15);
    near.end_frame(FRAME_TICKS);
    let n = near.read(&mut buf, 2048);
    // 15 and 30 are more than 32: the second change was not taken
    assert!(buf[40..n].iter().all(|s| *s > 0));
    let mut far = Blip::power_up(44100);
    far.set(1000, 15);
    far.set(1100, -15);
    far.end_frame(FRAME_TICKS);
    let n = far.read(&mut buf, 2048);
    assert!(buf[40..n].iter().all(|s| *s < 0));
    // small changes in one sample are all taken
    let mut stairs = Blip::power_up(44100);
    stairs.set(1000, -4);
    stairs.set(1010, -8);
    stairs.set(1020, -12);
    stairs.set(1030, -4);
    stairs.set(1040, -16);
    stairs.end_frame(FRAME_TICKS);
    let n = stairs.read(&mut buf, 2048);
    assert!(buf[40..n].iter().all(|s| *s <= -12));
    // a write of the amplitude that already sounds is always taken
    let mut same = Blip::power_up(44100);
    same.set(1000, 15);
    same.set(1001, 15);
    same.set(1100, -15);
    same.end_frame(FRAME_TICKS);
    let n = same.read(&mut buf, 2048);
    assert!(buf[40..n].iter().all(|s| *s < 0));
    // a change before the last one is not taken
    let mut back = Blip::power_up(44100);
    back.set(2000, 5);
    back.set(1000, -5);
    back.end_frame(FRAME_TICKS);
    let n = back.read(&mut buf, 2048);
    assert!(buf[..20].iter().all(|s| *s == 0));
    assert!(buf[40..n].iter().all(|s| *s > 0));
}

#[test]
fn driving_the_engine_leaves_nothing_to_mix() {
    let mut apu = sounding(44100);
    for cycles in [8192u32, 5, 20000, 8187, 70224] {
        apu.next(cycles);
        let least = [
            apu.square1_channel.blip.samples_avail(),
            apu.square2_channel.blip.samples_avail(),
            apu.wave_channel.blip.samples_avail(),
            apu.noise_channel.blip.samples_avail(),
        ]
        .into_iter()
        .min();
        assert_eq!(least, Some(0));
    }
}

#[test]
fn clocks_left_over_count_towards_the_next_sample() {
    // 8192 ticks at 300 samples per second are 614400 of the 1048576
    // clocks of a sample: every frame leaves clocks over
    let mut b = Blip::power_up(300);
    b.end_frame(FRAME_TICKS);
    assert_eq!(b.samples_avail(), 0);
    b.end_frame(FRAME_TICKS);
    assert_eq!(b.samples_avail(), 1);
    for _ in 0..3000 {
        b.end_frame(FRAME_TICKS);
    }
    // frames end for as long as their samples fit
    assert_eq!(b.samples_avail(), 300);
    let mut buf = [0i16; 2048];
    assert_eq!(b.read(&mut buf, 1), 1);
    assert_eq!(b.samples_avail(), 299);
    // 6000 ticks alone make no sample; with what was left over they do
    b.end_frame(6000);
    assert_eq!(b.samples_avail(), 300);
    // a change of amplitude lands in the slot that what was left over
    // puts it in: here the tick 0 lies in the sample after the ready ones
    let mut c = Blip::power_up(300);
    c.end_frame(FRAME_TICKS);
    c.set(0, 16);
    // with what was left over, the tick 6000 lies in the next sample, and
    // the full swing back is taken
    c.set(6000, -16);
    for _ in 0..60 {
        c.end_frame(FRAME_TICKS);
    }
    let n = c.read(&mut buf, 2048);
    assert_eq!(n, 35);
    assert!(buf[20..n].iter().all(|s| *s < 0));
    // with nothing left over it lies in the same sample, for which two
    // full swings are too much
    let mut d = Blip::power_up(300);
    d.set(0, 16);
    d.set(6000, -16);
    for _ in 0..60 {
        d.end_frame(FRAME_TICKS);
    }
    let n = d.read(&mut buf, 2048);
    assert_eq!(n, 35);
    assert!(buf[20..n].iter().all(|s| *s > 0));
}
