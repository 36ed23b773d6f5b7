use vstd::prelude::*;
use blip_buf::BlipBuf;
use crate::blip::{
    blip_samples, blip_size, blip_phase, blip_mass, blip_hold, blip_slot, blip_new, blip_add_delta,
    blip_end_frame, blip_samples_avail, blip_clocks_needed, blip_read_samples, tap, size_of,
    CLOCKS_PER_SAMPLE, MAX_SAMPLES, CHUNK, SPARE_SLOTS, STEP_WIDTH, SLOT_LIMIT, HOLD_LIMIT,
};
use crate::clock::Clock;
use crate::memory::Memory;
use vstd::array::{spec_array_update, spec_array_fill_for_copy_type};

verus! {

/// Master-clock ticks per step of the frame sequencer (512 Hz).
pub const FRAME_TICKS: u32 = 8192;

/// The owner of a group of five registers.
#[derive(Clone, Copy, PartialEq, Eq, Structural, Debug)]
pub enum Channel {
    /// Pulse with sweep and envelope.
    Square1,
    /// Pulse with envelope.
    Square2,
    /// Programmable waveform.
    Wave,
    /// Noise.
    Noise,
    /// The master mixer (NR50, NR51, NR52).
    Mixer,
}

/// A group of five registers NRx0 to NRx4.
#[derive(Clone, Copy, PartialEq, Eq, Structural, Debug)]
pub struct Register {
    pub channel: Channel,
    pub nrx0: u8,
    pub nrx1: u8,
    pub nrx2: u8,
    pub nrx3: u8,
    pub nrx4: u8,
}

impl Register {
    /// The registers of `channel` at power-up: all 0.
    pub open spec fn power_up_value(channel: Channel) -> Register {
        Register { channel, nrx0: 0, nrx1: 0, nrx2: 0, nrx3: 0, nrx4: 0 }
    }

    pub fn power_up(channel: Channel) -> (r: Self)
        ensures
            r == Self::power_up_value(channel),
    {
        Register { channel, nrx0: 0x00, nrx1: 0x00, nrx2: 0x00, nrx3: 0x00, nrx4: 0x00 }
    }

    /// Bits 6 to 4 of NR10: the sweep period.
    pub open spec fn sweep_period(self) -> u8 {
        self.nrx0 / 16 % 8
    }

    /// Bit 3 of NR10: the sweep subtracts.
    pub open spec fn negate(self) -> bool {
        self.nrx0 / 8 % 2 == 1
    }

    /// Bits 2 to 0 of NR10: the sweep shift.
    pub open spec fn shift(self) -> u8 {
        self.nrx0 % 8
    }

    /// Bit 7 of NR30: the wave channel's converter is on.
    pub open spec fn dac_power(self) -> bool {
        self.nrx0 >= 0x80
    }

    /// Bits 7 and 6 of NRx1: the duty.
    pub open spec fn duty(self) -> u8 {
        self.nrx1 / 64
    }

    /// The length a write to NRx1 loads: 256 minus the byte on the wave
    /// channel, 64 minus its low six bits on the others.
    pub open spec fn length_load(self) -> u16 {
        if self.channel == Channel::Wave {
            (256 - self.nrx1) as u16
        } else {
            (64 - self.nrx1 % 64) as u16
        }
    }

    /// Bits 7 to 4 of NRx2: the starting volume.
    pub open spec fn starting_volume(self) -> u8 {
        self.nrx2 / 16
    }

    /// Bits 6 and 5 of NR32: the volume code.
    pub open spec fn volume_code(self) -> u8 {
        self.nrx2 / 32 % 4
    }

    /// Bit 3 of NRx2: the envelope adds.
    pub open spec fn envelope_add_mode(self) -> bool {
        self.nrx2 / 8 % 2 == 1
    }

    /// Bits 2 to 0 of NRx2: the envelope period.
    pub open spec fn period(self) -> u8 {
        self.nrx2 % 8
    }

    /// The 11-bit frequency: bits 2 to 0 of NRx4 above NRx3.
    pub open spec fn frequency(self) -> u16 {
        ((self.nrx4 % 8) * 256 + self.nrx3) as u16
    }

    /// The registers with the low 11 bits of `v` as frequency.
    pub open spec fn with_frequency(self, v: u16) -> Register {
        Register {
            nrx3: (v % 256) as u8,
            nrx4: (self.nrx4 / 8 * 8 + v / 256 % 8) as u8,
            ..self
        }
    }

    /// Bits 7 to 4 of NR43: the clock shift.
    pub open spec fn clock_shift(self) -> u8 {
        self.nrx3 / 16
    }

    /// Bit 3 of NR43: the shift register is 7 bits wide.
    pub open spec fn lfsr_width_mode(self) -> bool {
        self.nrx3 / 8 % 2 == 1
    }

    /// Bits 2 to 0 of NR43: the divisor code.
    pub open spec fn dividor_code(self) -> u8 {
        self.nrx3 % 8
    }

    /// Bit 7 of NRx4: the channel is on.
    pub open spec fn trigger(self) -> bool {
        self.nrx4 >= 0x80
    }

    pub open spec fn with_trigger(self, on: bool) -> Register {
        Register {
            nrx4: (self.nrx4 % 128 + (if on {
                128int
            } else {
                0int
            })) as u8,
            ..self
        }
    }

    /// Bit 6 of NRx4: the length counter runs.
    pub open spec fn length_enable(self) -> bool {
        self.nrx4 / 64 % 2 == 1
    }

    /// Bits 6 to 4 of NR50: the left master volume.
    pub open spec fn l_vol(self) -> u8 {
        self.nrx0 / 16 % 8
    }

    /// Bits 2 to 0 of NR50: the right master volume.
    pub open spec fn r_vol(self) -> u8 {
        self.nrx0 % 8
    }

    /// Bit 7 of NR52: the audio engine is on.
    pub open spec fn power(self) -> bool {
        self.nrx2 >= 0x80
    }

    pub open spec fn cleared(self) -> Register {
        Register { channel: self.channel, nrx0: 0, nrx1: 0, nrx2: 0, nrx3: 0, nrx4: 0 }
    }

    pub fn get_sweep_period(&self) -> (r: u8)
        requires
            self.channel == Channel::Square1,
        ensures
            r == self.sweep_period(),
    {
        self.nrx0 / 16 % 8
    }

    pub fn get_negate(&self) -> (r: bool)
        requires
            self.channel == Channel::Square1,
        ensures
            r == self.negate(),
    {
        self.nrx0 / 8 % 2 == 1
    }

    pub fn get_shift(&self) -> (r: u8)
        requires
            self.channel == Channel::Square1,
        ensures
            r == self.shift(),
    {
        self.nrx0 % 8
    }

    pub fn get_dac_power(&self) -> (r: bool)
        requires
            self.channel == Channel::Wave,
        ensures
            r == self.dac_power(),
    {
        self.nrx0 >= 0x80
    }

    pub fn get_duty(&self) -> (r: u8)
        requires
            self.channel == Channel::Square1 || self.channel == Channel::Square2,
        ensures
            r == self.duty(),
    {
        self.nrx1 / 64
    }

    pub fn get_length_load(&self) -> (r: u16)
        ensures
            r == self.length_load(),
    {
        if self.channel == Channel::Wave {
            256 - self.nrx1 as u16
        } else {
            64 - (self.nrx1 % 64) as u16
        }
    }

    pub fn get_starting_volume(&self) -> (r: u8)
        requires
            self.channel != Channel::Wave,
        ensures
            r == self.starting_volume(),
    {
        self.nrx2 / 16
    }

    pub fn get_volume_code(&self) -> (r: u8)
        requires
            self.channel == Channel::Wave,
        ensures
            r == self.volume_code(),
    {
        self.nrx2 / 32 % 4
    }

    pub fn get_envelope_add_mode(&self) -> (r: bool)
        requires
            self.channel != Channel::Wave,
        ensures
            r == self.envelope_add_mode(),
    {
        self.nrx2 / 8 % 2 == 1
    }

    pub fn get_period(&self) -> (r: u8)
        requires
            self.channel != Channel::Wave,
        ensures
            r == self.period(),
    {
        self.nrx2 % 8
    }

    pub fn get_frequency(&self) -> (r: u16)
        requires
            self.channel != Channel::Noise,
        ensures
            r == self.frequency(),
            r < 2048,
    {
        ((self.nrx4 % 8) as u16) * 256 + self.nrx3 as u16
    }

    pub fn set_frequency(&mut self, v: u16)
        requires
            old(self).channel != Channel::Noise,
        ensures
            *final(self) == old(self).with_frequency(v),
    {
        self.nrx3 = (v % 256) as u8;
        let h = (v / 256 % 8) as u8;
        self.nrx4 = self.nrx4 / 8 * 8 + h;
    }

    pub fn get_clock_shift(&self) -> (r: u8)
        requires
            self.channel == Channel::Noise,
        ensures
            r == self.clock_shift(),
    {
        self.nrx3 / 16
    }

    pub fn get_lfsr_width_mode(&self) -> (r: bool)
        requires
            self.channel == Channel::Noise,
        ensures
            r == self.lfsr_width_mode(),
    {
        self.nrx3 / 8 % 2 == 1
    }

    pub fn get_dividor_code(&self) -> (r: u8)
        requires
            self.channel == Channel::Noise,
        ensures
            r == self.dividor_code(),
    {
        self.nrx3 % 8
    }

    pub fn get_trigger(&self) -> (r: bool)
        ensures
            r == self.trigger(),
    {
        self.nrx4 >= 0x80
    }

    pub fn set_trigger(&mut self, is_trigger: bool)
        ensures
            *final(self) == old(self).with_trigger(is_trigger),
    {
        if is_trigger {
            self.nrx4 = self.nrx4 % 128 + 128;
        } else {
            self.nrx4 = self.nrx4 % 128;
        }
    }

    pub fn get_length_enable(&self) -> (r: bool)
        ensures
            r == self.length_enable(),
    {
        self.nrx4 / 64 % 2 == 1
    }

    pub fn get_l_vol(&self) -> (r: u8)
        requires
            self.channel == Channel::Mixer,
        ensures
            r == self.l_vol(),
    {
        self.nrx0 / 16 % 8
    }

    pub fn get_r_vol(&self) -> (r: u8)
        requires
            self.channel == Channel::Mixer,
        ensures
            r == self.r_vol(),
    {
        self.nrx0 % 8
    }

    pub fn get_power(&self) -> (r: bool)
        requires
            self.channel == Channel::Mixer,
        ensures
            r == self.power(),
    {
        self.nrx2 >= 0x80
    }

    pub fn reset(&mut self)
        ensures
            *final(self) == old(self).cleared(),
    {
        self.nrx0 = 0x00;
        self.nrx1 = 0x00;
        self.nrx2 = 0x00;
        self.nrx3 = 0x00;
        self.nrx4 = 0x00;
    }
}

/// The frame sequencer: a step counter modulo 8, advanced at 512 Hz.
#[derive(Clone, Copy, PartialEq, Eq, Structural, Debug)]
pub struct FrameSequencer {
    pub step: u8,
}

impl FrameSequencer {
    pub fn power_up() -> (r: Self)
        ensures
            r.step == 0,
    {
        FrameSequencer { step: 0x00 }
    }

    /// Whether the length counters are clocked on `step`: 0, 2, 4 and 6.
    pub open spec fn clocks_length(step: u8) -> bool {
        step % 2 == 0
    }

    /// Whether the envelopes are clocked on `step`: 7.
    pub open spec fn clocks_envelope(step: u8) -> bool {
        step == 7
    }

    /// Whether the sweep is clocked on `step`: 2 and 6.
    pub open spec fn clocks_sweep(step: u8) -> bool {
        step == 2 || step == 6
    }

    /// Moves to the next step and returns it.
    pub fn next(&mut self) -> (r: u8)
        ensures
            r == (old(self).step % 8 + 1) % 8,
            final(self).step == r,
    {
        self.step = (self.step % 8 + 1) % 8;
        self.step
    }
}

/// A length counter: counts down, and switches its channel off at 0.
#[derive(Clone, Copy, PartialEq, Eq, Structural, Debug)]
pub struct LengthCounter {
    pub n: u16,
}

impl LengthCounter {
    pub fn power_up() -> (r: Self)
        ensures
            r.n == 0,
    {
        LengthCounter { n: 0 }
    }

    /// The counter and the registers after a clock: with length enabled and
    /// the counter above 0 it counts down by one, and on reaching 0 clears
    /// the channel's trigger bit.
    pub open spec fn clocked(self, reg: Register) -> (LengthCounter, Register) {
        if !reg.length_enable() || self.n == 0 {
            (self, reg)
        } else if self.n == 1 {
            (LengthCounter { n: 0 }, reg.with_trigger(false))
        } else {
            (LengthCounter { n: (self.n - 1) as u16 }, reg)
        }
    }

    pub fn next(&mut self, reg: &mut Register)
        ensures
            (*final(self), *final(reg)) == old(self).clocked(*old(reg)),
    {
        if !reg.get_length_enable() || self.n == 0 {
            return ;
        }
        self.n = self.n - 1;
        if self.n == 0 {
            reg.set_trigger(false);
        }
    }

    /// The counter after a trigger: an expired counter restarts at its
    /// full length, 256 on the wave channel and 64 on the others.
    pub open spec fn reloaded(self, reg: Register) -> LengthCounter {
        if self.n != 0 {
            self
        } else if reg.channel == Channel::Wave {
            LengthCounter { n: 256 }
        } else {
            LengthCounter { n: 64 }
        }
    }

    pub fn reload(&mut self, reg: &Register)
        ensures
            *final(self) == old(self).reloaded(*reg),
    {
        if self.n != 0 {
            return ;
        }
        self.n = if reg.channel == Channel::Wave {
            256
        } else {
            64
        };
    }
}

/// A volume envelope: steps the volume up or down within 0 to 15.
#[derive(Clone, Copy, PartialEq, Eq, Structural, Debug)]
pub struct VolumeEnvelope {
    pub timer: Clock,
    pub volume: u8,
}

impl VolumeEnvelope {
    pub fn power_up() -> (r: Self)
        ensures
            r == (VolumeEnvelope { timer: Clock { period: 8, n: 0 }, volume: 0 }),
    {
        VolumeEnvelope { timer: Clock::power_up(8), volume: 0x00 }
    }

    /// The envelope after a trigger: the period of NRx2 (0 stands for 8)
    /// and the starting volume are loaded.
    pub open spec fn reloaded(self, reg: Register) -> VolumeEnvelope {
        VolumeEnvelope {
            timer: Clock {
                period: if reg.period() == 0 {
                    8
                } else {
                    reg.period() as u32
                },
                n: self.timer.n,
            },
            volume: reg.starting_volume(),
        }
    }

    pub fn reload(&mut self, reg: &Register)
        ensures
            *final(self) == old(self).reloaded(*reg),
    {
        let p = reg.nrx2 % 8;
        self.timer.period = if p == 0 { 8 } else { p as u32 };
        self.volume = reg.nrx2 / 16;
    }

    /// The envelope after a clock: with a period other than 0 in NRx2, at
    /// the end of each period of its timer the volume moves by one in the
    /// direction NRx2 gives, unless that leaves 0 to 15.
    pub open spec fn clocked(self, reg: Register) -> VolumeEnvelope {
        if reg.period() == 0 {
            self
        } else if self.timer.ticks(1) == 0 {
            VolumeEnvelope { timer: self.timer.after(1), ..self }
        } else {
            let v = if reg.envelope_add_mode() {
                self.volume.wrapping_add(1)
            } else {
                self.volume.wrapping_sub(1)
            };
            VolumeEnvelope {
                timer: self.timer.after(1),
                volume: if v <= 15 {
                    v
                } else {
                    self.volume
                },
            }
        }
    }

    pub fn next(&mut self, reg: &Register)
        ensures
            *final(self) == old(self).clocked(*reg),
    {
        if reg.nrx2 % 8 == 0 {
            return ;
        }
        if self.timer.next(1) == 0 {
            return ;
        }
        let v = if reg.nrx2 / 8 % 2 == 1 {
            self.volume.wrapping_add(1)
        } else {
            self.volume.wrapping_sub(1)
        };
        if v <= 15 {
            self.volume = v;
        }
    }
}

/// The frequency sweep of the first pulse channel.
#[derive(Clone, Copy, PartialEq, Eq, Structural, Debug)]
pub struct FrequencySweep {
    pub timer: Clock,
    pub enable: bool,
    /// The shadow register: the frequency the sweep works from.
    pub shadow: u16,
    /// The last candidate frequency.
    pub new_freq: u16,
}

impl FrequencySweep {
    pub fn power_up() -> (r: Self)
        ensures
            r == (FrequencySweep {
                timer: Clock { period: 8, n: 0 },
                enable: false,
                shadow: 0,
                new_freq: 0,
            }),
    {
        FrequencySweep { timer: Clock::power_up(8), enable: false, shadow: 0x0000, new_freq: 0x0000 }
    }

    /// The candidate frequency: the shadow plus or minus the shadow
    /// shifted right by the sweep shift.
    pub open spec fn candidate(self, reg: Register) -> u16 {
        if reg.negate() {
            self.shadow.wrapping_sub(self.shadow >> reg.shift())
        } else {
            self.shadow.wrapping_add(self.shadow >> reg.shift())
        }
    }

    /// The sweep with the candidate computed, and the registers after the
    /// overflow check on it: a candidate of 2048 or more switches the
    /// channel off.
    pub open spec fn checked(self, reg: Register) -> (FrequencySweep, Register) {
        let c = self.candidate(reg);
        (FrequencySweep { new_freq: c, ..self }, if c >= 2048 {
            reg.with_trigger(false)
        } else {
            reg
        })
    }

    pub fn frequency_calculation(&mut self, reg: &Register)
        ensures
            *final(self) == (FrequencySweep { new_freq: old(self).candidate(*reg), ..*old(self) }),
    {
        let offset = self.shadow >> (reg.nrx0 % 8);
        if reg.nrx0 / 8 % 2 == 1 {
            self.new_freq = self.shadow.wrapping_sub(offset);
        } else {
            self.new_freq = self.shadow.wrapping_add(offset);
        }
    }

    pub fn overflow_check(&mut self, reg: &mut Register)
        ensures
            *final(self) == *old(self),
            *final(reg) == (if old(self).new_freq >= 2048 {
                old(reg).with_trigger(false)
            } else {
                *old(reg)
            }),
    {
        if self.new_freq >= 2048 {
            reg.set_trigger(false);
        }
    }

    /// The sweep and the registers after a trigger: the shadow takes the
    /// channel's frequency, the timer the sweep period (0 stands for 8), the
    /// sweep is enabled if period or shift is not 0, and with a shift other
    /// than 0 a candidate is computed and checked at once.
    pub open spec fn reloaded(self, reg: Register) -> (FrequencySweep, Register) {
        let s = FrequencySweep {
            shadow: reg.frequency(),
            timer: Clock {
                period: if reg.sweep_period() == 0 {
                    8
                } else {
                    reg.sweep_period() as u32
                },
                n: self.timer.n,
            },
            enable: reg.sweep_period() != 0 || reg.shift() != 0,
            ..self
        };
        if reg.shift() != 0 {
            s.checked(reg)
        } else {
            (s, reg)
        }
    }

    pub fn reload(&mut self, reg: &mut Register)
        ensures
            (*final(self), *final(reg)) == old(self).reloaded(*old(reg)),
    {
        self.shadow = ((reg.nrx4 % 8) as u16) * 256 + reg.nrx3 as u16;
        let p = reg.nrx0 / 16 % 8;
        self.timer.period = if p == 0 { 8 } else { p as u32 };
        let shift = reg.nrx0 % 8;
        self.enable = p != 0 || shift != 0;
        if shift != 0x00 {
            self.frequency_calculation(reg);
            self.overflow_check(reg);
        }
    }

    /// The sweep and the registers after a clock. An enabled sweep with a
    /// period other than 0 acts at the end of each period of its timer: a
    /// candidate is computed and checked; one below 2048, with a shift other
    /// than 0, is written to the shadow and to the channel's frequency, and
    /// a second candidate is computed and checked.
    pub open spec fn clocked(self, reg: Register) -> (FrequencySweep, Register) {
        if !self.enable || reg.sweep_period() == 0 {
            (self, reg)
        } else if self.timer.ticks(1) == 0 {
            (FrequencySweep { timer: self.timer.after(1), ..self }, reg)
        } else {
            let (s1, r1) = (FrequencySweep { timer: self.timer.after(1), ..self }).checked(reg);
            if s1.new_freq < 2048 && r1.shift() != 0 {
                (FrequencySweep { shadow: s1.new_freq, ..s1 }).checked(
                    r1.with_frequency(s1.new_freq),
                )
            } else {
                (s1, r1)
            }
        }
    }

    pub fn next(&mut self, reg: &mut Register)
        ensures
            (*final(self), *final(reg)) == old(self).clocked(*old(reg)),
    {
        if !self.enable || reg.nrx0 / 16 % 8 == 0 {
            return ;
        }
        if self.timer.next(1) == 0 {
            return ;
        }
        self.frequency_calculation(reg);
        self.overflow_check(reg);
        if self.new_freq < 2048 && reg.nrx0 % 8 != 0 {
            self.shadow = self.new_freq;
            *reg = Register {
                nrx3: (self.new_freq % 256) as u8,
                nrx4: reg.nrx4 / 8 * 8 + (self.new_freq / 256 % 8) as u8,
                ..*reg
            };
            self.frequency_calculation(reg);
            self.overflow_check(reg);
        }
    }
}

/// The 15-bit linear-feedback shift register of the noise channel.
#[derive(Clone, Copy, PartialEq, Eq, Structural, Debug)]
pub struct LFSR {
    pub seed: u16,
}

impl LFSR {
    pub fn power_up() -> (r: Self)
        ensures
            r.seed == 1,
    {
        LFSR { seed: 0x0001 }
    }

    /// The register after a step: it shifts right by one, and the XOR of
    /// the two lowest bits it had goes to bit 14, and with the 7-bit width
    /// also to bit 6.
    pub open spec fn stepped(self, reg: Register) -> LFSR {
        let x = (self.seed ^ (self.seed >> 1)) & 0x0001;
        let s = ((self.seed >> 1) & 0x3fff) | (x << 14);
        LFSR {
            seed: if reg.lfsr_width_mode() {
                (s & 0xffbf) | (x << 6)
            } else {
                s
            },
        }
    }

    /// The output after a step: the inverted lowest bit.
    pub open spec fn output(self) -> bool {
        self.seed & 0x0001 == 0
    }

    pub fn next(&mut self, reg: &Register) -> (r: bool)
        ensures
            *final(self) == old(self).stepped(*reg),
            r == final(self).output(),
    {
        let x = (self.seed ^ (self.seed >> 1)) & 0x0001;
        let s = ((self.seed >> 1) & 0x3fff) | (x << 14);
        self.seed = if reg.nrx3 / 8 % 2 == 1 { (s & 0xffbf) | (x << 6) } else { s };
        self.seed & 0x0001 == 0
    }

    pub fn reload(&mut self)
        ensures
            final(self).seed == 1,
    {
        self.seed = 0x0001;
    }
}

/// The level of a channel: the amplitude last written to its sample
/// buffer, the clock of that write within the frame, and how far the
/// changes of amplitude have filled the buffer.
#[derive(Clone, Copy, PartialEq, Eq, Structural, Debug)]
pub struct Level {
    pub ampl: i32,
    pub from: u32,
    /// The first slot of the buffer, counted from the oldest ready sample,
    /// that no change of amplitude has been spread into: `STEP_WIDTH`
    /// slots behind the slot in which the last change began.
    pub reach: u32,
    /// The sizes, added up, of the changes that began in that same slot.
    pub spent: u32,
}

/// The largest amplitude, either way, that a sample buffer takes.
pub const AMPL_MAX: i32 = 16;

/// The largest change of amplitude: from one end of the range to the
/// other. The changes that begin in one slot may add up to as much.
pub const STEP_MAX: u32 = 32;

/// The size of the change from the amplitude `from` to the amplitude `to`.
pub open spec fn step_size(from: i32, to: i32) -> nat {
    if to >= from {
        (to - from) as nat
    } else {
        (from - to) as nat
    }
}

/// The sum of the weights `tap(j)` from `j = k` on: what changes of
/// amplitude that add up to one unit in every slot they begin in, the last
/// of them `k` slots before a given slot, can add to that slot at most.
pub open spec fn tail(k: int) -> nat {
    if k >= 16 {
        0
    } else if k == 15 {
        47
    } else if k == 14 {
        170
    } else if k == 13 {
        520
    } else if k == 12 {
        1008
    } else if k == 11 {
        2144
    } else if k == 10 {
        3506
    } else if k == 9 {
        9367
    } else if k == 8 {
        30389
    } else if k == 7 {
        51411
    } else if k == 6 {
        57272
    } else if k == 5 {
        58634
    } else if k == 4 {
        59770
    } else if k == 3 {
        60258
    } else if k == 2 {
        60608
    } else if k == 1 {
        60731
    } else {
        60778
    }
}

/// What the slot `i` can hold at most when the last change of amplitude
/// began `STEP_WIDTH` slots before the slot `reach`, the changes that
/// began there add up to `spent`, and those that began in any one slot
/// before add up to `STEP_MAX` at most.
#[verifier::opaque]
pub open spec fn slot_bound(i: int, reach: int, spent: nat) -> int {
    STEP_MAX * tail(i + STEP_WIDTH + 1 - reach) + spent * tap(i + STEP_WIDTH - reach)
}

/// `tail` sums the weights: each value is the weight of its slot and the
/// value of the next; it never grows, and `STEP_MAX` times its largest
/// value is within `SLOT_LIMIT`.
pub proof fn lemma_tail(k: int)
    ensures
        tail(k) == tap(k) + tail(k + 1),
        tail(k + 1) <= tail(k) <= 60778,
        tap(k) <= 21022,
        STEP_MAX * tail(k) <= SLOT_LIMIT,
{
}

/// `tail` never grows.
proof fn lemma_tail_falls(j: int, k: int)
    requires
        j <= k,
    ensures
        tail(k) <= tail(j),
    decreases k - j,
{
    if j < k {
        lemma_tail_falls(j, k - 1);
        lemma_tail(k - 1);
    }
}

/// No slot holds more than `SLOT_LIMIT` while the changes that began in
/// the last slot add up to `STEP_MAX` at most.
pub proof fn lemma_slot_bound(i: int, reach: int, spent: nat)
    requires
        spent <= STEP_MAX,
    ensures
        0 <= slot_bound(i, reach, spent) <= STEP_MAX * tail(i + STEP_WIDTH - reach) <= SLOT_LIMIT,
        i >= reach ==> slot_bound(i, reach, spent) == 0,
{
    reveal(slot_bound);
    let k = i + STEP_WIDTH - reach;
    lemma_tail(k);
    assert(spent * tap(k) <= 32 * tap(k)) by (nonlinear_arith)
        requires
            spent <= 32,
    ;
}

/// The bound of a slot still holds when a further change of amplitude has
/// been spread into the buffer: one of the size `size` that began
/// `STEP_WIDTH` slots before the slot `edge`, which is the slot of the
/// last change or a later one.
proof fn lemma_slot_step(i: int, reach: int, spent: nat, edge: int, size: nat, m: nat)
    requires
        spent <= STEP_MAX,
        m <= slot_bound(i, reach, spent),
        edge >= reach,
    ensures
        m + tap(i + STEP_WIDTH - edge) * size <= slot_bound(
            i,
            edge,
            if edge == reach {
                spent + size
            } else {
                size
            },
        ),
        m <= slot_bound(i, edge, spent),
        m <= slot_bound(i, edge, if edge == reach { spent + size } else { size }),
{
    reveal(slot_bound);
    let k = i + STEP_WIDTH - edge;
    assert(spent * tap(k) >= 0 && size * tap(k) >= 0) by (nonlinear_arith);
    if edge == reach {
        assert((spent + size) * tap(k) == spent * tap(k) + tap(k) * size) by (nonlinear_arith);
    } else {
        lemma_slot_bound(i, reach, spent);
        lemma_tail_falls(k + 1, i + STEP_WIDTH - reach);
        assert(size * tap(k) == tap(k) * size) by (nonlinear_arith);
    }
}

/// The bound of a slot is at least that of every slot behind it.
proof fn lemma_slot_bound_falls(i: int, j: int, reach: int, spent: nat)
    requires
        i <= j,
        spent <= STEP_MAX,
    ensures
        slot_bound(j, reach, spent) <= slot_bound(i, reach, spent),
    decreases j - i,
{
    if i < j {
        lemma_slot_bound_falls(i, j - 1, reach, spent);
        reveal(slot_bound);
        let k = j - 1 + STEP_WIDTH - reach;
        lemma_tail(k + 1);
        assert(32 * tap(k + 1) + spent * tap(k) >= spent * tap(k + 1)) by (nonlinear_arith)
            requires
                spent <= 32,
                tap(k) >= 0,
                tap(k + 1) >= 0,
        ;
    }
}

/// A band-limited sample buffer with the amplitude last written to it.
///
/// The buffer keeps its sums in 32 bits. So that they always fit, it takes
/// amplitudes within `AMPL_MAX` either way, changes of amplitude in the
/// order of their slots, and changes that begin in one slot while they add
/// up to `STEP_MAX` at most: every slot then holds `STEP_MAX * tail(0)` at
/// most, which is within `SLOT_LIMIT`. A change beyond that is not taken;
/// the amplitude stays as it was until a later write changes it.
pub struct Blip {
    data: BlipBuf,
    /// The clock, within the frame, of the last change of amplitude.
    from: u32,
    /// The present amplitude.
    ampl: i32,
    /// Output samples per second; also the buffer's size.
    rate: u32,
    /// The first slot that no change of amplitude has been spread into.
    reach: u32,
    /// The sizes, added up, of the changes that began in the last slot.
    spent: u32,
}

impl View for Blip {
    type V = Blip;

    open spec fn view(&self) -> Blip {
        *self
    }
}

impl Blip {
    #[verifier::type_invariant]
    spec fn inv(self) -> bool {
        &&& blip_size(self.data) == self.rate
        &&& blip_phase(self.data) < CLOCKS_PER_SAMPLE
        &&& blip_samples(self.data).len() <= self.rate
        &&& self.rate <= MAX_SAMPLES
        &&& -AMPL_MAX <= self.ampl <= AMPL_MAX
        &&& blip_mass(self.data).len() == self.rate + SPARE_SLOTS
        &&& blip_hold(self.data) <= HOLD_LIMIT
        &&& self.reach <= self.rate + SPARE_SLOTS
        &&& self.spent <= STEP_MAX
        &&& forall|i: int|
            0 <= i < blip_mass(self.data).len() ==> #[trigger] blip_mass(self.data)[i]
                <= slot_bound(i, self.reach as int, self.spent as nat)
    }

    /// The samples ready to be mixed, oldest first.
    pub closed spec fn ready(self) -> Seq<i16> {
        blip_samples(self.data)
    }

    /// The amplitude last written.
    pub closed spec fn ampl(self) -> i32 {
        self.ampl
    }

    /// The clock of the last change of amplitude.
    pub closed spec fn from(self) -> u32 {
        self.from
    }

    /// Output samples per second.
    pub closed spec fn rate(self) -> u32 {
        self.rate
    }

    /// The first slot, counted from the oldest ready sample, that no change
    /// of amplitude has been spread into.
    pub closed spec fn reach(self) -> u32 {
        self.reach
    }

    /// The sizes, added up, of the changes that began in the last slot.
    pub closed spec fn spent(self) -> u32 {
        self.spent
    }

    /// What the frames that have ended left over after whole samples were
    /// made of them, in the buffer's own clocks (below 2^20).
    pub closed spec fn phase(self) -> nat {
        blip_phase(self.data)
    }

    pub open spec fn level(self) -> Level {
        Level { ampl: self.ampl(), from: self.from(), reach: self.reach(), spent: self.spent() }
    }

    /// A clock time of the master clock in the buffer's own clocks, of
    /// which there are 2^20 to the output sample.
    pub open spec fn scaled(time: u32, rate: u32) -> int {
        time * rate / 4
    }

    /// The slot of clock `time` of the present frame, counted from the
    /// oldest ready sample: a change of amplitude at that clock begins
    /// there, and a frame that ends at that clock makes the samples up to
    /// there ready.
    pub open spec fn slot(self, time: u32) -> int {
        self.ready().len() + (Self::scaled(time, self.rate()) + self.phase()) / (
        CLOCKS_PER_SAMPLE as int)
    }

    /// Whether the clock `time` is one the buffer can count to: in the
    /// buffer's own clocks it leaves room in 32 bits for what is carried.
    pub open spec fn in_range(self, time: u32) -> bool {
        Self::scaled(time, self.rate()) <= u32::MAX - (CLOCKS_PER_SAMPLE - 1)
    }

    /// Whether the buffer, at the level `l`, takes the amplitude `ampl` at
    /// clock `time`. The amplitude is within `AMPL_MAX` either way, and the
    /// clock is in range and its slot within two slots past the buffer's
    /// size. Where the amplitude changes, the change begins in a slot
    /// behind the one of the last change, or in the same slot, and then
    /// the changes there add up to `STEP_MAX` at most.
    pub open spec fn accepts(self, l: Level, time: u32, ampl: i32) -> bool {
        &&& -AMPL_MAX <= ampl <= AMPL_MAX
        &&& self.in_range(time)
        &&& self.slot(time) <= self.rate() + 2
        &&& (ampl == l.ampl || self.slot(time) + STEP_WIDTH > l.reach || (self.slot(time)
            + STEP_WIDTH == l.reach && l.spent + step_size(l.ampl, ampl) <= STEP_MAX))
    }

    /// The level after the amplitude `ampl` has been set at clock `time`,
    /// when the level was `l` before.
    pub open spec fn level_set(self, l: Level, time: u32, ampl: i32) -> Level {
        if !self.accepts(l, time, ampl) {
            l
        } else if ampl == l.ampl {
            Level { from: time, ..l }
        } else if self.slot(time) + STEP_WIDTH == l.reach {
            Level { ampl, from: time, reach: l.reach, spent: (l.spent + step_size(l.ampl, ampl)) as u32 }
        } else {
            Level {
                ampl,
                from: time,
                reach: (self.slot(time) + STEP_WIDTH) as u32,
                spent: step_size(l.ampl, ampl) as u32,
            }
        }
    }

    /// Whether a frame of `duration` clocks can end: the clock is in range
    /// and the samples it makes ready fit into the buffer.
    pub open spec fn can_end(self, duration: u32) -> bool {
        &&& self.in_range(duration)
        &&& self.slot(duration) <= self.rate()
    }

    /// A buffer for one second of output at `sample_rate` samples per
    /// second; rates above 2^20 are taken as 2^20.
    pub fn power_up(sample_rate: u32) -> (r: Self)
        ensures
            r.ready().len() == 0,
            r.phase() == 0,
            r.level() == (Level { ampl: 0, from: 0, reach: 0, spent: 0 }),
            r.rate() == (if sample_rate <= MAX_SAMPLES {
                sample_rate
            } else {
                MAX_SAMPLES
            }),
    {
        let rate = if sample_rate <= MAX_SAMPLES { sample_rate } else { MAX_SAMPLES };
        let data = blip_new(rate);
        proof {
            assert forall|i: int| 0 <= i implies 0 <= #[trigger] slot_bound(i, 0, 0) by {
                lemma_slot_bound(i, 0, 0);
            }
        }
        Blip {
            data,
            from: 0x0000_0000,
            ampl: 0x0000_0000,
            rate,
            reach: 0x0000_0000,
            spent: 0x0000_0000,
        }
    }

    /// The slot of the clock `t`, given in the buffer's own clocks.
    fn slot_of(&self, t: u32) -> (at: u64)
        requires
            t <= u32::MAX - (CLOCKS_PER_SAMPLE - 1),
        ensures
            at == blip_slot(self.data, t),
            at <= MAX_SAMPLES + 4096,
    {
        proof {
            use_type_invariant(self);
        }
        let avail = blip_samples_avail(&self.data) as u64;
        let carried = (CLOCKS_PER_SAMPLE - blip_clocks_needed(&self.data, 1)) as u64;
        avail + (t as u64 + carried) / (CLOCKS_PER_SAMPLE as u64)
    }

    /// Sets the amplitude from clock `time` of the present frame on, where
    /// the buffer accepts it.
    pub fn set(&mut self, time: u32, ampl: i32)
        ensures
            final(self).ready() == old(self).ready(),
            final(self).rate() == old(self).rate(),
            final(self).phase() == old(self).phase(),
            final(self).level() == old(self).level_set(old(self).level(), time, ampl),
    {
        proof {
            use_type_invariant(&*self);
        }
        if ampl < -AMPL_MAX || ampl > AMPL_MAX {
            return ;
        }
        assert(time * self.rate <= 0xffff_ffff * 0x10_0000) by (nonlinear_arith)
            requires
                time <= 0xffff_ffff,
                self.rate <= 0x10_0000,
        ;
        let t: u64 = time as u64 * self.rate as u64 / 4;
        if t > 0xffff_ffff - 0xf_ffff {
            return ;
        }
        let at = self.slot_of(t as u32);
        if at > self.rate as u64 + 2 {
            return ;
        }
        if ampl == self.ampl {
            self.from = time;
            return ;
        }
        let d = ampl - self.ampl;
        let size: u32 = if d < 0 { (-d) as u32 } else { d as u32 };
        let edge = (at + STEP_WIDTH as u64) as u32;
        if edge < self.reach || (edge == self.reach && self.spent + size > STEP_MAX) {
            return ;
        }
        let ghost before = blip_mass(self.data);
        let ghost reach = self.reach;
        let ghost spent = self.spent;
        let now: u32 = if edge == self.reach { self.spent + size } else { size };
        proof {
            assert forall|i: int| 0 <= i < before.len() implies before[i] <= slot_bound(
                i,
                edge as int,
                spent as nat,
            ) && before[i] <= slot_bound(i, edge as int, now as nat) by {
                lemma_slot_step(i, reach as int, spent as nat, edge as int, size as nat, before[i]);
            }
            assert forall|k: int| 0 <= k < STEP_WIDTH implies before[at + k] + tap(k) * size_of(d)
                <= i32::MAX by {
                lemma_slot_bound(at + k, edge as int, now as nat);
                lemma_tail(k);
                assert(tap(k) * size_of(d) <= 21022 * 32) by (nonlinear_arith)
                    requires
                        tap(k) <= 21022,
                        size_of(d) <= 32,
                ;
            }
        }
        self.reach = edge;
        self.spent = now;
        proof {
            let slot = blip_slot(self.data, t as u32);
            assert forall|i: int| 0 <= i < before.len() implies #[trigger] before[i] + tap(i - slot)
                * size_of(d) <= slot_bound(i, edge as int, now as nat) by {
                lemma_slot_step(i, reach as int, spent as nat, edge as int, size as nat, before[i]);
            }
        }
        blip_add_delta(&mut self.data, t as u32, d);
        self.from = time;
        self.ampl = ampl;
    }

    /// Ends the present frame after `duration` clocks, where it can end:
    /// the samples that were ready stay, and the clocks of the frame, with
    /// those left over before, make new samples that follow them.
    pub fn end_frame(&mut self, duration: u32)
        ensures
            old(self).ready().is_prefix_of(final(self).ready()),
            final(self).rate() == old(self).rate(),
            final(self).ampl() == old(self).ampl(),
            final(self).reach() == old(self).reach(),
            final(self).spent() == old(self).spent(),
            final(self).from() == (if old(self).from() >= duration {
                (old(self).from() - duration) as u32
            } else {
                0u32
            }),
            old(self).can_end(duration) ==> final(self).ready().len() == old(self).slot(duration)
                && final(self).phase() == (Self::scaled(duration, old(self).rate()) + old(
                self,
            ).phase()) % (CLOCKS_PER_SAMPLE as int),
            !old(self).can_end(duration) ==> final(self).ready() == old(self).ready()
                && final(self).phase() == old(self).phase(),
            final(self).phase() < CLOCKS_PER_SAMPLE,
    {
        proof {
            use_type_invariant(&*self);
        }
        self.from = if self.from >= duration { self.from - duration } else { 0 };
        assert(duration * self.rate <= 0xffff_ffff * 0x10_0000) by (nonlinear_arith)
            requires
                duration <= 0xffff_ffff,
                self.rate <= 0x10_0000,
        ;
        let t: u64 = duration as u64 * self.rate as u64 / 4;
        if t > 0xffff_ffff - 0xf_ffff {
            return ;
        }
        if self.slot_of(t as u32) > self.rate as u64 {
            return ;
        }
        blip_end_frame(&mut self.data, t as u32);
    }

    /// The number of samples ready to be mixed.
    pub fn samples_avail(&self) -> (n: usize)
        ensures
            n == self.ready().len(),
            n <= MAX_SAMPLES,
    {
        proof {
            use_type_invariant(self);
        }
        blip_samples_avail(&self.data) as usize
    }

    /// Takes the oldest `n` ready samples, or all if there are fewer, into
    /// the front of `buf`. What the changes of amplitude have reached moves
    /// up with the slots.
    pub fn read(&mut self, buf: &mut [i16; CHUNK], n: usize) -> (count: usize)
        requires
            n <= CHUNK,
        ensures
            count == (if n <= old(self).ready().len() {
                n as int
            } else {
                old(self).ready().len() as int
            }),
            forall|i: int| 0 <= i < count ==> final(buf)@[i] == old(self).ready()[i],
            forall|i: int| count <= i < CHUNK ==> final(buf)@[i] == old(buf)@[i],
            final(self).ready() == old(self).ready().skip(count as int),
            final(self).rate() == old(self).rate(),
            final(self).phase() == old(self).phase(),
            final(self).ampl() == old(self).ampl(),
            final(self).from() == old(self).from(),
            final(self).spent() == old(self).spent(),
            final(self).reach() == (if old(self).reach() >= count {
                (old(self).reach() - count) as u32
            } else {
                0u32
            }),
    {
        proof {
            use_type_invariant(&*self);
        }
        let ghost before = blip_mass(self.data);
        let ghost reach = self.reach;
        proof {
            assert forall|i: int| 0 <= i < n && i < blip_samples(self.data).len() implies before[i]
                <= SLOT_LIMIT by {
                lemma_slot_bound(i, reach as int, self.spent as nat);
            }
        }
        proof {
            assert forall|i: int, j: int| 0 <= i <= j implies #[trigger] slot_bound(
                j,
                reach as int,
                self.spent as nat,
            ) <= #[trigger] slot_bound(i, reach as int, self.spent as nat) by {
                lemma_slot_bound_falls(i, j, reach as int, self.spent as nat);
            }
            assert forall|i: int| 0 <= i implies 0 <= #[trigger] slot_bound(
                i,
                reach as int,
                self.spent as nat,
            ) by {
                lemma_slot_bound(i, reach as int, self.spent as nat);
            }
        }
        let count = blip_read_samples(&mut self.data, buf, n);
        let ghost after = blip_mass(self.data);
        let left: u32 = if self.reach as usize >= count { self.reach - count as u32 } else { 0 };
        proof {
            assert forall|i: int| 0 <= i < before.len() implies after[i] <= slot_bound(
                i,
                left as int,
                self.spent as nat,
            ) by {
                reveal(slot_bound);
                lemma_slot_bound(i, left as int, self.spent as nat);
                if i + count < before.len() {
                    lemma_slot_bound(i + count, reach as int, self.spent as nat);
                }
            }
        }
        self.reach = left;
        count
    }
}

/// The clock, within a step of `cycles` master-clock ticks, at which a
/// timer of the given period that had `n` ticks accumulated ticks for the
/// `k`-th time (counted from 1).
pub open spec fn tick_time(k: int, period: u32, n: u32, cycles: u32) -> u32 {
    if k * period - n < 0 {
        0
    } else if k * period - n > cycles {
        cycles
    } else {
        (k * period - n) as u32
    }
}

fn tick_clock(k: u32, period: u32, n: u32, cycles: u32) -> (t: u32)
    ensures
        t == tick_time(k as int, period, n, cycles),
{
    assert(k * period <= 0xffff_ffff * 0xffff_ffff) by (nonlinear_arith)
        requires
            k <= 0xffff_ffff,
            period <= 0xffff_ffff,
    ;
    let e: u64 = k as u64 * period as u64;
    if e < n as u64 {
        0
    } else if e - n as u64 > cycles as u64 {
        cycles
    } else {
        (e - n as u64) as u32
    }
}

// ---------------------------------------------------------------------------
// The pulse channels

/// The eight steps of the duty waveform `duty`, bit 0 first.
pub open spec fn waveform(duty: u8) -> u8 {
    if duty == 0 {
        0b0000_0001
    } else if duty == 1 {
        0b1000_0001
    } else if duty == 2 {
        0b1000_0111
    } else {
        0b0111_1110
    }
}

/// The state of a pulse channel but for its sample buffer.
#[derive(Clone, Copy, PartialEq, Eq, Structural, Debug)]
pub struct SquareCore {
    pub register: Register,
    pub timer: Clock,
    pub lc: LengthCounter,
    pub ve: VolumeEnvelope,
    pub fs: FrequencySweep,
    /// The step (0 to 7) of the duty waveform that sounds.
    pub wave_idx: u8,
}

impl SquareCore {
    /// A pulse channel at power-up.
    pub open spec fn cold(mode: Channel) -> SquareCore {
        SquareCore {
            register: Register::power_up_value(mode),
            timer: Clock { period: 8192, n: 0 },
            lc: LengthCounter { n: 0 },
            ve: VolumeEnvelope { timer: Clock { period: 8, n: 0 }, volume: 0 },
            fs: FrequencySweep {
                timer: Clock { period: 8, n: 0 },
                enable: false,
                shadow: 0,
                new_freq: 0,
            },
            wave_idx: 1,
        }
    }

    /// The amplitude that sounds: 0 while the channel is off or its volume
    /// is 0, else the volume, positive where the waveform has a 1 and
    /// negative where it has a 0.
    pub open spec fn amplitude(self) -> i32 {
        if !self.register.trigger() || self.ve.volume == 0 {
            0
        } else if (waveform(self.register.duty()) >> (self.wave_idx % 8)) & 0x01 != 0 {
            self.ve.volume as i32
        } else {
            (-(self.ve.volume as int)) as i32
        }
    }

    /// The channel with the period of its timer set from its frequency:
    /// `4 * (2048 - frequency)` master-clock ticks.
    pub open spec fn tuned(self) -> SquareCore {
        SquareCore {
            timer: Clock {
                period: (4 * (2048 - self.register.frequency())) as u32,
                n: self.timer.n,
            },
            ..self
        }
    }

    /// The channel after `cycles` master-clock ticks: its timer has moved
    /// on and the waveform has stepped once per tick of the timer.
    pub open spec fn sounded(self, cycles: u32) -> SquareCore {
        SquareCore {
            timer: self.timer.after(cycles),
            wave_idx: if self.timer.ticks(cycles) == 0 {
                self.wave_idx
            } else {
                ((self.wave_idx % 8 + self.timer.ticks(cycles)) % 8) as u8
            },
            ..self
        }
    }

    /// The level of the channel's sample buffer `blip` after the first `k`
    /// ticks of the timer in a step of `cycles` master-clock ticks: at each
    /// tick the amplitude that sounds is set, then the waveform steps on.
    /// `self` is the channel as the step finds it, `n` what its timer had
    /// accumulated.
    pub open spec fn levels(self, blip: Blip, n: u32, cycles: u32, k: nat) -> Level
        decreases k,
    {
        if k == 0 {
            blip.level()
        } else {
            blip.level_set(
                self.levels(blip, n, cycles, (k - 1) as nat),
                tick_time(k as int, self.timer.period, n, cycles),
                (SquareCore { wave_idx: ((self.wave_idx % 8 + k - 1) % 8) as u8, ..self }).amplitude(),
            )
        }
    }

    /// The channel after a write to NRx4 that sets the trigger bit: length
    /// counter and envelope are reloaded, and on the first pulse channel
    /// the sweep as well.
    pub open spec fn triggered(self) -> SquareCore {
        if self.register.channel == Channel::Square1 {
            let (fs, register) = self.fs.reloaded(self.register);
            SquareCore {
                lc: self.lc.reloaded(self.register),
                ve: self.ve.reloaded(self.register),
                fs,
                register,
                ..self
            }
        } else {
            SquareCore {
                lc: self.lc.reloaded(self.register),
                ve: self.ve.reloaded(self.register),
                ..self
            }
        }
    }

    /// The register (0 to 4) of the group that bus address `a` names.
    pub open spec fn slot(a: u16) -> int {
        if a == 0xff10 || a == 0xff15 {
            0
        } else if a == 0xff11 || a == 0xff16 {
            1
        } else if a == 0xff12 || a == 0xff17 {
            2
        } else if a == 0xff13 || a == 0xff18 {
            3
        } else if a == 0xff14 || a == 0xff19 {
            4
        } else {
            -1
        }
    }

    pub open spec fn read(self, a: u16) -> u8 {
        let k = Self::slot(a);
        if k == 0 {
            self.register.nrx0
        } else if k == 1 {
            self.register.nrx1
        } else if k == 2 {
            self.register.nrx2
        } else if k == 3 {
            self.register.nrx3
        } else if k == 4 {
            self.register.nrx4
        } else {
            0
        }
    }

    /// The channel after `v` is stored to the register at `a`. NRx1 loads
    /// the length counter; NRx3 and NRx4 retune the timer; NRx4 with bit 7
    /// set triggers the channel.
    pub open spec fn written(self, a: u16, v: u8) -> SquareCore {
        let k = Self::slot(a);
        if k == 0 {
            SquareCore { register: Register { nrx0: v, ..self.register }, ..self }
        } else if k == 1 {
            let register = Register { nrx1: v, ..self.register };
            SquareCore { register, lc: LengthCounter { n: register.length_load() }, ..self }
        } else if k == 2 {
            SquareCore { register: Register { nrx2: v, ..self.register }, ..self }
        } else if k == 3 {
            (SquareCore { register: Register { nrx3: v, ..self.register }, ..self }).tuned()
        } else if k == 4 {
            let t = (SquareCore { register: Register { nrx4: v, ..self.register }, ..self }).tuned();
            if t.register.trigger() {
                t.triggered()
            } else {
                t
            }
        } else {
            self
        }
    }

    pub fn compute_amplitude(&self) -> (a: i32)
        ensures
            a == self.amplitude(),
            -255 <= a <= 255,
    {
        let waveform: u8 = match self.register.nrx1 / 64 {
            0 => 0b0000_0001,
            1 => 0b1000_0001,
            2 => 0b1000_0111,
            _ => 0b0111_1110,
        };
        if !self.register.get_trigger() || self.ve.volume == 0 {
            0x00
        } else if (waveform >> (self.wave_idx % 8)) & 0x01 != 0 {
            self.ve.volume as i32
        } else {
            -(self.ve.volume as i32)
        }
    }

    pub fn update_freq(&mut self)
        ensures
            *final(self) == old(self).tuned(),
    {
        let frequency = ((self.register.nrx4 % 8) as u32) * 256 + self.register.nrx3 as u32;
        self.timer.period = 4 * (2048 - frequency);
    }

    pub fn get(&self, a: u16) -> (r: u8)
        ensures
            r == self.read(a),
    {
        match a {
            0xff10 | 0xff15 => self.register.nrx0,
            0xff11 | 0xff16 => self.register.nrx1,
            0xff12 | 0xff17 => self.register.nrx2,
            0xff13 | 0xff18 => self.register.nrx3,
            0xff14 | 0xff19 => self.register.nrx4,
            _ => 0x00,
        }
    }

    pub fn set(&mut self, a: u16, v: u8)
        ensures
            *final(self) == old(self).written(a, v),
    {
        match a {
            0xff10 | 0xff15 => self.register.nrx0 = v,
            0xff11 | 0xff16 => {
                self.register.nrx1 = v;
                self.lc.n = self.register.get_length_load();
            },
            0xff12 | 0xff17 => self.register.nrx2 = v,
            0xff13 | 0xff18 => {
                self.register.nrx3 = v;
                self.update_freq();
            },
            0xff14 | 0xff19 => {
                self.register.nrx4 = v;
                self.update_freq();
                if self.register.get_trigger() {
                    self.lc.reload(&self.register);
                    self.ve.reload(&self.register);
                    if self.register.channel == Channel::Square1 {
                        self.fs.reload(&mut self.register);
                    }
                }
            },
            _ => {},
        };
    }
}

/// A pulse channel.
pub struct ChannelSquare {
    pub core: SquareCore,
    pub blip: Blip,
}

impl ChannelSquare {
    pub fn power_up(sample_rate: u32, mode: Channel) -> (r: Self)
        ensures
            r.core == SquareCore::cold(mode),
            r.blip.ready().len() == 0,
    {
        ChannelSquare {
            core: SquareCore {
                register: Register::power_up(mode),
                timer: Clock::power_up(8192),
                lc: LengthCounter::power_up(),
                ve: VolumeEnvelope::power_up(),
                fs: FrequencySweep::power_up(),
                wave_idx: 1,
            },
            blip: Blip::power_up(sample_rate),
        }
    }

    /// Sounds the channel for `cycles` master-clock ticks: at every tick of
    /// its timer the amplitude of the present waveform step goes to the
    /// sample buffer and the waveform steps on.
    pub fn next(&mut self, cycles: u32)
        ensures
            final(self).core == old(self).core.sounded(cycles),
            final(self).blip.ready() == old(self).blip.ready(),
            final(self).blip.rate() == old(self).blip.rate(),
            final(self).blip.phase() == old(self).blip.phase(),
            final(self).blip.level() == old(self).core.levels(
                old(self).blip,
                old(self).core.timer.n,
                cycles,
                old(self).core.timer.ticks(cycles) as nat,
            ),
    {
        let n0 = self.core.timer.n;
        let period = self.core.timer.period;
        let ticks = self.core.timer.next(cycles);
        let ghost start = self.core;
        let mut k: u32 = 0;
        while k < ticks
            invariant
                k <= ticks,
                period == old(self).core.timer.period,
                start == (SquareCore { timer: start.timer, ..old(self).core }),
                k == 0 ==> self.core == start,
                k > 0 ==> self.core == (SquareCore {
                    wave_idx: ((start.wave_idx % 8 + k) % 8) as u8,
                    ..start
                }),
                self.blip.ready() == old(self).blip.ready(),
                self.blip.rate() == old(self).blip.rate(),
                self.blip.phase() == old(self).blip.phase(),
                self.blip.level() == old(self).core.levels(old(self).blip, n0, cycles, k as nat),
            decreases ticks - k,
        {
            k = k + 1;
            let time = tick_clock(k, period, n0, cycles);
            let ampl = self.core.compute_amplitude();
            self.blip.set(time, ampl);
            self.core.wave_idx = (self.core.wave_idx % 8 + 1) % 8;
        }
    }
}

impl View for ChannelSquare {
    type V = ChannelSquare;

    open spec fn view(&self) -> ChannelSquare {
        *self
    }
}

impl Memory for ChannelSquare {
    open spec fn read(s: ChannelSquare, a: u16) -> u8 {
        s.core.read(a)
    }

    open spec fn written(s: ChannelSquare, a: u16, v: u8) -> ChannelSquare {
        ChannelSquare { core: s.core.written(a, v), blip: s.blip }
    }

    fn get(&self, a: u16) -> (r: u8) {
        self.core.get(a)
    }

    fn set(&mut self, a: u16, v: u8) {
        self.core.set(a, v);
    }
}

// ---------------------------------------------------------------------------
// The wave channel

/// The state of the wave channel but for its sample buffer.
#[verifier::ext_equal]
pub struct WaveCore {
    pub register: Register,
    pub timer: Clock,
    pub lc: LengthCounter,
    /// 32 samples of four bits, two to the byte.
    pub wave_table: [u8; 16],
    /// The sample (0 to 31) that sounds.
    pub sample_idx: u8,
}

/// By how much the volume code shifts a sample to the right: 4 (mute), 0,
/// 1 and 2.
pub open spec fn volume_shift(code: u8) -> u8 {
    if code % 4 == 0 {
        4
    } else if code % 4 == 1 {
        0
    } else if code % 4 == 2 {
        1
    } else {
        2
    }
}

impl WaveCore {
    /// The sample that sounds: the low nibble of its byte for an even
    /// index, the high nibble for an odd one.
    pub open spec fn sample(self) -> u8 {
        let b = self.wave_table[(self.sample_idx % 32 / 2) as int];
        if self.sample_idx % 2 == 0 {
            b % 16
        } else {
            b / 16
        }
    }

    /// The amplitude that sounds: 0 while the channel or its converter is
    /// off, else the sample shifted by the volume code.
    pub open spec fn amplitude(self) -> i32 {
        if !self.register.trigger() || !self.register.dac_power() {
            0
        } else {
            (self.sample() >> volume_shift(self.register.volume_code())) as i32
        }
    }

    /// The channel with the period of its timer set from its frequency:
    /// `2 * (2048 - frequency)` master-clock ticks.
    pub open spec fn tuned(self) -> WaveCore {
        WaveCore {
            timer: Clock {
                period: (2 * (2048 - self.register.frequency())) as u32,
                n: self.timer.n,
            },
            ..self
        }
    }

    /// The channel after `cycles` master-clock ticks: its timer has moved
    /// on and the table has stepped once per tick of the timer.
    pub open spec fn sounded(self, cycles: u32) -> WaveCore {
        WaveCore {
            timer: self.timer.after(cycles),
            sample_idx: if self.timer.ticks(cycles) == 0 {
                self.sample_idx
            } else {
                ((self.sample_idx % 32 + self.timer.ticks(cycles)) % 32) as u8
            },
            ..self
        }
    }

    /// The level of the channel's sample buffer `blip` after the first `k`
    /// ticks of the timer in a step of `cycles` master-clock ticks: at each
    /// tick the amplitude that sounds is set, then the table steps on.
    pub open spec fn levels(self, blip: Blip, n: u32, cycles: u32, k: nat) -> Level
        decreases k,
    {
        if k == 0 {
            blip.level()
        } else {
            blip.level_set(
                self.levels(blip, n, cycles, (k - 1) as nat),
                tick_time(k as int, self.timer.period, n, cycles),
                (WaveCore {
                    sample_idx: ((self.sample_idx % 32 + k - 1) % 32) as u8,
                    ..self
                }).amplitude(),
            )
        }
    }

    pub open spec fn read(self, a: u16) -> u8 {
        if a == 0xff1a {
            self.register.nrx0
        } else if a == 0xff1b {
            self.register.nrx1
        } else if a == 0xff1c {
            self.register.nrx2
        } else if a == 0xff1d {
            self.register.nrx3
        } else if a == 0xff1e {
            self.register.nrx4
        } else if 0xff30 <= a <= 0xff3f {
            self.wave_table[a - 0xff30]
        } else {
            0
        }
    }

    /// The channel after `v` is stored to the register at `a`. NR31 loads
    /// the length counter; NR33 and NR34 retune the timer; NR34 with bit 7
    /// set reloads the length counter and restarts the table.
    pub open spec fn written(self, a: u16, v: u8) -> WaveCore {
        if a == 0xff1a {
            WaveCore { register: Register { nrx0: v, ..self.register }, ..self }
        } else if a == 0xff1b {
            let register = Register { nrx1: v, ..self.register };
            WaveCore { register, lc: LengthCounter { n: register.length_load() }, ..self }
        } else if a == 0xff1c {
            WaveCore { register: Register { nrx2: v, ..self.register }, ..self }
        } else if a == 0xff1d {
            (WaveCore { register: Register { nrx3: v, ..self.register }, ..self }).tuned()
        } else if a == 0xff1e {
            let t = (WaveCore { register: Register { nrx4: v, ..self.register }, ..self }).tuned();
            if t.register.trigger() {
                WaveCore { lc: t.lc.reloaded(t.register), sample_idx: 0, ..t }
            } else {
                t
            }
        } else if 0xff30 <= a <= 0xff3f {
            WaveCore { wave_table: spec_array_update(self.wave_table, a - 0xff30, v), ..self }
        } else {
            self
        }
    }

    pub fn compute_amplitude(&self) -> (a: i32)
        ensures
            a == self.amplitude(),
            0 <= a <= 15,
    {
        let shift: u8 = match self.register.nrx2 / 32 % 4 {
            0 => 4,
            1 => 0,
            2 => 1,
            _ => 2,
        };
        let b = self.wave_table[(self.sample_idx % 32 / 2) as usize];
        let sample = if self.sample_idx % 2 == 0 { b % 16 } else { b / 16 };
        if !self.register.get_trigger() || self.register.nrx0 < 0x80 {
            0x00
        } else {
            let r = sample >> shift;
            assert(r <= 15) by (bit_vector)
                requires
                    r == sample >> shift,
                    sample <= 15,
            ;
            r as i32
        }
    }

    pub fn update_freq(&mut self)
        ensures
            *final(self) == old(self).tuned(),
    {
        let frequency = ((self.register.nrx4 % 8) as u32) * 256 + self.register.nrx3 as u32;
        self.timer.period = 2 * (2048 - frequency);
    }

    pub fn get(&self, a: u16) -> (r: u8)
        ensures
            r == self.read(a),
    {
        if 0xff30 <= a && a <= 0xff3f {
            self.wave_table[a as usize - 0xff30]
        } else {
            match a {
                0xff1a => self.register.nrx0,
                0xff1b => self.register.nrx1,
                0xff1c => self.register.nrx2,
                0xff1d => self.register.nrx3,
                0xff1e => self.register.nrx4,
                _ => 0x00,
            }
        }
    }

    pub fn set(&mut self, a: u16, v: u8)
        ensures
            *final(self) == old(self).written(a, v),
    {
        if 0xff30 <= a && a <= 0xff3f {
            self.wave_table[a as usize - 0xff30] = v;
        } else {
            match a {
                0xff1a => self.register.nrx0 = v,
                0xff1b => {
                    self.register.nrx1 = v;
                    self.lc.n = self.register.get_length_load();
                },
                0xff1c => self.register.nrx2 = v,
                0xff1d => {
                    self.register.nrx3 = v;
                    self.update_freq();
                },
                0xff1e => {
                    self.register.nrx4 = v;
                    self.update_freq();
                    if self.register.get_trigger() {
                        self.lc.reload(&self.register);
                        self.sample_idx = 0;
                    }
                },
                _ => {},
            }
        }
    }
}

/// The wave channel.
pub struct ChannelWave {
    pub core: WaveCore,
    pub blip: Blip,
}

impl ChannelWave {
    pub fn power_up(sample_rate: u32) -> (r: Self)
        ensures
            r.core == ApuState::cold().wave,
            forall|i: int| 0 <= i < 16 ==> r.core.wave_table[i] == 0,
            r.blip.ready().len() == 0,
    {
        ChannelWave {
            core: WaveCore {
                register: Register::power_up(Channel::Wave),
                timer: Clock::power_up(8192),
                lc: LengthCounter::power_up(),
                wave_table: [0x00;16],
                sample_idx: 0,
            },
            blip: Blip::power_up(sample_rate),
        }
    }

    /// Sounds the channel for `cycles` master-clock ticks: at every tick of
    /// its timer the amplitude of the present sample goes to the sample
    /// buffer and the table steps on.
    pub fn next(&mut self, cycles: u32)
        ensures
            final(self).core == old(self).core.sounded(cycles),
            final(self).blip.ready() == old(self).blip.ready(),
            final(self).blip.rate() == old(self).blip.rate(),
            final(self).blip.phase() == old(self).blip.phase(),
            final(self).blip.level() == old(self).core.levels(
                old(self).blip,
                old(self).core.timer.n,
                cycles,
                old(self).core.timer.ticks(cycles) as nat,
            ),
    {
        let n0 = self.core.timer.n;
        let period = self.core.timer.period;
        let ticks = self.core.timer.next(cycles);
        let ghost start = self.core;
        let mut k: u32 = 0;
        while k < ticks
            invariant
                k <= ticks,
                period == old(self).core.timer.period,
                start == (WaveCore { timer: start.timer, ..old(self).core }),
                k == 0 ==> self.core == start,
                k > 0 ==> self.core == (WaveCore {
                    sample_idx: ((start.sample_idx % 32 + k) % 32) as u8,
                    ..start
                }),
                self.blip.ready() == old(self).blip.ready(),
                self.blip.rate() == old(self).blip.rate(),
                self.blip.phase() == old(self).blip.phase(),
                self.blip.level() == old(self).core.levels(old(self).blip, n0, cycles, k as nat),
            decreases ticks - k,
        {
            k = k + 1;
            let time = tick_clock(k, period, n0, cycles);
            let ampl = self.core.compute_amplitude();
            self.blip.set(time, ampl);
            self.core.sample_idx = (self.core.sample_idx % 32 + 1) % 32;
        }
    }
}

impl View for ChannelWave {
    type V = ChannelWave;

    open spec fn view(&self) -> ChannelWave {
        *self
    }
}

impl Memory for ChannelWave {
    open spec fn read(s: ChannelWave, a: u16) -> u8 {
        s.core.read(a)
    }

    open spec fn written(s: ChannelWave, a: u16, v: u8) -> ChannelWave {
        ChannelWave { core: s.core.written(a, v), blip: s.blip }
    }

    fn get(&self, a: u16) -> (r: u8) {
        self.core.get(a)
    }

    fn set(&mut self, a: u16, v: u8) {
        self.core.set(a, v);
    }
}

// ---------------------------------------------------------------------------
// The noise channel

/// The divisor that divisor code `code` stands for: 8 for code 0, else
/// `(code + 1) * 16`.
pub open spec fn noise_divisor(code: u8) -> u32 {
    if code == 0 {
        8
    } else {
        ((code + 1) * 16) as u32
    }
}

/// The state of the noise channel but for its sample buffer.
#[derive(Clone, Copy, PartialEq, Eq, Structural, Debug)]
pub struct NoiseCore {
    pub register: Register,
    pub timer: Clock,
    pub lc: LengthCounter,
    pub ve: VolumeEnvelope,
    pub lfsr: LFSR,
}

impl NoiseCore {
    /// Whether the shift register runs: the channel is on and its volume
    /// is not 0.
    pub open spec fn running(self) -> bool {
        self.register.trigger() && self.ve.volume != 0
    }

    /// The channel after one tick of its timer: while it runs, the shift
    /// register steps.
    pub open spec fn ticked(self) -> NoiseCore {
        if self.running() {
            NoiseCore { lfsr: self.lfsr.stepped(self.register), ..self }
        } else {
            self
        }
    }

    /// The amplitude that sounds after a tick: 0 while the channel does not
    /// run, else the volume, positive or negative as the shift register
    /// puts out.
    pub open spec fn amplitude(self) -> i32 {
        if !self.running() {
            0
        } else if self.lfsr.output() {
            self.ve.volume as i32
        } else {
            (-(self.ve.volume as int)) as i32
        }
    }

    /// The channel after `k` ticks of its timer.
    pub open spec fn run(self, k: nat) -> NoiseCore
        decreases k,
    {
        if k == 0 {
            self
        } else {
            self.run((k - 1) as nat).ticked()
        }
    }

    /// The level of the channel's sample buffer `blip` after the first `k`
    /// ticks of the timer in a step of `cycles` master-clock ticks: at each
    /// tick the shift register steps, then the amplitude that sounds is
    /// set.
    pub open spec fn levels(self, blip: Blip, n: u32, cycles: u32, k: nat) -> Level
        decreases k,
    {
        if k == 0 {
            blip.level()
        } else {
            blip.level_set(
                self.levels(blip, n, cycles, (k - 1) as nat),
                tick_time(k as int, self.timer.period, n, cycles),
                self.run(k).amplitude(),
            )
        }
    }

    /// The channel with the period of its timer set from NR43: the divisor
    /// shifted left by the clock shift.
    pub open spec fn tuned(self) -> NoiseCore {
        NoiseCore {
            timer: Clock {
                period: noise_divisor(self.register.dividor_code())
                    << self.register.clock_shift(),
                n: self.timer.n,
            },
            ..self
        }
    }

    /// The channel after `cycles` master-clock ticks.
    pub open spec fn sounded(self, cycles: u32) -> NoiseCore {
        (NoiseCore { timer: self.timer.after(cycles), ..self }).run(
            self.timer.ticks(cycles) as nat,
        )
    }

    pub open spec fn read(self, a: u16) -> u8 {
        if a == 0xff1f {
            self.register.nrx0
        } else if a == 0xff20 {
            self.register.nrx1
        } else if a == 0xff21 {
            self.register.nrx2
        } else if a == 0xff22 {
            self.register.nrx3
        } else if a == 0xff23 {
            self.register.nrx4
        } else {
            0
        }
    }

    /// The channel after `v` is stored to the register at `a`. NR41 loads
    /// the length counter; NR43 retunes the timer; NR44 with bit 7 set
    /// reloads length counter and envelope and seeds the shift register
    /// with 1.
    pub open spec fn written(self, a: u16, v: u8) -> NoiseCore {
        if a == 0xff1f {
            NoiseCore { register: Register { nrx0: v, ..self.register }, ..self }
        } else if a == 0xff20 {
            let register = Register { nrx1: v, ..self.register };
            NoiseCore { register, lc: LengthCounter { n: register.length_load() }, ..self }
        } else if a == 0xff21 {
            NoiseCore { register: Register { nrx2: v, ..self.register }, ..self }
        } else if a == 0xff22 {
            (NoiseCore { register: Register { nrx3: v, ..self.register }, ..self }).tuned()
        } else if a == 0xff23 {
            let t = NoiseCore { register: Register { nrx4: v, ..self.register }, ..self };
            if t.register.trigger() {
                NoiseCore {
                    lc: t.lc.reloaded(t.register),
                    ve: t.ve.reloaded(t.register),
                    lfsr: LFSR { seed: 1 },
                    ..t
                }
            } else {
                t
            }
        } else {
            self
        }
    }

    /// One tick of the timer: steps the shift register while the channel
    /// runs and returns the amplitude that sounds.
    pub fn tick(&mut self) -> (a: i32)
        ensures
            *final(self) == old(self).ticked(),
            a == final(self).amplitude(),
            -255 <= a <= 255,
    {
        let volume = self.ve.volume;
        if !self.register.get_trigger() || volume == 0 {
            0x00
        } else if self.lfsr.next(&self.register) {
            volume as i32
        } else {
            -(volume as i32)
        }
    }

    pub fn update_freq(&mut self)
        ensures
            *final(self) == old(self).tuned(),
    {
        let d: u32 = match self.register.nrx3 % 8 {
            0 => 8,
            n => (n as u32 + 1) * 16,
        };
        self.timer.period = d << (self.register.nrx3 / 16);
    }

    pub fn get(&self, a: u16) -> (r: u8)
        ensures
            r == self.read(a),
    {
        match a {
            0xff1f => self.register.nrx0,
            0xff20 => self.register.nrx1,
            0xff21 => self.register.nrx2,
            0xff22 => self.register.nrx3,
            0xff23 => self.register.nrx4,
            _ => 0x00,
        }
    }

    pub fn set(&mut self, a: u16, v: u8)
        ensures
            *final(self) == old(self).written(a, v),
    {
        match a {
            0xff1f => self.register.nrx0 = v,
            0xff20 => {
                self.register.nrx1 = v;
                self.lc.n = self.register.get_length_load();
            },
            0xff21 => self.register.nrx2 = v,
            0xff22 => {
                self.register.nrx3 = v;
                self.update_freq();
            },
            0xff23 => {
                self.register.nrx4 = v;
                if self.register.get_trigger() {
                    self.lc.reload(&self.register);
                    self.ve.reload(&self.register);
                    self.lfsr.reload();
                }
            },
            _ => {},
        }
    }
}

/// The ticks of the noise channel do not look at its timer.
proof fn lemma_run_apart_from_timer(c: NoiseCore, t: Clock, k: nat)
    ensures
        (NoiseCore { timer: t, ..c }).run(k) == (NoiseCore { timer: t, ..c.run(k) }),
    decreases k,
{
    if k > 0 {
        lemma_run_apart_from_timer(c, t, (k - 1) as nat);
    }
}

/// The noise channel.
pub struct ChannelNoise {
    pub core: NoiseCore,
    pub blip: Blip,
}

impl ChannelNoise {
    pub fn power_up(sample_rate: u32) -> (r: Self)
        ensures
            r.core == ApuState::cold().noise,
            r.blip.ready().len() == 0,
    {
        ChannelNoise {
            core: NoiseCore {
                register: Register::power_up(Channel::Noise),
                timer: Clock::power_up(4096),
                lc: LengthCounter::power_up(),
                ve: VolumeEnvelope::power_up(),
                lfsr: LFSR::power_up(),
            },
            blip: Blip::power_up(sample_rate),
        }
    }

    /// Sounds the channel for `cycles` master-clock ticks: at every tick of
    /// its timer the shift register steps and the amplitude goes to the
    /// sample buffer.
    pub fn next(&mut self, cycles: u32)
        ensures
            final(self).core == old(self).core.sounded(cycles),
            final(self).blip.ready() == old(self).blip.ready(),
            final(self).blip.rate() == old(self).blip.rate(),
            final(self).blip.phase() == old(self).blip.phase(),
            final(self).blip.level() == old(self).core.levels(
                old(self).blip,
                old(self).core.timer.n,
                cycles,
                old(self).core.timer.ticks(cycles) as nat,
            ),
    {
        let n0 = self.core.timer.n;
        let period = self.core.timer.period;
        let ticks = self.core.timer.next(cycles);
        let ghost start = self.core;
        let mut k: u32 = 0;
        while k < ticks
            invariant
                k <= ticks,
                period == old(self).core.timer.period,
                start == (NoiseCore { timer: start.timer, ..old(self).core }),
                self.core == start.run(k as nat),
                self.blip.ready() == old(self).blip.ready(),
                self.blip.rate() == old(self).blip.rate(),
                self.blip.phase() == old(self).blip.phase(),
                self.blip.level() == old(self).core.levels(old(self).blip, n0, cycles, k as nat),
            decreases ticks - k,
        {
            k = k + 1;
            let time = tick_clock(k, period, n0, cycles);
            let ampl = self.core.tick();
            proof {
                lemma_run_apart_from_timer(old(self).core, start.timer, k as nat);
            }
            self.blip.set(time, ampl);
        }
    }
}

impl View for ChannelNoise {
    type V = ChannelNoise;

    open spec fn view(&self) -> ChannelNoise {
        *self
    }
}

impl Memory for ChannelNoise {
    open spec fn read(s: ChannelNoise, a: u16) -> u8 {
        s.core.read(a)
    }

    open spec fn written(s: ChannelNoise, a: u16, v: u8) -> ChannelNoise {
        ChannelNoise { core: s.core.written(a, v), blip: s.blip }
    }

    fn get(&self, a: u16) -> (r: u8) {
        self.core.get(a)
    }

    fn set(&mut self, a: u16, v: u8) {
        self.core.set(a, v);
    }
}

// ---------------------------------------------------------------------------
// The audio engine

/// Whether NR51 routes channel `k` (0 to 3: pulse 1, pulse 2, wave, noise)
/// to the left output: bit `k`.
pub open spec fn routed_left(nr51: u8, k: int) -> bool {
    if k == 0 {
        nr51 % 2 == 1
    } else if k == 1 {
        nr51 / 2 % 2 == 1
    } else if k == 2 {
        nr51 / 4 % 2 == 1
    } else {
        nr51 / 8 % 2 == 1
    }
}

/// Whether NR51 routes channel `k` to the right output: bit `k + 4`.
pub open spec fn routed_right(nr51: u8, k: int) -> bool {
    if k == 0 {
        nr51 / 16 % 2 == 1
    } else if k == 1 {
        nr51 / 32 % 2 == 1
    } else if k == 2 {
        nr51 / 64 % 2 == 1
    } else {
        nr51 >= 128
    }
}

pub open spec fn gated(on: bool, s: i16) -> int {
    if on {
        s as int
    } else {
        0
    }
}

/// One stereo sample: on each side, the sum of the channels routed to it
/// times that side's master volume (0 to 7). Unity is 420: four channels of
/// amplitude 15 at volume 7.
pub open spec fn mix_sample(nr50: u8, nr51: u8, s: (i16, i16, i16, i16)) -> (i32, i32) {
    (
        ((nr50 / 16 % 8) * (gated(routed_left(nr51, 0), s.0) + gated(routed_left(nr51, 1), s.1)
            + gated(routed_left(nr51, 2), s.2) + gated(routed_left(nr51, 3), s.3))) as i32,
        ((nr50 % 8) * (gated(routed_right(nr51, 0), s.0) + gated(routed_right(nr51, 1), s.1)
            + gated(routed_right(nr51, 2), s.2) + gated(routed_right(nr51, 3), s.3))) as i32,
    )
}

/// The first `n` samples of four channels, mixed.
pub open spec fn mixed(
    nr50: u8,
    nr51: u8,
    s1: Seq<i16>,
    s2: Seq<i16>,
    s3: Seq<i16>,
    s4: Seq<i16>,
    n: nat,
) -> Seq<(i32, i32)> {
    Seq::new(n, |i: int| mix_sample(nr50, nr51, (s1[i], s2[i], s3[i], s4[i])))
}

/// The queue after the first `t` of the samples `m` have arrived: each is
/// appended unless the queue already holds `cap` samples, in which case it
/// is dropped.
pub open spec fn queued(q: Seq<(i32, i32)>, m: Seq<(i32, i32)>, t: nat, cap: nat) -> Seq<
    (i32, i32),
>
    decreases t,
{
    if t == 0 {
        q
    } else {
        let p = queued(q, m, (t - 1) as nat, cap);
        if p.len() < cap {
            p.push(m[t - 1])
        } else {
            p
        }
    }
}

/// The least of four lengths.
pub open spec fn least(a: nat, b: nat, c: nat, d: nat) -> nat {
    let ab = if a <= b {
        a
    } else {
        b
    };
    let cd = if c <= d {
        c
    } else {
        d
    };
    if ab <= cd {
        ab
    } else {
        cd
    }
}

/// The queue only grows, by appending, and never beyond its capacity
/// unless it was beyond it already.
pub proof fn lemma_queued(q: Seq<(i32, i32)>, m: Seq<(i32, i32)>, t: nat, cap: nat)
    ensures
        q.is_prefix_of(queued(q, m, t, cap)),
        queued(q, m, t, cap).len() <= (if q.len() <= cap {
            cap
        } else {
            q.len()
        }),
    decreases t,
{
    if t > 0 {
        lemma_queued(q, m, (t - 1) as nat, cap);
    }
}

fn mix_one(nr50: u8, nr51: u8, s1: i16, s2: i16, s3: i16, s4: i16) -> (r: (i32, i32))
    ensures
        r == mix_sample(nr50, nr51, (s1, s2, s3, s4)),
{
    let mut l: i32 = 0;
    let mut r: i32 = 0;
    if nr51 % 2 == 1 {
        l = l + s1 as i32;
    }
    if nr51 / 2 % 2 == 1 {
        l = l + s2 as i32;
    }
    if nr51 / 4 % 2 == 1 {
        l = l + s3 as i32;
    }
    if nr51 / 8 % 2 == 1 {
        l = l + s4 as i32;
    }
    if nr51 / 16 % 2 == 1 {
        r = r + s1 as i32;
    }
    if nr51 / 32 % 2 == 1 {
        r = r + s2 as i32;
    }
    if nr51 / 64 % 2 == 1 {
        r = r + s3 as i32;
    }
    if nr51 >= 128 {
        r = r + s4 as i32;
    }
    let l_vol = (nr50 / 16 % 8) as i32;
    let r_vol = (nr50 % 8) as i32;
    assert(-0x10_0000 <= l_vol * l <= 0x10_0000 && -0x10_0000 <= r_vol * r <= 0x10_0000)
        by (nonlinear_arith)
        requires
            0 <= l_vol <= 7,
            0 <= r_vol <= 7,
            -0x2_0000 <= l <= 0x2_0000,
            -0x2_0000 <= r <= 0x2_0000,
    ;
    (l_vol * l, r_vol * r)
}

/// The state of the audio engine but for the sample buffers and the queue.
#[verifier::ext_equal]
pub struct ApuState {
    pub register: Register,
    pub timer: Clock,
    pub fs: FrameSequencer,
    pub square1: SquareCore,
    pub square2: SquareCore,
    pub wave: WaveCore,
    pub noise: NoiseCore,
}

impl ApuState {
    /// The engine at power-up: off, every register 0, the sequencer at
    /// step 0, the timers of the pulse and wave channels at a period of
    /// 8192 ticks and that of the noise channel at 4096, the shift register
    /// seeded with 1, an empty wave table.
    pub open spec fn cold() -> ApuState {
        ApuState {
            register: Register::power_up_value(Channel::Mixer),
            timer: Clock { period: FRAME_TICKS, n: 0 },
            fs: FrameSequencer { step: 0 },
            square1: SquareCore::cold(Channel::Square1),
            square2: SquareCore::cold(Channel::Square2),
            wave: WaveCore {
                register: Register::power_up_value(Channel::Wave),
                timer: Clock { period: 8192, n: 0 },
                lc: LengthCounter { n: 0 },
                wave_table: spec_array_fill_for_copy_type(0u8),
                sample_idx: 0,
            },
            noise: NoiseCore {
                register: Register::power_up_value(Channel::Noise),
                timer: Clock { period: 4096, n: 0 },
                lc: LengthCounter { n: 0 },
                ve: VolumeEnvelope { timer: Clock { period: 8, n: 0 }, volume: 0 },
                lfsr: LFSR { seed: 1 },
            },
        }
    }

    /// The engine after one step of the frame sequencer. The four channels
    /// sound for the length of the step; then the sequencer moves on and
    /// clocks the length counters on its steps 0, 2, 4 and 6, the envelopes
    /// on step 7, and the sweep, which retunes the first pulse channel, on
    /// steps 2 and 6.
    pub open spec fn frame(self) -> ApuState {
        let d = self.timer.period;
        let s1 = self.square1.sounded(d);
        let s2 = self.square2.sounded(d);
        let w = self.wave.sounded(d);
        let n = self.noise.sounded(d);
        let step = ((self.fs.step % 8 + 1) % 8) as u8;
        let len = FrameSequencer::clocks_length(step);
        let s1 = if len {
            SquareCore {
                lc: s1.lc.clocked(s1.register).0,
                register: s1.lc.clocked(s1.register).1,
                ..s1
            }
        } else {
            s1
        };
        let s2 = if len {
            SquareCore {
                lc: s2.lc.clocked(s2.register).0,
                register: s2.lc.clocked(s2.register).1,
                ..s2
            }
        } else {
            s2
        };
        let w = if len {
            WaveCore { lc: w.lc.clocked(w.register).0, register: w.lc.clocked(w.register).1, ..w }
        } else {
            w
        };
        let n = if len {
            NoiseCore { lc: n.lc.clocked(n.register).0, register: n.lc.clocked(n.register).1, ..n }
        } else {
            n
        };
        let env = FrameSequencer::clocks_envelope(step);
        let s1 = if env {
            SquareCore { ve: s1.ve.clocked(s1.register), ..s1 }
        } else {
            s1
        };
        let s2 = if env {
            SquareCore { ve: s2.ve.clocked(s2.register), ..s2 }
        } else {
            s2
        };
        let n = if env {
            NoiseCore { ve: n.ve.clocked(n.register), ..n }
        } else {
            n
        };
        let s1 = if FrameSequencer::clocks_sweep(step) {
            (SquareCore {
                fs: s1.fs.clocked(s1.register).0,
                register: s1.fs.clocked(s1.register).1,
                ..s1
            }).tuned()
        } else {
            s1
        };
        ApuState {
            fs: FrameSequencer { step },
            square1: s1,
            square2: s2,
            wave: w,
            noise: n,
            ..self
        }
    }

    /// The engine after `k` steps of the frame sequencer.
    pub open spec fn frames(self, k: nat) -> ApuState
        decreases k,
    {
        if k == 0 {
            self
        } else {
            self.frames((k - 1) as nat).frame()
        }
    }

    pub open spec fn read(self, a: u16) -> u8 {
        if 0xff10 <= a <= 0xff14 {
            self.square1.read(a)
        } else if 0xff15 <= a <= 0xff19 {
            self.square2.read(a)
        } else if 0xff1a <= a <= 0xff1e {
            self.wave.read(a)
        } else if 0xff1f <= a <= 0xff23 {
            self.noise.read(a)
        } else if a == 0xff24 {
            self.register.nrx0
        } else if a == 0xff25 {
            self.register.nrx1
        } else if a == 0xff26 {
            (self.register.nrx2 & 0xf0) | (if self.square1.register.trigger() {
                0x01u8
            } else {
                0x00u8
            }) | (if self.square2.register.trigger() {
                0x02u8
            } else {
                0x00u8
            }) | (if self.wave.register.trigger() {
                0x40u8
            } else {
                0x00u8
            }) | (if self.noise.register.trigger() {
                0x80u8
            } else {
                0x00u8
            })
        } else if 0xff30 <= a <= 0xff3f {
            self.wave.read(a)
        } else {
            0
        }
    }

    /// The engine after `v` is stored at `a`. While the engine is off
    /// (bit 7 of NR52 clear) every store but one to NR52 is ignored; a
    /// store to NR52 that leaves the engine off clears the registers of the
    /// four channels and of the mixer, but not the wave table.
    pub open spec fn written(self, a: u16, v: u8) -> ApuState {
        if a != 0xff26 && !self.register.power() {
            self
        } else if 0xff10 <= a <= 0xff14 {
            ApuState { square1: self.square1.written(a, v), ..self }
        } else if 0xff15 <= a <= 0xff19 {
            ApuState { square2: self.square2.written(a, v), ..self }
        } else if 0xff1a <= a <= 0xff1e {
            ApuState { wave: self.wave.written(a, v), ..self }
        } else if 0xff1f <= a <= 0xff23 {
            ApuState { noise: self.noise.written(a, v), ..self }
        } else if a == 0xff24 {
            ApuState { register: Register { nrx0: v, ..self.register }, ..self }
        } else if a == 0xff25 {
            ApuState { register: Register { nrx1: v, ..self.register }, ..self }
        } else if a == 0xff26 {
            if v >= 0x80 {
                ApuState { register: Register { nrx2: v, ..self.register }, ..self }
            } else {
                ApuState {
                    register: self.register.cleared(),
                    square1: SquareCore {
                        register: self.square1.register.cleared(),
                        ..self.square1
                    },
                    square2: SquareCore {
                        register: self.square2.register.cleared(),
                        ..self.square2
                    },
                    wave: WaveCore { register: self.wave.register.cleared(), ..self.wave },
                    noise: NoiseCore { register: self.noise.register.cleared(), ..self.noise },
                    ..self
                }
            }
        } else if 0xff30 <= a <= 0xff3f {
            ApuState { wave: self.wave.written(a, v), ..self }
        } else {
            self
        }
    }
}

/// The audio engine: a frame sequencer driving four channels, and a mixer
/// that queues stereo samples for the host.
pub struct APU {
    /// The mixer's registers: NR50, NR51 and NR52.
    pub register: Register,
    pub timer: Clock,
    pub fs: FrameSequencer,
    pub square1_channel: ChannelSquare,
    pub square2_channel: ChannelSquare,
    pub wave_channel: ChannelWave,
    pub noise_channel: ChannelNoise,
    /// Output samples per second; the queue holds one second at most.
    pub sample_rate: u32,
    /// The queue of stereo samples, left first, oldest first.
    pub buffer: Vec<(i32, i32)>,
}

impl View for APU {
    type V = APU;

    open spec fn view(&self) -> APU {
        *self
    }
}

impl APU {
    /// The registers, timers and counters of the engine and its channels:
    /// all of it but the channels' sample buffers, the output rate and the
    /// queue, of which `rates`, `ready`, `sample_rate` and `buffer` speak.
    pub open spec fn state(self) -> ApuState {
        ApuState {
            register: self.register,
            timer: self.timer,
            fs: self.fs,
            square1: self.square1_channel.core,
            square2: self.square2_channel.core,
            wave: self.wave_channel.core,
            noise: self.noise_channel.core,
        }
    }

    /// The engine with its state replaced, sample buffers and queue kept.
    pub open spec fn with_state(self, t: ApuState) -> APU {
        APU {
            register: t.register,
            timer: t.timer,
            fs: t.fs,
            square1_channel: ChannelSquare { core: t.square1, blip: self.square1_channel.blip },
            square2_channel: ChannelSquare { core: t.square2, blip: self.square2_channel.blip },
            wave_channel: ChannelWave { core: t.wave, blip: self.wave_channel.blip },
            noise_channel: ChannelNoise { core: t.noise, blip: self.noise_channel.blip },
            sample_rate: self.sample_rate,
            buffer: self.buffer,
        }
    }

    /// The output rates of the four channels' sample buffers.
    pub open spec fn rates(self) -> (u32, u32, u32, u32) {
        (
            self.square1_channel.blip.rate(),
            self.square2_channel.blip.rate(),
            self.wave_channel.blip.rate(),
            self.noise_channel.blip.rate(),
        )
    }

    /// Whether `after` is what driving this engine by `cycles` master-clock
    /// ticks can make of it. While the engine is off nothing changes. Else
    /// the state moves on by the steps of the frame sequencer that have
    /// become due. Where none has, the sample buffers and the queue are as
    /// they were; where one has, everything that all four channels had
    /// ready has been mixed, so that one of them at least has nothing ready.
    /// The sample buffers keep their rates, and the queue keeps what it
    /// held and grows at its end, to one second at most.
    pub open spec fn driven(self, after: APU, cycles: u32) -> bool {
        &&& !self.register.power() ==> after == self
        &&& self.register.power() ==> after.state() == (ApuState {
            timer: self.timer.after(cycles),
            ..self.state()
        }).frames(self.timer.ticks(cycles) as nat)
        &&& self.register.power() && self.timer.ticks(cycles) == 0 ==> after == self.with_state(
            after.state(),
        )
        &&& self.register.power() && self.timer.ticks(cycles) > 0 ==> after.ready() == 0
        &&& after.rates() == self.rates()
        &&& after.sample_rate == self.sample_rate
        &&& self.buffer@.is_prefix_of(after.buffer@)
        &&& after.buffer@.len() <= (if self.buffer@.len() <= self.sample_rate {
            self.sample_rate as nat
        } else {
            self.buffer@.len()
        })
    }

    /// The number of samples that all four channels have ready.
    pub open spec fn ready(self) -> nat {
        least(
            self.square1_channel.blip.ready().len(),
            self.square2_channel.blip.ready().len(),
            self.wave_channel.blip.ready().len(),
            self.noise_channel.blip.ready().len(),
        )
    }

    /// The samples that all four channels have ready, mixed.
    pub open spec fn mix_of(self) -> Seq<(i32, i32)> {
        mixed(
            self.register.nrx0,
            self.register.nrx1,
            self.square1_channel.blip.ready(),
            self.square2_channel.blip.ready(),
            self.wave_channel.blip.ready(),
            self.noise_channel.blip.ready(),
            self.ready(),
        )
    }

    pub fn power_up(sample_rate: u32) -> (r: Self)
        ensures
            r.state() == ApuState::cold(),
            r.sample_rate == sample_rate,
            r.buffer@.len() == 0,
            r.ready() == 0,
    {
        APU {
            register: Register::power_up(Channel::Mixer),
            timer: Clock::power_up(FRAME_TICKS),
            fs: FrameSequencer::power_up(),
            square1_channel: ChannelSquare::power_up(sample_rate, Channel::Square1),
            square2_channel: ChannelSquare::power_up(sample_rate, Channel::Square2),
            wave_channel: ChannelWave::power_up(sample_rate),
            noise_channel: ChannelNoise::power_up(sample_rate),
            sample_rate,
            buffer: Vec::new(),
        }
    }

    /// One step of the frame sequencer but for the mixing.
    fn frame(&mut self)
        ensures
            final(self).state() == old(self).state().frame(),
            final(self).rates() == old(self).rates(),
            final(self).sample_rate == old(self).sample_rate,
            final(self).buffer == old(self).buffer,
    {
        let d = self.timer.period;
        self.square1_channel.next(d);
        self.square2_channel.next(d);
        self.wave_channel.next(d);
        self.noise_channel.next(d);

        let step = self.fs.next();
        if step % 2 == 0 {
            self.square1_channel.core.lc.next(&mut self.square1_channel.core.register);
            self.square2_channel.core.lc.next(&mut self.square2_channel.core.register);
            self.wave_channel.core.lc.next(&mut self.wave_channel.core.register);
            self.noise_channel.core.lc.next(&mut self.noise_channel.core.register);
        }
        if step == 7 {
            self.square1_channel.core.ve.next(&self.square1_channel.core.register);
            self.square2_channel.core.ve.next(&self.square2_channel.core.register);
            self.noise_channel.core.ve.next(&self.noise_channel.core.register);
        }
        if step == 2 || step == 6 {
            self.square1_channel.core.fs.next(&mut self.square1_channel.core.register);
            self.square1_channel.core.update_freq();
        }
        self.square1_channel.blip.end_frame(d);
        self.square2_channel.blip.end_frame(d);
        self.wave_channel.blip.end_frame(d);
        self.noise_channel.blip.end_frame(d);
    }

    /// Advances the engine by `cycles` master-clock ticks. While the engine
    /// is off nothing happens. Else, for every step of the frame sequencer
    /// that has become due, the engine takes the step and mixes what the
    /// channels have made ready.
    pub fn next(&mut self, cycles: u32)
        ensures
            old(self).driven(*final(self), cycles),
    {
        if self.register.nrx2 < 0x80 {
            return ;
        }
        let ticks = self.timer.next(cycles);
        let ghost start = self.state();
        let mut k: u32 = 0;
        while k < ticks
            invariant
                k <= ticks,
                self.state() == start.frames(k as nat),
                k == 0 ==> *self == old(self).with_state(start),
                k > 0 ==> self.ready() == 0,
                self.rates() == old(self).rates(),
                self.sample_rate == old(self).sample_rate,
                old(self).buffer@.is_prefix_of(self.buffer@),
                self.buffer@.len() <= (if old(self).buffer@.len() <= old(self).sample_rate {
                    old(self).sample_rate as nat
                } else {
                    old(self).buffer@.len()
                }),
            decreases ticks - k,
        {
            self.frame();
            proof {
                lemma_queued(self.buffer@, self.mix_of(), self.ready(), self.sample_rate as nat);
            }
            self.mix();
            k = k + 1;
        }
    }

    /// Mixes the samples that all four channels have ready and queues them
    /// for the host; a sample that finds the queue holding one second is
    /// dropped.
    pub fn mix(&mut self)
        ensures
            final(self).state() == old(self).state(),
            final(self).rates() == old(self).rates(),
            final(self).ready() == 0,
            final(self).sample_rate == old(self).sample_rate,
            final(self).buffer@ == queued(
                old(self).buffer@,
                old(self).mix_of(),
                old(self).ready(),
                old(self).sample_rate as nat,
            ),
            final(self).square1_channel.blip.ready() == old(self).square1_channel.blip.ready().skip(
                old(self).ready() as int,
            ),
            final(self).square2_channel.blip.ready() == old(self).square2_channel.blip.ready().skip(
                old(self).ready() as int,
            ),
            final(self).wave_channel.blip.ready() == old(self).wave_channel.blip.ready().skip(
                old(self).ready() as int,
            ),
            final(self).noise_channel.blip.ready() == old(self).noise_channel.blip.ready().skip(
                old(self).ready() as int,
            ),
    {
        let ghost r1 = self.square1_channel.blip.ready();
        let ghost r2 = self.square2_channel.blip.ready();
        let ghost r3 = self.wave_channel.blip.ready();
        let ghost r4 = self.noise_channel.blip.ready();
        let ghost total = self.ready();
        let ghost all = self.mix_of();
        let ghost q0 = self.buffer@;
        let nr50 = self.register.nrx0;
        let nr51 = self.register.nrx1;
        let cap = self.sample_rate as usize;
        let mut buf1 = [0i16;CHUNK];
        let mut buf2 = [0i16;CHUNK];
        let mut buf3 = [0i16;CHUNK];
        let mut buf4 = [0i16;CHUNK];
        let ghost mut done: nat = 0;
        assert(r1.skip(0) =~= r1 && r2.skip(0) =~= r2 && r3.skip(0) =~= r3 && r4.skip(0) =~= r4);
        loop
            invariant
                done <= total,
                total == least(r1.len(), r2.len(), r3.len(), r4.len()),
                all == mixed(nr50, nr51, r1, r2, r3, r4, total),
                cap == old(self).sample_rate,
                self.state() == old(self).state(),
                self.rates() == old(self).rates(),
                self.sample_rate == old(self).sample_rate,
                self.square1_channel.blip.ready() == r1.skip(done as int),
                self.square2_channel.blip.ready() == r2.skip(done as int),
                self.wave_channel.blip.ready() == r3.skip(done as int),
                self.noise_channel.blip.ready() == r4.skip(done as int),
                self.buffer@ == queued(q0, all, done, cap as nat),
            ensures
                done == total,
            decreases total - done,
        {
            let a1 = self.square1_channel.blip.samples_avail();
            let a2 = self.square2_channel.blip.samples_avail();
            let a3 = self.wave_channel.blip.samples_avail();
            let a4 = self.noise_channel.blip.samples_avail();
            let mut count = if a1 <= a2 { a1 } else { a2 };
            if a3 < count {
                count = a3;
            }
            if a4 < count {
                count = a4;
            }
            if count > CHUNK {
                count = CHUNK;
            }
            if count == 0 {
                break ;
            }
            let c1 = self.square1_channel.blip.read(&mut buf1, count);
            let c2 = self.square2_channel.blip.read(&mut buf2, count);
            let c3 = self.wave_channel.blip.read(&mut buf3, count);
            let c4 = self.noise_channel.blip.read(&mut buf4, count);
            assert(r1.skip(done as int).skip(count as int) =~= r1.skip(done + count));
            assert(r2.skip(done as int).skip(count as int) =~= r2.skip(done + count));
            assert(r3.skip(done as int).skip(count as int) =~= r3.skip(done + count));
            assert(r4.skip(done as int).skip(count as int) =~= r4.skip(done + count));
            let mut i: usize = 0;
            while i < count
                invariant
                    i <= count <= CHUNK,
                    done + count <= total,
                    total == least(r1.len(), r2.len(), r3.len(), r4.len()),
                    all == mixed(nr50, nr51, r1, r2, r3, r4, total),
                    cap == old(self).sample_rate,
                    self.state() == old(self).state(),
                    self.rates() == old(self).rates(),
                    self.sample_rate == old(self).sample_rate,
                    self.square1_channel.blip.ready() == r1.skip(done + count),
                    self.square2_channel.blip.ready() == r2.skip(done + count),
                    self.wave_channel.blip.ready() == r3.skip(done + count),
                    self.noise_channel.blip.ready() == r4.skip(done + count),
                    forall|j: int| 0 <= j < count ==> buf1@[j] == r1[done + j],
                    forall|j: int| 0 <= j < count ==> buf2@[j] == r2[done + j],
                    forall|j: int| 0 <= j < count ==> buf3@[j] == r3[done + j],
                    forall|j: int| 0 <= j < count ==> buf4@[j] == r4[done + j],
                    self.buffer@ == queued(q0, all, (done + i) as nat, cap as nat),
                decreases count - i,
            {
                let s = mix_one(nr50, nr51, buf1[i], buf2[i], buf3[i], buf4[i]);
                assert(s == all[done + i]);
                if self.buffer.len() < cap {
                    self.buffer.push(s);
                }
                i = i + 1;
            }
            proof {
                done = done + count as nat;
            }
        }
    }

    /// Hands the queued samples to the host and empties the queue.
    pub fn take_samples(&mut self) -> (out: Vec<(i32, i32)>)
        ensures
            out@ == old(self).buffer@,
            final(self).buffer@.len() == 0,
            final(self).state() == old(self).state(),
            final(self).sample_rate == old(self).sample_rate,
    {
        let mut out: Vec<(i32, i32)> = Vec::new();
        core::mem::swap(&mut out, &mut self.buffer);
        out
    }
}

impl Memory for APU {
    open spec fn read(s: APU, a: u16) -> u8 {
        s.state().read(a)
    }

    open spec fn written(s: APU, a: u16, v: u8) -> APU {
        s.with_state(s.state().written(a, v))
    }

    fn get(&self, a: u16) -> (r: u8) {
        if 0xff10 <= a && a <= 0xff14 {
            self.square1_channel.get(a)
        } else if 0xff15 <= a && a <= 0xff19 {
            self.square2_channel.get(a)
        } else if 0xff1a <= a && a <= 0xff1e {
            self.wave_channel.get(a)
        } else if 0xff1f <= a && a <= 0xff23 {
            self.noise_channel.get(a)
        } else if a == 0xff24 {
            self.register.nrx0
        } else if a == 0xff25 {
            self.register.nrx1
        } else if a == 0xff26 {
            let upper = self.register.nrx2 & 0xf0;
            let s1_trigger: u8 = if self.square1_channel.core.register.get_trigger() {
                0x01
            } else {
                0x00
            };
            let s2_trigger: u8 = if self.square2_channel.core.register.get_trigger() {
                0x02
            } else {
                0x00
            };
            let w_trigger: u8 = if self.wave_channel.core.register.get_trigger() {
                0x40
            } else {
                0x00
            };
            let n_trigger: u8 = if self.noise_channel.core.register.get_trigger() {
                0x80
            } else {
                0x00
            };
            upper | s1_trigger | s2_trigger | w_trigger | n_trigger
        } else if 0xff30 <= a && a <= 0xff3f {
            self.wave_channel.get(a)
        } else {
            0x00
        }
    }

    fn set(&mut self, a: u16, v: u8) {
        if a != 0xff26 && self.register.nrx2 < 0x80 {
            return ;
        }
        if 0xff10 <= a && a <= 0xff14 {
            self.square1_channel.set(a, v);
        } else if 0xff15 <= a && a <= 0xff19 {
            self.square2_channel.set(a, v);
        } else if 0xff1a <= a && a <= 0xff1e {
            self.wave_channel.set(a, v);
        } else if 0xff1f <= a && a <= 0xff23 {
            self.noise_channel.set(a, v);
        } else if a == 0xff24 {
            self.register.nrx0 = v;
        } else if a == 0xff25 {
            self.register.nrx1 = v;
        } else if a == 0xff26 {
            self.register.nrx2 = v;
            if self.register.nrx2 < 0x80 {
                self.square1_channel.core.register.reset();
                self.square2_channel.core.register.reset();
                self.wave_channel.core.register.reset();
                self.noise_channel.core.register.reset();
                self.register.reset();
            }
        } else if 0xff30 <= a && a <= 0xff3f {
            self.wave_channel.set(a, v);
        }
    }
}

} // verus!
