use vstd::prelude::*;
use crate::convention::Term;
use crate::cpu::Cpu;
use crate::memory::Memory;

verus! {

/// Master-clock ticks per second.
pub const CLOCK_FREQUENCY: u32 = 4_194_304;

/// The length of a pacing period in milliseconds.
pub const STEP_TIME: u32 = 16;

/// Master-clock ticks per pacing period: `CLOCK_FREQUENCY * 16 / 1000`.
pub const STEP_CYCLES: u32 = 67108;

/// The pacing clock: it owns the CPU, counts the ticks the CPU consumes,
/// and tells the host how long to sleep so that the CPU runs at its rate.
#[derive(Clone, Copy, PartialEq, Eq, Structural, Debug)]
pub struct RTC {
    pub cpu: Cpu,
    /// Ticks consumed in the present pacing period.
    pub step_cycles: u32,
    /// The host's clock, in milliseconds, at the start of the period.
    pub step_zero: u64,
    /// Whether a new period has begun since the host last asked.
    pub step_flip: bool,
}

impl RTC {
    pub fn power_up(term: Term, now: u64) -> (r: Self)
        ensures
            r == (RTC {
                cpu: Cpu {
                    reg: crate::register::Register::power_up_value(term),
                    halted: false,
                    ei: true,
                },
                step_cycles: 0,
                step_zero: now,
                step_flip: false,
            }),
    {
        RTC { cpu: Cpu::power_up(term), step_cycles: 0, step_zero: now, step_flip: false }
    }

    /// Whether the tick budget of the present period is used up.
    pub open spec fn due(self) -> bool {
        self.step_cycles > STEP_CYCLES
    }

    /// How long the host has to sleep at the host time `now`: until the
    /// end of the present period if the budget is used up, else not at
    /// all.
    pub open spec fn sleep_for(self, now: u64) -> u64 {
        if !self.due() {
            0
        } else if now < self.step_zero {
            STEP_TIME as u64
        } else if now - self.step_zero >= STEP_TIME {
            0
        } else {
            (STEP_TIME - (now - self.step_zero)) as u64
        }
    }

    /// The clock after pacing at the host time `now`. With the budget used
    /// up a new period begins: the budget is taken off the count, and the
    /// period starts 16 ms after the last one, or at `now` if that is
    /// already past.
    pub open spec fn paced(self, now: u64) -> RTC {
        if !self.due() {
            self
        } else {
            let next = if self.step_zero + STEP_TIME > u64::MAX {
                u64::MAX
            } else {
                (self.step_zero + STEP_TIME) as u64
            };
            RTC {
                step_flip: true,
                step_cycles: (self.step_cycles - STEP_CYCLES) as u32,
                step_zero: if now >= next {
                    now
                } else {
                    next
                },
                ..self
            }
        }
    }

    /// Paces the CPU at the host time `now` (milliseconds on a clock that
    /// does not go back) and returns the milliseconds the host has to sleep
    /// before the next step.
    pub fn pace(&mut self, now: u64) -> (sleep: u64)
        ensures
            sleep == old(self).sleep_for(now),
            *final(self) == old(self).paced(now),
            sleep <= STEP_TIME,
    {
        if self.step_cycles <= STEP_CYCLES {
            return 0;
        }
        self.step_flip = true;
        self.step_cycles = self.step_cycles - STEP_CYCLES;
        let d: u64 = if now >= self.step_zero { now - self.step_zero } else { 0 };
        let s: u64 = if d >= STEP_TIME as u64 { 0 } else { STEP_TIME as u64 - d };
        self.step_zero = if self.step_zero > u64::MAX - STEP_TIME as u64 {
            u64::MAX
        } else {
            self.step_zero + STEP_TIME as u64
        };
        if now >= self.step_zero {
            self.step_zero = now;
        }
        s
    }

    /// Lets the CPU take one step on the bus `mem` and counts its ticks.
    pub fn next<M: Memory>(&mut self, mem: &mut M) -> (cycles: u32)
        ensures
            final(self).cpu.on(final(mem)) == old(self).cpu.on(old(mem)).step().next,
            cycles == old(self).cpu.on(old(mem)).step().cycles,
            cycles <= 24,
            final(self).step_cycles == (if old(self).step_cycles + cycles > u32::MAX {
                u32::MAX
            } else {
                (old(self).step_cycles + cycles) as u32
            }),
            final(self).step_zero == old(self).step_zero,
            final(self).step_flip == old(self).step_flip,
    {
        let cycles = self.cpu.next(mem);
        self.step_cycles = if self.step_cycles > u32::MAX - cycles {
            u32::MAX
        } else {
            self.step_cycles + cycles
        };
        cycles
    }

    /// Tells whether a new pacing period has begun since the last call.
    pub fn flip(&mut self) -> (r: bool)
        ensures
            r == old(self).step_flip,
            *final(self) == (RTC { step_flip: false, ..*old(self) }),
    {
        let r = self.step_flip;
        if r {
            self.step_flip = false;
        }
        r
    }
}

} // verus!
