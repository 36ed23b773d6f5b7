use vstd::prelude::*;
use crate::clock::Clock;
use crate::intf::{Intf, INTFlag};
use crate::memory::Memory;

verus! {

/// The divisor of the master clock that the low two bits of TAC select.
pub open spec fn divisor(tac: u8) -> u32 {
    if tac % 4 == 0 {
        1024
    } else if tac % 4 == 1 {
        16
    } else if tac % 4 == 2 {
        64
    } else {
        256
    }
}

/// Whether bit 2 of TAC, the enable bit, is set.
pub open spec fn enabled(tac: u8) -> bool {
    tac / 4 % 2 == 1
}

/// TIMA after `n` increments, and whether it overflowed on the way: every
/// increment past 0xFF reloads TIMA from TMA.
pub open spec fn tima_run(tima: u8, tma: u8, n: nat) -> (u8, bool)
    decreases n,
{
    if n == 0 {
        (tima, false)
    } else {
        let (t, o) = tima_run(tima, tma, (n - 1) as nat);
        if t == 0xff {
            (tma, true)
        } else {
            ((t + 1) as u8, o)
        }
    }
}

/// The timer: DIV (0xFF04) counts at 1/256 of the master clock, TIMA
/// (0xFF05) at the rate TAC (0xFF07) selects, reloading from TMA (0xFF06)
/// and requesting the timer interrupt on overflow.
pub struct Timer {
    div: u8,
    div_clock: Clock,
    tima: u8,
    tma: u8,
    tac: u8,
    timer_clock: Clock,
}

impl View for Timer {
    type V = Timer;

    open spec fn view(&self) -> Timer {
        *self
    }
}

impl Timer {
    #[verifier::type_invariant]
    spec fn inv(self) -> bool {
        &&& self.div_clock.period == 256
        &&& self.div_clock.n < 256
        &&& self.timer_clock.period == divisor(self.tac)
        &&& self.timer_clock.n < self.timer_clock.period
    }

    pub closed spec fn div(self) -> u8 {
        self.div
    }

    pub closed spec fn tima(self) -> u8 {
        self.tima
    }

    pub closed spec fn tma(self) -> u8 {
        self.tma
    }

    pub closed spec fn tac(self) -> u8 {
        self.tac
    }

    /// Master-clock ticks counted towards the next increment of DIV.
    pub closed spec fn div_prescaler(self) -> u32 {
        self.div_clock.n
    }

    /// Master-clock ticks counted towards the next increment of TIMA.
    pub closed spec fn tima_prescaler(self) -> u32 {
        self.timer_clock.n
    }

    /// The timer at power-up: the four registers and the two prescalers
    /// at 0.
    pub closed spec fn cold() -> Timer {
        Timer {
            div: 0,
            div_clock: Clock { period: 256, n: 0 },
            tima: 0,
            tma: 0,
            tac: 0,
            timer_clock: Clock { period: 1024, n: 0 },
        }
    }

    pub proof fn lemma_cold()
        ensures
            Self::cold().div() == 0,
            Self::cold().tima() == 0,
            Self::cold().tma() == 0,
            Self::cold().tac() == 0,
            Self::cold().div_prescaler() == 0,
            Self::cold().tima_prescaler() == 0,
    {
    }

    pub fn power_up() -> (r: Self)
        ensures
            r == Self::cold(),
    {
        Timer {
            div: 0x00,
            div_clock: Clock::power_up(256),
            tima: 0x00,
            tma: 0x00,
            tac: 0x00,
            timer_clock: Clock::power_up(1024),
        }
    }

    /// The timer and the interrupt requests after `cycles` master-clock
    /// ticks.
    ///
    /// DIV grows by the whole 256-tick periods that have passed. With the
    /// enable bit of TAC set, TIMA is incremented once per period of the
    /// selected divisor; if it overflows, the timer interrupt is requested.
    pub closed spec fn after(self, cycles: u32, intf: Intf) -> (Timer, Intf) {
        let div = ((self.div + (self.div_clock.n + cycles) / 256) % 256) as u8;
        let div_clock = Clock { period: self.div_clock.period, n: ((self.div_clock.n + cycles) % 256) as u32 };
        if !enabled(self.tac) {
            (Timer { div, div_clock, ..self }, intf)
        } else {
            let total = self.timer_clock.n + cycles;
            let d = divisor(self.tac) as int;
            let run = tima_run(self.tima, self.tma, (total / d) as nat);
            (
                Timer {
                    div,
                    div_clock,
                    tima: run.0,
                    timer_clock: Clock { period: self.timer_clock.period, n: (total % d) as u32 },
                    ..self
                },
                if run.1 {
                    Intf { data: intf.data | INTFlag::Timer.mask() }
                } else {
                    intf
                },
            )
        }
    }

    /// What `after` does to the registers and the two prescalers.
    pub proof fn lemma_after(self, cycles: u32, intf: Intf)
        ensures
            self.after(cycles, intf).0.div() == (self.div() + (self.div_prescaler() + cycles)
                / 256) % 256,
            self.after(cycles, intf).0.div_prescaler() == (self.div_prescaler() + cycles) % 256,
            self.after(cycles, intf).0.tma() == self.tma(),
            self.after(cycles, intf).0.tac() == self.tac(),
            !enabled(self.tac()) ==> self.after(cycles, intf).0.tima() == self.tima()
                && self.after(cycles, intf).0.tima_prescaler() == self.tima_prescaler()
                && self.after(cycles, intf).1 == intf,
            enabled(self.tac()) ==> ({
                let total = self.tima_prescaler() + cycles;
                let d = divisor(self.tac()) as int;
                let run = tima_run(self.tima(), self.tma(), (total / d) as nat);
                &&& self.after(cycles, intf).0.tima_prescaler() == total % d
                &&& self.after(cycles, intf).0.tima() == run.0
                &&& self.after(cycles, intf).1.data == (if run.1 {
                    intf.data | INTFlag::Timer.mask()
                } else {
                    intf.data
                })
            }),
    {
    }

    /// Advances the timer by `cycles` master-clock ticks.
    pub fn next(&mut self, cycles: u32, intf: &mut Intf)
        ensures
            (*final(self), *final(intf)) == old(self).after(cycles, *old(intf)),
    {
        proof {
            use_type_invariant(&*self);
        }
        let mut div_clock = self.div_clock;
        let ticks = div_clock.next(cycles);
        let div = ((self.div as u32 + ticks % 256) % 256) as u8;
        assert(div == (self.div + ticks) % 256);
        if self.tac / 4 % 2 == 0 {
            *self = Timer { div, div_clock, ..*self };
            return ;
        }
        let mut timer_clock = self.timer_clock;
        proof {
            let d = divisor(self.tac) as int;
            let total = timer_clock.n + cycles;
            assert(d == 1024 || d == 16 || d == 64 || d == 256);
            assert(total / d <= total / 16) by {
                if d == 1024 {
                    assert(total / 1024 <= total / 16);
                } else if d == 64 {
                    assert(total / 64 <= total / 16);
                } else if d == 256 {
                    assert(total / 256 <= total / 16);
                }
            }
        }
        let n = timer_clock.next(cycles);
        let tma = self.tma;
        let mut tima = self.tima;
        let mut overflowed = false;
        let mut i: u32 = 0;
        while i < n
            invariant
                i <= n,
                (tima, overflowed) == tima_run(self.tima, tma, i as nat),
            decreases n - i,
        {
            if tima == 0xff {
                tima = tma;
                overflowed = true;
            } else {
                tima = tima + 1;
            }
            i = i + 1;
        }
        *self = Timer { div, div_clock, tima, timer_clock, ..*self };
        if overflowed {
            intf.hi(INTFlag::Timer);
        }
    }

    /// What the four registers hold, and what a store to each does to the
    /// registers and the two prescalers.
    ///
    /// Any store to DIV clears it and its prescaler. A store to TIMA or to
    /// TMA sets that register. A store to TAC sets it, and where it changes
    /// the divisor, clears the TIMA prescaler and reloads TIMA from TMA.
    /// Nothing else changes.
    pub proof fn lemma_registers(s: Timer, v: u8)
        ensures
            Self::read(s, 0xff04) == s.div(),
            Self::read(s, 0xff05) == s.tima(),
            Self::read(s, 0xff06) == s.tma(),
            Self::read(s, 0xff07) == s.tac(),
            Self::written(s, 0xff04, v).div() == 0,
            Self::written(s, 0xff04, v).div_prescaler() == 0,
            Self::written(s, 0xff04, v).tima() == s.tima(),
            Self::written(s, 0xff04, v).tma() == s.tma(),
            Self::written(s, 0xff04, v).tac() == s.tac(),
            Self::written(s, 0xff04, v).tima_prescaler() == s.tima_prescaler(),
            Self::written(s, 0xff05, v).tima() == v,
            Self::written(s, 0xff05, v).tma() == s.tma(),
            Self::written(s, 0xff05, v).tac() == s.tac(),
            Self::written(s, 0xff05, v).tima_prescaler() == s.tima_prescaler(),
            Self::written(s, 0xff05, v).div() == s.div(),
            Self::written(s, 0xff05, v).div_prescaler() == s.div_prescaler(),
            Self::written(s, 0xff06, v).tma() == v,
            Self::written(s, 0xff06, v).tima() == s.tima(),
            Self::written(s, 0xff06, v).tac() == s.tac(),
            Self::written(s, 0xff06, v).tima_prescaler() == s.tima_prescaler(),
            Self::written(s, 0xff06, v).div() == s.div(),
            Self::written(s, 0xff06, v).div_prescaler() == s.div_prescaler(),
            Self::written(s, 0xff07, v).tac() == v,
            Self::written(s, 0xff07, v).tma() == s.tma(),
            Self::written(s, 0xff07, v).div() == s.div(),
            Self::written(s, 0xff07, v).div_prescaler() == s.div_prescaler(),
            s.tac() % 4 != v % 4 ==> Self::written(s, 0xff07, v).tima() == s.tma()
                && Self::written(s, 0xff07, v).tima_prescaler() == 0,
            s.tac() % 4 == v % 4 ==> Self::written(s, 0xff07, v).tima() == s.tima()
                && Self::written(s, 0xff07, v).tima_prescaler() == s.tima_prescaler(),
    {
    }

    /// The master-clock ticks that the timer, with the enable bit of TAC
    /// set, has left until TIMA overflows: the periods of the divisor that
    /// TIMA has left, less the ticks counted towards the next increment.
    pub open spec fn ticks_left(self) -> int {
        (256 - self.tima()) * divisor(self.tac()) - self.tima_prescaler()
    }

    /// With the enable bit of TAC set, `cycles` ticks overflow TIMA, and so
    /// request the timer interrupt, exactly if they are as many as the
    /// timer has left; fewer use up as many of the ticks left.
    pub proof fn lemma_ticks_left(s: Timer, cycles: u32, intf: Intf)
        requires
            enabled(s.tac()),
        ensures
            ((s.tima_prescaler() + cycles) / (divisor(s.tac()) as int) >= 256 - s.tima()) == (cycles
                >= s.ticks_left()),
            s.after(cycles, intf).1.data == (if cycles >= s.ticks_left() {
                intf.data | INTFlag::Timer.mask()
            } else {
                intf.data
            }),
            cycles < s.ticks_left() ==> s.after(cycles, intf).0.ticks_left() == s.ticks_left()
                - cycles,
            s.after(cycles, intf).0.tac() == s.tac(),
    {
        Self::lemma_interrupt_when_due(s, cycles, intf);
        s.lemma_after(cycles, intf);
        let d = divisor(s.tac()) as int;
        let total = s.tima_prescaler() + cycles;
        let k = total / d;
        lemma_tima_run(s.tima(), s.tma(), k as nat);
        assert(d == 16 || d == 64 || d == 256 || d == 1024);
        assert(total == d * k + total % d && 0 <= total % d < d) by {
            vstd::arithmetic::div_mod::lemma_fundamental_div_mod(total, d);
        }
        assert((256 - s.tima() - k) * d == (256 - s.tima()) * d - d * k) by (nonlinear_arith);
        assert((k >= 256 - s.tima()) == (d * k >= (256 - s.tima()) * d)) by (nonlinear_arith)
            requires
                d > 0,
        ;
        assert((256 - s.tima()) * d % d == 0) by (nonlinear_arith)
            requires
                d > 0,
        ;
    }

    /// The timer interrupt comes exactly when it is due. With the enable
    /// bit of TAC set, `cycles` master-clock ticks request it if and only
    /// if, with the ticks counted before, they make up the `256 - TIMA`
    /// periods of the divisor that TIMA has left; without the bit, never.
    /// Where they make up exactly these, TIMA is left at TMA.
    pub proof fn lemma_interrupt_when_due(s: Timer, cycles: u32, intf: Intf)
        ensures
            s.after(cycles, intf).1.data == (if enabled(s.tac()) && (s.tima_prescaler() + cycles)
                / (divisor(s.tac()) as int) >= 256 - s.tima() {
                intf.data | INTFlag::Timer.mask()
            } else {
                intf.data
            }),
            enabled(s.tac()) && (s.tima_prescaler() + cycles) / (divisor(s.tac()) as int) == 256
                - s.tima() ==> s.after(cycles, intf).0.tima() == s.tma(),
    {
        s.lemma_after(cycles, intf);
        if enabled(s.tac()) {
            lemma_tima_run(
                s.tima(),
                s.tma(),
                ((s.tima_prescaler() + cycles) / (divisor(s.tac()) as int)) as nat,
            );
        }
    }
}

impl Memory for Timer {
    closed spec fn read(s: Timer, a: u16) -> u8 {
        if a == 0xff04 {
            s.div
        } else if a == 0xff05 {
            s.tima
        } else if a == 0xff06 {
            s.tma
        } else if a == 0xff07 {
            s.tac
        } else {
            0
        }
    }

    closed spec fn written(s: Timer, a: u16, v: u8) -> Timer {
        if a == 0xff04 {
            Timer { div: 0, div_clock: Clock { period: s.div_clock.period, n: 0 }, ..s }
        } else if a == 0xff05 {
            Timer { tima: v, ..s }
        } else if a == 0xff06 {
            Timer { tma: v, ..s }
        } else if a == 0xff07 {
            if s.tac % 4 != v % 4 {
                Timer { tac: v, timer_clock: Clock { period: divisor(v), n: 0 }, tima: s.tma, ..s }
            } else {
                Timer { tac: v, ..s }
            }
        } else {
            s
        }
    }

    fn get(&self, a: u16) -> (r: u8) {
        match a {
            0xff04 => self.div,
            0xff05 => self.tima,
            0xff06 => self.tma,
            0xff07 => self.tac,
            _ => 0x00,
        }
    }

    fn set(&mut self, a: u16, v: u8) {
        proof {
            use_type_invariant(&*self);
        }
        match a {
            0xff04 => {
                *self = Timer { div: 0x00, div_clock: Clock { period: self.div_clock.period, n: 0 }, ..*self };
            },
            0xff05 => self.tima = v,
            0xff06 => self.tma = v,
            0xff07 => {
                if self.tac % 4 != v % 4 {
                    let period: u32 = match v % 4 {
                        0 => 1024,
                        1 => 16,
                        2 => 64,
                        _ => 256,
                    };
                    *self = Timer {
                        tac: v,
                        timer_clock: Clock { period, n: 0 },
                        tima: self.tma,
                        ..*self
                    };
                } else {
                    *self = Timer { tac: v, ..*self };
                }
            },
            _ => {},
        }
    }
}

/// TIMA overflows within `n` increments exactly when `n` reaches `256 -
/// TIMA`. Until then it has grown by `n`; at that increment it is reloaded
/// from TMA.
pub proof fn lemma_tima_run(tima: u8, tma: u8, n: nat)
    ensures
        tima_run(tima, tma, n).1 <==> tima + n >= 256,
        tima + n < 256 ==> tima_run(tima, tma, n).0 == tima + n,
        tima + n == 256 ==> tima_run(tima, tma, n).0 == tma,
    decreases n,
{
    if n > 0 {
        lemma_tima_run(tima, tma, (n - 1) as nat);
    }
}

/// With TIMA at 0xFF, one increment overflows it: TIMA is reloaded from TMA
/// and the overflow is reported.
pub proof fn lemma_overflow_reloads(tma: u8)
    ensures
        tima_run(0xff, tma, 1) == (tma, true),
{
    reveal_with_fuel(tima_run, 2);
}

} // verus!
