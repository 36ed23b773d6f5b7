use vstd::prelude::*;

verus! {

/// A prescaler: emits one tick for every `period` source ticks.
#[derive(Clone, Copy, PartialEq, Eq, Structural, Debug)]
pub struct Clock {
    /// Source ticks per emitted tick.
    pub period: u32,
    /// Source ticks accumulated towards the next emitted tick.
    pub n: u32,
}

impl Clock {
    pub fn power_up(period: u32) -> (r: Self)
        ensures
            r.period == period,
            r.n == 0,
    {
        Clock { period, n: 0x00 }
    }

    /// Number of ticks emitted when `cycles` source ticks arrive: the whole
    /// periods in the accumulated ticks, at most `u32::MAX`. A clock with
    /// period 0 never ticks.
    pub open spec fn ticks(self, cycles: u32) -> int {
        if self.period == 0 {
            0
        } else if (self.n + cycles) / (self.period as int) > u32::MAX {
            u32::MAX as int
        } else {
            (self.n + cycles) / (self.period as int)
        }
    }

    /// The accumulator left after `cycles` source ticks arrive.
    pub open spec fn rest(self, cycles: u32) -> int {
        if self.period == 0 {
            self.n as int
        } else {
            (self.n + cycles) % (self.period as int)
        }
    }

    /// The clock after `cycles` source ticks.
    pub open spec fn after(self, cycles: u32) -> Clock {
        Clock { period: self.period, n: self.rest(cycles) as u32 }
    }

    /// Feeds `cycles` source ticks and returns how many ticks are emitted.
    pub fn next(&mut self, cycles: u32) -> (rs: u32)
        ensures
            rs == old(self).ticks(cycles),
            *final(self) == old(self).after(cycles),
            old(self).period > 0 ==> final(self).n < final(self).period,
    {
        if self.period == 0 {
            return 0;
        }
        let total: u64 = self.n as u64 + cycles as u64;
        let period: u64 = self.period as u64;
        let rs: u64 = total / period;
        self.n = (total % period) as u32;
        if rs > 0xffff_ffff {
            0xffff_ffff
        } else {
            rs as u32
        }
    }
}

} // verus!
