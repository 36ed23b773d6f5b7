use vstd::prelude::*;
use vstd::array::{spec_array_update, spec_array_fill_for_copy_type};
use crate::memory::Memory;

verus! {

/// The 127 bytes of high RAM (0xFF80 to 0xFFFE).
#[verifier::ext_equal]
pub struct HRAM {
    pub hram: [u8; 0x7f],
}

impl View for HRAM {
    type V = HRAM;

    open spec fn view(&self) -> HRAM {
        *self
    }
}

impl HRAM {
    /// High RAM at power-up: every byte 0.
    pub open spec fn cold() -> HRAM {
        HRAM { hram: spec_array_fill_for_copy_type(0u8) }
    }

    pub fn power_up() -> (r: Self)
        ensures
            r == Self::cold(),
            forall|a: u16| Self::read(r, a) == 0,
    {
        HRAM { hram: [0x00;0x7f] }
    }

    /// Whether high RAM decodes address `a`.
    pub open spec fn maps(a: u16) -> bool {
        0xff80 <= a <= 0xfffe
    }
}

impl Memory for HRAM {
    open spec fn read(s: HRAM, a: u16) -> u8 {
        if Self::maps(a) {
            s.hram[a - 0xff80]
        } else {
            0
        }
    }

    open spec fn written(s: HRAM, a: u16, v: u8) -> HRAM {
        if Self::maps(a) {
            HRAM { hram: spec_array_update(s.hram, a - 0xff80, v) }
        } else {
            s
        }
    }

    fn get(&self, a: u16) -> (r: u8) {
        if 0xff80 <= a && a <= 0xfffe {
            self.hram[a as usize - 0xff80]
        } else {
            0x00
        }
    }

    fn set(&mut self, a: u16, v: u8) {
        if 0xff80 <= a && a <= 0xfffe {
            self.hram[a as usize - 0xff80] = v;
        }
    }
}

/// A byte stored in high RAM reads back, and every other address reads as
/// before.
pub proof fn lemma_hram_round_trip(s: HRAM, a: u16, v: u8, b: u16)
    ensures
        HRAM::maps(a) ==> HRAM::read(HRAM::written(s, a, v), a) == v,
        b != a ==> HRAM::read(HRAM::written(s, a, v), b) == HRAM::read(s, b),
{
}

} // verus!
