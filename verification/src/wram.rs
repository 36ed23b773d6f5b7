use vstd::prelude::*;
use vstd::array::{spec_array_update, spec_array_fill_for_copy_type};
use crate::memory::Memory;

verus! {

/// The 32 KiB of work RAM: bank 0 at 0xC000, a switchable bank (1 to 7) at
/// 0xD000, both mirrored in the echo region 0xE000 to 0xFDFF, and the bank
/// register at 0xFF70.
#[verifier::ext_equal]
pub struct WRAM {
    pub wram_bank: u8,
    pub wram: [u8; 0x8000],
}

impl View for WRAM {
    type V = WRAM;

    open spec fn view(&self) -> WRAM {
        *self
    }
}

/// The bank a value written to the bank register selects: its low three
/// bits, with 0 standing for bank 1.
pub open spec fn bank_of(v: u8) -> u8 {
    if v % 8 == 0 {
        1
    } else {
        v % 8
    }
}

impl WRAM {
    /// Work RAM at power-up: every byte 0, bank 1 selected.
    pub open spec fn cold() -> WRAM {
        WRAM { wram_bank: 1, wram: spec_array_fill_for_copy_type(0u8) }
    }

    pub fn power_up() -> (r: Self)
        ensures
            r == Self::cold(),
            forall|i: int| 0 <= i < 0x8000 ==> r.wram[i] == 0,
    {
        WRAM { wram: [0x00;0x8000], wram_bank: 0x01 }
    }

    /// The index into the 32 KiB at which address `a` lives, if work RAM
    /// holds a byte for it.
    pub open spec fn slot(s: WRAM, a: u16) -> Option<int> {
        if 0xc000 <= a <= 0xcfff {
            Some(a - 0xc000)
        } else if 0xd000 <= a <= 0xdfff {
            Some(a - 0xd000 + 0x1000 * bank_of(s.wram_bank))
        } else if 0xe000 <= a <= 0xefff {
            Some(a - 0xe000)
        } else if 0xf000 <= a <= 0xfdff {
            Some(a - 0xf000 + 0x1000 * bank_of(s.wram_bank))
        } else {
            None
        }
    }

    fn bank(&self) -> (b: usize)
        ensures
            b == bank_of(self.wram_bank),
            1 <= b <= 7,
    {
        let b = self.wram_bank % 8;
        if b == 0 {
            1
        } else {
            b as usize
        }
    }

    fn index(&self, a: u16) -> (i: Option<usize>)
        ensures
            i matches Some(k) ==> Self::slot(*self, a) == Some(k as int) && k < 0x8000,
            i is None ==> Self::slot(*self, a) is None,
    {
        if 0xc000 <= a && a <= 0xcfff {
            Some(a as usize - 0xc000)
        } else if 0xd000 <= a && a <= 0xdfff {
            Some(a as usize - 0xd000 + 0x1000 * self.bank())
        } else if 0xe000 <= a && a <= 0xefff {
            Some(a as usize - 0xe000)
        } else if 0xf000 <= a && a <= 0xfdff {
            Some(a as usize - 0xf000 + 0x1000 * self.bank())
        } else {
            None
        }
    }

    fn set_wram_bank(&mut self, v: u8)
        ensures
            final(self).wram_bank == bank_of(v),
            final(self).wram == old(self).wram,
    {
        let b = v % 8;
        self.wram_bank = if b == 0 { 1 } else { b };
    }
}

impl Memory for WRAM {
    open spec fn read(s: WRAM, a: u16) -> u8 {
        match Self::slot(s, a) {
            Some(i) => s.wram[i],
            None => if a == 0xff70 {
                bank_of(s.wram_bank)
            } else {
                0
            },
        }
    }

    open spec fn written(s: WRAM, a: u16, v: u8) -> WRAM {
        match Self::slot(s, a) {
            Some(i) => WRAM { wram: spec_array_update(s.wram, i, v), wram_bank: s.wram_bank },
            None => if a == 0xff70 {
                WRAM { wram: s.wram, wram_bank: bank_of(v) }
            } else {
                s
            },
        }
    }

    fn get(&self, a: u16) -> (r: u8) {
        match self.index(a) {
            Some(i) => self.wram[i],
            None => if a == 0xff70 {
                self.bank() as u8
            } else {
                0x00
            },
        }
    }

    fn set(&mut self, a: u16, v: u8) {
        match self.index(a) {
            Some(i) => {
                self.wram[i] = v;
            },
            None => if a == 0xff70 {
                self.set_wram_bank(v);
            },
        }
    }
}

/// The echo region mirrors work RAM: every address from 0xE000 to 0xFDFF
/// reads what the address 0x2000 below it reads, and a store to either of
/// the two is seen at both.
pub proof fn lemma_echo_mirror(s: WRAM, a: u16, v: u8)
    requires
        0xe000 <= a <= 0xfdff,
    ensures
        WRAM::read(s, a) == WRAM::read(s, (a - 0x2000) as u16),
        WRAM::written(s, a, v) == WRAM::written(s, (a - 0x2000) as u16, v),
        WRAM::read(WRAM::written(s, a, v), (a - 0x2000) as u16) == v,
        WRAM::read(WRAM::written(s, (a - 0x2000) as u16, v), a) == v,
{
    assert(bank_of(s.wram_bank) <= 7);
}

/// A byte stored in work RAM reads back.
pub proof fn lemma_wram_round_trip(s: WRAM, a: u16, v: u8)
    requires
        0xc000 <= a <= 0xfdff,
    ensures
        WRAM::read(WRAM::written(s, a, v), a) == v,
{
    assert(bank_of(s.wram_bank) <= 7);
}

} // verus!
