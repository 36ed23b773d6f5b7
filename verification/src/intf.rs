use vstd::prelude::*;

verus! {

/// The five interrupt sources, in priority order (lowest bit first).
#[derive(Clone, Copy, PartialEq, Eq, Structural, Debug)]
pub enum INTFlag {
    VBlank,
    LCDStat,
    Timer,
    Serial,
    Joypad,
}

impl INTFlag {
    /// The index of this source's bit in the request and enable masks.
    pub open spec fn index(self) -> u8 {
        match self {
            INTFlag::VBlank => 0,
            INTFlag::LCDStat => 1,
            INTFlag::Timer => 2,
            INTFlag::Serial => 3,
            INTFlag::Joypad => 4,
        }
    }

    /// The mask with only this source's bit set.
    pub open spec fn mask(self) -> u8 {
        match self {
            INTFlag::VBlank => 0x01,
            INTFlag::LCDStat => 0x02,
            INTFlag::Timer => 0x04,
            INTFlag::Serial => 0x08,
            INTFlag::Joypad => 0x10,
        }
    }

    pub fn bit(self) -> (m: u8)
        ensures
            m == self.mask(),
    {
        match self {
            INTFlag::VBlank => 0x01,
            INTFlag::LCDStat => 0x02,
            INTFlag::Timer => 0x04,
            INTFlag::Serial => 0x08,
            INTFlag::Joypad => 0x10,
        }
    }
}

/// The interrupt request register (bus address 0xFF0F).
#[derive(Clone, Copy, PartialEq, Eq, Structural, Debug)]
pub struct Intf {
    pub data: u8,
}

impl Intf {
    pub fn power_up() -> (r: Self)
        ensures
            r.data == 0,
    {
        Intf { data: 0x00 }
    }

    /// Whether the request bit of `flag` is set.
    pub open spec fn requested(self, flag: INTFlag) -> bool {
        self.data & flag.mask() != 0
    }

    /// Raises the request bit of `flag`; the other bits keep their value.
    pub fn hi(&mut self, flag: INTFlag)
        ensures
            final(self).data == old(self).data | flag.mask(),
    {
        self.data = self.data | flag.bit();
    }
}

/// Raising a request sets exactly that source's bit: the source reads as
/// requested afterwards and every other source reads as before.
pub proof fn lemma_raise_sets_only_its_bit(data: u8, flag: INTFlag, other: INTFlag)
    ensures
        (Intf { data: data | flag.mask() }).requested(flag),
        other != flag ==> (Intf { data: data | flag.mask() }).requested(other) == (Intf {
            data,
        }).requested(other),
{
    lemma_or_one_hot(data, flag.mask(), other.mask());
}

proof fn lemma_or_one_hot(d: u8, m: u8, o: u8)
    by (bit_vector)
    requires
        m == 1 || m == 2 || m == 4 || m == 8 || m == 16,
        o == 1 || o == 2 || o == 4 || o == 8 || o == 16,
    ensures
        (d | m) & m != 0,
        o != m ==> (d | m) & o == d & o,
{
}

} // verus!
