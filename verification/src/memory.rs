use vstd::prelude::*;

verus! {

/// The little-endian 16-bit value made of a low and a high byte.
pub open spec fn word_of(lo: u8, hi: u8) -> u16 {
    (hi as u16 * 256 + lo as u16) as u16
}

/// The low byte of a 16-bit value.
pub open spec fn lo_byte(v: u16) -> u8 {
    (v % 256) as u8
}

/// The high byte of a 16-bit value.
pub open spec fn hi_byte(v: u16) -> u8 {
    (v / 256) as u8
}

/// The address that follows `a` on the 16-bit bus (0xFFFF wraps to 0).
pub open spec fn next_addr(a: u16) -> u16 {
    if a == 0xffff {
        0
    } else {
        (a + 1) as u16
    }
}

/// A byte-addressable component on the 16-bit bus.
///
/// The view of a component is its state as a mathematical value. `read` is
/// what a load observes in a state and `written` is the state after a store;
/// both are total, so an address a component does not decode reads as a
/// fixed value and ignores stores.
pub trait Memory: View + Sized {
    /// The byte a load of address `a` observes in state `s`.
    spec fn read(s: Self::V, a: u16) -> u8;

    /// The state after `v` has been stored at address `a` in state `s`.
    spec fn written(s: Self::V, a: u16, v: u8) -> Self::V;

    fn get(&self, a: u16) -> (r: u8)
        ensures
            r == Self::read(self@, a),
    ;

    fn set(&mut self, a: u16, v: u8)
        ensures
            final(self)@ == Self::written(old(self)@, a, v),
    ;

    /// Loads a little-endian word as two sequential byte loads at `a` and
    /// the following address.
    fn get_word(&self, a: u16) -> (r: u16)
        ensures
            r == word_of(Self::read(self@, a), Self::read(self@, next_addr(a))),
    {
        let lo = self.get(a);
        let hi = self.get(a.wrapping_add(1));
        (hi as u16) * 256 + (lo as u16)
    }

    /// Stores a little-endian word as two sequential byte stores: the low
    /// byte at `a`, then the high byte at the following address.
    fn set_word(&mut self, a: u16, v: u16)
        ensures
            final(self)@ == Self::written(
                Self::written(old(self)@, a, lo_byte(v)),
                next_addr(a),
                hi_byte(v),
            ),
    {
        self.set(a, (v % 256) as u8);
        self.set(a.wrapping_add(1), (v / 256) as u8);
    }
}

} // verus!
