use vstd::prelude::*;
use crate::intf::{Intf, INTFlag};
use crate::memory::Memory;

verus! {

/// The eight buttons. The directions sit in the low nibble of the signal
/// byte, the actions in the high nibble.
#[derive(Clone, Copy, PartialEq, Eq, Structural, Debug)]
pub enum JoypadKey {
    Right,
    Left,
    Up,
    Down,
    A,
    B,
    Select,
    Start,
}

impl JoypadKey {
    /// The bit of the signal byte that stands for this button.
    pub open spec fn mask(self) -> u8 {
        match self {
            JoypadKey::Right => 0x01,
            JoypadKey::Left => 0x02,
            JoypadKey::Up => 0x04,
            JoypadKey::Down => 0x08,
            JoypadKey::A => 0x10,
            JoypadKey::B => 0x20,
            JoypadKey::Select => 0x40,
            JoypadKey::Start => 0x80,
        }
    }

    pub fn bit(self) -> (m: u8)
        ensures
            m == self.mask(),
    {
        match self {
            JoypadKey::Right => 0x01,
            JoypadKey::Left => 0x02,
            JoypadKey::Up => 0x04,
            JoypadKey::Down => 0x08,
            JoypadKey::A => 0x10,
            JoypadKey::B => 0x20,
            JoypadKey::Select => 0x40,
            JoypadKey::Start => 0x80,
        }
    }
}

/// The joypad register (0xFF00).
#[derive(Clone, Copy, PartialEq, Eq, Structural, Debug)]
pub struct Joypad {
    /// One bit per button; 0 means pressed.
    pub signals: u8,
    /// The value last written; bits 4 and 5 select the half that is read.
    pub select: u8,
}

impl View for Joypad {
    type V = Joypad;

    open spec fn view(&self) -> Joypad {
        *self
    }
}

impl Joypad {
    pub fn power_up() -> (r: Self)
        ensures
            r.signals == 0xff,
            r.select == 0x00,
    {
        Joypad { signals: 0xff, select: 0x00 }
    }

    /// Whether `key` is held down.
    pub open spec fn pressed(self, key: JoypadKey) -> bool {
        self.signals & key.mask() == 0
    }

    /// Presses `key`. The joypad interrupt is requested on the edge, that
    /// is when the button was not already down.
    pub fn keydown(&mut self, key: JoypadKey, intf: &mut Intf)
        ensures
            final(self).signals == old(self).signals & !key.mask(),
            final(self).select == old(self).select,
            final(intf).data == (if old(self).pressed(key) {
                old(intf).data
            } else {
                old(intf).data | INTFlag::Joypad.mask()
            }),
    {
        let was_down = self.signals & key.bit() == 0;
        self.signals = self.signals & !key.bit();
        if !was_down {
            intf.hi(INTFlag::Joypad);
        }
    }

    /// Releases `key`.
    pub fn keyup(&mut self, key: JoypadKey)
        ensures
            final(self).signals == old(self).signals | key.mask(),
            final(self).select == old(self).select,
    {
        self.signals = self.signals | key.bit();
    }
}

impl Memory for Joypad {
    /// The select bits as written, merged with the nibble of the half they
    /// select: the directions when bit 4 is clear, else the actions when bit
    /// 5 is clear.
    open spec fn read(s: Joypad, a: u16) -> u8 {
        if a != 0xff00 {
            0
        } else if s.select & 0x10 == 0 {
            s.select | (s.signals & 0x0f)
        } else if s.select & 0x20 == 0 {
            s.select | (s.signals >> 4)
        } else {
            s.select
        }
    }

    open spec fn written(s: Joypad, a: u16, v: u8) -> Joypad {
        if a == 0xff00 {
            Joypad { select: v, ..s }
        } else {
            s
        }
    }

    fn get(&self, a: u16) -> (r: u8) {
        if a != 0xff00 {
            return 0x00;
        }
        if (self.select & 0x10) == 0x00 {
            return self.select | (self.signals & 0x0f);
        }
        if (self.select & 0x20) == 0x00 {
            return self.select | (self.signals >> 4);
        }
        self.select
    }

    fn set(&mut self, a: u16, v: u8) {
        if a == 0xff00 {
            self.select = v;
        }
    }
}

proof fn lemma_key_bits(s: u8, m: u8, o: u8)
    by (bit_vector)
    requires
        m == 1 || m == 2 || m == 4 || m == 8 || m == 16 || m == 32 || m == 64 || m == 128,
        o == 1 || o == 2 || o == 4 || o == 8 || o == 16 || o == 32 || o == 64 || o == 128,
    ensures
        (s & !m) & m == 0,
        (s | m) & m != 0,
        o != m ==> (s & !m) & o == s & o,
        o != m ==> (s | m) & o == s & o,
{
}

/// A pressed button reads as pressed and a released one as released; the
/// other seven buttons are not touched by either.
pub proof fn lemma_press_release(s: Joypad, key: JoypadKey, other: JoypadKey)
    ensures
        (Joypad { signals: s.signals & !key.mask(), ..s }).pressed(key),
        !(Joypad { signals: s.signals | key.mask(), ..s }).pressed(key),
        other != key ==> (Joypad { signals: s.signals & !key.mask(), ..s }).pressed(other)
            == s.pressed(other),
        other != key ==> (Joypad { signals: s.signals | key.mask(), ..s }).pressed(other)
            == s.pressed(other),
{
    lemma_key_bits(s.signals, key.mask(), other.mask());
}

} // verus!
