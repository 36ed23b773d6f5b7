use vstd::prelude::*;
use crate::intf::Intf;
use crate::joypad::{Joypad, JoypadKey};

verus! {

/// The buttons as the host names them.
#[derive(Clone, Copy, PartialEq, Eq, Structural, Debug)]
pub enum GbBtn {
    LEFT,
    UP,
    RIGHT,
    DOWN,
    A,
    B,
    START,
    SELECT,
}

impl GbBtn {
    /// The bit of the keyboard mask that stands for this button.
    pub open spec fn mask(self) -> u8 {
        match self {
            GbBtn::LEFT => 0x01,
            GbBtn::UP => 0x02,
            GbBtn::RIGHT => 0x04,
            GbBtn::DOWN => 0x08,
            GbBtn::A => 0x10,
            GbBtn::B => 0x20,
            GbBtn::START => 0x40,
            GbBtn::SELECT => 0x80,
        }
    }

    pub fn bit(self) -> (m: u8)
        ensures
            m == self.mask(),
    {
        match self {
            GbBtn::LEFT => 0x01,
            GbBtn::UP => 0x02,
            GbBtn::RIGHT => 0x04,
            GbBtn::DOWN => 0x08,
            GbBtn::A => 0x10,
            GbBtn::B => 0x20,
            GbBtn::START => 0x40,
            GbBtn::SELECT => 0x80,
        }
    }

    /// The button's name.
    pub open spec fn label(self) -> &'static str {
        match self {
            GbBtn::LEFT => "Left",
            GbBtn::UP => "Up",
            GbBtn::RIGHT => "Right",
            GbBtn::DOWN => "Down",
            GbBtn::A => "A",
            GbBtn::B => "B",
            GbBtn::START => "Start",
            GbBtn::SELECT => "Select",
        }
    }

    pub fn name(self) -> (r: &'static str)
        ensures
            r == self.label(),
    {
        match self {
            GbBtn::LEFT => "Left",
            GbBtn::UP => "Up",
            GbBtn::RIGHT => "Right",
            GbBtn::DOWN => "Down",
            GbBtn::A => "A",
            GbBtn::B => "B",
            GbBtn::START => "Start",
            GbBtn::SELECT => "Select",
        }
    }
}

/// The host's buttons with the joypad keys they stand for, in the order
/// in which they are handed to the joypad.
pub const KEY_MAPS: [(GbBtn, JoypadKey); 8] = [
    (GbBtn::RIGHT, JoypadKey::Right),
    (GbBtn::UP, JoypadKey::Up),
    (GbBtn::LEFT, JoypadKey::Left),
    (GbBtn::DOWN, JoypadKey::Down),
    (GbBtn::A, JoypadKey::A),
    (GbBtn::B, JoypadKey::B),
    (GbBtn::SELECT, JoypadKey::Select),
    (GbBtn::START, JoypadKey::Start),
];

/// The buttons the host holds down, one bit each; a set bit means pressed.
#[derive(Clone, Copy, PartialEq, Eq, Structural, Debug)]
pub struct Keyboard {
    pub pressed_key: u8,
}

impl Keyboard {
    pub fn create() -> (r: Self)
        ensures
            r.pressed_key == 0,
    {
        Keyboard { pressed_key: 0x00 }
    }

    /// Whether `btn` is held down.
    pub open spec fn pressed(self, btn: GbBtn) -> bool {
        self.pressed_key & btn.mask() != 0
    }

    pub fn is_button_pressed(&self, btn: GbBtn) -> (r: bool)
        ensures
            r == self.pressed(btn),
    {
        self.pressed_key & btn.bit() != 0x00
    }

    pub fn press_button(&mut self, btn: GbBtn)
        ensures
            final(self).pressed_key == old(self).pressed_key | btn.mask(),
    {
        self.pressed_key = self.pressed_key | btn.bit();
    }

    pub fn release_button(&mut self, btn: GbBtn)
        ensures
            final(self).pressed_key == old(self).pressed_key & !btn.mask(),
    {
        self.pressed_key = self.pressed_key & !btn.bit();
    }
}

/// The joypad and the interrupt requests after the first `n` buttons of
/// `KEY_MAPS` have been handed over: a button that is held presses its key,
/// which requests the joypad interrupt if the key was up, and one that is
/// not releases it.
pub open spec fn synced(k: Keyboard, j: Joypad, i: Intf, n: nat) -> (Joypad, Intf)
    decreases n,
{
    if n == 0 {
        (j, i)
    } else {
        let (j1, i1) = synced(k, j, i, (n - 1) as nat);
        let (btn, key) = KEY_MAPS[n - 1];
        if k.pressed(btn) {
            (
                Joypad { signals: j1.signals & !key.mask(), ..j1 },
                if j1.pressed(key) {
                    i1
                } else {
                    Intf { data: i1.data | crate::intf::INTFlag::Joypad.mask() }
                },
            )
        } else {
            (Joypad { signals: j1.signals | key.mask(), ..j1 }, i1)
        }
    }
}

/// Hands the state of the host's buttons to the joypad.
pub fn sync_keys(keyboard: &Keyboard, joypad: &mut Joypad, intf: &mut Intf)
    ensures
        (*final(joypad), *final(intf)) == synced(*keyboard, *old(joypad), *old(intf), 8),
{
    let mut n: usize = 0;
    while n < 8
        invariant
            n <= 8,
            (*joypad, *intf) == synced(*keyboard, *old(joypad), *old(intf), n as nat),
        decreases 8 - n,
    {
        let (rk, vk) = KEY_MAPS[n];
        if keyboard.is_button_pressed(rk) {
            joypad.keydown(vk, intf);
        } else {
            joypad.keyup(vk);
        }
        n = n + 1;
    }
}

proof fn lemma_button_bits(s: u8, m: u8, o: u8)
    by (bit_vector)
    requires
        m == 1 || m == 2 || m == 4 || m == 8 || m == 16 || m == 32 || m == 64 || m == 128,
        o == 1 || o == 2 || o == 4 || o == 8 || o == 16 || o == 32 || o == 64 || o == 128,
    ensures
        (s & !m) & m == 0,
        (s | m) & m != 0,
        o != m ==> (s & !m) & o == s & o,
        o != m ==> (s | m) & o == s & o,
{
}

/// A pressed button reads as pressed and a released one as released; the
/// other seven buttons are not touched by either.
pub proof fn lemma_press_release(k: Keyboard, btn: GbBtn, other: GbBtn)
    ensures
        (Keyboard { pressed_key: k.pressed_key | btn.mask() }).pressed(btn),
        !(Keyboard { pressed_key: k.pressed_key & !btn.mask() }).pressed(btn),
        other != btn ==> (Keyboard { pressed_key: k.pressed_key | btn.mask() }).pressed(other)
            == k.pressed(other),
        other != btn ==> (Keyboard { pressed_key: k.pressed_key & !btn.mask() }).pressed(other)
            == k.pressed(other),
{
    lemma_button_bits(k.pressed_key, btn.mask(), other.mask());
}

} // verus!
