use vstd::prelude::*;
use crate::memory::Memory;

verus! {

#[derive(Clone, Copy, PartialEq, Eq, Structural, Debug)]
pub enum SpeedMode {
    Normal,
    Double,
}

impl SpeedMode {
    /// How many CPU ticks make one master-clock tick in this mode.
    pub open spec fn factor(self) -> u32 {
        match self {
            SpeedMode::Normal => 1,
            SpeedMode::Double => 2,
        }
    }

    pub fn multiplier(self) -> (m: u32)
        ensures
            m == self.factor(),
    {
        match self {
            SpeedMode::Normal => 1,
            SpeedMode::Double => 2,
        }
    }
}

/// The CPU speed control (KEY1, 0xFF4D).
#[derive(Clone, Copy, PartialEq, Eq, Structural, Debug)]
pub struct Speed {
    pub mode: SpeedMode,
    /// Set by a write of bit 0; the switch happens at the next STOP.
    pub prepare_switch: bool,
}

impl View for Speed {
    type V = Speed;

    open spec fn view(&self) -> Speed {
        *self
    }
}

impl Speed {
    pub fn power_up() -> (r: Self)
        ensures
            r.mode == SpeedMode::Normal,
            !r.prepare_switch,
    {
        Speed { mode: SpeedMode::Normal, prepare_switch: false }
    }

    /// The speed control after a STOP: an armed switch toggles the mode and
    /// disarms, otherwise nothing changes.
    pub open spec fn switched(self) -> Speed {
        if !self.prepare_switch {
            self
        } else {
            Speed {
                mode: if self.mode == SpeedMode::Double {
                    SpeedMode::Normal
                } else {
                    SpeedMode::Double
                },
                prepare_switch: false,
            }
        }
    }

    pub fn switch_speed(&mut self)
        ensures
            *final(self) == old(self).switched(),
    {
        if !self.prepare_switch {
            return ;
        }
        if self.mode == SpeedMode::Double {
            self.mode = SpeedMode::Normal;
        } else {
            self.mode = SpeedMode::Double;
        }
        self.prepare_switch = false;
    }
}

impl Memory for Speed {
    /// Bit 7 tells double speed, bit 0 an armed switch.
    open spec fn read(s: Speed, a: u16) -> u8 {
        if a == 0xff4d {
            ((if s.mode == SpeedMode::Double {
                0x80int
            } else {
                0x00int
            }) + (if s.prepare_switch {
                0x01int
            } else {
                0x00int
            })) as u8
        } else {
            0
        }
    }

    open spec fn written(s: Speed, a: u16, v: u8) -> Speed {
        if a == 0xff4d {
            Speed { prepare_switch: v % 2 == 1, ..s }
        } else {
            s
        }
    }

    fn get(&self, a: u16) -> (r: u8) {
        match a {
            0xff4d => {
                let a: u8 = if self.mode == SpeedMode::Double { 0x80 } else { 0x00 };
                let b: u8 = if self.prepare_switch { 0x01 } else { 0x00 };
                a + b
            },
            _ => 0x00,
        }
    }

    fn set(&mut self, a: u16, v: u8) {
        match a {
            0xff4d => self.prepare_switch = v % 2 == 1,
            _ => {},
        }
    }
}

} // verus!
