use vstd::prelude::*;
use crate::memory::Memory;

verus! {

/// The serial port: two registers that accept writes; no transfer takes
/// place.
#[derive(Clone, Copy, PartialEq, Eq, Structural, Debug)]
pub struct Serial {
    /// SB (0xFF01): the byte to be shifted out.
    pub data: u8,
    /// SC (0xFF02): transfer start, clock speed and clock source.
    pub control: u8,
}

impl View for Serial {
    type V = Serial;

    open spec fn view(&self) -> Serial {
        *self
    }
}

impl Serial {
    pub fn power_up() -> (r: Self)
        ensures
            r.data == 0,
            r.control == 0,
    {
        Serial { data: 0x00, control: 0x00 }
    }
}

impl Memory for Serial {
    open spec fn read(s: Serial, a: u16) -> u8 {
        if a == 0xff01 {
            s.data
        } else if a == 0xff02 {
            s.control
        } else {
            0
        }
    }

    open spec fn written(s: Serial, a: u16, v: u8) -> Serial {
        if a == 0xff01 {
            Serial { data: v, ..s }
        } else if a == 0xff02 {
            Serial { control: v, ..s }
        } else {
            s
        }
    }

    fn get(&self, a: u16) -> (r: u8) {
        match a {
            0xff01 => self.data,
            0xff02 => self.control,
            _ => 0x00,
        }
    }

    fn set(&mut self, a: u16, v: u8) {
        match a {
            0xff01 => self.data = v,
            0xff02 => self.control = v,
            _ => {},
        }
    }
}

} // verus!
