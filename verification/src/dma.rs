use vstd::prelude::*;
use crate::memory::Memory;

verus! {

#[derive(Clone, Copy, PartialEq, Eq, Structural, Debug)]
pub enum DMAMode {
    /// General-purpose: all blocks are copied at once.
    GDMA,
    /// H-blank: one block is copied in every horizontal blank.
    HDMA,
}

/// The VRAM DMA registers (0xFF51 to 0xFF55).
#[derive(Clone, Copy, PartialEq, Eq, Structural, Debug)]
pub struct DMA {
    /// Source address; its low nibble is zero after any register write.
    pub src: u16,
    /// Destination address, kept inside video RAM by the register writes.
    pub dst: u16,
    /// Whether a transfer is under way.
    pub active: bool,
    pub mode: DMAMode,
    /// Blocks of 16 bytes still to copy, minus one (seven bits).
    pub remain: u8,
}

impl View for DMA {
    type V = DMA;

    open spec fn view(&self) -> DMA {
        *self
    }
}

impl DMA {
    pub fn power_up() -> (r: Self)
        ensures
            r == (DMA { src: 0x0000, dst: 0x8000, active: false, mode: DMAMode::GDMA, remain: 0x00 }),
    {
        DMA { src: 0x0000, dst: 0x8000, active: false, mode: DMAMode::GDMA, remain: 0x00 }
    }

    /// The registers after one block of 16 bytes has been copied: source and
    /// destination move on by 16 and the remainder counts down, wrapping
    /// from 0 to 0x7F.
    pub open spec fn after_block(self) -> DMA {
        DMA {
            src: self.src.wrapping_add(0x10),
            dst: self.dst.wrapping_add(0x10),
            remain: if self.remain == 0 {
                0x7f
            } else {
                (self.remain - 1) as u8
            },
            ..self
        }
    }

    /// Accounts for one copied block.
    pub fn advance(&mut self)
        ensures
            *final(self) == old(self).after_block(),
    {
        self.src = self.src.wrapping_add(0x10);
        self.dst = self.dst.wrapping_add(0x10);
        if self.remain == 0 {
            self.remain = 0x7f;
        } else {
            self.remain = self.remain - 1;
        }
    }
}

impl Memory for DMA {
    /// 0xFF55 reads the remainder, with bit 7 set when no transfer is under
    /// way.
    open spec fn read(s: DMA, a: u16) -> u8 {
        if a == 0xff51 {
            (s.src / 256) as u8
        } else if a == 0xff52 {
            (s.src % 256) as u8
        } else if a == 0xff53 {
            (s.dst / 256) as u8
        } else if a == 0xff54 {
            (s.dst % 256) as u8
        } else if a == 0xff55 {
            if s.active {
                s.remain
            } else {
                s.remain | 0x80
            }
        } else {
            0
        }
    }

    /// 0xFF51/0xFF52 set the source (low nibble dropped), 0xFF53/0xFF54 the
    /// destination (forced into 0x8000 to 0x9FF0). A store to 0xFF55 starts
    /// a transfer of the given length in the mode bit 7 selects, unless an
    /// H-blank transfer is under way: then a store with bit 7 clear stops
    /// it, and one with bit 7 set does nothing.
    open spec fn written(s: DMA, a: u16, v: u8) -> DMA {
        if a == 0xff51 {
            DMA { src: (v * 256 + s.src % 256) as u16, ..s }
        } else if a == 0xff52 {
            DMA { src: (s.src / 256 * 256 + v / 16 * 16) as u16, ..s }
        } else if a == 0xff53 {
            DMA { dst: (0x8000 + (v % 32) * 256 + s.dst % 256) as u16, ..s }
        } else if a == 0xff54 {
            DMA { dst: (s.dst / 256 * 256 + v / 16 * 16) as u16, ..s }
        } else if a == 0xff55 {
            if s.active && s.mode == DMAMode::HDMA {
                if v < 0x80 {
                    DMA { active: false, ..s }
                } else {
                    s
                }
            } else {
                DMA {
                    active: true,
                    remain: v % 128,
                    mode: if v < 0x80 {
                        DMAMode::GDMA
                    } else {
                        DMAMode::HDMA
                    },
                    ..s
                }
            }
        } else {
            s
        }
    }

    fn get(&self, a: u16) -> (r: u8) {
        match a {
            0xff51 => (self.src / 256) as u8,
            0xff52 => (self.src % 256) as u8,
            0xff53 => (self.dst / 256) as u8,
            0xff54 => (self.dst % 256) as u8,
            0xff55 => if self.active {
                self.remain
            } else {
                self.remain | 0x80
            },
            _ => 0x00,
        }
    }

    fn set(&mut self, a: u16, v: u8) {
        match a {
            0xff51 => self.src = (v as u16) * 256 + self.src % 256,
            0xff52 => self.src = self.src / 256 * 256 + (v as u16) / 16 * 16,
            0xff53 => self.dst = 0x8000 + ((v % 32) as u16) * 256 + self.dst % 256,
            0xff54 => self.dst = self.dst / 256 * 256 + (v as u16) / 16 * 16,
            0xff55 => {
                if self.active && self.mode == DMAMode::HDMA {
                    if v < 0x80 {
                        self.active = false;
                    }
                    return ;
                }
                self.active = true;
                self.remain = v % 128;
                self.mode = if v < 0x80 {
                    DMAMode::GDMA
                } else {
                    DMAMode::HDMA
                };
            },
            _ => {},
        }
    }
}

} // verus!
