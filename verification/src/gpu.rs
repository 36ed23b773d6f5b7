use vstd::prelude::*;
use crate::convention::Term;
use crate::intf::{Intf, INTFlag};
use crate::memory::Memory;
use crate::render::{draw_line, rendered};
use crate::frame::{FRAME_BYTES, white_frame};

verus! {

/// The four shades of the monochrome screen.
#[derive(Clone, Copy, PartialEq, Eq, Structural, Debug)]
pub enum GrayShades {
    White,
    Light,
    Dark,
    Blank,
}

impl GrayShades {
    /// The brightness of the shade, used for all three colour channels.
    pub open spec fn level(self) -> u8 {
        match self {
            GrayShades::White => 0xff,
            GrayShades::Light => 0xc0,
            GrayShades::Dark => 0x60,
            GrayShades::Blank => 0x00,
        }
    }

    pub fn value(self) -> (v: u8)
        ensures
            v == self.level(),
    {
        match self {
            GrayShades::White => 0xff,
            GrayShades::Light => 0xc0,
            GrayShades::Dark => 0x60,
            GrayShades::Blank => 0x00,
        }
    }
}

/// The LCD control register (0xFF40).
#[derive(Clone, Copy, PartialEq, Eq, Structural, Debug)]
pub struct LCDC {
    pub data: u8,
}

impl LCDC {
    pub fn power_up() -> (r: Self)
        ensures
            r.data == 0b0100_1000,
    {
        LCDC { data: 0b0100_1000 }
    }

    /// Whether any of the bits of `mask` is set.
    pub open spec fn has(self, mask: u8) -> bool {
        self.data & mask != 0
    }

    /// Bit 7: the display is on.
    pub fn lcd_enable(&self) -> (b: bool)
        ensures
            b == self.has(0x80),
    {
        self.data & 0b1000_0000 != 0x00
    }

    /// Bit 6: the window's tile map is at 0x9C00 (else 0x9800).
    pub fn win_tm_sel(&self) -> (b: bool)
        ensures
            b == self.has(0x40),
    {
        self.data & 0b0100_0000 != 0x00
    }

    /// Bit 5: the window is shown.
    pub fn window_enable(&self) -> (b: bool)
        ensures
            b == self.has(0x20),
    {
        self.data & 0b0010_0000 != 0x00
    }

    /// Bit 4: tile numbers are unsigned from 0x8000 (else signed around
    /// 0x9000).
    pub fn td_sel(&self) -> (b: bool)
        ensures
            b == self.has(0x10),
    {
        self.data & 0b0001_0000 != 0x00
    }

    /// Bit 3: the background's tile map is at 0x9C00 (else 0x9800).
    pub fn bg_tm_sel(&self) -> (b: bool)
        ensures
            b == self.has(0x08),
    {
        self.data & 0b0000_1000 != 0x00
    }

    /// Bit 2: sprites are 16 rows high (else 8).
    pub fn obj_h_16(&self) -> (b: bool)
        ensures
            b == self.has(0x04),
    {
        self.data & 0b0000_0100 != 0x00
    }

    /// Bit 1: sprites are shown.
    pub fn obj_enable(&self) -> (b: bool)
        ensures
            b == self.has(0x02),
    {
        self.data & 0b0000_0010 != 0x00
    }

    /// Bit 0: on the monochrome model, background and window are shown; on
    /// the colour model, the background can take priority over sprites.
    pub fn bg_win_pri(&self) -> (b: bool)
        ensures
            b == self.has(0x01),
    {
        self.data & 0b0000_0001 != 0x00
    }
}

/// The four phases of the pixel pipeline.
#[derive(Clone, Copy, PartialEq, Eq, Structural, Debug)]
pub enum GPUMode {
    /// Mode 0: horizontal blank.
    HBlank,
    /// Mode 1: vertical blank.
    VBlank,
    /// Mode 2: scan of the sprite attribute table.
    SearchOAM,
    /// Mode 3: pixel transfer.
    Tran2Driver,
}

impl GPUMode {
    pub open spec fn number(self) -> u8 {
        match self {
            GPUMode::HBlank => 0,
            GPUMode::VBlank => 1,
            GPUMode::SearchOAM => 2,
            GPUMode::Tran2Driver => 3,
        }
    }

    pub fn code(self) -> (n: u8)
        ensures
            n == self.number(),
    {
        match self {
            GPUMode::HBlank => 0,
            GPUMode::VBlank => 1,
            GPUMode::SearchOAM => 2,
            GPUMode::Tran2Driver => 3,
        }
    }
}

/// The LCD status register (0xFF41).
#[derive(Clone, Copy, PartialEq, Eq, Structural, Debug)]
pub struct LCDS {
    /// Bit 6: request the STAT interrupt when LY equals LYC.
    pub enable_ly_int: bool,
    /// Bit 5: request it on entering mode 2.
    pub enable_oam_int: bool,
    /// Bit 4: request it on entering mode 1.
    pub enable_vb_int: bool,
    /// Bit 3: request it on entering mode 0.
    pub enable_hb_int: bool,
    /// Bits 1 and 0: the present mode (read-only).
    pub mode: GPUMode,
}

impl LCDS {
    pub fn power_up() -> (r: Self)
        ensures
            r == (LCDS {
                enable_ly_int: false,
                enable_oam_int: false,
                enable_vb_int: false,
                enable_hb_int: false,
                mode: GPUMode::HBlank,
            }),
    {
        LCDS {
            enable_ly_int: false,
            enable_oam_int: false,
            enable_vb_int: false,
            enable_hb_int: false,
            mode: GPUMode::HBlank,
        }
    }

    /// The value the register reads as.
    pub open spec fn value(self) -> u8 {
        (self.mode.number() + (if self.enable_ly_int {
            0x40int
        } else {
            0
        }) + (if self.enable_oam_int {
            0x20int
        } else {
            0
        }) + (if self.enable_vb_int {
            0x10int
        } else {
            0
        }) + (if self.enable_hb_int {
            0x08int
        } else {
            0
        })) as u8
    }

    /// The register after `v` is stored: the four enables follow bits 6 to
    /// 3, the mode is kept.
    pub open spec fn stored(self, v: u8) -> LCDS {
        LCDS {
            enable_ly_int: v & 0x40 != 0,
            enable_oam_int: v & 0x20 != 0,
            enable_vb_int: v & 0x10 != 0,
            enable_hb_int: v & 0x08 != 0,
            mode: self.mode,
        }
    }

    pub fn get(&self) -> (data: u8)
        ensures
            data == self.value(),
    {
        let mut data = self.mode.code();
        if self.enable_ly_int {
            data = data + 0x40;
        }
        if self.enable_oam_int {
            data = data + 0x20;
        }
        if self.enable_vb_int {
            data = data + 0x10;
        }
        if self.enable_hb_int {
            data = data + 0x08;
        }
        data
    }

    pub fn set(&mut self, v: u8)
        ensures
            *final(self) == old(self).stored(v),
    {
        self.enable_ly_int = v & 0x40 != 0;
        self.enable_oam_int = v & 0x20 != 0;
        self.enable_vb_int = v & 0x10 != 0;
        self.enable_hb_int = v & 0x08 != 0;
    }
}

/// A palette index register (BGPI at 0xFF68, OBPI at 0xFF6A).
#[derive(Clone, Copy, PartialEq, Eq, Structural, Debug)]
pub struct BGPI {
    /// The index (0 to 63) of the palette byte that the data port shows.
    pub i: u8,
    /// Whether a store to the data port moves the index on.
    pub auto_inc: bool,
}

/// The sprite palette index register has the same layout.
pub type OBPI = BGPI;

impl BGPI {
    pub fn power_up() -> (r: Self)
        ensures
            r == (BGPI { i: 0, auto_inc: false }),
    {
        BGPI { i: 0x00, auto_inc: false }
    }

    /// The value the register reads as: the index, with bit 7 telling
    /// auto-increment.
    pub open spec fn value(self) -> u8 {
        (self.i % 64 + (if self.auto_inc {
            0x80int
        } else {
            0
        })) as u8
    }

    pub open spec fn stored(v: u8) -> BGPI {
        BGPI { auto_inc: v >= 0x80, i: v % 64 }
    }

    /// The register after a store to the data port: with auto-increment
    /// the index moves on by one, modulo 64.
    pub open spec fn increased(self) -> BGPI {
        if self.auto_inc {
            BGPI { i: ((self.i % 64 + 1) % 64) as u8, ..self }
        } else {
            self
        }
    }

    pub fn get(&self) -> (r: u8)
        ensures
            r == self.value(),
    {
        let a: u8 = if self.auto_inc { 0x80 } else { 0x00 };
        self.i % 64 + a
    }

    pub fn set(&mut self, v: u8)
        ensures
            *final(self) == Self::stored(v),
    {
        self.auto_inc = v >= 0x80;
        self.i = v % 64;
    }

    pub fn increase(&mut self)
        ensures
            *final(self) == old(self).increased(),
    {
        if self.auto_inc {
            self.i = (self.i % 64 + 1) % 64;
        }
    }
}

/// The attributes of a sprite or, on the colour model, of a background
/// tile.
#[derive(Clone, Copy, PartialEq, Eq, Structural, Debug)]
pub struct Attr {
    /// Bits 0 to 2: the colour palette.
    pub cbg_pal_num: usize,
    /// Bit 3: the tile data is in VRAM bank 1.
    pub bank: bool,
    /// Bit 4: the monochrome sprite palette.
    pub pal_num: usize,
    /// Bit 5: the tile is mirrored horizontally.
    pub flip_x: bool,
    /// Bit 6: the tile is mirrored vertically.
    pub flip_y: bool,
    /// Bit 7: the background goes over the sprite.
    pub bw_over_obj: bool,
}

impl Attr {
    pub open spec fn of(v: u8) -> Attr {
        Attr {
            cbg_pal_num: (v % 8) as usize,
            bank: v / 8 % 2 == 1,
            pal_num: (v / 16 % 2) as usize,
            flip_x: v / 32 % 2 == 1,
            flip_y: v / 64 % 2 == 1,
            bw_over_obj: v >= 128,
        }
    }

    pub fn from(v: u8) -> (r: Self)
        ensures
            r == Self::of(v),
    {
        Attr {
            cbg_pal_num: (v % 8) as usize,
            bank: v / 8 % 2 == 1,
            pal_num: (v / 16 % 2) as usize,
            flip_x: v / 32 % 2 == 1,
            flip_y: v / 64 % 2 == 1,
            bw_over_obj: v >= 128,
        }
    }
}

/// The red, green and blue parts (five bits each) of the colour whose low
/// byte is `lo` and whose high byte is `hi`.
pub open spec fn rgb555(lo: u8, hi: u8) -> (u8, u8, u8) {
    ((lo % 32) as u8, (lo / 32 + hi % 4 * 8) as u8, (hi / 4 % 32) as u8)
}

/// The byte a palette memory keeps when `v` is stored at index `i`: the
/// second byte of a colour has no bit 7.
pub open spec fn palette_byte(i: u8, v: u8) -> u8 {
    if i % 2 == 1 {
        v % 128
    } else {
        v
    }
}

/// A colour palette memory: eight palettes of four colours, each colour
/// fifteen bits of red, green and blue in two bytes, low byte first.
pub struct PaletteData {
    pub data: [u8; 64],
}

impl PaletteData {
    pub fn power_up() -> (r: Self)
        ensures
            r.data@ == Seq::new(64, |i: int| 0u8),
    {
        let r = PaletteData { data: [0;64] };
        assert(r.data@ =~= Seq::new(64, |i: int| 0u8));
        r
    }

    /// The byte at index `i` (taken modulo 64).
    pub fn get(&self, i: u8) -> (r: u8)
        ensures
            r == self.data@[(i % 64) as int],
    {
        self.data[(i % 64) as usize]
    }

    /// Stores `v` at index `i` (taken modulo 64).
    pub fn set(&mut self, i: u8, v: u8)
        ensures
            final(self).data@ == old(self).data@.update((i % 64) as int, palette_byte(i, v)),
    {
        self.data[(i % 64) as usize] = if i % 2 == 1 { v % 128 } else { v };
    }

    /// The colour `c` of palette `p`.
    pub fn color(&self, p: usize, c: usize) -> (r: (u8, u8, u8))
        requires
            p < 8,
            c < 4,
        ensures
            r == rgb555(self.data@[p * 8 + c * 2], self.data@[p * 8 + c * 2 + 1]),
    {
        let lo = self.data[p * 8 + c * 2];
        let hi = self.data[p * 8 + c * 2 + 1];
        (lo % 32, lo / 32 + hi % 4 * 8, hi / 4 % 32)
    }
}

/// The pixel pipeline: video RAM, sprite attribute memory, the LCD
/// registers, the palettes and the framebuffer.
pub struct GPU {
    /// The framebuffer.
    pub data: [u8; FRAME_BYTES],
    pub term: Term,
    /// Whether mode 0 was entered during the last call of `next`.
    pub h_blank: bool,
    /// Whether a frame has been completed; the host clears it.
    pub v_blank: bool,
    pub lcdc: LCDC,
    pub lcds: LCDS,
    pub scy: u8,
    pub scx: u8,
    pub wy: u8,
    pub wx: u8,
    pub ly: u8,
    pub lyc: u8,
    pub bgp: u8,
    pub obp0: u8,
    pub obp1: u8,
    pub bgpi: BGPI,
    pub bgpd: PaletteData,
    pub obpi: OBPI,
    pub obpd: PaletteData,
    /// Both banks of video RAM, bank 0 first.
    pub ram: [u8; 0x4000],
    /// The bank (0 or 1) seen at 0x8000 to 0x9FFF.
    pub vbk: u8,
    pub oam: [u8; 0xa0],
    /// The dot within the scanline (0 to 455).
    pub dots: u32,
}

/// The state of the pixel pipeline as a mathematical value.
pub struct GpuView {
    pub data: Seq<u8>,
    pub term: Term,
    pub h_blank: bool,
    pub v_blank: bool,
    pub lcdc: LCDC,
    pub lcds: LCDS,
    pub scy: u8,
    pub scx: u8,
    pub wy: u8,
    pub wx: u8,
    pub ly: u8,
    pub lyc: u8,
    pub bgp: u8,
    pub obp0: u8,
    pub obp1: u8,
    pub bgpi: BGPI,
    pub bgpd: Seq<u8>,
    pub obpi: OBPI,
    pub obpd: Seq<u8>,
    pub ram: Seq<u8>,
    pub vbk: u8,
    pub oam: Seq<u8>,
    pub dots: u32,
}

impl View for GPU {
    type V = GpuView;

    open spec fn view(&self) -> GpuView {
        GpuView {
            data: self.data@,
            term: self.term,
            h_blank: self.h_blank,
            v_blank: self.v_blank,
            lcdc: self.lcdc,
            lcds: self.lcds,
            scy: self.scy,
            scx: self.scx,
            wy: self.wy,
            wx: self.wx,
            ly: self.ly,
            lyc: self.lyc,
            bgp: self.bgp,
            obp0: self.obp0,
            obp1: self.obp1,
            bgpi: self.bgpi,
            bgpd: self.bgpd.data@,
            obpi: self.obpi,
            obpd: self.obpd.data@,
            ram: self.ram@,
            vbk: self.vbk,
            oam: self.oam@,
            dots: self.dots,
        }
    }
}

/// The request register with the bit of `flag` raised.
pub open spec fn raised(i: Intf, flag: INTFlag) -> Intf {
    Intf { data: i.data | flag.mask() }
}

/// The request register with the bit of `flag` raised if `on` holds.
pub open spec fn raised_if(i: Intf, on: bool, flag: INTFlag) -> Intf {
    if on {
        raised(i, flag)
    } else {
        i
    }
}

impl GpuView {
    /// The pipeline at power-up: a white framebuffer, empty memories, LCDC
    /// at 0x48 and every other register at 0.
    pub open spec fn cold(term: Term) -> GpuView {
        GpuView {
            data: Seq::new(FRAME_BYTES as nat, |i: int| 0xffu8),
            term,
            h_blank: false,
            v_blank: false,
            lcdc: LCDC { data: 0b0100_1000 },
            lcds: LCDS {
                enable_ly_int: false,
                enable_oam_int: false,
                enable_vb_int: false,
                enable_hb_int: false,
                mode: GPUMode::HBlank,
            },
            scy: 0,
            scx: 0,
            wy: 0,
            wx: 0,
            ly: 0,
            lyc: 0,
            bgp: 0,
            obp0: 0,
            obp1: 0,
            bgpi: BGPI { i: 0, auto_inc: false },
            bgpd: Seq::new(64, |i: int| 0u8),
            obpi: BGPI { i: 0, auto_inc: false },
            obpd: Seq::new(64, |i: int| 0u8),
            ram: Seq::new(0x4000, |i: int| 0u8),
            vbk: 0,
            oam: Seq::new(0xa0, |i: int| 0u8),
            dots: 0,
        }
    }

    /// Whether this is the colour model.
    pub open spec fn is_cgb(self) -> bool {
        self.term == Term::GBC
    }

    /// The index into video RAM of address `a` in the bank that is seen.
    pub open spec fn vram_index(self, a: u16) -> int {
        if self.vbk % 2 == 0 {
            a - 0x8000
        } else {
            a - 0x6000
        }
    }

    /// The pipeline as switching the display off leaves it: line 0, dot 0,
    /// mode 0, a white framebuffer, and a frame reported.
    pub open spec fn reset(self) -> GpuView {
        GpuView {
            dots: 0,
            ly: 0,
            lcds: LCDS { mode: GPUMode::HBlank, ..self.lcds },
            data: Seq::new(FRAME_BYTES as nat, |i: int| 0xffu8),
            v_blank: true,
            ..self
        }
    }

    /// The mode that line `ly` and dot `dots` call for: mode 1 on the lines
    /// 144 to 153; on the others mode 2 for the dots 0 to 79, mode 3 for 80
    /// to 251, and mode 0 from 252 on.
    pub open spec fn mode_at(ly: u8, dots: u32) -> GPUMode {
        if ly >= 144 {
            GPUMode::VBlank
        } else if dots < 80 {
            GPUMode::SearchOAM
        } else if dots < 252 {
            GPUMode::Tran2Driver
        } else {
            GPUMode::HBlank
        }
    }

    /// The pipeline one dot later, with the interrupt requests it raises.
    ///
    /// A scanline lasts 456 dots and a frame 154 lines. At the end of a
    /// line LY moves on, and the STAT interrupt is requested if LY now
    /// equals LYC and that source is enabled. On a change of mode: mode 1
    /// reports a frame and requests the v-blank interrupt; mode 0 reports
    /// an h-blank and renders the line; modes 0, 1 and 2 request the STAT
    /// interrupt if their source is enabled.
    pub open spec fn ticked(self, i: Intf) -> (GpuView, Intf) {
        let d = self.dots % 456 + 1;
        let line_end = d == 456;
        let dots = (d % 456) as u32;
        let ly = if line_end {
            ((self.ly % 154 + 1) % 154) as u8
        } else {
            self.ly
        };
        let i1 = raised_if(i, line_end && self.lcds.enable_ly_int && self.lyc == ly, INTFlag::LCDStat);
        let mode = Self::mode_at(ly, dots);
        let moved = GpuView { dots, ly, lcds: LCDS { mode, ..self.lcds }, ..self };
        if mode == self.lcds.mode {
            (moved, i1)
        } else if mode == GPUMode::VBlank {
            (
                GpuView { v_blank: true, ..moved },
                raised_if(raised(i1, INTFlag::VBlank), self.lcds.enable_vb_int, INTFlag::LCDStat),
            )
        } else if mode == GPUMode::SearchOAM {
            (moved, raised_if(i1, self.lcds.enable_oam_int, INTFlag::LCDStat))
        } else if mode == GPUMode::Tran2Driver {
            (moved, i1)
        } else {
            (
                rendered(GpuView { h_blank: true, ..moved }),
                raised_if(i1, self.lcds.enable_hb_int, INTFlag::LCDStat),
            )
        }
    }

    /// The pipeline `n` dots later.
    pub open spec fn run(self, i: Intf, n: nat) -> (GpuView, Intf)
        decreases n,
    {
        if n == 0 {
            (self, i)
        } else {
            let (g, j) = self.run(i, (n - 1) as nat);
            g.ticked(j)
        }
    }

    /// The pipeline after `cycles` master-clock ticks. With the display off
    /// nothing happens; else the h-blank report is cleared and the dots
    /// pass one by one.
    pub open spec fn advanced(self, i: Intf, cycles: u32) -> (GpuView, Intf) {
        if !self.lcdc.has(0x80) {
            (self, i)
        } else {
            (GpuView { h_blank: false, ..self }).run(i, cycles as nat)
        }
    }
}

impl GPU {
    pub fn power_up(term: Term) -> (r: Self)
        ensures
            r@ == GpuView::cold(term),
    {
        let r = GPU {
            data: white_frame(),
            term,
            h_blank: false,
            v_blank: false,
            lcdc: LCDC::power_up(),
            lcds: LCDS::power_up(),
            scy: 0,
            scx: 0,
            wy: 0,
            wx: 0,
            ly: 0,
            lyc: 0,
            bgp: 0,
            obp0: 0,
            obp1: 0,
            bgpi: BGPI::power_up(),
            bgpd: PaletteData::power_up(),
            obpi: BGPI::power_up(),
            obpd: PaletteData::power_up(),
            ram: [0;0x4000],
            vbk: 0,
            oam: [0;0xa0],
            dots: 0,
        };
        assert(r@.ram =~= Seq::new(0x4000, |i: int| 0u8));
        assert(r@.oam =~= Seq::new(0xa0, |i: int| 0u8));
        r
    }

    /// The byte at `addr` in the video RAM bank that is seen.
    pub fn get_vram(&self, addr: u16) -> (r: u8)
        requires
            0x8000 <= addr <= 0x9fff,
        ensures
            r == self@.ram[self@.vram_index(addr)],
    {
        if self.vbk % 2 == 0 {
            self.ram[addr as usize - 0x8000]
        } else {
            self.ram[addr as usize - 0x6000]
        }
    }

    /// The byte at `addr` in bank 0 of video RAM; 0 outside of it.
    pub fn get_ram0(&self, addr: u16) -> (r: u8)
        ensures
            r == crate::render::vram0(self@, addr),
    {
        if 0x8000 <= addr && addr <= 0x9fff {
            self.ram[addr as usize - 0x8000]
        } else {
            0x00
        }
    }

    /// The byte at `addr` in bank 1 of video RAM; 0 outside of it.
    pub fn get_ram1(&self, addr: u16) -> (r: u8)
        ensures
            r == crate::render::vram1(self@, addr),
    {
        if 0x8000 <= addr && addr <= 0x9fff {
            self.ram[addr as usize - 0x6000]
        } else {
            0x00
        }
    }

    pub fn set_vram(&mut self, addr: u16, v: u8)
        requires
            0x8000 <= addr <= 0x9fff,
        ensures
            final(self)@ == (GpuView {
                ram: old(self)@.ram.update(old(self)@.vram_index(addr), v),
                ..old(self)@
            }),
    {
        if self.vbk % 2 == 0 {
            self.ram[addr as usize - 0x8000] = v;
        } else {
            self.ram[addr as usize - 0x6000] = v;
        }
    }

    pub fn is_cgb_mode(&self) -> (b: bool)
        ensures
            b == self@.is_cgb(),
    {
        self.term == Term::GBC
    }

    /// Clears the pipeline when the display is switched off.
    pub fn reset(&mut self)
        ensures
            final(self)@ == old(self)@.reset(),
    {
        self.dots = 0;
        self.ly = 0;
        self.lcds.mode = GPUMode::HBlank;
        self.data = white_frame();
        self.v_blank = true;
    }

    /// Moves the pipeline on by one dot.
    pub fn tick(&mut self, intf: &mut Intf)
        ensures
            (final(self)@, *final(intf)) == old(self)@.ticked(*old(intf)),
    {
        let d = self.dots % 456 + 1;
        let line_end = d == 456;
        self.dots = d % 456;
        if line_end {
            self.ly = (self.ly % 154 + 1) % 154;
            if self.lcds.enable_ly_int && self.lyc == self.ly {
                intf.hi(INTFlag::LCDStat);
            }
        }
        let mode = if self.ly >= 144 {
            GPUMode::VBlank
        } else if self.dots < 80 {
            GPUMode::SearchOAM
        } else if self.dots < 252 {
            GPUMode::Tran2Driver
        } else {
            GPUMode::HBlank
        };
        if mode == self.lcds.mode {
            return ;
        }
        self.lcds.mode = mode;
        match mode {
            GPUMode::VBlank => {
                self.v_blank = true;
                intf.hi(INTFlag::VBlank);
                if self.lcds.enable_vb_int {
                    intf.hi(INTFlag::LCDStat);
                }
            },
            GPUMode::SearchOAM => {
                if self.lcds.enable_oam_int {
                    intf.hi(INTFlag::LCDStat);
                }
            },
            GPUMode::Tran2Driver => {},
            GPUMode::HBlank => {
                self.h_blank = true;
                if self.lcds.enable_hb_int {
                    intf.hi(INTFlag::LCDStat);
                }
                draw_line(self);
            },
        }
    }

    /// Drives the pipeline by `cycles` master-clock ticks.
    pub fn next(&mut self, cycles: u32, intf: &mut Intf)
        ensures
            (final(self)@, *final(intf)) == old(self)@.advanced(*old(intf), cycles),
    {
        if !self.lcdc.lcd_enable() {
            return ;
        }
        self.h_blank = false;
        let mut n: u32 = 0;
        while n < cycles
            invariant
                n <= cycles,
                (self@, *intf) == (GpuView { h_blank: false, ..old(self)@ }).run(
                    *old(intf),
                    n as nat,
                ),
            decreases cycles - n,
        {
            self.tick(intf);
            n = n + 1;
        }
    }
}

impl Memory for GPU {
    open spec fn read(s: GpuView, a: u16) -> u8 {
        if 0x8000 <= a <= 0x9fff {
            s.ram[s.vram_index(a)]
        } else if 0xfe00 <= a <= 0xfe9f {
            s.oam[a - 0xfe00]
        } else if a == 0xff40 {
            s.lcdc.data
        } else if a == 0xff41 {
            s.lcds.value()
        } else if a == 0xff42 {
            s.scy
        } else if a == 0xff43 {
            s.scx
        } else if a == 0xff44 {
            s.ly
        } else if a == 0xff45 {
            s.lyc
        } else if a == 0xff47 {
            s.bgp
        } else if a == 0xff48 {
            s.obp0
        } else if a == 0xff49 {
            s.obp1
        } else if a == 0xff4a {
            s.wy
        } else if a == 0xff4b {
            s.wx
        } else if a == 0xff4f {
            (0xfe + s.vbk % 2) as u8
        } else if a == 0xff68 {
            s.bgpi.value()
        } else if a == 0xff69 {
            s.bgpd[(s.bgpi.i % 64) as int]
        } else if a == 0xff6a {
            s.obpi.value()
        } else if a == 0xff6b {
            s.obpd[(s.obpi.i % 64) as int]
        } else {
            0
        }
    }

    /// A store that clears bit 7 of LCDC resets the pipeline. LY is
    /// read-only. A store to a palette data port goes to the byte the index
    /// register points at, and moves the index on if it is set to
    /// auto-increment.
    open spec fn written(s: GpuView, a: u16, v: u8) -> GpuView {
        if 0x8000 <= a <= 0x9fff {
            GpuView { ram: s.ram.update(s.vram_index(a), v), ..s }
        } else if 0xfe00 <= a <= 0xfe9f {
            GpuView { oam: s.oam.update(a - 0xfe00, v), ..s }
        } else if a == 0xff40 {
            if v & 0x80 != 0 {
                GpuView { lcdc: LCDC { data: v }, ..s }
            } else {
                (GpuView { lcdc: LCDC { data: v }, ..s }).reset()
            }
        } else if a == 0xff41 {
            GpuView { lcds: s.lcds.stored(v), ..s }
        } else if a == 0xff42 {
            GpuView { scy: v, ..s }
        } else if a == 0xff43 {
            GpuView { scx: v, ..s }
        } else if a == 0xff45 {
            GpuView { lyc: v, ..s }
        } else if a == 0xff47 {
            GpuView { bgp: v, ..s }
        } else if a == 0xff48 {
            GpuView { obp0: v, ..s }
        } else if a == 0xff49 {
            GpuView { obp1: v, ..s }
        } else if a == 0xff4a {
            GpuView { wy: v, ..s }
        } else if a == 0xff4b {
            GpuView { wx: v, ..s }
        } else if a == 0xff4f {
            GpuView { vbk: v % 2, ..s }
        } else if a == 0xff68 {
            GpuView { bgpi: BGPI::stored(v), ..s }
        } else if a == 0xff69 {
            GpuView {
                bgpd: s.bgpd.update((s.bgpi.i % 64) as int, palette_byte(s.bgpi.i, v)),
                bgpi: s.bgpi.increased(),
                ..s
            }
        } else if a == 0xff6a {
            GpuView { obpi: BGPI::stored(v), ..s }
        } else if a == 0xff6b {
            GpuView {
                obpd: s.obpd.update((s.obpi.i % 64) as int, palette_byte(s.obpi.i, v)),
                obpi: s.obpi.increased(),
                ..s
            }
        } else {
            s
        }
    }

    fn get(&self, a: u16) -> (r: u8) {
        if 0x8000 <= a && a <= 0x9fff {
            self.get_vram(a)
        } else if 0xfe00 <= a && a <= 0xfe9f {
            self.oam[a as usize - 0xfe00]
        } else {
            match a {
                0xff40 => self.lcdc.data,
                0xff41 => self.lcds.get(),
                0xff42 => self.scy,
                0xff43 => self.scx,
                0xff44 => self.ly,
                0xff45 => self.lyc,
                0xff47 => self.bgp,
                0xff48 => self.obp0,
                0xff49 => self.obp1,
                0xff4a => self.wy,
                0xff4b => self.wx,
                0xff4f => 0xfe + self.vbk % 2,
                0xff68 => self.bgpi.get(),
                0xff69 => self.bgpd.get(self.bgpi.i),
                0xff6a => self.obpi.get(),
                0xff6b => self.obpd.get(self.obpi.i),
                _ => 0x00,
            }
        }
    }

    fn set(&mut self, a: u16, v: u8) {
        if 0x8000 <= a && a <= 0x9fff {
            self.set_vram(a, v);
        } else if 0xfe00 <= a && a <= 0xfe9f {
            self.oam[a as usize - 0xfe00] = v;
        } else {
            match a {
                0xff40 => {
                    self.lcdc.data = v;
                    if !self.lcdc.lcd_enable() {
                        self.reset();
                    }
                },
                0xff41 => self.lcds.set(v),
                0xff42 => self.scy = v,
                0xff43 => self.scx = v,
                0xff44 => {},
                0xff45 => self.lyc = v,
                0xff47 => self.bgp = v,
                0xff48 => self.obp0 = v,
                0xff49 => self.obp1 = v,
                0xff4a => self.wy = v,
                0xff4b => self.wx = v,
                0xff4f => self.vbk = v % 2,
                0xff68 => self.bgpi.set(v),
                0xff69 => {
                    self.bgpd.set(self.bgpi.i, v);
                    self.bgpi.increase();
                },
                0xff6a => self.obpi.set(v),
                0xff6b => {
                    self.obpd.set(self.obpi.i, v);
                    self.obpi.increase();
                },
                _ => {},
            }
        }
    }
}

impl GpuView {
    /// Whether the memories have their sizes, as those of every pipeline do.
    pub open spec fn wf(self) -> bool {
        &&& self.data.len() == FRAME_BYTES
        &&& self.ram.len() == 0x4000
        &&& self.oam.len() == 0xa0
        &&& self.bgpd.len() == 64
        &&& self.obpd.len() == 64
    }

    /// The state after the first `n` bytes of `bytes` have been stored to
    /// the background palette data port, one after the other.
    pub open spec fn palette_filled(self, bytes: Seq<u8>, n: nat) -> GpuView
        decreases n,
    {
        if n == 0 {
            self
        } else {
            GPU::written(self.palette_filled(bytes, (n - 1) as nat), 0xff69, bytes[n - 1])
        }
    }
}

/// A byte stored in video RAM or in the sprite attribute table reads back.
pub proof fn lemma_video_round_trip(s: GpuView, a: u16, v: u8)
    requires
        s.wf(),
        0x8000 <= a <= 0x9fff || 0xfe00 <= a <= 0xfe9f,
    ensures
        GPU::read(GPU::written(s, a, v), a) == v,
        GPU::written(s, a, v).wf(),
{
}

proof fn lemma_palette_filled(s: GpuView, bytes: Seq<u8>, n: nat)
    requires
        s.wf(),
        bytes.len() == 64,
        s.bgpi == (BGPI { i: 0, auto_inc: true }),
        n <= 64,
    ensures
        s.palette_filled(bytes, n).bgpi == (BGPI { i: (n % 64) as u8, auto_inc: true }),
        s.palette_filled(bytes, n).wf(),
        forall|j: int|
            0 <= j < n ==> s.palette_filled(bytes, n).bgpd[j] == palette_byte(j as u8, bytes[j]),
    decreases n,
{
    if n > 0 {
        lemma_palette_filled(s, bytes, (n - 1) as nat);
    }
}

/// With auto-increment on and the index at 0, 64 bytes stored to the
/// background palette data port read back through the port, byte for byte,
/// but for bit 7 of the second byte of each colour, which the palette
/// memory does not have. The index is back at 0 afterwards.
pub proof fn lemma_palette_round_trip(s: GpuView, bytes: Seq<u8>, k: u8)
    requires
        s.wf(),
        bytes.len() == 64,
        s.bgpi == (BGPI { i: 0, auto_inc: true }),
        k < 64,
    ensures
        GPU::read(GPU::written(s.palette_filled(bytes, 64), 0xff68, k), 0xff69) == palette_byte(
            k,
            bytes[k as int],
        ),
        k % 2 == 0 || bytes[k as int] < 0x80 ==> GPU::read(
            GPU::written(s.palette_filled(bytes, 64), 0xff68, k),
            0xff69,
        ) == bytes[k as int],
        s.palette_filled(bytes, 64).bgpi.i == 0,
{
    lemma_palette_filled(s, bytes, 64);
}

proof fn lemma_tick_position(g: GpuView, j: Intf)
    requires
        g.dots < 456,
        g.ly < 154,
    ensures
        g.ticked(j).0.dots == (g.dots + 1) % 456,
        g.ticked(j).0.ly == (if g.dots == 455 {
            (g.ly + 1) % 154
        } else {
            g.ly as int
        }),
        g.ticked(j).0.lcdc == g.lcdc,
{
    let d = g.dots % 456 + 1;
    let dots = (d % 456) as u32;
    let ly = if d == 456 {
        ((g.ly % 154 + 1) % 154) as u8
    } else {
        g.ly
    };
    let mode = GpuView::mode_at(ly, dots);
    let moved = GpuView { dots, ly, lcds: LCDS { mode, ..g.lcds }, ..g };
    crate::render::lemma_rendered_frame(GpuView { h_blank: true, ..moved });
}

/// With the display on, the dot and the line `n` dots later are where the
/// 456 dots of a line and the 154 lines of a frame put them: LY goes
/// through every value from 0 to 153 in the 70224 dots of a frame.
pub proof fn lemma_run_position(s: GpuView, i: Intf, n: nat)
    requires
        s.dots < 456,
        s.ly < 154,
    ensures
        s.run(i, n).0.dots == (s.dots + n) % 456,
        s.run(i, n).0.ly == (s.ly + (s.dots + n) / 456) % 154,
        s.run(i, n).0.lcdc == s.lcdc,
    decreases n,
{
    if n > 0 {
        lemma_run_position(s, i, (n - 1) as nat);
        let (g, j) = s.run(i, (n - 1) as nat);
        lemma_tick_position(g, j);
        let a = s.dots + n - 1;
        assert(g.dots == a % 456);
        assert((a + 1) % 456 == (a % 456 + 1) % 456);
        if a % 456 + 1 == 456 {
            assert((a + 1) / 456 == a / 456 + 1);
        } else {
            assert((a + 1) / 456 == a / 456);
        }
        let q = s.ly + a / 456;
        assert((q + 1) % 154 == (q % 154 + 1) % 154);
    }
}

proof fn lemma_or_low_bits(d: u8)
    by (bit_vector)
    ensures
        (d | 1) & 0x1c == d & 0x1c,
        (d | 2) & 0x1c == d & 0x1c,
{
}

/// The pipeline requests the v-blank and the LCD-STAT interrupt and no
/// other: the request bits of the timer, the serial port and the joypad
/// are after `n` dots as they were before.
pub proof fn lemma_run_keeps_other_requests(s: GpuView, i: Intf, n: nat)
    ensures
        s.run(i, n).1.data & 0x1c == i.data & 0x1c,
    decreases n,
{
    if n > 0 {
        lemma_run_keeps_other_requests(s, i, (n - 1) as nat);
        let (g, j) = s.run(i, (n - 1) as nat);
        lemma_or_low_bits(j.data);
        lemma_or_low_bits(j.data | 1);
        lemma_or_low_bits(j.data | 2);
        lemma_or_low_bits((j.data | 2) | 1);
        assert(INTFlag::VBlank.mask() == 1 && INTFlag::LCDStat.mask() == 2);
    }
}

} // verus!
