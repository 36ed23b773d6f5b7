use vstd::prelude::*;
use crate::convention::Term;
use crate::memory::Memory;

verus! {

/// Why a ROM image is refused.
#[derive(Clone, Copy, PartialEq, Eq, Structural, Debug)]
pub enum CartridgeError {
    /// The image is shorter than the header area (0x0100 to 0x014F).
    MissingHeader,
    /// The ROM size code at 0x0148 is not one of the known codes.
    UnsupportedRomSize,
    /// The image is larger than the size its header declares.
    RomTooLarge,
    /// The mapper code at 0x0147 is not supported.
    UnsupportedMapper,
    /// The RAM size code at 0x0149 is not one of the known codes.
    UnsupportedRamSize,
    /// The header checksum at 0x014D does not match the header.
    BadHeaderChecksum,
    /// The logo at 0x0104 to 0x0133 differs from the reference.
    BadLogo,
}

/// The byte at index `i` of `s`, or 0 where `s` has none.
pub open spec fn byte_at(s: Seq<u8>, i: int) -> u8 {
    if 0 <= i < s.len() {
        s[i]
    } else {
        0
    }
}

/// `s` with the byte at index `i` replaced, or `s` itself where it has none.
pub open spec fn with_byte(s: Seq<u8>, i: int, v: u8) -> Seq<u8> {
    if 0 <= i < s.len() {
        s.update(i, v)
    } else {
        s
    }
}

pub fn load(bytes: &Vec<u8>, i: usize) -> (v: u8)
    ensures
        v == byte_at(bytes@, i as int),
{
    if i < bytes.len() {
        bytes[i]
    } else {
        0x00
    }
}

pub fn store(bytes: &mut Vec<u8>, i: usize, v: u8)
    ensures
        final(bytes)@ == with_byte(old(bytes)@, i as int, v),
{
    if i < bytes.len() {
        bytes[i] = v;
    }
}

/// A vector of `n` zero bytes.
pub fn zeros(n: usize) -> (v: Vec<u8>)
    ensures
        v@ == Seq::new(n as nat, |i: int| 0u8),
{
    let mut v: Vec<u8> = Vec::new();
    let mut i: usize = 0;
    while i < n
        invariant
            i <= n,
            v@ == Seq::new(i as nat, |k: int| 0u8),
        decreases n - i,
    {
        v.push(0);
        i = i + 1;
    }
    v
}

/// A copy of `src`.
pub fn copy_of(src: &Vec<u8>) -> (v: Vec<u8>)
    ensures
        v@ == src@,
{
    let mut v: Vec<u8> = Vec::new();
    let mut i: usize = 0;
    while i < src.len()
        invariant
            i <= src.len(),
            v@ == src@.take(i as int),
        decreases src.len() - i,
    {
        v.push(src[i]);
        i = i + 1;
    }
    v
}

/// What a cartridge asks to be persisted.
pub struct SaveData {
    /// The cartridge RAM, for the save file; `None` without a battery.
    pub ram: Option<Vec<u8>>,
    /// The real-time clock anchor as eight big-endian bytes, for its
    /// companion file; `None` without a battery-backed clock.
    pub rtc: Option<Vec<u8>>,
}

/// A component whose state outlives the session.
pub trait Stable: Memory {
    /// The RAM image to persist in state `s`, if any.
    spec fn ram_image(s: Self::V) -> Option<Seq<u8>>;

    /// The clock anchor to persist in state `s`, if any.
    spec fn rtc_image(s: Self::V) -> Option<Seq<u8>>;

    /// What is to be written to the save file and to the clock file.
    fn save(&self) -> (d: SaveData)
        ensures
            match Self::ram_image(self@) {
                Some(s) => d.ram matches Some(v) && v@ == s,
                None => d.ram is None,
            },
            match Self::rtc_image(self@) {
                Some(s) => d.rtc matches Some(v) && v@ == s,
                None => d.rtc is None,
            },
    ;
}

/// The title bytes of the header from index `i` up to `end`, ending before
/// the first zero byte.
pub open spec fn title_from(rom: Seq<u8>, i: int, end: int) -> Seq<u8>
    decreases end - i,
{
    if i >= end || byte_at(rom, i) == 0 {
        Seq::empty()
    } else {
        seq![byte_at(rom, i)] + title_from(rom, i + 1, end)
    }
}

/// Where the title field ends: a header with 0x80 at 0x0143 keeps the last
/// five bytes of the field for other uses.
pub open spec fn title_end(rom: Seq<u8>) -> int {
    if byte_at(rom, 0x0143) == 0x80 {
        0x013e
    } else {
        0x0143
    }
}

/// The model the header asks for: bit 7 of 0x0143 marks a colour program.
pub open spec fn term_of(rom: Seq<u8>) -> Term {
    if byte_at(rom, 0x0143) >= 0x80 {
        Term::GBC
    } else {
        Term::GB
    }
}

/// A cartridge: a mapper with its ROM and RAM.
pub trait Cartridge: Memory + Stable {
    /// The ROM image in state `s`.
    spec fn image(s: Self::V) -> Seq<u8>;

    fn rom(&self) -> (r: &Vec<u8>)
        ensures
            r@ == Self::image(self@),
    ;

    /// The title in the header, as its bytes.
    fn title(&self) -> (t: Vec<u8>)
        ensures
            t@ == title_from(Self::image(self@), 0x0134, title_end(Self::image(self@))),
    {
        let rom = self.rom();
        let mut buf: Vec<u8> = Vec::new();
        let ic: usize = 0x0134;
        let oc: usize = if load(rom, 0x0143) == 0x80 { 0x013e } else { 0x0143 };
        let mut i = ic;
        let mut stop = false;
        while i < oc && !stop
            invariant
                ic <= i <= oc,
                oc == title_end(rom@),
                stop ==> byte_at(rom@, i as int) == 0,
                buf@ + title_from(rom@, i as int, oc as int) == title_from(
                    rom@,
                    ic as int,
                    oc as int,
                ),
            decreases oc - i + (if stop { 0int } else { 1int }),
        {
            let v = load(rom, i);
            if v == 0 {
                stop = true;
            } else {
                assert(buf@.push(v) + title_from(rom@, i + 1, oc as int) == buf@ + (seq![v]
                    + title_from(rom@, i + 1, oc as int)));
                buf.push(v);
                i = i + 1;
            }
        }
        assert(buf@ + Seq::<u8>::empty() == buf@);
        buf
    }

    /// The model the program asks for.
    fn term(&self) -> (t: Term)
        ensures
            t == term_of(Self::image(self@)),
    {
        if load(self.rom(), 0x0143) >= 0x80 {
            Term::GBC
        } else {
            Term::GB
        }
    }
}

// ---------------------------------------------------------------------------
// Plain ROM

/// A cartridge without a mapper: up to 32 KiB of read-only ROM.
pub struct RomOnly {
    pub rom: Vec<u8>,
}

impl View for RomOnly {
    type V = Seq<u8>;

    open spec fn view(&self) -> Seq<u8> {
        self.rom@
    }
}

impl RomOnly {
    pub fn power_up(rom: Vec<u8>) -> (r: Self)
        ensures
            r@ == rom@,
    {
        RomOnly { rom }
    }
}

impl Memory for RomOnly {
    open spec fn read(s: Seq<u8>, a: u16) -> u8 {
        if a < 0x8000 {
            byte_at(s, a as int)
        } else {
            0
        }
    }

    /// Stores are ignored.
    open spec fn written(s: Seq<u8>, a: u16, v: u8) -> Seq<u8> {
        s
    }

    fn get(&self, a: u16) -> (r: u8) {
        if a < 0x8000 {
            load(&self.rom, a as usize)
        } else {
            0x00
        }
    }

    fn set(&mut self, _a: u16, _v: u8) {
    }
}

impl Stable for RomOnly {
    open spec fn ram_image(s: Seq<u8>) -> Option<Seq<u8>> {
        None
    }

    open spec fn rtc_image(s: Seq<u8>) -> Option<Seq<u8>> {
        None
    }

    fn save(&self) -> (d: SaveData) {
        SaveData { ram: None, rtc: None }
    }
}

impl Cartridge for RomOnly {
    open spec fn image(s: Seq<u8>) -> Seq<u8> {
        s
    }

    fn rom(&self) -> (r: &Vec<u8>) {
        &self.rom
    }
}

/// The state of a banked cartridge: its ROM, its RAM and the mapper's
/// registers.
pub struct Banked<R> {
    pub rom: Seq<u8>,
    pub ram: Seq<u8>,
    pub regs: R,
}

/// The RAM image to persist: the RAM where there is a battery.
pub open spec fn battery_image(ram: Seq<u8>, battery: bool) -> Option<Seq<u8>> {
    if battery {
        Some(ram)
    } else {
        None
    }
}

fn save_ram(ram: &Vec<u8>, battery: bool) -> (r: Option<Vec<u8>>)
    ensures
        match battery_image(ram@, battery) {
            Some(s) => r matches Some(v) && v@ == s,
            None => r is None,
        },
{
    if battery {
        Some(copy_of(ram))
    } else {
        None
    }
}

/// Whether a value written to a RAM-enable port enables the RAM: its low
/// nibble must be 0xA.
pub open spec fn enables_ram(v: u8) -> bool {
    v % 16 == 0x0a
}

/// The offset into the ROM of address `a` of the switchable window when
/// `bank` is selected.
pub open spec fn rom_offset(bank: int, a: u16) -> int {
    bank * 0x4000 + a - 0x4000
}

/// The offset into the RAM of address `a` of the RAM window when `bank` is
/// selected.
pub open spec fn ram_offset(bank: int, a: u16) -> int {
    bank * 0x2000 + a - 0xa000
}

// ---------------------------------------------------------------------------
// MBC1

#[derive(Clone, Copy, PartialEq, Eq, Structural, Debug)]
pub enum BankMod {
    /// The upper bits extend the ROM bank.
    Rom,
    /// The upper bits select the RAM bank.
    Ram,
}

/// The registers of an MBC1.
#[derive(Clone, Copy, PartialEq, Eq, Structural, Debug)]
pub struct Mbc1Regs {
    pub bank_mode: BankMod,
    /// The 5-bit ROM bank register; never 0 after a write to it.
    pub rom_lo: u8,
    /// The 2-bit upper-bits register.
    pub upper: u8,
    pub ram_enable: bool,
    /// Whether the RAM is battery-backed.
    pub battery: bool,
    /// Set when the RAM should be persisted.
    pub save_request: bool,
}

impl Mbc1Regs {
    /// The ROM bank seen in the switchable window.
    pub open spec fn rom_bank(self) -> int {
        match self.bank_mode {
            BankMod::Ram => self.rom_lo as int,
            BankMod::Rom => self.upper * 32 + self.rom_lo,
        }
    }

    /// The RAM bank seen in the RAM window.
    pub open spec fn ram_bank(self) -> int {
        match self.bank_mode {
            BankMod::Ram => self.upper as int,
            BankMod::Rom => 0,
        }
    }

    /// The registers after a store of `v` to the control port at `a`.
    pub open spec fn written(self, a: u16, v: u8) -> Mbc1Regs {
        if a <= 0x1fff {
            Mbc1Regs {
                ram_enable: enables_ram(v),
                save_request: self.save_request || (!enables_ram(v) && self.battery),
                ..self
            }
        } else if a <= 0x3fff {
            Mbc1Regs {
                rom_lo: if v % 32 == 0 {
                    1
                } else {
                    v % 32
                },
                ..self
            }
        } else if a <= 0x5fff {
            Mbc1Regs { upper: v % 4, ..self }
        } else if a <= 0x7fff {
            Mbc1Regs {
                bank_mode: if v % 2 == 0 {
                    BankMod::Rom
                } else {
                    BankMod::Ram
                },
                ..self
            }
        } else {
            self
        }
    }
}

pub struct Mbc1 {
    pub rom: Vec<u8>,
    pub ram: Vec<u8>,
    pub regs: Mbc1Regs,
}

impl View for Mbc1 {
    type V = Banked<Mbc1Regs>;

    open spec fn view(&self) -> Banked<Mbc1Regs> {
        Banked { rom: self.rom@, ram: self.ram@, regs: self.regs }
    }
}

impl Mbc1 {
    pub fn power_up(rom: Vec<u8>, ram: Vec<u8>, battery: bool) -> (r: Self)
        ensures
            r@.rom == rom@,
            r@.ram == ram@,
            r@.regs == (Mbc1Regs {
                bank_mode: BankMod::Rom,
                rom_lo: 1,
                upper: 0,
                ram_enable: false,
                battery,
                save_request: false,
            }),
    {
        Mbc1 {
            rom,
            ram,
            regs: Mbc1Regs {
                bank_mode: BankMod::Rom,
                rom_lo: 0x01,
                upper: 0x00,
                ram_enable: false,
                battery,
                save_request: false,
            },
        }
    }

    pub fn rom_bank(&self) -> (n: usize)
        ensures
            n == self.regs.rom_bank(),
            n < 0x4000,
    {
        match self.regs.bank_mode {
            BankMod::Ram => self.regs.rom_lo as usize,
            BankMod::Rom => (self.regs.upper as usize) * 32 + self.regs.rom_lo as usize,
        }
    }

    pub fn ram_bank(&self) -> (n: usize)
        ensures
            n == self.regs.ram_bank(),
            n <= 0xff,
    {
        match self.regs.bank_mode {
            BankMod::Ram => self.regs.upper as usize,
            BankMod::Rom => 0x00,
        }
    }
}

impl Memory for Mbc1 {
    open spec fn read(s: Banked<Mbc1Regs>, a: u16) -> u8 {
        if a <= 0x3fff {
            byte_at(s.rom, a as int)
        } else if a <= 0x7fff {
            byte_at(s.rom, rom_offset(s.regs.rom_bank(), a))
        } else if 0xa000 <= a <= 0xbfff && s.regs.ram_enable {
            byte_at(s.ram, ram_offset(s.regs.ram_bank(), a))
        } else {
            0
        }
    }

    open spec fn written(s: Banked<Mbc1Regs>, a: u16, v: u8) -> Banked<Mbc1Regs> {
        if a <= 0x7fff {
            Banked { regs: s.regs.written(a, v), ..s }
        } else if 0xa000 <= a <= 0xbfff && s.regs.ram_enable {
            Banked { ram: with_byte(s.ram, ram_offset(s.regs.ram_bank(), a), v), ..s }
        } else {
            s
        }
    }

    fn get(&self, a: u16) -> (r: u8) {
        if a <= 0x3fff {
            load(&self.rom, a as usize)
        } else if a <= 0x7fff {
            let i = self.rom_bank() * 0x4000 + a as usize - 0x4000;
            load(&self.rom, i)
        } else if 0xa000 <= a && a <= 0xbfff && self.regs.ram_enable {
            let i = self.ram_bank() * 0x2000 + a as usize - 0xa000;
            load(&self.ram, i)
        } else {
            0x00
        }
    }

    fn set(&mut self, a: u16, v: u8) {
        if a <= 0x1fff {
            self.regs.ram_enable = v % 16 == 0x0a;
            if !self.regs.ram_enable && self.regs.battery {
                self.regs.save_request = true;
            }
        } else if a <= 0x3fff {
            let n = v % 32;
            self.regs.rom_lo = if n == 0x00 { 0x01 } else { n };
        } else if a <= 0x5fff {
            self.regs.upper = v % 4;
        } else if a <= 0x7fff {
            self.regs.bank_mode = if v % 2 == 0 { BankMod::Rom } else { BankMod::Ram };
        } else if 0xa000 <= a && a <= 0xbfff && self.regs.ram_enable {
            let i = self.ram_bank() * 0x2000 + a as usize - 0xa000;
            store(&mut self.ram, i, v);
        }
    }
}

impl Stable for Mbc1 {
    open spec fn ram_image(s: Banked<Mbc1Regs>) -> Option<Seq<u8>> {
        battery_image(s.ram, s.regs.battery)
    }

    open spec fn rtc_image(s: Banked<Mbc1Regs>) -> Option<Seq<u8>> {
        None
    }

    fn save(&self) -> (d: SaveData) {
        SaveData { ram: save_ram(&self.ram, self.regs.battery), rtc: None }
    }
}

impl Cartridge for Mbc1 {
    open spec fn image(s: Banked<Mbc1Regs>) -> Seq<u8> {
        s.rom
    }

    fn rom(&self) -> (r: &Vec<u8>) {
        &self.rom
    }
}

/// After any store to the ROM bank port of an MBC1, the bank seen in the
/// switchable window is never one of 0x00, 0x20, 0x40 and 0x60: a written 0
/// selects 1, so that with upper bits 1 the bank is 0x21 and not 0x20.
pub proof fn lemma_mbc1_bank_zero_substitution(s: Banked<Mbc1Regs>, a: u16, v: u8)
    requires
        0x2000 <= a <= 0x3fff,
    ensures
        Mbc1::written(s, a, v).regs.rom_bank() % 32 != 0,
        v % 32 == 0 ==> Mbc1::written(s, a, v).regs.rom_lo == 1,
        v % 32 != 0 ==> Mbc1::written(s, a, v).regs.rom_lo == v % 32,
        Mbc1::written(s, a, v).regs.upper == s.regs.upper,
{
}

/// A byte stored in enabled cartridge RAM reads back where the RAM has a
/// byte for the address; a store to the ROM windows leaves ROM reads as
/// they were, whatever the bank registers become.
pub proof fn lemma_mbc1_round_trip(s: Banked<Mbc1Regs>, a: u16, v: u8)
    ensures
        0xa000 <= a <= 0xbfff && s.regs.ram_enable && ram_offset(s.regs.ram_bank(), a)
            < s.ram.len() ==> Mbc1::read(Mbc1::written(s, a, v), a) == v,
        0xa000 <= a <= 0xbfff && !s.regs.ram_enable ==> Mbc1::written(s, a, v) == s
            && Mbc1::read(s, a) == 0,
        Mbc1::written(s, a, v).rom == s.rom,
        a <= 0x3fff ==> Mbc1::read(Mbc1::written(s, a, v), a) == Mbc1::read(s, a),
{
}

// ---------------------------------------------------------------------------
// MBC2

/// The registers of an MBC2.
#[derive(Clone, Copy, PartialEq, Eq, Structural, Debug)]
pub struct Mbc2Regs {
    /// The 4-bit ROM bank register.
    pub rom_bank: u8,
    pub ram_enable: bool,
    pub battery: bool,
}

impl Mbc2Regs {
    /// The registers after a store of `v` to the control port at `a`: bit 8
    /// of the address tells the RAM-enable port (clear, below 0x2000) from
    /// the ROM bank port (set, from 0x2000 to 0x3FFF).
    pub open spec fn written(self, a: u16, v: u8) -> Mbc2Regs {
        if a <= 0x1fff && a / 256 % 2 == 0 {
            Mbc2Regs { ram_enable: v % 16 == 0x0a, ..self }
        } else if 0x2000 <= a <= 0x3fff && a / 256 % 2 == 1 {
            Mbc2Regs { rom_bank: v % 16, ..self }
        } else {
            self
        }
    }
}

/// An MBC2: up to 16 ROM banks and 512 half-bytes of RAM inside the mapper.
pub struct Mbc2 {
    pub rom: Vec<u8>,
    pub ram: Vec<u8>,
    pub regs: Mbc2Regs,
}

impl View for Mbc2 {
    type V = Banked<Mbc2Regs>;

    open spec fn view(&self) -> Banked<Mbc2Regs> {
        Banked { rom: self.rom@, ram: self.ram@, regs: self.regs }
    }
}

impl Mbc2 {
    pub fn power_up(rom: Vec<u8>, ram: Vec<u8>, battery: bool) -> (r: Self)
        ensures
            r@.rom == rom@,
            r@.ram == ram@,
            r@.regs == (Mbc2Regs { rom_bank: 1, ram_enable: false, battery }),
    {
        Mbc2 { rom, ram, regs: Mbc2Regs { rom_bank: 1, ram_enable: false, battery } }
    }
}

impl Memory for Mbc2 {
    open spec fn read(s: Banked<Mbc2Regs>, a: u16) -> u8 {
        if a <= 0x3fff {
            byte_at(s.rom, a as int)
        } else if a <= 0x7fff {
            byte_at(s.rom, rom_offset(s.regs.rom_bank as int, a))
        } else if 0xa000 <= a <= 0xa1ff && s.regs.ram_enable {
            byte_at(s.ram, a - 0xa000)
        } else {
            0
        }
    }

    /// Only the low nibble of a byte stored in RAM is kept.
    open spec fn written(s: Banked<Mbc2Regs>, a: u16, v: u8) -> Banked<Mbc2Regs> {
        if a <= 0x7fff {
            Banked { regs: s.regs.written(a, v), ..s }
        } else if 0xa000 <= a <= 0xa1ff && s.regs.ram_enable {
            Banked { ram: with_byte(s.ram, a - 0xa000, v % 16), ..s }
        } else {
            s
        }
    }

    fn get(&self, a: u16) -> (r: u8) {
        if a <= 0x3fff {
            load(&self.rom, a as usize)
        } else if a <= 0x7fff {
            let i = (self.regs.rom_bank as usize) * 0x4000 + a as usize - 0x4000;
            load(&self.rom, i)
        } else if 0xa000 <= a && a <= 0xa1ff && self.regs.ram_enable {
            load(&self.ram, (a - 0xa000) as usize)
        } else {
            0x00
        }
    }

    fn set(&mut self, a: u16, b: u8) {
        let v = b % 16;
        if a <= 0x1fff {
            if a / 256 % 2 == 0 {
                self.regs.ram_enable = v == 0x0a;
            }
        } else if a <= 0x3fff {
            if a / 256 % 2 == 1 {
                self.regs.rom_bank = v;
            }
        } else if 0xa000 <= a && a <= 0xa1ff && self.regs.ram_enable {
            store(&mut self.ram, (a - 0xa000) as usize, v);
        }
    }
}

impl Stable for Mbc2 {
    open spec fn ram_image(s: Banked<Mbc2Regs>) -> Option<Seq<u8>> {
        battery_image(s.ram, s.regs.battery)
    }

    open spec fn rtc_image(s: Banked<Mbc2Regs>) -> Option<Seq<u8>> {
        None
    }

    fn save(&self) -> (d: SaveData) {
        SaveData { ram: save_ram(&self.ram, self.regs.battery), rtc: None }
    }
}

impl Cartridge for Mbc2 {
    open spec fn image(s: Banked<Mbc2Regs>) -> Seq<u8> {
        s.rom
    }

    fn rom(&self) -> (r: &Vec<u8>) {
        &self.rom
    }
}

// ---------------------------------------------------------------------------
// MBC3 and its real-time clock

/// The eight big-endian bytes of `z`.
pub open spec fn be_bytes(z: u64) -> Seq<u8> {
    seq![
        (z / 0x100_0000_0000_0000 % 256) as u8,
        (z / 0x1_0000_0000_0000 % 256) as u8,
        (z / 0x100_0000_0000 % 256) as u8,
        (z / 0x1_0000_0000 % 256) as u8,
        (z / 0x100_0000 % 256) as u8,
        (z / 0x1_0000 % 256) as u8,
        (z / 0x100 % 256) as u8,
        (z % 256) as u8,
    ]
}

/// The number that eight big-endian bytes stand for.
pub open spec fn be_value(s: Seq<u8>) -> int {
    s[0] * 0x100_0000_0000_0000 + s[1] * 0x1_0000_0000_0000 + s[2] * 0x100_0000_0000 + s[3]
        * 0x1_0000_0000 + s[4] * 0x100_0000 + s[5] * 0x1_0000 + s[6] * 0x100 + s[7]
}

/// The clock anchor a companion file holds: its eight bytes read as a
/// big-endian number, or nothing if the file has another length.
pub open spec fn anchor_of(s: Seq<u8>) -> Option<u64> {
    if s.len() == 8 {
        Some(be_value(s) as u64)
    } else {
        None
    }
}

/// Reads the clock anchor from the bytes of its companion file.
pub fn rtc_anchor_from_bytes(bytes: &Vec<u8>) -> (r: Option<u64>)
    ensures
        r == anchor_of(bytes@),
{
    if bytes.len() != 8 {
        return None;
    }
    let mut z: u64 = 0;
    let mut i: usize = 0;
    let ghost s = bytes@;
    z = bytes[0] as u64;
    z = z * 256 + bytes[1] as u64;
    z = z * 256 + bytes[2] as u64;
    z = z * 256 + bytes[3] as u64;
    z = z * 256 + bytes[4] as u64;
    z = z * 256 + bytes[5] as u64;
    z = z * 256 + bytes[6] as u64;
    z = z * 256 + bytes[7] as u64;
    Some(z)
}

/// Writes the clock anchor as the bytes of its companion file.
pub fn rtc_anchor_to_bytes(z: u64) -> (v: Vec<u8>)
    ensures
        v@ == be_bytes(z),
{
    let mut v: Vec<u8> = Vec::new();
    v.push((z / 0x100_0000_0000_0000 % 256) as u8);
    v.push((z / 0x1_0000_0000_0000 % 256) as u8);
    v.push((z / 0x100_0000_0000 % 256) as u8);
    v.push((z / 0x1_0000_0000 % 256) as u8);
    v.push((z / 0x100_0000 % 256) as u8);
    v.push((z / 0x1_0000 % 256) as u8);
    v.push((z / 0x100 % 256) as u8);
    v.push((z % 256) as u8);
    assert(v@ =~= be_bytes(z));
    v
}

/// An anchor written to its companion file is read back unchanged.
pub proof fn lemma_anchor_round_trip(z: u64)
    ensures
        anchor_of(be_bytes(z)) == Some(z),
{
    lemma_be_digits(z);
}

proof fn lemma_be_digits(z: u64)
    by (bit_vector)
    ensures
        (z / 0x100_0000_0000_0000 % 256) * 0x100_0000_0000_0000 + (z / 0x1_0000_0000_0000 % 256)
            * 0x1_0000_0000_0000 + (z / 0x100_0000_0000 % 256) * 0x100_0000_0000 + (z
            / 0x1_0000_0000 % 256) * 0x1_0000_0000 + (z / 0x100_0000 % 256) * 0x100_0000 + (z
            / 0x1_0000 % 256) * 0x1_0000 + (z / 0x100 % 256) * 0x100 + z % 256 == z,
{
}

/// The real-time clock of an MBC3: five registers, latched from the host's
/// wall clock, which is counted from an anchor in seconds since the epoch.
#[derive(Clone, Copy, PartialEq, Eq, Structural, Debug)]
pub struct RealTimeClock {
    pub s: u8,
    pub m: u8,
    pub h: u8,
    pub dl: u8,
    pub dh: u8,
    /// The wall-clock second at which the clock read zero.
    pub zero: u64,
    /// The wall clock as the host last reported it, in seconds.
    pub now: u64,
    /// Whether the anchor is persisted.
    pub battery: bool,
}

impl View for RealTimeClock {
    type V = RealTimeClock;

    open spec fn view(&self) -> RealTimeClock {
        *self
    }
}

impl RealTimeClock {
    /// A clock anchored at `anchor`, or at `now` where there is none.
    pub open spec fn fresh(anchor: Option<u64>, now: u64, battery: bool) -> RealTimeClock {
        RealTimeClock {
            s: 0,
            m: 0,
            h: 0,
            dl: 0,
            dh: 0,
            zero: match anchor {
                Some(z) => z,
                None => now,
            },
            now,
            battery,
        }
    }

    pub fn power_up(anchor: Option<u64>, now: u64, battery: bool) -> (r: Self)
        ensures
            r == Self::fresh(anchor, now, battery),
    {
        let zero = match anchor {
            Some(z) => z,
            None => now,
        };
        RealTimeClock { s: 0, m: 0, h: 0, dl: 0, dh: 0, zero, now, battery }
    }

    /// The seconds that have passed since the anchor.
    pub open spec fn elapsed(self) -> int {
        if self.now >= self.zero {
            self.now - self.zero
        } else {
            0
        }
    }

    /// The clock with its registers latched from the wall clock: seconds,
    /// minutes, hours and the low eight bits of the day count; in the high
    /// day register bit 0 is set from day 256 on, and bit 7 as well from
    /// day 512 on.
    pub open spec fn latched(self) -> RealTimeClock {
        let d = self.elapsed();
        let days = d / 3600 / 24;
        RealTimeClock {
            s: (d % 60) as u8,
            m: (d / 60 % 60) as u8,
            h: (d / 3600 % 24) as u8,
            dl: (days % 256) as u8,
            dh: if days < 0x100 {
                self.dh
            } else if days < 0x200 {
                self.dh | 0x01
            } else {
                self.dh | 0x81
            },
            ..self
        }
    }

    pub fn tick(&mut self)
        ensures
            *final(self) == old(self).latched(),
    {
        let d = if self.now >= self.zero { self.now - self.zero } else { 0 };
        self.s = (d % 60) as u8;
        self.m = (d / 60 % 60) as u8;
        self.h = (d / 3600 % 24) as u8;
        let days = d / 3600 / 24;
        self.dl = (days % 256) as u8;
        if days < 0x100 {
        } else if days < 0x200 {
            self.dh = self.dh | 0x01;
        } else {
            self.dh = self.dh | 0x81;
        }
    }
}

impl Memory for RealTimeClock {
    /// The registers are numbered 0x08 (seconds) to 0x0C (high day bits).
    open spec fn read(s: RealTimeClock, a: u16) -> u8 {
        if a == 0x08 {
            s.s
        } else if a == 0x09 {
            s.m
        } else if a == 0x0a {
            s.h
        } else if a == 0x0b {
            s.dl
        } else if a == 0x0c {
            s.dh
        } else {
            0
        }
    }

    open spec fn written(s: RealTimeClock, a: u16, v: u8) -> RealTimeClock {
        if a == 0x08 {
            RealTimeClock { s: v, ..s }
        } else if a == 0x09 {
            RealTimeClock { m: v, ..s }
        } else if a == 0x0a {
            RealTimeClock { h: v, ..s }
        } else if a == 0x0b {
            RealTimeClock { dl: v, ..s }
        } else if a == 0x0c {
            RealTimeClock { dh: v, ..s }
        } else {
            s
        }
    }

    fn get(&self, a: u16) -> (r: u8) {
        match a {
            0x08 => self.s,
            0x09 => self.m,
            0x0a => self.h,
            0x0b => self.dl,
            0x0c => self.dh,
            _ => 0x00,
        }
    }

    fn set(&mut self, a: u16, b: u8) {
        match a {
            0x08 => self.s = b,
            0x09 => self.m = b,
            0x0a => self.h = b,
            0x0b => self.dl = b,
            0x0c => self.dh = b,
            _ => {},
        }
    }
}

impl Stable for RealTimeClock {
    open spec fn ram_image(s: RealTimeClock) -> Option<Seq<u8>> {
        None
    }

    open spec fn rtc_image(s: RealTimeClock) -> Option<Seq<u8>> {
        if s.battery {
            Some(be_bytes(s.zero))
        } else {
            None
        }
    }

    fn save(&self) -> (d: SaveData) {
        if self.battery {
            SaveData { ram: None, rtc: Some(rtc_anchor_to_bytes(self.zero)) }
        } else {
            SaveData { ram: None, rtc: None }
        }
    }
}

/// The registers of an MBC3.
#[derive(Clone, Copy, PartialEq, Eq, Structural, Debug)]
pub struct Mbc3Regs {
    /// The 7-bit ROM bank register; never 0 after a write to it.
    pub rom_bank: u8,
    /// The RAM bank (0 to 3) or the clock register (0x08 to 0x0C) seen in
    /// the RAM window.
    pub ram_bank: u8,
    pub ram_enable: bool,
    pub rtc: RealTimeClock,
    /// The value last stored to the latch port.
    pub latch: u8,
    pub battery: bool,
    pub save_request: bool,
}

impl Mbc3Regs {
    /// The registers after a store of `v` to the control port at `a`. A
    /// store of 1 to the latch port right after a store of 0 latches the
    /// clock.
    pub open spec fn written(self, a: u16, v: u8) -> Mbc3Regs {
        if a <= 0x1fff {
            Mbc3Regs {
                ram_enable: enables_ram(v),
                save_request: self.save_request || (!enables_ram(v) && self.battery),
                ..self
            }
        } else if a <= 0x3fff {
            Mbc3Regs {
                rom_bank: if v % 128 == 0 {
                    1
                } else {
                    v % 128
                },
                ..self
            }
        } else if a <= 0x5fff {
            Mbc3Regs { ram_bank: v % 16, ..self }
        } else if a <= 0x7fff {
            Mbc3Regs {
                rtc: if self.latch == 0 && v == 1 {
                    self.rtc.latched()
                } else {
                    self.rtc
                },
                latch: v,
                ..self
            }
        } else {
            self
        }
    }
}

/// An MBC3: up to 128 ROM banks, four RAM banks and a real-time clock.
pub struct Mbc3 {
    pub rom: Vec<u8>,
    pub ram: Vec<u8>,
    pub regs: Mbc3Regs,
}

impl View for Mbc3 {
    type V = Banked<Mbc3Regs>;

    open spec fn view(&self) -> Banked<Mbc3Regs> {
        Banked { rom: self.rom@, ram: self.ram@, regs: self.regs }
    }
}

impl Mbc3 {
    pub fn power_up(rom: Vec<u8>, ram: Vec<u8>, battery: bool, rtc: RealTimeClock) -> (r: Self)
        ensures
            r@.rom == rom@,
            r@.ram == ram@,
            r@.regs == (Mbc3Regs {
                rom_bank: 1,
                ram_bank: 0,
                ram_enable: false,
                rtc,
                latch: 0xff,
                battery,
                save_request: false,
            }),
    {
        Mbc3 {
            rom,
            ram,
            regs: Mbc3Regs {
                rom_bank: 1,
                ram_bank: 0,
                ram_enable: false,
                rtc,
                latch: 0xff,
                battery,
                save_request: false,
            },
        }
    }
}

impl Memory for Mbc3 {
    open spec fn read(s: Banked<Mbc3Regs>, a: u16) -> u8 {
        if a <= 0x3fff {
            byte_at(s.rom, a as int)
        } else if a <= 0x7fff {
            byte_at(s.rom, rom_offset(s.regs.rom_bank as int, a))
        } else if 0xa000 <= a <= 0xbfff && s.regs.ram_enable {
            if s.regs.ram_bank <= 0x03 {
                byte_at(s.ram, ram_offset(s.regs.ram_bank as int, a))
            } else {
                RealTimeClock::read(s.regs.rtc, s.regs.ram_bank as u16)
            }
        } else {
            0
        }
    }

    open spec fn written(s: Banked<Mbc3Regs>, a: u16, v: u8) -> Banked<Mbc3Regs> {
        if a <= 0x7fff {
            Banked { regs: s.regs.written(a, v), ..s }
        } else if 0xa000 <= a <= 0xbfff && s.regs.ram_enable {
            if s.regs.ram_bank <= 0x03 {
                Banked { ram: with_byte(s.ram, ram_offset(s.regs.ram_bank as int, a), v), ..s }
            } else {
                Banked {
                    regs: Mbc3Regs {
                        rtc: RealTimeClock::written(s.regs.rtc, s.regs.ram_bank as u16, v),
                        ..s.regs
                    },
                    ..s
                }
            }
        } else {
            s
        }
    }

    fn get(&self, a: u16) -> (r: u8) {
        if a <= 0x3fff {
            load(&self.rom, a as usize)
        } else if a <= 0x7fff {
            let i = (self.regs.rom_bank as usize) * 0x4000 + a as usize - 0x4000;
            load(&self.rom, i)
        } else if 0xa000 <= a && a <= 0xbfff && self.regs.ram_enable {
            if self.regs.ram_bank <= 0x03 {
                let i = (self.regs.ram_bank as usize) * 0x2000 + a as usize - 0xa000;
                load(&self.ram, i)
            } else {
                self.regs.rtc.get(self.regs.ram_bank as u16)
            }
        } else {
            0x00
        }
    }

    fn set(&mut self, a: u16, b: u8) {
        if a <= 0x1fff {
            self.regs.ram_enable = b % 16 == 0x0a;
            if !self.regs.ram_enable && self.regs.battery {
                self.regs.save_request = true;
            }
        } else if a <= 0x3fff {
            let n = b % 128;
            self.regs.rom_bank = if n == 0x00 { 0x01 } else { n };
        } else if a <= 0x5fff {
            self.regs.ram_bank = b % 16;
        } else if a <= 0x7fff {
            if self.regs.latch == 0 && b == 1 {
                self.regs.rtc.tick();
            }
            self.regs.latch = b;
        } else if 0xa000 <= a && a <= 0xbfff && self.regs.ram_enable {
            if self.regs.ram_bank <= 0x03 {
                let i = (self.regs.ram_bank as usize) * 0x2000 + a as usize - 0xa000;
                store(&mut self.ram, i, b);
            } else {
                self.regs.rtc.set(self.regs.ram_bank as u16, b);
            }
        }
    }
}

impl Stable for Mbc3 {
    open spec fn ram_image(s: Banked<Mbc3Regs>) -> Option<Seq<u8>> {
        battery_image(s.ram, s.regs.battery)
    }

    open spec fn rtc_image(s: Banked<Mbc3Regs>) -> Option<Seq<u8>> {
        RealTimeClock::rtc_image(s.regs.rtc)
    }

    fn save(&self) -> (d: SaveData) {
        let clock = self.regs.rtc.save();
        SaveData { ram: save_ram(&self.ram, self.regs.battery), rtc: clock.rtc }
    }
}

impl Cartridge for Mbc3 {
    open spec fn image(s: Banked<Mbc3Regs>) -> Seq<u8> {
        s.rom
    }

    fn rom(&self) -> (r: &Vec<u8>) {
        &self.rom
    }
}

// ---------------------------------------------------------------------------
// MBC5

/// The registers of an MBC5.
#[derive(Clone, Copy, PartialEq, Eq, Structural, Debug)]
pub struct Mbc5Regs {
    /// The low eight bits of the 9-bit ROM bank.
    pub rom_lo: u8,
    /// Bit 8 of the ROM bank.
    pub rom_hi: bool,
    /// The 4-bit RAM bank.
    pub ram_bank: u8,
    pub ram_enable: bool,
    pub battery: bool,
    pub save_request: bool,
}

impl Mbc5Regs {
    /// The 9-bit ROM bank; bank 0 can be selected.
    pub open spec fn rom_bank(self) -> int {
        (if self.rom_hi {
            256int
        } else {
            0int
        }) + self.rom_lo
    }

    pub open spec fn written(self, a: u16, v: u8) -> Mbc5Regs {
        if a <= 0x1fff {
            Mbc5Regs {
                ram_enable: enables_ram(v),
                save_request: self.save_request || (!enables_ram(v) && self.battery),
                ..self
            }
        } else if a <= 0x2fff {
            Mbc5Regs { rom_lo: v, ..self }
        } else if a <= 0x3fff {
            Mbc5Regs { rom_hi: v % 2 == 1, ..self }
        } else if a <= 0x5fff {
            Mbc5Regs { ram_bank: v % 16, ..self }
        } else {
            self
        }
    }
}

/// An MBC5: up to 512 ROM banks and 16 RAM banks.
pub struct Mbc5 {
    pub rom: Vec<u8>,
    pub ram: Vec<u8>,
    pub regs: Mbc5Regs,
}

impl View for Mbc5 {
    type V = Banked<Mbc5Regs>;

    open spec fn view(&self) -> Banked<Mbc5Regs> {
        Banked { rom: self.rom@, ram: self.ram@, regs: self.regs }
    }
}

impl Mbc5 {
    pub fn power_up(rom: Vec<u8>, ram: Vec<u8>, battery: bool) -> (r: Self)
        ensures
            r@.rom == rom@,
            r@.ram == ram@,
            r@.regs == (Mbc5Regs {
                rom_lo: 1,
                rom_hi: false,
                ram_bank: 0,
                ram_enable: false,
                battery,
                save_request: false,
            }),
    {
        Mbc5 {
            rom,
            ram,
            regs: Mbc5Regs {
                rom_lo: 1,
                rom_hi: false,
                ram_bank: 0,
                ram_enable: false,
                battery,
                save_request: false,
            },
        }
    }

    fn rom_bank(&self) -> (n: usize)
        ensures
            n == self.regs.rom_bank(),
            n < 512,
    {
        (if self.regs.rom_hi { 256usize } else { 0usize }) + self.regs.rom_lo as usize
    }
}

impl Memory for Mbc5 {
    open spec fn read(s: Banked<Mbc5Regs>, a: u16) -> u8 {
        if a <= 0x3fff {
            byte_at(s.rom, a as int)
        } else if a <= 0x7fff {
            byte_at(s.rom, rom_offset(s.regs.rom_bank(), a))
        } else if 0xa000 <= a <= 0xbfff && s.regs.ram_enable {
            byte_at(s.ram, ram_offset(s.regs.ram_bank as int, a))
        } else {
            0
        }
    }

    open spec fn written(s: Banked<Mbc5Regs>, a: u16, v: u8) -> Banked<Mbc5Regs> {
        if a <= 0x7fff {
            Banked { regs: s.regs.written(a, v), ..s }
        } else if 0xa000 <= a <= 0xbfff && s.regs.ram_enable {
            Banked { ram: with_byte(s.ram, ram_offset(s.regs.ram_bank as int, a), v), ..s }
        } else {
            s
        }
    }

    fn get(&self, a: u16) -> (r: u8) {
        if a <= 0x3fff {
            load(&self.rom, a as usize)
        } else if a <= 0x7fff {
            let i = self.rom_bank() * 0x4000 + a as usize - 0x4000;
            load(&self.rom, i)
        } else if 0xa000 <= a && a <= 0xbfff && self.regs.ram_enable {
            let i = (self.regs.ram_bank as usize) * 0x2000 + a as usize - 0xa000;
            load(&self.ram, i)
        } else {
            0x00
        }
    }

    fn set(&mut self, a: u16, b: u8) {
        if a <= 0x1fff {
            self.regs.ram_enable = b % 16 == 0x0a;
            if !self.regs.ram_enable && self.regs.battery {
                self.regs.save_request = true;
            }
        } else if a <= 0x2fff {
            self.regs.rom_lo = b;
        } else if a <= 0x3fff {
            self.regs.rom_hi = b % 2 == 1;
        } else if a <= 0x5fff {
            self.regs.ram_bank = b % 16;
        } else if 0xa000 <= a && a <= 0xbfff && self.regs.ram_enable {
            let i = (self.regs.ram_bank as usize) * 0x2000 + a as usize - 0xa000;
            store(&mut self.ram, i, b);
        }
    }
}

impl Stable for Mbc5 {
    open spec fn ram_image(s: Banked<Mbc5Regs>) -> Option<Seq<u8>> {
        battery_image(s.ram, s.regs.battery)
    }

    open spec fn rtc_image(s: Banked<Mbc5Regs>) -> Option<Seq<u8>> {
        None
    }

    fn save(&self) -> (d: SaveData) {
        SaveData { ram: save_ram(&self.ram, self.regs.battery), rtc: None }
    }
}

impl Cartridge for Mbc5 {
    open spec fn image(s: Banked<Mbc5Regs>) -> Seq<u8> {
        s.rom
    }

    fn rom(&self) -> (r: &Vec<u8>) {
        &self.rom
    }
}

// ---------------------------------------------------------------------------
// The five mappers as one type

/// A cartridge of any of the five supported kinds.
pub enum Mapper {
    RomOnly(RomOnly),
    Mbc1(Mbc1),
    Mbc2(Mbc2),
    Mbc3(Mbc3),
    Mbc5(Mbc5),
}

/// The state of a cartridge of any kind.
pub enum MapperView {
    RomOnly(Seq<u8>),
    Mbc1(Banked<Mbc1Regs>),
    Mbc2(Banked<Mbc2Regs>),
    Mbc3(Banked<Mbc3Regs>),
    Mbc5(Banked<Mbc5Regs>),
}

impl View for Mapper {
    type V = MapperView;

    open spec fn view(&self) -> MapperView {
        match self {
            Mapper::RomOnly(m) => MapperView::RomOnly(m@),
            Mapper::Mbc1(m) => MapperView::Mbc1(m@),
            Mapper::Mbc2(m) => MapperView::Mbc2(m@),
            Mapper::Mbc3(m) => MapperView::Mbc3(m@),
            Mapper::Mbc5(m) => MapperView::Mbc5(m@),
        }
    }
}

impl MapperView {
    /// Whether a request to persist the RAM is pending.
    pub open spec fn save_requested(self) -> bool {
        match self {
            MapperView::RomOnly(_) => false,
            MapperView::Mbc1(s) => s.regs.save_request,
            MapperView::Mbc2(_) => false,
            MapperView::Mbc3(s) => s.regs.save_request,
            MapperView::Mbc5(s) => s.regs.save_request,
        }
    }

    /// The state with the pending request taken.
    pub open spec fn save_taken(self) -> MapperView {
        match self {
            MapperView::Mbc1(s) => MapperView::Mbc1(
                Banked { regs: Mbc1Regs { save_request: false, ..s.regs }, ..s },
            ),
            MapperView::Mbc3(s) => MapperView::Mbc3(
                Banked { regs: Mbc3Regs { save_request: false, ..s.regs }, ..s },
            ),
            MapperView::Mbc5(s) => MapperView::Mbc5(
                Banked { regs: Mbc5Regs { save_request: false, ..s.regs }, ..s },
            ),
            _ => self,
        }
    }

    /// The state after the host has reported the wall clock.
    pub open spec fn at_time(self, now: u64) -> MapperView {
        match self {
            MapperView::Mbc3(s) => MapperView::Mbc3(
                Banked {
                    regs: Mbc3Regs { rtc: RealTimeClock { now, ..s.regs.rtc }, ..s.regs },
                    ..s
                },
            ),
            _ => self,
        }
    }
}

impl Mapper {
    /// Tells whether the RAM should be persisted now, and takes the request.
    /// One is raised by every store that clears RAM-enable on a
    /// battery-backed MBC1, MBC3 or MBC5.
    pub fn take_save_request(&mut self) -> (r: bool)
        ensures
            r == old(self)@.save_requested(),
            final(self)@ == old(self)@.save_taken(),
    {
        match self {
            Mapper::Mbc1(m) => {
                let r = m.regs.save_request;
                m.regs.save_request = false;
                r
            },
            Mapper::Mbc3(m) => {
                let r = m.regs.save_request;
                m.regs.save_request = false;
                r
            },
            Mapper::Mbc5(m) => {
                let r = m.regs.save_request;
                m.regs.save_request = false;
                r
            },
            _ => false,
        }
    }

    /// Reports the host's wall clock, in seconds since the epoch, for the
    /// real-time clock to latch from.
    pub fn set_wall_clock(&mut self, now: u64)
        ensures
            final(self)@ == old(self)@.at_time(now),
    {
        match self {
            Mapper::Mbc3(m) => {
                m.regs.rtc.now = now;
            },
            _ => {},
        }
    }
}

impl Memory for Mapper {
    open spec fn read(s: MapperView, a: u16) -> u8 {
        match s {
            MapperView::RomOnly(m) => RomOnly::read(m, a),
            MapperView::Mbc1(m) => Mbc1::read(m, a),
            MapperView::Mbc2(m) => Mbc2::read(m, a),
            MapperView::Mbc3(m) => Mbc3::read(m, a),
            MapperView::Mbc5(m) => Mbc5::read(m, a),
        }
    }

    open spec fn written(s: MapperView, a: u16, v: u8) -> MapperView {
        match s {
            MapperView::RomOnly(m) => MapperView::RomOnly(RomOnly::written(m, a, v)),
            MapperView::Mbc1(m) => MapperView::Mbc1(Mbc1::written(m, a, v)),
            MapperView::Mbc2(m) => MapperView::Mbc2(Mbc2::written(m, a, v)),
            MapperView::Mbc3(m) => MapperView::Mbc3(Mbc3::written(m, a, v)),
            MapperView::Mbc5(m) => MapperView::Mbc5(Mbc5::written(m, a, v)),
        }
    }

    fn get(&self, a: u16) -> (r: u8) {
        match self {
            Mapper::RomOnly(m) => m.get(a),
            Mapper::Mbc1(m) => m.get(a),
            Mapper::Mbc2(m) => m.get(a),
            Mapper::Mbc3(m) => m.get(a),
            Mapper::Mbc5(m) => m.get(a),
        }
    }

    fn set(&mut self, a: u16, v: u8) {
        match self {
            Mapper::RomOnly(m) => m.set(a, v),
            Mapper::Mbc1(m) => m.set(a, v),
            Mapper::Mbc2(m) => m.set(a, v),
            Mapper::Mbc3(m) => m.set(a, v),
            Mapper::Mbc5(m) => m.set(a, v),
        }
    }
}

impl Stable for Mapper {
    open spec fn ram_image(s: MapperView) -> Option<Seq<u8>> {
        match s {
            MapperView::RomOnly(m) => RomOnly::ram_image(m),
            MapperView::Mbc1(m) => Mbc1::ram_image(m),
            MapperView::Mbc2(m) => Mbc2::ram_image(m),
            MapperView::Mbc3(m) => Mbc3::ram_image(m),
            MapperView::Mbc5(m) => Mbc5::ram_image(m),
        }
    }

    open spec fn rtc_image(s: MapperView) -> Option<Seq<u8>> {
        match s {
            MapperView::RomOnly(m) => RomOnly::rtc_image(m),
            MapperView::Mbc1(m) => Mbc1::rtc_image(m),
            MapperView::Mbc2(m) => Mbc2::rtc_image(m),
            MapperView::Mbc3(m) => Mbc3::rtc_image(m),
            MapperView::Mbc5(m) => Mbc5::rtc_image(m),
        }
    }

    fn save(&self) -> (d: SaveData) {
        match self {
            Mapper::RomOnly(m) => m.save(),
            Mapper::Mbc1(m) => m.save(),
            Mapper::Mbc2(m) => m.save(),
            Mapper::Mbc3(m) => m.save(),
            Mapper::Mbc5(m) => m.save(),
        }
    }
}

impl Cartridge for Mapper {
    open spec fn image(s: MapperView) -> Seq<u8> {
        match s {
            MapperView::RomOnly(m) => RomOnly::image(m),
            MapperView::Mbc1(m) => Mbc1::image(m),
            MapperView::Mbc2(m) => Mbc2::image(m),
            MapperView::Mbc3(m) => Mbc3::image(m),
            MapperView::Mbc5(m) => Mbc5::image(m),
        }
    }

    fn rom(&self) -> (r: &Vec<u8>) {
        match self {
            Mapper::RomOnly(m) => m.rom(),
            Mapper::Mbc1(m) => m.rom(),
            Mapper::Mbc2(m) => m.rom(),
            Mapper::Mbc3(m) => m.rom(),
            Mapper::Mbc5(m) => m.rom(),
        }
    }
}

// ---------------------------------------------------------------------------
// The header

/// The ROM size in bytes that size code `b` declares: 32 KiB doubled `b`
/// times for the codes 0 to 8, and 72, 80 and 96 banks of 16 KiB for the
/// codes 0x52, 0x53 and 0x54.
pub open spec fn rom_size_of(b: u8) -> Option<int> {
    if b <= 8 {
        Some(0x8000 * vstd::arithmetic::power2::pow2(b as nat) as int)
    } else if b == 0x52 {
        Some(1152 * 1024int)
    } else if b == 0x53 {
        Some(1280 * 1024int)
    } else if b == 0x54 {
        Some(1536 * 1024int)
    } else {
        None
    }
}

/// The RAM size in bytes that size code `b` declares.
pub open spec fn ram_size_of(b: u8) -> Option<int> {
    if b == 0 {
        Some(0int)
    } else if b == 1 {
        Some(2 * 1024int)
    } else if b == 2 {
        Some(8 * 1024int)
    } else if b == 3 {
        Some(32 * 1024int)
    } else if b == 4 {
        Some(128 * 1024int)
    } else if b == 5 {
        Some(64 * 1024int)
    } else {
        None
    }
}

pub fn rom_size(b: u8) -> (r: Option<usize>)
    ensures
        match rom_size_of(b) {
            Some(n) => r == Some(n as usize) && n <= 0x80_0000,
            None => r is None,
        },
{
    proof {
        vstd::arithmetic::power2::lemma2_to64();
    }
    let bank: usize = 16384;
    match b {
        0x00 => Some(bank * 2),
        0x01 => Some(bank * 4),
        0x02 => Some(bank * 8),
        0x03 => Some(bank * 16),
        0x04 => Some(bank * 32),
        0x05 => Some(bank * 64),
        0x06 => Some(bank * 128),
        0x07 => Some(bank * 256),
        0x08 => Some(bank * 512),
        0x52 => Some(bank * 72),
        0x53 => Some(bank * 80),
        0x54 => Some(bank * 96),
        _ => None,
    }
}

pub fn ram_size(b: u8) -> (r: Option<usize>)
    ensures
        match ram_size_of(b) {
            Some(n) => r == Some(n as usize),
            None => r is None,
        },
{
    match b {
        0x00 => Some(0),
        0x01 => Some(1024 * 2),
        0x02 => Some(1024 * 8),
        0x03 => Some(1024 * 32),
        0x04 => Some(1024 * 128),
        0x05 => Some(1024 * 64),
        _ => None,
    }
}

/// The 48 bytes every header carries at 0x0104 to 0x0133.
pub const NINTENDO_LOGO: [u8; 48] = [
    0xCE, 0xED, 0x66, 0x66, 0xCC, 0x0D, 0x00, 0x0B, 0x03, 0x73, 0x00, 0x83,
    0x00, 0x0C, 0x00, 0x0D, 0x00, 0x08, 0x11, 0x1F, 0x88, 0x89, 0x00, 0x0E,
    0xDC, 0xCC, 0x6E, 0xE6, 0xDD, 0xDD, 0xD9, 0x99, 0xBB, 0xBB, 0x67, 0x63,
    0x6E, 0x0E, 0xEC, 0xCC, 0xDD, 0xDC, 0x99, 0x9F, 0xBB, 0xB9, 0x33, 0x3E,
];

/// Whether the logo area of `rom` holds the reference logo.
pub open spec fn logo_matches(rom: Seq<u8>) -> bool {
    forall|i: int| 0 <= i < 48 ==> byte_at(rom, 0x0104 + i) == #[trigger] NINTENDO_LOGO[i]
}

/// Checks the logo area against the reference.
pub fn ensure_logo(rom: &Vec<u8>) -> (r: Result<(), CartridgeError>)
    ensures
        logo_matches(rom@) ==> r is Ok,
        !logo_matches(rom@) ==> r == Err::<(), CartridgeError>(CartridgeError::BadLogo),
{
    let mut i: usize = 0;
    while i < 48
        invariant
            i <= 48,
            forall|k: int| 0 <= k < i ==> byte_at(rom@, 0x0104 + k) == #[trigger] NINTENDO_LOGO[k],
        decreases 48 - i,
    {
        if load(rom, 0x0104 + i) != NINTENDO_LOGO[i] {
            return Err(CartridgeError::BadLogo);
        }
        i = i + 1;
    }
    Ok(())
}

/// The running header checksum over the first `n` bytes from 0x0134: it
/// starts at 0, and every byte is subtracted from it together with 1,
/// modulo 256.
pub open spec fn header_sum(rom: Seq<u8>, n: nat) -> u8
    decreases n,
{
    if n == 0 {
        0
    } else {
        header_sum(rom, (n - 1) as nat).wrapping_sub(byte_at(rom, 0x0134 + n - 1)).wrapping_sub(1)
    }
}

/// Whether the byte at 0x014D is the checksum of the 25 bytes before it.
pub open spec fn checksum_matches(rom: Seq<u8>) -> bool {
    byte_at(rom, 0x014d) == header_sum(rom, 25)
}

/// Checks the header checksum.
pub fn ensure_header_checksum(rom: &Vec<u8>) -> (r: Result<(), CartridgeError>)
    ensures
        checksum_matches(rom@) ==> r is Ok,
        !checksum_matches(rom@) ==> r == Err::<(), CartridgeError>(
            CartridgeError::BadHeaderChecksum,
        ),
{
    let mut v: u8 = 0;
    let mut i: usize = 0x0134;
    while i < 0x014d
        invariant
            0x0134 <= i <= 0x014d,
            v == header_sum(rom@, (i - 0x0134) as nat),
        decreases 0x014d - i,
    {
        v = v.wrapping_sub(load(rom, i)).wrapping_sub(1);
        i = i + 1;
    }
    if load(rom, 0x014d) != v {
        return Err(CartridgeError::BadHeaderChecksum);
    }
    Ok(())
}

/// The name of the cartridge kind that mapper code `ty` stands for.
pub open spec fn kind_name(ty: u8) -> Option<&'static str> {
    if ty == 0x00 {
        Some("ROM ONLY")
    } else if ty == 0x01 {
        Some("MBC1")
    } else if ty == 0x02 {
        Some("MBC1+RAM")
    } else if ty == 0x03 {
        Some("MBC1+RAM+BATTERY")
    } else if ty == 0x05 {
        Some("MBC2")
    } else if ty == 0x06 {
        Some("MBC2+BATTERY")
    } else if ty == 0x08 {
        Some("ROM+RAM")
    } else if ty == 0x09 {
        Some("ROM+RAM+BATTERY")
    } else if ty == 0x0b {
        Some("MMM01")
    } else if ty == 0x0c {
        Some("MMM01+RAM")
    } else if ty == 0x0d {
        Some("MMM01+RAM+BATTERY")
    } else if ty == 0x0f {
        Some("MBC3+TIMER+BATTERY")
    } else if ty == 0x10 {
        Some("MBC3+TIMER+RAM+BATTERY")
    } else if ty == 0x11 {
        Some("MBC3")
    } else if ty == 0x12 {
        Some("MBC3+RAM")
    } else if ty == 0x13 {
        Some("MBC3+RAM+BATTERY")
    } else if ty == 0x15 {
        Some("MBC4")
    } else if ty == 0x16 {
        Some("MBC4+RAM")
    } else if ty == 0x17 {
        Some("MBC4+RAM+BATTERY")
    } else if ty == 0x19 {
        Some("MBC5")
    } else if ty == 0x1a {
        Some("MBC5+RAM")
    } else if ty == 0x1b {
        Some("MBC5+RAM+BATTERY")
    } else if ty == 0x1c {
        Some("MBC5+RUMBLE")
    } else if ty == 0x1d {
        Some("MBC5+RUMBLE+RAM")
    } else if ty == 0x1e {
        Some("MBC5+RUMBLE+RAM+BATTERY")
    } else if ty == 0x1f {
        Some("HuC1+RAM+BATTERY")
    } else if ty == 0xfc {
        Some("POCKET CAMERA")
    } else if ty == 0xfd {
        Some("BANDAI TAMA5")
    } else if ty == 0xfe {
        Some("HuC3")
    } else {
        None
    }
}

/// The name of the cartridge kind that mapper code `ty` stands for, for
/// the codes that name one.
pub fn mbc_info(ty: u8) -> (r: Option<&'static str>)
    ensures
        r == kind_name(ty),
{
    match ty {
        0x00 => Some("ROM ONLY"),
        0x01 => Some("MBC1"),
        0x02 => Some("MBC1+RAM"),
        0x03 => Some("MBC1+RAM+BATTERY"),
        0x05 => Some("MBC2"),
        0x06 => Some("MBC2+BATTERY"),
        0x08 => Some("ROM+RAM"),
        0x09 => Some("ROM+RAM+BATTERY"),
        0x0b => Some("MMM01"),
        0x0c => Some("MMM01+RAM"),
        0x0d => Some("MMM01+RAM+BATTERY"),
        0x0f => Some("MBC3+TIMER+BATTERY"),
        0x10 => Some("MBC3+TIMER+RAM+BATTERY"),
        0x11 => Some("MBC3"),
        0x12 => Some("MBC3+RAM"),
        0x13 => Some("MBC3+RAM+BATTERY"),
        0x15 => Some("MBC4"),
        0x16 => Some("MBC4+RAM"),
        0x17 => Some("MBC4+RAM+BATTERY"),
        0x19 => Some("MBC5"),
        0x1a => Some("MBC5+RAM"),
        0x1b => Some("MBC5+RAM+BATTERY"),
        0x1c => Some("MBC5+RUMBLE"),
        0x1d => Some("MBC5+RUMBLE+RAM"),
        0x1e => Some("MBC5+RUMBLE+RAM+BATTERY"),
        0xfc => Some("POCKET CAMERA"),
        0xfd => Some("BANDAI TAMA5"),
        0xfe => Some("HuC3"),
        0x1f => Some("HuC1+RAM+BATTERY"),
        _ => None,
    }
}

/// The mapper codes this engine runs.
pub open spec fn kind_supported(ty: u8) -> bool {
    ty <= 0x03 || ty == 0x05 || ty == 0x06 || (0x0f <= ty <= 0x13) || (0x19 <= ty <= 0x1b)
}

/// The kinds whose RAM size is declared by the code at 0x0149.
pub open spec fn kind_declares_ram(ty: u8) -> bool {
    ty == 0x02 || ty == 0x03 || ty == 0x10 || ty == 0x12 || ty == 0x13 || ty == 0x1a || ty
        == 0x1b
}

/// The kinds whose RAM is battery-backed.
pub open spec fn kind_has_battery(ty: u8) -> bool {
    ty == 0x03 || ty == 0x06 || ty == 0x0f || ty == 0x10 || ty == 0x13 || ty == 0x1b
}

/// The kinds whose clock anchor is persisted.
pub open spec fn kind_keeps_clock(ty: u8) -> bool {
    ty == 0x0f || ty == 0x10
}

/// What validation says of a ROM image, the checks taken in this order:
/// the header area is there, the size code is known, the image is no
/// larger than declared, the mapper is supported, its RAM size code is
/// known, the header checksum matches, the logo matches.
pub open spec fn check_header(rom: Seq<u8>) -> Result<(), CartridgeError> {
    if rom.len() < 0x150 {
        Err(CartridgeError::MissingHeader)
    } else if rom_size_of(rom[0x0148]) is None {
        Err(CartridgeError::UnsupportedRomSize)
    } else if rom.len() > rom_size_of(rom[0x0148])->0 {
        Err(CartridgeError::RomTooLarge)
    } else if !kind_supported(rom[0x0147]) {
        Err(CartridgeError::UnsupportedMapper)
    } else if kind_declares_ram(rom[0x0147]) && ram_size_of(rom[0x0149]) is None {
        Err(CartridgeError::UnsupportedRamSize)
    } else if !checksum_matches(rom) {
        Err(CartridgeError::BadHeaderChecksum)
    } else if !logo_matches(rom) {
        Err(CartridgeError::BadLogo)
    } else {
        Ok(())
    }
}

/// The size of the RAM a cartridge of kind `ty` starts with.
pub open spec fn ram_len(ty: u8, code: u8) -> int {
    if ty == 0x05 || ty == 0x06 {
        512
    } else if kind_declares_ram(ty) {
        match ram_size_of(code) {
            Some(n) => n,
            None => 0,
        }
    } else {
        0
    }
}

/// The RAM a cartridge starts with: the save file where the kind has a
/// battery and RAM and a save file was found, else zeros.
pub open spec fn initial_ram(ty: u8, code: u8, save: Option<Seq<u8>>) -> Seq<u8> {
    if kind_has_battery(ty) && ty != 0x0f && save is Some {
        save->0
    } else {
        Seq::new(ram_len(ty, code) as nat, |i: int| 0u8)
    }
}

/// The clock an MBC3 starts with: anchored where the companion file gives
/// an anchor and the kind keeps its clock, else at the present.
pub open spec fn initial_clock(ty: u8, rtc: Option<Seq<u8>>, now: u64) -> RealTimeClock {
    RealTimeClock::fresh(
        if kind_keeps_clock(ty) && rtc is Some {
            anchor_of(rtc->0)
        } else {
            None
        },
        now,
        kind_keeps_clock(ty),
    )
}

/// The cartridge that a valid ROM image makes, as it is at power-up.
pub open spec fn fresh(rom: Seq<u8>, save: Option<Seq<u8>>, rtc: Option<Seq<u8>>, now: u64)
    -> MapperView {
    let ty = rom[0x0147];
    let ram = initial_ram(ty, rom[0x0149], save);
    let battery = kind_has_battery(ty);
    if ty == 0x00 {
        MapperView::RomOnly(rom)
    } else if ty <= 0x03 {
        MapperView::Mbc1(
            Banked {
                rom,
                ram,
                regs: Mbc1Regs {
                    bank_mode: BankMod::Rom,
                    rom_lo: 1,
                    upper: 0,
                    ram_enable: false,
                    battery,
                    save_request: false,
                },
            },
        )
    } else if ty <= 0x06 {
        MapperView::Mbc2(
            Banked { rom, ram, regs: Mbc2Regs { rom_bank: 1, ram_enable: false, battery } },
        )
    } else if ty <= 0x13 {
        MapperView::Mbc3(
            Banked {
                rom,
                ram,
                regs: Mbc3Regs {
                    rom_bank: 1,
                    ram_bank: 0,
                    ram_enable: false,
                    rtc: initial_clock(ty, rtc, now),
                    latch: 0xff,
                    battery,
                    save_request: false,
                },
            },
        )
    } else {
        MapperView::Mbc5(
            Banked {
                rom,
                ram,
                regs: Mbc5Regs {
                    rom_lo: 1,
                    rom_hi: false,
                    ram_bank: 0,
                    ram_enable: false,
                    battery,
                    save_request: false,
                },
            },
        )
    }
}

fn ram_read(save: Option<Vec<u8>>, size: usize) -> (ram: Vec<u8>)
    ensures
        ram@ == (match save {
            Some(s) => s@,
            None => Seq::new(size as nat, |i: int| 0u8),
        }),
{
    match save {
        Some(s) => s,
        None => zeros(size),
    }
}

/// Makes the cartridge of a ROM image.
///
/// `save` holds the bytes of the save file and `rtc` those of the clock's
/// companion file, where the host found them; `now` is the host's wall
/// clock in seconds since the epoch. The image is validated first, and
/// refused with the first check that fails.
pub fn power_up(rom: Vec<u8>, save: Option<Vec<u8>>, rtc: Option<Vec<u8>>, now: u64) -> (r: Result<
    Mapper,
    CartridgeError,
>)
    ensures
        match check_header(rom@) {
            Ok(_) => r matches Ok(m) && m@ == fresh(
                rom@,
                match save {
                    Some(s) => Some(s@),
                    None => None,
                },
                match rtc {
                    Some(s) => Some(s@),
                    None => None,
                },
                now,
            ),
            Err(e) => r matches Err(f) && f == e,
        },
{
    if rom.len() < 0x150 {
        return Err(CartridgeError::MissingHeader);
    }
    let rom_max = match rom_size(rom[0x0148]) {
        Some(n) => n,
        None => {
            return Err(CartridgeError::UnsupportedRomSize);
        },
    };
    if rom.len() > rom_max {
        return Err(CartridgeError::RomTooLarge);
    }
    let ty = rom[0x0147];
    let supported = ty <= 0x03 || ty == 0x05 || ty == 0x06 || (0x0f <= ty && ty <= 0x13) || (0x19
        <= ty && ty <= 0x1b);
    if !supported {
        return Err(CartridgeError::UnsupportedMapper);
    }
    let declares_ram = ty == 0x02 || ty == 0x03 || ty == 0x10 || ty == 0x12 || ty == 0x13 || ty
        == 0x1a || ty == 0x1b;
    let ram_max: usize = if ty == 0x05 || ty == 0x06 {
        512
    } else if declares_ram {
        match ram_size(rom[0x0149]) {
            Some(n) => n,
            None => {
                return Err(CartridgeError::UnsupportedRamSize);
            },
        }
    } else {
        0
    };
    match ensure_header_checksum(&rom) {
        Err(e) => {
            return Err(e);
        },
        Ok(_) => {},
    }
    match ensure_logo(&rom) {
        Err(e) => {
            return Err(e);
        },
        Ok(_) => {},
    }
    let battery = ty == 0x03 || ty == 0x06 || ty == 0x0f || ty == 0x10 || ty == 0x13 || ty == 0x1b;
    let ram = if battery && ty != 0x0f {
        ram_read(save, ram_max)
    } else {
        zeros(ram_max)
    };
    let cart = if ty == 0x00 {
        Mapper::RomOnly(RomOnly::power_up(rom))
    } else if ty <= 0x03 {
        Mapper::Mbc1(Mbc1::power_up(rom, ram, battery))
    } else if ty <= 0x06 {
        Mapper::Mbc2(Mbc2::power_up(rom, ram, battery))
    } else if ty <= 0x13 {
        let keeps_clock = ty == 0x0f || ty == 0x10;
        let anchor = if keeps_clock {
            match rtc {
                Some(bytes) => rtc_anchor_from_bytes(&bytes),
                None => None,
            }
        } else {
            None
        };
        Mapper::Mbc3(Mbc3::power_up(rom, ram, battery, RealTimeClock::power_up(anchor, now, keeps_clock)))
    } else {
        Mapper::Mbc5(Mbc5::power_up(rom, ram, battery))
    };
    Ok(cart)
}

/// On the other mappers too, a byte stored in enabled cartridge RAM
/// reads back where the RAM has a byte for the address: the low nibble of
/// it on an MBC2, all of it on an MBC3 with a RAM bank selected and on an
/// MBC5. With the RAM disabled the store is ignored and the load gives 0.
pub proof fn lemma_cartridge_ram_round_trip(s: MapperView, a: u16, v: u8)
    requires
        0xa000 <= a <= 0xbfff,
    ensures
        match s {
            MapperView::RomOnly(_) => Mapper::written(s, a, v) == s && Mapper::read(s, a) == 0,
            MapperView::Mbc1(m) => if m.regs.ram_enable {
                ram_offset(m.regs.ram_bank(), a) < m.ram.len() ==> Mapper::read(
                    Mapper::written(s, a, v),
                    a,
                ) == v
            } else {
                Mapper::written(s, a, v) == s && Mapper::read(s, a) == 0
            },
            MapperView::Mbc2(m) => if m.regs.ram_enable {
                a <= 0xa1ff && a - 0xa000 < m.ram.len() ==> Mapper::read(
                    Mapper::written(s, a, v),
                    a,
                ) == v % 16
            } else {
                Mapper::written(s, a, v) == s && Mapper::read(s, a) == 0
            },
            MapperView::Mbc3(m) => if m.regs.ram_enable {
                m.regs.ram_bank <= 3 && ram_offset(m.regs.ram_bank as int, a) < m.ram.len()
                    ==> Mapper::read(Mapper::written(s, a, v), a) == v
            } else {
                Mapper::written(s, a, v) == s && Mapper::read(s, a) == 0
            },
            MapperView::Mbc5(m) => if m.regs.ram_enable {
                ram_offset(m.regs.ram_bank as int, a) < m.ram.len() ==> Mapper::read(
                    Mapper::written(s, a, v),
                    a,
                ) == v
            } else {
                Mapper::written(s, a, v) == s && Mapper::read(s, a) == 0
            },
        },
{
}

/// An image whose header checksum or logo is wrong is refused, whatever
/// else it holds.
pub proof fn lemma_bad_header_is_refused(rom: Seq<u8>)
    requires
        !checksum_matches(rom) || !logo_matches(rom),
    ensures
        check_header(rom) is Err,
{
}

} // verus!
