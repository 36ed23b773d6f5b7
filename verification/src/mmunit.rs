use vstd::prelude::*;
use crate::apu::APU;
use crate::cartridge::{Cartridge, Mapper, MapperView};
use crate::convention::Term;
use crate::dma::{DMAMode, DMA};
use crate::gpu::{GPU, GpuView, lemma_run_keeps_other_requests};
use crate::hram::HRAM;
use crate::intf::{Intf, INTFlag};
use crate::joypad::Joypad;
use crate::memory::Memory;
use crate::serial::Serial;
use crate::speed::{Speed, SpeedMode};
use crate::timer::{Timer, divisor, enabled};
use crate::wram::WRAM;

verus! {

/// The memory map unit: the address decoder that makes one 16-bit bus of
/// the cartridge and the peripherals.
pub struct MMUnit {
    pub cartridge: Mapper,
    /// The audio engine, where the host has one.
    pub apu: Option<APU>,
    pub gpu: GPU,
    pub joypad: Joypad,
    pub serial: Serial,
    pub shift: bool,
    pub speed: Speed,
    pub term: Term,
    pub timer: Timer,
    /// The interrupt enable register (0xFFFF).
    pub inte: u8,
    /// The interrupt request register (0xFF0F).
    pub intf: Intf,
    pub dma: DMA,
    pub wram: WRAM,
    pub hram: HRAM,
}

/// The state of the bus as a mathematical value.
pub struct MmuView {
    pub cartridge: MapperView,
    pub apu: Option<APU>,
    pub gpu: GpuView,
    pub joypad: Joypad,
    pub serial: Serial,
    pub shift: bool,
    pub speed: Speed,
    pub term: Term,
    pub timer: Timer,
    pub inte: u8,
    pub intf: Intf,
    pub dma: DMA,
    pub wram: WRAM,
    pub hram: HRAM,
}

impl View for MMUnit {
    type V = MmuView;

    open spec fn view(&self) -> MmuView {
        MmuView {
            cartridge: self.cartridge@,
            apu: self.apu,
            gpu: self.gpu@,
            joypad: self.joypad,
            serial: self.serial,
            shift: self.shift,
            speed: self.speed,
            term: self.term,
            timer: self.timer,
            inte: self.inte,
            intf: self.intf,
            dma: self.dma,
            wram: self.wram,
            hram: self.hram,
        }
    }
}

/// The component an address is routed to.
pub enum Target {
    Cartridge,
    Gpu,
    Wram,
    Joypad,
    Serial,
    Timer,
    Intf,
    Apu,
    OamDma,
    Speed,
    Dma,
    Hram,
    Inte,
    /// The unused area 0xFEA0 to 0xFEFF and the unmapped I/O addresses:
    /// they read 0 and ignore stores.
    Unused,
}

/// The decoding of the 16-bit address space.
pub open spec fn target(a: u16) -> Target {
    if a <= 0x7fff {
        Target::Cartridge
    } else if a <= 0x9fff {
        Target::Gpu
    } else if a <= 0xbfff {
        Target::Cartridge
    } else if a <= 0xfdff {
        Target::Wram
    } else if a <= 0xfe9f {
        Target::Gpu
    } else if a <= 0xfeff {
        Target::Unused
    } else if a == 0xff00 {
        Target::Joypad
    } else if a == 0xff01 || a == 0xff02 {
        Target::Serial
    } else if 0xff04 <= a <= 0xff07 {
        Target::Timer
    } else if a == 0xff0f {
        Target::Intf
    } else if 0xff10 <= a <= 0xff3f {
        Target::Apu
    } else if a == 0xff46 {
        Target::OamDma
    } else if a == 0xff4d {
        Target::Speed
    } else if (0xff40 <= a <= 0xff4b) || a == 0xff4f || (0xff68 <= a <= 0xff6b) {
        Target::Gpu
    } else if 0xff51 <= a <= 0xff55 {
        Target::Dma
    } else if a == 0xff70 {
        Target::Wram
    } else if 0xff80 <= a <= 0xfffe {
        Target::Hram
    } else if a == 0xffff {
        Target::Inte
    } else {
        Target::Unused
    }
}

/// The values the registers hold when the program is entered, in the
/// order in which they are stored.
pub const BOOT_WRITES: [(u16, u8); 31] = [
    (0xff05, 0x00),
    (0xff06, 0x00),
    (0xff07, 0x00),
    (0xff10, 0x80),
    (0xff11, 0xbf),
    (0xff12, 0xf3),
    (0xff14, 0xbf),
    (0xff16, 0x3f),
    (0xff16, 0x3f),
    (0xff17, 0x00),
    (0xff19, 0xbf),
    (0xff1a, 0x7f),
    (0xff1b, 0xff),
    (0xff1c, 0x9f),
    (0xff1e, 0xff),
    (0xff20, 0xff),
    (0xff21, 0x00),
    (0xff22, 0x00),
    (0xff23, 0xbf),
    (0xff24, 0x77),
    (0xff25, 0xf3),
    (0xff26, 0xf1),
    (0xff40, 0x91),
    (0xff42, 0x00),
    (0xff43, 0x00),
    (0xff45, 0x00),
    (0xff47, 0xfc),
    (0xff48, 0xff),
    (0xff49, 0xff),
    (0xff4a, 0x00),
    (0xff4b, 0x00),
];

impl MmuView {
    /// The bus with the given cartridge in its slot and every peripheral at
    /// power-up, without an audio engine.
    pub open spec fn cold(cartridge: MapperView) -> MmuView {
        MmuView {
            cartridge,
            apu: None,
            gpu: GpuView::cold(crate::cartridge::term_of(Mapper::image(cartridge))),
            joypad: Joypad { signals: 0xff, select: 0x00 },
            serial: Serial { data: 0, control: 0 },
            shift: false,
            speed: Speed { mode: SpeedMode::Normal, prepare_switch: false },
            term: crate::cartridge::term_of(Mapper::image(cartridge)),
            timer: Timer::cold(),
            inte: 0,
            intf: Intf { data: 0 },
            dma: DMA { src: 0x0000, dst: 0x8000, active: false, mode: DMAMode::GDMA, remain: 0x00 },
            wram: WRAM::cold(),
            hram: HRAM::cold(),
        }
    }

    /// The bus after the first `n` of the 160 bytes from `base` on have
    /// been copied to the sprite attribute table.
    pub open spec fn oam_copied(self, base: u16, n: nat) -> MmuView
        decreases n,
    {
        if n == 0 {
            self
        } else {
            let t = self.oam_copied(base, (n - 1) as nat);
            MmuView {
                gpu: GPU::written(
                    t.gpu,
                    (0xfe00 + n - 1) as u16,
                    MMUnit::read(t, (base + n - 1) as u16),
                ),
                ..t
            }
        }
    }

    /// The bus after the first `n` bytes of the present block of the VRAM
    /// DMA have been copied.
    pub open spec fn block_copied(self, n: nat) -> MmuView
        decreases n,
    {
        if n == 0 {
            self
        } else {
            let t = self.block_copied((n - 1) as nat);
            MmuView {
                gpu: GPU::written(
                    t.gpu,
                    self.dma.dst.wrapping_add((n - 1) as u16),
                    MMUnit::read(t, self.dma.src.wrapping_add((n - 1) as u16)),
                ),
                ..t
            }
        }
    }

    /// The bus after one block of 16 bytes of the VRAM DMA.
    pub open spec fn block_done(self) -> MmuView {
        MmuView { dma: self.dma.after_block(), ..self.block_copied(16) }
    }

    /// The bus after `n` blocks of the VRAM DMA.
    pub open spec fn blocks_done(self, n: nat) -> MmuView
        decreases n,
    {
        if n == 0 {
            self
        } else {
            self.blocks_done((n - 1) as nat).block_done()
        }
    }

    /// The bus after the VRAM DMA has had its turn, and what the turn costs
    /// in master-clock ticks. A general transfer copies its `remain + 1`
    /// blocks at once, at 8 ticks the block, and ends. An H-blank transfer
    /// copies one block, for 8 ticks, if the pixel pipeline has reported an
    /// h-blank.
    pub open spec fn dma_run(self) -> (MmuView, u32) {
        if !self.dma.active {
            (self, 0)
        } else if self.dma.mode == DMAMode::GDMA {
            let len = (self.dma.remain + 1) as nat;
            let t = self.blocks_done(len);
            (MmuView { dma: DMA { active: false, ..t.dma }, ..t }, (len * 8) as u32)
        } else if !self.gpu.h_blank {
            (self, 0)
        } else {
            (self.block_done(), 8)
        }
    }

    /// The bus after the first `n` of the boot values have been stored.
    pub open spec fn booted(self, n: nat) -> MmuView
        decreases n,
    {
        if n == 0 {
            self
        } else {
            MMUnit::written(
                self.booted((n - 1) as nat),
                BOOT_WRITES[n - 1].0,
                BOOT_WRITES[n - 1].1,
            )
        }
    }

    /// The bus after the peripherals but the audio engine have been driven
    /// for a CPU step of `cycles` ticks, and the master-clock ticks that
    /// have passed. The VRAM DMA has its turn first and its cost is added;
    /// in double speed the CPU's ticks count half for the pixel pipeline.
    pub open spec fn advanced(self, cycles: u32) -> (MmuView, u32) {
        let (s, dma_cost) = self.dma_run();
        let double = s.speed.mode == SpeedMode::Double;
        let gpu_cycles = ((if double {
            cycles / 2
        } else {
            cycles
        }) + dma_cost) as u32;
        let cpu_cycles = (cycles + (if double {
            dma_cost * 2
        } else {
            dma_cost as int
        })) as u32;
        let (timer, i1) = s.timer.after(cpu_cycles, s.intf);
        let (gpu, i2) = s.gpu.advanced(i1, gpu_cycles);
        (MmuView { timer, gpu, intf: i2, ..s }, gpu_cycles)
    }
}

impl MMUnit {
    /// The bus with the given cartridge in its slot, as it is when the
    /// program is entered: the peripherals at power-up, no audio engine,
    /// and the boot values stored.
    pub fn power_up(cartridge: Mapper) -> (r: Self)
        ensures
            r@ == MmuView::cold(cartridge@).booted(31),
            r@.term == crate::cartridge::term_of(Mapper::image(cartridge@)),
            r@.apu is None,
    {
        let term = cartridge.term();
        let mut mmunit = MMUnit {
            cartridge,
            apu: None,
            gpu: GPU::power_up(term),
            joypad: Joypad::power_up(),
            serial: Serial::power_up(),
            shift: false,
            speed: Speed::power_up(),
            term,
            timer: Timer::power_up(),
            inte: 0x00,
            intf: Intf::power_up(),
            dma: DMA::power_up(),
            wram: WRAM::power_up(),
            hram: HRAM::power_up(),
        };
        mmunit.init();
        mmunit
    }

    /// Stores the boot values.
    pub fn init(&mut self)
        ensures
            final(self)@ == old(self)@.booted(31),
            final(self)@.term == old(self)@.term,
            final(self)@.apu is None <==> old(self)@.apu is None,
    {
        let mut i: usize = 0;
        while i < 31
            invariant
                i <= 31,
                self@ == old(self)@.booted(i as nat),
                self@.term == old(self)@.term,
                self@.apu is None <==> old(self)@.apu is None,
            decreases 31 - i,
        {
            let w = BOOT_WRITES[i];
            proof {
                lemma_written_keeps(self@, w.0, w.1);
            }
            self.set(w.0, w.1);
            i = i + 1;
        }
    }

    /// Drives the peripherals for a CPU step of `cycles` ticks and returns
    /// the master-clock ticks that have passed. The audio engine, where
    /// there is one, is driven by those ticks.
    pub fn next(&mut self, cycles: u32) -> (gpu_cycles: u32)
        requires
            cycles <= 0x7fff_0000,
        ensures
            gpu_cycles == old(self)@.advanced(cycles).1,
            final(self)@ == (MmuView { apu: final(self)@.apu, ..old(self)@.advanced(cycles).0 }),
            old(self)@.apu is None <==> final(self)@.apu is None,
            old(self)@.apu matches Some(a) ==> final(self)@.apu matches Some(b) && a.driven(
                b,
                gpu_cycles,
            ),
    {
        let dma_cost = self.run_dma();
        let double = self.speed.mode == SpeedMode::Double;
        let gpu_cycles = (if double { cycles / 2 } else { cycles }) + dma_cost;
        let cpu_cycles = cycles + (if double { dma_cost * 2 } else { dma_cost });
        self.timer.next(cpu_cycles, &mut self.intf);
        self.gpu.next(gpu_cycles, &mut self.intf);
        self.run_apu(gpu_cycles);
        gpu_cycles
    }

    /// Drives the audio engine, where there is one, by `cycles`
    /// master-clock ticks.
    pub fn run_apu(&mut self, cycles: u32)
        ensures
            final(self)@ == (MmuView { apu: final(self)@.apu, ..old(self)@ }),
            old(self)@.apu is None <==> final(self)@.apu is None,
            old(self)@.apu matches Some(a) ==> final(self)@.apu matches Some(b) && a.driven(
                b,
                cycles,
            ),
    {
        match &mut self.apu {
            Some(apu) => {
                apu.next(cycles);
            },
            None => {},
        }
    }

    /// Gives the VRAM DMA its turn; returns its cost in master-clock ticks.
    pub fn run_dma(&mut self) -> (cost: u32)
        ensures
            (final(self)@, cost) == old(self)@.dma_run(),
            final(self)@ == (MmuView { gpu: final(self)@.gpu, dma: final(self)@.dma, ..old(self)@ }),
            cost <= 2048,
    {
        if !self.dma.active {
            return 0;
        }
        match self.dma.mode {
            DMAMode::GDMA => {
                let len = self.dma.remain as u32 + 1;
                let mut i: u32 = 0;
                while i < len
                    invariant
                        i <= len,
                        self@ == old(self)@.blocks_done(i as nat),
                        self@ == (MmuView { gpu: self@.gpu, dma: self@.dma, ..old(self)@ }),
                    decreases len - i,
                {
                    self.run_dma_hram_copy();
                    i = i + 1;
                }
                self.dma.active = false;
                len * 8
            },
            DMAMode::HDMA => {
                if !self.gpu.h_blank {
                    return 0;
                }
                self.run_dma_hram_copy();
                8
            },
        }
    }

    /// Copies one block of 16 bytes from the DMA source to video RAM.
    pub fn run_dma_hram_copy(&mut self)
        ensures
            final(self)@ == old(self)@.block_done(),
            final(self)@ == (MmuView { gpu: final(self)@.gpu, dma: final(self)@.dma, ..old(self)@ }),
    {
        let src = self.dma.src;
        let dst = self.dma.dst;
        let mut i: u16 = 0;
        while i < 0x10
            invariant
                i <= 0x10,
                src == old(self).dma.src,
                dst == old(self).dma.dst,
                self.dma == old(self).dma,
                self@ == old(self)@.block_copied(i as nat),
                self@ == (MmuView { gpu: self@.gpu, ..old(self)@ }),
            decreases 0x10 - i,
        {
            let data = self.get(src.wrapping_add(i));
            self.gpu.set(dst.wrapping_add(i), data);
            i = i + 1;
        }
        self.dma.advance();
    }
}

impl Memory for MMUnit {
    open spec fn read(s: MmuView, a: u16) -> u8 {
        match target(a) {
            Target::Cartridge => Mapper::read(s.cartridge, a),
            Target::Gpu => GPU::read(s.gpu, a),
            Target::Wram => WRAM::read(s.wram, a),
            Target::Joypad => Joypad::read(s.joypad, a),
            Target::Serial => Serial::read(s.serial, a),
            Target::Timer => Timer::read(s.timer, a),
            Target::Intf => s.intf.data,
            Target::Apu => match s.apu {
                Some(apu) => APU::read(apu, a),
                None => 0,
            },
            Target::OamDma => 0,
            Target::Speed => Speed::read(s.speed, a),
            Target::Dma => DMA::read(s.dma, a),
            Target::Hram => HRAM::read(s.hram, a),
            Target::Inte => s.inte,
            Target::Unused => 0,
        }
    }

    /// A store goes to the one component its address is routed to. A store
    /// of `v` to 0xFF46 copies the 160 bytes from `v * 256` on to the
    /// sprite attribute table.
    open spec fn written(s: MmuView, a: u16, v: u8) -> MmuView {
        match target(a) {
            Target::Cartridge => MmuView { cartridge: Mapper::written(s.cartridge, a, v), ..s },
            Target::Gpu => MmuView { gpu: GPU::written(s.gpu, a, v), ..s },
            Target::Wram => MmuView { wram: WRAM::written(s.wram, a, v), ..s },
            Target::Joypad => MmuView { joypad: Joypad::written(s.joypad, a, v), ..s },
            Target::Serial => MmuView { serial: Serial::written(s.serial, a, v), ..s },
            Target::Timer => MmuView { timer: Timer::written(s.timer, a, v), ..s },
            Target::Intf => MmuView { intf: Intf { data: v }, ..s },
            Target::Apu => match s.apu {
                Some(apu) => MmuView { apu: Some(APU::written(apu, a, v)), ..s },
                None => s,
            },
            Target::OamDma => s.oam_copied((v * 256) as u16, 160),
            Target::Speed => MmuView { speed: Speed::written(s.speed, a, v), ..s },
            Target::Dma => MmuView { dma: DMA::written(s.dma, a, v), ..s },
            Target::Hram => MmuView { hram: HRAM::written(s.hram, a, v), ..s },
            Target::Inte => MmuView { inte: v, ..s },
            Target::Unused => s,
        }
    }

    fn get(&self, a: u16) -> (r: u8) {
        match a {
            0x0000..=0x7fff => self.cartridge.get(a),
            0x8000..=0x9fff => self.gpu.get(a),
            0xa000..=0xbfff => self.cartridge.get(a),
            0xc000..=0xfdff => self.wram.get(a),
            0xfe00..=0xfe9f => self.gpu.get(a),
            0xfea0..=0xfeff => 0x00,
            0xff00 => self.joypad.get(a),
            0xff01..=0xff02 => self.serial.get(a),
            0xff04..=0xff07 => self.timer.get(a),
            0xff0f => self.intf.data,
            0xff10..=0xff3f => match &self.apu {
                Some(apu) => apu.get(a),
                None => 0x00,
            },
            0xff4d => self.speed.get(a),
            0xff40..=0xff45 | 0xff47..=0xff4b | 0xff4f => self.gpu.get(a),
            0xff51..=0xff55 => self.dma.get(a),
            0xff68..=0xff6b => self.gpu.get(a),
            0xff70 => self.wram.get(a),
            0xff80..=0xfffe => self.hram.get(a),
            0xffff => self.inte,
            _ => 0x00,
        }
    }

    fn set(&mut self, a: u16, v: u8) {
        match a {
            0x0000..=0x7fff => self.cartridge.set(a, v),
            0x8000..=0x9fff => self.gpu.set(a, v),
            0xa000..=0xbfff => self.cartridge.set(a, v),
            0xc000..=0xfdff => self.wram.set(a, v),
            0xfe00..=0xfe9f => self.gpu.set(a, v),
            0xfea0..=0xfeff => {},
            0xff00 => self.joypad.set(a, v),
            0xff01..=0xff02 => self.serial.set(a, v),
            0xff04..=0xff07 => self.timer.set(a, v),
            0xff0f => self.intf.data = v,
            0xff10..=0xff3f => {
                match &mut self.apu {
                    Some(apu) => {
                        apu.set(a, v);
                    },
                    None => {},
                }
            },
            0xff46 => {
                let base = (v as u16) * 256;
                let mut i: u16 = 0;
                while i < 0xa0
                    invariant
                        i <= 0xa0,
                        base == v * 256,
                        self@ == old(self)@.oam_copied(base, i as nat),
                    decreases 0xa0 - i,
                {
                    let b = self.get(base + i);
                    self.gpu.set(0xfe00 + i, b);
                    i = i + 1;
                }
            },
            0xff4d => self.speed.set(a, v),
            0xff40..=0xff45 | 0xff47..=0xff4b | 0xff4f => self.gpu.set(a, v),
            0xff51..=0xff55 => self.dma.set(a, v),
            0xff68..=0xff6b => self.gpu.set(a, v),
            0xff70 => self.wram.set(a, v),
            0xff80..=0xfffe => self.hram.set(a, v),
            0xffff => self.inte = v,
            _ => {},
        }
    }
}

/// A store changes neither the model nor whether there is an audio
/// engine.
pub proof fn lemma_written_keeps(s: MmuView, a: u16, v: u8)
    ensures
        MMUnit::written(s, a, v).term == s.term,
        MMUnit::written(s, a, v).apu is None <==> s.apu is None,
{
    lemma_oam_copied_keeps(s, (v * 256) as u16, 160);
}

/// The OAM DMA changes nothing but the pixel pipeline.
pub proof fn lemma_oam_copied_keeps(s: MmuView, base: u16, n: nat)
    ensures
        s.oam_copied(base, n) == (MmuView { gpu: s.oam_copied(base, n).gpu, ..s }),
    decreases n,
{
    if n > 0 {
        lemma_oam_copied_keeps(s, base, (n - 1) as nat);
    }
}

/// What the bus looks like while the OAM DMA is under way: the first `n`
/// bytes of the sprite attribute table hold the bytes that were at `base`
/// on, the rest of the table and everything else is as it was.
pub proof fn lemma_oam_copied(s: MmuView, base: u16, n: nat)
    requires
        s.gpu.wf(),
        base % 256 == 0,
        n <= 160,
    ensures
        s.oam_copied(base, n) == (MmuView {
            gpu: GpuView { oam: s.oam_copied(base, n).gpu.oam, ..s.gpu },
            ..s
        }),
        s.oam_copied(base, n).gpu.oam.len() == 160,
        forall|k: int|
            0 <= k < n ==> s.oam_copied(base, n).gpu.oam[k] == MMUnit::read(s, (base + k) as u16),
        forall|k: int| n <= k < 160 ==> s.oam_copied(base, n).gpu.oam[k] == s.gpu.oam[k],
    decreases n,
{
    if n > 0 {
        lemma_oam_copied(s, base, (n - 1) as nat);
        let t = s.oam_copied(base, (n - 1) as nat);
        let x = (base + n - 1) as u16;
        assert(MMUnit::read(t, x) == MMUnit::read(s, x));
    }
}

/// After a store of `v` to 0xFF46, the 160 bytes of the sprite attribute
/// table (0xFE00 to 0xFE9F) are the 160 bytes that were at `v * 256` on,
/// and they still are there.
pub proof fn lemma_oam_dma(s: MmuView, v: u8, k: int)
    requires
        s.gpu.wf(),
        0 <= k < 160,
    ensures
        MMUnit::read(MMUnit::written(s, 0xff46, v), (0xfe00 + k) as u16) == MMUnit::read(
            s,
            (v * 256 + k) as u16,
        ),
        MMUnit::read(MMUnit::written(s, 0xff46, v), (v * 256 + k) as u16) == MMUnit::read(
            s,
            (v * 256 + k) as u16,
        ),
{
    lemma_oam_copied(s, (v * 256) as u16, 160);
}

/// A byte stored in video RAM, in the sprite attribute table, in work RAM
/// or in high RAM reads back.
pub proof fn lemma_ram_round_trip(s: MmuView, a: u16, v: u8)
    requires
        s.gpu.wf(),
        (0x8000 <= a <= 0x9fff) || (0xc000 <= a <= 0xfe9f) || (0xff80 <= a <= 0xfffe),
    ensures
        MMUnit::read(MMUnit::written(s, a, v), a) == v,
{
    if 0xc000 <= a <= 0xfdff {
        crate::wram::lemma_wram_round_trip(s.wram, a, v);
    }
}

/// A store to the cartridge goes to the mapper and a load comes from it:
/// enabled cartridge RAM reads back what was stored (see the mappers), and
/// the fixed ROM window reads the ROM whatever is stored to it.
pub proof fn lemma_cartridge_window(s: MmuView, a: u16, v: u8)
    requires
        a <= 0x7fff || 0xa000 <= a <= 0xbfff,
    ensures
        MMUnit::read(MMUnit::written(s, a, v), a) == Mapper::read(
            Mapper::written(s.cartridge, a, v),
            a,
        ),
        a <= 0x3fff ==> MMUnit::read(MMUnit::written(s, a, v), a) == MMUnit::read(s, a),
{
}

/// The echo region mirrors work RAM on the bus: every address from 0xE000
/// to 0xFDFF reads what the address 0x2000 below it reads, and a store to
/// either of the two has the same effect.
pub proof fn lemma_bus_echo(s: MmuView, a: u16, v: u8)
    requires
        0xe000 <= a <= 0xfdff,
    ensures
        MMUnit::read(s, a) == MMUnit::read(s, (a - 0x2000) as u16),
        MMUnit::written(s, a, v) == MMUnit::written(s, (a - 0x2000) as u16, v),
{
    crate::wram::lemma_echo_mirror(s.wram, a, v);
}

proof fn lemma_timer_bit(a: u8, b: u8, c: u8)
    by (bit_vector)
    requires
        c & 0x1c == b & 0x1c,
        b == a | 0x04 || b == a,
    ensures
        (c & 0x04 != 0) == (a & 0x04 != 0 || b != a),
        (a | 0x04) & 0x04 != 0,
{
}

/// The timer's request on the bus. When the bus is advanced for a CPU
/// step, the timer is run for the step's ticks with the cost of a VRAM
/// transfer added, and the pixel pipeline leaves its request alone: the
/// timer is requested afterwards exactly if it was before or TIMA
/// overflowed, which with the enable bit of TAC set it does when the ticks,
/// with those counted before, make up the `256 - TIMA` periods of the
/// divisor that TIMA had left.
pub proof fn lemma_timer_request(s: MmuView, cycles: u32)
    ensures
        ({
            let (t, dma_cost) = s.dma_run();
            let ticks = (cycles + (if t.speed.mode == SpeedMode::Double {
                dma_cost * 2
            } else {
                dma_cost as int
            })) as u32;
            let due = enabled(t.timer.tac()) && (t.timer.tima_prescaler() + ticks) / (divisor(
                t.timer.tac(),
            ) as int) >= 256 - t.timer.tima();
            s.advanced(cycles).0.intf.requested(INTFlag::Timer) == (t.intf.requested(
                INTFlag::Timer,
            ) || due)
        }),
{
    let (t, dma_cost) = s.dma_run();
    let double = t.speed.mode == SpeedMode::Double;
    let ticks = (cycles + (if double {
        dma_cost * 2
    } else {
        dma_cost as int
    })) as u32;
    let dots = ((if double {
        cycles / 2
    } else {
        cycles
    }) + dma_cost) as u32;
    Timer::lemma_interrupt_when_due(t.timer, ticks, t.intf);
    let (timer, i1) = t.timer.after(ticks, t.intf);
    let (gpu, i2) = t.gpu.advanced(i1, dots);
    if t.gpu.lcdc.has(0x80) {
        lemma_run_keeps_other_requests(GpuView { h_blank: false, ..t.gpu }, i1, dots as nat);
    }
    assert(INTFlag::Timer.mask() == 0x04);
    lemma_timer_bit(t.intf.data, i1.data, i2.data);
}

/// At normal speed and with no VRAM transfer under way, advancing the bus
/// for a CPU step runs the timer and the pixel pipeline for the step's
/// ticks; the two and the interrupt requests apart, the bus is as it was.
pub proof fn lemma_advanced_plain(s: MmuView, cycles: u32)
    requires
        !s.dma.active,
        s.speed.mode == SpeedMode::Normal,
    ensures
        s.advanced(cycles).1 == cycles,
        s.advanced(cycles).0 == (MmuView {
            timer: s.timer.after(cycles, s.intf).0,
            gpu: s.advanced(cycles).0.gpu,
            intf: s.advanced(cycles).0.intf,
            ..s
        }),
{
}

} // verus!
