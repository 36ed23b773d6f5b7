use vstd::prelude::*;
use crate::cartridge::Mapper;
use crate::cpu::Cpu;
use crate::intf::INTFlag;
use crate::isa::{lemma_interrupt_dispatch, lemma_nop, Machine};
use crate::memory::Memory;
use crate::mmunit::{lemma_advanced_plain, lemma_timer_request, MMUnit, MmuView};
use crate::register::Register;
use crate::rtc::RTC;
use crate::speed::SpeedMode;
use crate::timer::{enabled, Timer};

verus! {

/// The motherboard: the bus with its peripherals, and the paced CPU.
pub struct MotherBoard {
    pub mmu: MMUnit,
    pub rtc: RTC,
}

impl MotherBoard {
    /// The machine with the given cartridge in its slot, at the host time
    /// `now` in milliseconds.
    pub fn power_up(cartridge: Mapper, now: u64) -> (r: Self)
        ensures
            r.mmu@ == MmuView::cold(cartridge@).booted(31),
            r.mmu@.apu is None,
            r.rtc == (RTC {
                cpu: Cpu {
                    reg: crate::register::Register::power_up_value(r.mmu@.term),
                    halted: false,
                    ei: true,
                },
                step_cycles: 0,
                step_zero: now,
                step_flip: false,
            }),
    {
        let mmu = MMUnit::power_up(cartridge);
        let rtc = RTC::power_up(mmu.term, now);
        MotherBoard { mmu, rtc }
    }

    /// The bus as the CPU finds it at its next step: if the instruction at
    /// PC is STOP, an armed speed switch has taken place.
    pub open spec fn entered(cpu: Cpu, s: MmuView) -> MmuView {
        if MMUnit::read(s, cpu.reg.pc) == 0x10 {
            MmuView { speed: s.speed.switched(), ..s }
        } else {
            s
        }
    }

    /// The CPU and the bus after one step of the machine, but for the
    /// audio engine: the CPU takes a step, then the peripherals are driven
    /// by the ticks it consumed.
    #[verifier::opaque]
    pub open spec fn stepped(cpu: Cpu, s: MmuView) -> (Cpu, MmuView) {
        let o = (Machine::<MMUnit> { cpu, mem: Self::entered(cpu, s) }).step();
        (o.next.cpu, o.next.mem.advanced(o.cycles).0)
    }

    /// The CPU and the bus after `n` steps of the machine.
    pub open spec fn run(cpu: Cpu, s: MmuView, n: nat) -> (Cpu, MmuView)
        decreases n,
    {
        if n == 0 {
            (cpu, s)
        } else {
            let (c, t) = Self::run(cpu, s, (n - 1) as nat);
            Self::stepped(c, t)
        }
    }

    /// One step of the machine: the CPU takes a step, then the peripherals
    /// are driven by the ticks it consumed. Returns those ticks.
    pub fn next(&mut self) -> (cycles: u32)
        ensures
            cycles == old(self).rtc.cpu.on(&old(self).mmu).with_bus(
                Self::entered(old(self).rtc.cpu, old(self).mmu@),
            ).step().cycles,
            final(self).rtc.cpu == Self::stepped(old(self).rtc.cpu, old(self).mmu@).0,
            final(self).mmu@ == (MmuView {
                apu: final(self).mmu@.apu,
                ..Self::stepped(old(self).rtc.cpu, old(self).mmu@).1
            }),
    {
        proof {
            reveal(MotherBoard::stepped);
        }
        if self.mmu.get(self.rtc.cpu.reg.pc) == 0x10 {
            self.mmu.speed.switch_speed();
        }
        let cycles = self.rtc.next(&mut self.mmu);
        self.mmu.next(cycles);
        cycles
    }

    /// Tells whether the pixel pipeline has completed a frame since the
    /// last call.
    pub fn check_and_reset_gpu_updated(&mut self) -> (r: bool)
        ensures
            r == old(self).mmu@.gpu.v_blank,
            final(self).mmu@ == (MmuView {
                gpu: crate::gpu::GpuView { v_blank: false, ..old(self).mmu@.gpu },
                ..old(self).mmu@
            }),
            final(self).rtc == old(self).rtc,
    {
        let is_vblank = self.mmu.gpu.v_blank;
        self.mmu.gpu.v_blank = false;
        is_vblank
    }
}

/// A machine that waits for the timer in a row of `n` NOPs: the CPU runs
/// with IME set, the timer interrupt alone is enabled and not requested,
/// the timer runs, the speed is normal, no VRAM transfer is under way,
/// and the `n` bytes from PC on, all in the cartridge's ROM, are NOPs.
pub open spec fn waits(cpu: Cpu, s: MmuView, n: nat) -> bool {
    &&& cpu.ei
    &&& !cpu.halted
    &&& s.inte == 0x04
    &&& !s.intf.requested(INTFlag::Timer)
    &&& enabled(s.timer.tac())
    &&& s.speed.mode == SpeedMode::Normal
    &&& !s.dma.active
    &&& cpu.reg.pc + n <= 0x8000
    &&& forall|a: u16| cpu.reg.pc <= a < cpu.reg.pc + n ==> #[trigger] MMUnit::read(s, a) == 0x00
}

proof fn lemma_pending(inte: u8, data: u8)
    by (bit_vector)
    requires
        inte == 0x04,
    ensures
        inte & data & 0x1f == data & 0x04,
        (data & 0x04) & 0x01 == 0,
        (data & 0x04) & 0x02 == 0,
        (data & 0x04) & 0x04 == data & 0x04,
{
}

/// A step of the machine on a NOP, with the timer interrupt alone enabled
/// and not requested, at normal speed and with no VRAM transfer under way:
/// PC moves past the NOP, and the bus is advanced by 4 ticks.
proof fn lemma_step_nop(c: Cpu, t: MmuView)
    requires
        !c.halted,
        t.inte == 0x04,
        !t.intf.requested(INTFlag::Timer),
        MMUnit::read(t, c.reg.pc) == 0x00,
    ensures
        MotherBoard::stepped(c, t) == (
            Cpu { reg: Register { pc: c.reg.pc.wrapping_add(1), ..c.reg }, ..c },
            t.advanced(4).0,
        ),
{
    reveal(MotherBoard::stepped);
    let mac = Machine::<MMUnit> { cpu: c, mem: t };
    lemma_pending(t.inte, t.intf.data);
    assert(INTFlag::Timer.mask() == 0x04);
    assert(mac.pending() == 0);
    lemma_nop(mac);
}

/// With the timer alone pending and IME set, a step services the timer
/// interrupt.
proof fn lemma_dispatch_timer<M: Memory>(m: Machine<M>)
    requires
        m.cpu.ei,
        m.pending() != 0,
        m.pending() & 0x01 == 0,
        m.pending() & 0x02 == 0,
    ensures
        m.pending() & 0x04 != 0 ==> {
            &&& m.step().cycles == 16
            &&& m.step().next.cpu.reg.pc == 0x0050
            &&& !m.step().next.cpu.ei
            &&& m.step().next.cpu.reg.sp == m.cpu.reg.sp.wrapping_sub(2)
        },
{
    lemma_interrupt_dispatch(m, 0);
}

/// What is pending on a bus with the timer interrupt alone enabled.
proof fn lemma_pending_timer(c: Cpu, t: MmuView)
    requires
        t.inte == 0x04,
    ensures
        (Machine::<MMUnit> { cpu: c, mem: t }).pending() == t.intf.data & 0x04,
        (t.intf.data & 0x04) & 0x01 == 0,
        (t.intf.data & 0x04) & 0x02 == 0,
        (t.intf.data & 0x04) & 0x04 == t.intf.data & 0x04,
{
    lemma_pending(t.inte, t.intf.data);
}

/// The CPU after a step of the machine is the CPU after its own step.
proof fn lemma_stepped_cpu(c: Cpu, t: MmuView)
    ensures
        MotherBoard::stepped(c, t).0 == (Machine::<MMUnit> {
            cpu: c,
            mem: MotherBoard::entered(c, t),
        }).step().next.cpu,
{
    reveal(MotherBoard::stepped);
}

/// A step of the machine with IME set and the timer interrupt alone
/// enabled and requested: the interrupt is serviced.
proof fn lemma_step_timer(c: Cpu, t: MmuView)
    requires
        c.ei,
        t.inte == 0x04,
        t.intf.requested(INTFlag::Timer),
    ensures
        MotherBoard::stepped(c, t).0.reg.pc == 0x0050,
        !MotherBoard::stepped(c, t).0.ei,
        MotherBoard::stepped(c, t).0.reg.sp == c.reg.sp.wrapping_sub(2),
        (Machine::<MMUnit> { cpu: c, mem: MotherBoard::entered(c, t) }).step().cycles == 16,
{
    let bus = MotherBoard::entered(c, t);
    let mac = Machine::<MMUnit> { cpu: c, mem: bus };
    assert(INTFlag::Timer.mask() == 0x04);
    lemma_pending_timer(c, bus);
    lemma_dispatch_timer(mac);
    lemma_stepped_cpu(c, t);
}

/// What `n` steps make of a machine that waits for the timer, where the
/// first `n - 1` of them do not yet overflow TIMA.
proof fn lemma_wait(cpu: Cpu, s: MmuView, n: nat)
    requires
        waits(cpu, s, n),
        0 < s.timer.ticks_left(),
        n > 0 ==> 4 * (n - 1) < s.timer.ticks_left(),
    ensures
        ({
            let (c, t) = MotherBoard::run(cpu, s, n);
            &&& c == (Cpu { reg: Register { pc: (cpu.reg.pc + n) as u16, ..cpu.reg }, ..cpu })
            &&& t.cartridge == s.cartridge
            &&& t.inte == s.inte
            &&& t.speed == s.speed
            &&& t.dma == s.dma
            &&& t.timer.tac() == s.timer.tac()
            &&& t.intf.requested(INTFlag::Timer) == (4 * n >= s.timer.ticks_left())
            &&& 4 * n < s.timer.ticks_left() ==> t.timer.ticks_left() == s.timer.ticks_left() - 4
                * n
        }),
    decreases n,
{
    if n > 0 {
        let m = (n - 1) as nat;
        lemma_wait(cpu, s, m);
        let (c, t) = MotherBoard::run(cpu, s, m);
        assert(MMUnit::read(t, c.reg.pc) == MMUnit::read(s, c.reg.pc));
        lemma_step_nop(c, t);
        lemma_advanced_plain(t, 4);
        lemma_timer_request(t, 4);
        Timer::lemma_ticks_left(t.timer, 4, t.intf);
        assert(t.dma_run() == (t, 0u32));
    }
}

/// The latency of the timer interrupt. A machine that waits for the timer
/// in a row of NOPs, four ticks each, requests the interrupt in the step
/// in which the ticks that the timer had left run out, and in no step
/// before. The step after that services the interrupt: in 16 ticks, with
/// IME cleared and SP moved down by the PC pushed, at the vector 0x0050.
pub proof fn lemma_timer_interrupt_latency(cpu: Cpu, s: MmuView, n: nat)
    requires
        n > 0,
        waits(cpu, s, n),
        4 * (n - 1) < s.timer.ticks_left() <= 4 * n,
    ensures
        forall|m: nat|
            m < n ==> !(#[trigger] MotherBoard::run(cpu, s, m)).1.intf.requested(INTFlag::Timer)
                && MotherBoard::run(cpu, s, m).0.reg.pc == cpu.reg.pc + m,
        MotherBoard::run(cpu, s, n).1.intf.requested(INTFlag::Timer),
        MotherBoard::run(cpu, s, n).0.reg.pc == cpu.reg.pc + n,
        ({
            let (c, t) = MotherBoard::run(cpu, s, n);
            &&& (Machine::<MMUnit> { cpu: c, mem: MotherBoard::entered(c, t) }).step().cycles == 16
            &&& MotherBoard::run(cpu, s, n + 1).0.reg.pc == 0x0050
            &&& !MotherBoard::run(cpu, s, n + 1).0.ei
            &&& MotherBoard::run(cpu, s, n + 1).0.reg.sp == cpu.reg.sp.wrapping_sub(2)
        }),
{
    assert forall|m: nat| m < n implies !(#[trigger] MotherBoard::run(cpu, s, m)).1.intf.requested(
        INTFlag::Timer,
    ) && MotherBoard::run(cpu, s, m).0.reg.pc == cpu.reg.pc + m by {
        lemma_wait(cpu, s, m);
    }
    lemma_wait(cpu, s, n);
    let (c, t) = MotherBoard::run(cpu, s, n);
    lemma_step_timer(c, t);
    assert(MotherBoard::run(cpu, s, n + 1) == MotherBoard::stepped(c, t));
}

} // verus!
