//! Timer and interrupt-controller bookkeeping: the register values a
//! GICv2-class controller is programmed with, the periodic-countdown
//! computation, the tick counter, and the IRQ handler's decisions.
//!
//! The architecture glue performs the MMIO and system-register writes this
//! module prescribes, and hands the handler the raw acknowledge value it
//! read.

use vstd::prelude::*;
use crate::preempt::Threads;
use vstd::arithmetic::div_mod::lemma_add_mod_noop;
use vstd::arithmetic::div_mod::lemma_small_mod;

verus! {

/// Interrupt id of the ARM generic timer's private per-CPU interrupt.
pub const IRQ_CNTPNS: u32 = 30;

/// Register values the interrupt controller is programmed with: the
/// distributor and CPU-interface controls, the priority mask, the
/// accumulated set-enable bits, and the per-interrupt priority and target
/// bytes for the 32 SGI/PPI ids.
pub struct GicState {
    pub distributor_ctrl: u32,
    pub cpu_ctrl: u32,
    pub priority_mask: u32,
    pub enabled: u32,
    pub priorities: [u8; 32],
    pub targets: [u8; 32],
}

impl GicState {
    /// The reset state: everything disabled, nothing enabled or prioritized.
    pub fn new() -> (g: GicState)
        ensures
            g.distributor_ctrl == 0,
            g.cpu_ctrl == 0,
            g.priority_mask == 0,
            g.enabled == 0,
            forall|i: int| 0 <= i < 32 ==> g.priorities@[i] == 0,
            forall|i: int| 0 <= i < 32 ==> g.targets@[i] == 0,
    {
        GicState {
            distributor_ctrl: 0,
            cpu_ctrl: 0,
            priority_mask: 0,
            enabled: 0,
            priorities: [0u8; 32],
            targets: [0u8; 32],
        }
    }

    /// For an SGI/PPI id, sets its set-enable bit, a mid-range priority
    /// byte, and a target byte for CPU 0 (harmless for PPIs). Ids outside
    /// the SGI/PPI range are left alone.
    pub fn enable_irq(&mut self, id: u32)
        ensures
            id < 32 ==> {
                &&& final(self).enabled == old(self).enabled | (1u32 << id)
                &&& final(self).priorities@ == old(self).priorities@.update(id as int, 0x80u8)
                &&& final(self).targets@ == old(self).targets@.update(id as int, 0x01u8)
                &&& final(self).distributor_ctrl == old(self).distributor_ctrl
                &&& final(self).cpu_ctrl == old(self).cpu_ctrl
                &&& final(self).priority_mask == old(self).priority_mask
            },
            id >= 32 ==> *final(self) == *old(self),
    {
        if id < 32 {
            let mask: u32 = 1u32 << id;
            self.enabled = self.enabled | mask;
            self.priorities[id as usize] = 0x80;
            self.targets[id as usize] = 0x01;
        }
    }

    /// Brings the controller from reset to "CPU interface accepts all
    /// priorities, distributor forwards the timer interrupt": distributor
    /// on, priority mask fully open, CPU interface on, timer id enabled.
    pub fn init(&mut self)
        ensures
            final(self).distributor_ctrl == 1,
            final(self).priority_mask == 0xFF,
            final(self).cpu_ctrl == 1,
            final(self).enabled == old(self).enabled | (1u32 << IRQ_CNTPNS),
            final(self).priorities@ == old(self).priorities@.update(IRQ_CNTPNS as int, 0x80u8),
            final(self).targets@ == old(self).targets@.update(IRQ_CNTPNS as int, 0x01u8),
    {
        self.distributor_ctrl = 1;
        self.priority_mask = 0xFF;
        self.cpu_ctrl = 1;
        self.enable_irq(IRQ_CNTPNS);
    }
}

/// The interrupt id carried in the low ten bits of an acknowledge value.
pub fn irq_id(iar: u32) -> (id: u32)
    ensures
        id == iar & 0x3FF,
    {
    iar & 0x3FF
}

/// The countdown programmed for a 100 ms period: the counter ticks `freq`
/// times a second, so it reaches `freq / 10` once every tenth of a second.
pub fn timer_reload(freq: u64) -> (tval: u64)
    ensures
        tval == freq / 10,
    {
    freq / 10
}

/// The timer driver's state: the monotonic tick counter and the stored
/// counter frequency.
pub struct TimerState {
    ticks: u64,
    cntfrq: u64,
}

/// A tick counter after one more timer interrupt: one higher, wrapping at
/// the top of the 64-bit range.
pub open spec fn tick_inc(t: u64) -> u64 {
    if t < u64::MAX {
        (t + 1) as u64
    } else {
        0
    }
}

impl TimerState {
    /// The monotonic tick count.
    pub closed spec fn spec_ticks(&self) -> u64 {
        self.ticks
    }

    /// The stored counter frequency.
    pub closed spec fn spec_cntfrq(&self) -> u64 {
        self.cntfrq
    }

    /// Boot state: no ticks seen, frequency not read yet.
    pub fn new() -> (t: TimerState)
        ensures
            t.spec_ticks() == 0,
            t.spec_cntfrq() == 0,
    {
        TimerState { ticks: 0, cntfrq: 0 }
    }

    /// The monotonic tick counter.
    pub fn ticks(&self) -> (t: u64)
        ensures
            t == self.spec_ticks(),
    {
        self.ticks
    }
}

/// Brings the timer up: configures the interrupt controller, stores the
/// counter frequency read from the hardware, and yields the first countdown
/// to program. The caller unmasks IRQs afterwards.
pub fn init(timer: &mut TimerState, gic: &mut GicState, freq: u64) -> (tval: u64)
    ensures
        final(timer).spec_ticks() == old(timer).spec_ticks(),
        final(timer).spec_cntfrq() == freq,
        tval == freq / 10,
        final(gic).distributor_ctrl == 1,
        final(gic).priority_mask == 0xFF,
        final(gic).cpu_ctrl == 1,
        final(gic).enabled == old(gic).enabled | (1u32 << IRQ_CNTPNS),
        final(gic).priorities@ == old(gic).priorities@.update(IRQ_CNTPNS as int, 0x80u8),
        final(gic).targets@ == old(gic).targets@.update(IRQ_CNTPNS as int, 0x01u8),
    {
    gic.init();
    timer.cntfrq = freq;
    timer_reload(freq)
}

/// What the IRQ handler asks the exit path to do: the value to write to the
/// end-of-interrupt register, the thread whose context to resume, whether a
/// context switch happened, and the countdown to reprogram, if any.
pub struct IrqOutcome {
    pub eoi: u32,
    pub resume: usize,
    pub switched: bool,
    pub reload: Option<u64>,
}

/// The core IRQ handler. For a timer interrupt it counts the tick, asks for
/// the timer to be reprogrammed (when the frequency is known), and every
/// fifth tick flips the running thread; any other id is acknowledged and
/// ignored. It never fails and never spins.
pub fn rust_irq_handler(timer: &mut TimerState, threads: &mut Threads, iar: u32) -> (out:
    IrqOutcome)
    requires
        old(threads).wf(),
    ensures
        final(threads).wf(),
        out.eoi == iar,
        out.resume == final(threads).spec_current(),
        forall|i: int| 0 <= i < 2 ==> final(threads).spec_ctx(i) == old(threads).spec_ctx(i),
        iar & 0x3FF == IRQ_CNTPNS ==> {
            &&& final(timer).spec_ticks() == tick_inc(old(timer).spec_ticks())
            &&& final(timer).spec_cntfrq() == old(timer).spec_cntfrq()
            &&& out.reload == (if old(timer).spec_cntfrq() != 0 {
                Some(old(timer).spec_cntfrq() / 10)
            } else {
                None::<u64>
            })
            &&& out.switched == (tick_inc(old(timer).spec_ticks()) % 5 == 0)
            &&& (out.switched ==> final(threads).spec_current() == 1 - old(
                threads,
            ).spec_current())
            &&& (!out.switched ==> final(threads).spec_current() == old(threads).spec_current())
        },
        iar & 0x3FF != IRQ_CNTPNS ==> {
            &&& *final(timer) == *old(timer)
            &&& final(threads).spec_current() == old(threads).spec_current()
            &&& out.reload is None
            &&& !out.switched
        },
    {
    let id = irq_id(iar);

    let mut switched = false;
    let mut reload: Option<u64> = None;
    if id == IRQ_CNTPNS {
        let t = if timer.ticks < u64::MAX {
            timer.ticks + 1
        } else {
            0
        };
        timer.ticks = t;
        if timer.cntfrq != 0 {
            reload = Some(timer_reload(timer.cntfrq));
        }
        // Switch threads every 5 ticks (~500 ms with a 100 ms tick).
        if t % 5 == 0 {
            let _next = threads.switch_next();
            switched = true;
        }
    }

    let resume = threads.current_index();
    IrqOutcome { eoi: iar, resume, switched, reload }
}

/// Which thread is running after `n` timer interrupts from boot
/// (`false` is thread 0, `true` is thread 1), matching the decision
/// `rust_irq_handler` takes at each tick: the index flips at every fifth
/// interrupt.
pub open spec fn spec_current_after(n: nat) -> bool
    decreases n,
{
    if n == 0 {
        false
    } else if n % 5 == 0 {
        !spec_current_after((n - 1) as nat)
    } else {
        spec_current_after((n - 1) as nat)
    }
}

/// How many of the first `n` timer interrupts switched to thread `who`.
pub open spec fn spec_switches_to(n: nat, who: bool) -> nat
    decreases n,
{
    if n == 0 {
        0
    } else {
        spec_switches_to((n - 1) as nat, who) + if n % 5 == 0 && spec_current_after(n) == who {
            1nat
        } else {
            0nat
        }
    }
}

/// The tick count a task observes never decreases across polls: each
/// timer interrupt leaves the counter no smaller, short of the wrap at the
/// top of the 64-bit range.
pub proof fn lemma_tick_nondecreasing(t: u64)
    requires
        t < u64::MAX,
    ensures
        tick_inc(t) >= t,
{
}

/// One five-interrupt stretch starting at a multiple of five: no switch for
/// four interrupts, then one switch to the opposite thread.
proof fn lemma_five_steps(m: nat)
    requires
        m % 5 == 0,
    ensures
        spec_current_after((m + 5) as nat) == !spec_current_after(m),
        spec_switches_to((m + 5) as nat, !spec_current_after(m)) == spec_switches_to(
            m,
            !spec_current_after(m),
        ) + 1,
        spec_switches_to((m + 5) as nat, spec_current_after(m)) == spec_switches_to(
            m,
            spec_current_after(m),
        ),
{
    let c = spec_current_after(m);
    assert((m + 1) % 5 == 1) by {
        lemma_add_mod_noop(m as int, 1, 5);
        lemma_small_mod(1, 5);
    }
    assert((m + 2) % 5 == 2) by {
        lemma_add_mod_noop(m as int, 2, 5);
        lemma_small_mod(2, 5);
    }
    assert((m + 3) % 5 == 3) by {
        lemma_add_mod_noop(m as int, 3, 5);
        lemma_small_mod(3, 5);
    }
    assert((m + 4) % 5 == 4) by {
        lemma_add_mod_noop(m as int, 4, 5);
        lemma_small_mod(4, 5);
    }
    assert((m + 5) % 5 == 0) by {
        lemma_add_mod_noop(m as int, 5, 5);
    }
    assert(spec_current_after((m + 1) as nat) == c);
    assert(spec_current_after((m + 2) as nat) == c);
    assert(spec_current_after((m + 3) as nat) == c);
    assert(spec_current_after((m + 4) as nat) == c);
    assert(spec_current_after((m + 5) as nat) == !c);
    assert(spec_switches_to((m + 1) as nat, !c) == spec_switches_to(m, !c));
    assert(spec_switches_to((m + 2) as nat, !c) == spec_switches_to(m, !c));
    assert(spec_switches_to((m + 3) as nat, !c) == spec_switches_to(m, !c));
    assert(spec_switches_to((m + 4) as nat, !c) == spec_switches_to(m, !c));
    assert(spec_switches_to((m + 5) as nat, !c) == spec_switches_to(m, !c) + 1);
    assert(spec_switches_to((m + 1) as nat, c) == spec_switches_to(m, c));
    assert(spec_switches_to((m + 2) as nat, c) == spec_switches_to(m, c));
    assert(spec_switches_to((m + 3) as nat, c) == spec_switches_to(m, c));
    assert(spec_switches_to((m + 4) as nat, c) == spec_switches_to(m, c));
    assert(spec_switches_to((m + 5) as nat, c) == spec_switches_to(m, c));
}

/// Round-robin fairness: over `n` timer interrupts with `n` divisible by
/// ten, the two threads are switched to equally often, `n / 10` times each,
/// and thread 0 is running again at the end.
pub proof fn lemma_switch_fairness(n: nat)
    requires
        n % 10 == 0,
    ensures
        spec_current_after(n) == false,
        spec_switches_to(n, false) == n / 10,
        spec_switches_to(n, true) == n / 10,
    decreases n,
{
    if n == 0 {
    } else {
        let m = (n - 10) as nat;
        assert(m % 10 == 0) by (nonlinear_arith)
            requires
                n % 10 == 0,
                n >= 10,
                m == n - 10,
        ;
        lemma_switch_fairness(m);
        assert(m % 5 == 0) by (nonlinear_arith)
            requires
                m % 10 == 0,
        ;
        lemma_five_steps(m);
        assert((m + 5) % 5 == 0) by (nonlinear_arith)
            requires
                m % 5 == 0,
        ;
        lemma_five_steps((m + 5) as nat);
        assert(n == m + 10);
        assert(spec_current_after(n) == false);
        assert(n / 10 == m / 10 + 1) by (nonlinear_arith)
            requires
                n == m + 10,
        ;
    }
}

} // verus!
