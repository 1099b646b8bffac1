//! Preemptive context switching: per-thread saved register state and a
//! round-robin policy over the fixed pair of kernel threads.
//!
//! The assembly entry path saves the interrupted registers into the current
//! context and restores from whichever context the IRQ handler selects; the
//! first-entry stub loads thread 0's context and returns into its entry
//! function.

use vstd::prelude::*;

verus! {

/// Saved processor state stored into every fresh thread context: kernel
/// exception level with the kernel stack pointer selected, interrupts
/// unmasked as the boot path left them.
pub const SPSR_EL1H: u64 = 0x5;

/// Bytes of each thread's statically allocated stack.
pub const STACK_SIZE: u64 = 16 * 1024;

/// The minimum state to resume a thread on this architecture: 31 general
/// registers, the stack pointer, the exception link register (return
/// address), and the saved processor state.
#[derive(Clone, Copy)]
pub struct Context {
    pub x: [u64; 31],
    pub sp: u64,
    pub elr: u64,
    pub spsr: u64,
}

/// The fixed thread set: two saved contexts and the index of the thread that
/// is currently running.
pub struct Threads {
    ctx: [Context; 2],
    current: usize,
}

impl Threads {
    /// Index of the running thread.
    pub closed spec fn spec_current(&self) -> usize {
        self.current
    }

    /// The saved context of thread `i`.
    pub closed spec fn spec_ctx(&self, i: int) -> Context {
        self.ctx@[i]
    }

    /// Exactly one of the two threads is running.
    pub closed spec fn wf(&self) -> bool {
        self.current < 2
    }

    /// Prepares both thread contexts: the saved stack pointer at the top of
    /// the thread's stack, the saved return address at its entry function,
    /// and the boot-time processor state. Thread 0 is the one the
    /// first-entry stub starts.
    pub fn init(stack_top0: u64, stack_top1: u64, entry0: u64, entry1: u64) -> (t: Threads)
        requires
            stack_top0 % 16 == 0,
            stack_top1 % 16 == 0,
        ensures
            t.wf(),
            t.spec_current() == 0,
            t.spec_ctx(0).sp == stack_top0,
            t.spec_ctx(0).elr == entry0,
            t.spec_ctx(0).spsr == SPSR_EL1H,
            t.spec_ctx(1).sp == stack_top1,
            t.spec_ctx(1).elr == entry1,
            t.spec_ctx(1).spsr == SPSR_EL1H,
            forall|r: int| 0 <= r < 31 ==> t.spec_ctx(0).x@[r] == 0,
            forall|r: int| 0 <= r < 31 ==> t.spec_ctx(1).x@[r] == 0,
    {
        let c0 = Context { x: [0u64; 31], sp: stack_top0, elr: entry0, spsr: SPSR_EL1H };
        let c1 = Context { x: [0u64; 31], sp: stack_top1, elr: entry1, spsr: SPSR_EL1H };
        Threads { ctx: [c0, c1], current: 0 }
    }

    /// The context the first-entry stub restores: thread 0's.
    pub fn first_context(&self) -> (c: Context)
        ensures
            c == self.spec_ctx(0),
    {
        self.ctx[0]
    }

    /// Index of the running thread.
    pub fn current_index(&self) -> (i: usize)
        ensures
            i == self.spec_current(),
    {
        self.current
    }

    /// The saved context of thread `i`.
    pub fn context_of(&self, i: usize) -> (c: Context)
        requires
            i < 2,
        ensures
            c == self.spec_ctx(i as int),
    {
        self.ctx[i]
    }

    /// Round-robin step: flips the running index between 0 and 1 and returns
    /// the new index, whose context the IRQ exit path restores. The saved
    /// contexts themselves are untouched.
    pub fn switch_next(&mut self) -> (next: usize)
        requires
            old(self).wf(),
        ensures
            final(self).wf(),
            next == 1 - old(self).spec_current(),
            final(self).spec_current() == next,
            forall|i: int| 0 <= i < 2 ==> final(self).spec_ctx(i) == old(self).spec_ctx(i),
    {
        let cur = self.current;
        proof {
            assert(cur < 2 ==> (cur ^ 1) == 1 - cur) by (bit_vector);
        }
        let next = cur ^ 1;
        self.current = next;
        next
    }
}

} // verus!
