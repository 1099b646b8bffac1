//! Cooperative task scheduler and the ping/pong demo tasks.
//!
//! Tasks are polled sequentially in index order with a monotonically
//! increasing tick; the kernel's entry loop repeats the sweep forever,
//! idling on the wait-for-interrupt primitive in between. Here the caller
//! gives the number of sweeps to perform.

use vstd::prelude::*;
use crate::ipc::{
    EndpointId, Message, MsgHeader, MsgType, MsgView, Router, RouterView, spec_recv, spec_send,
    u32_from_le, u32_le_bytes, read_u32_le, write_u32_le,
};

verus! {

/// A pollable task: it owns an endpoint and may read messages addressed to
/// it and emit at most one message per poll. Tasks must not block.
pub trait Task {
    fn id(&self) -> EndpointId;

    fn poll(&mut self, router: &mut Router, tick: u64);
}

/// Mathematical image of the ping task: its next sequence number and
/// whether it awaits a reply.
pub struct PingView {
    pub seq: u32,
    pub waiting: bool,
}

/// The next 32-bit sequence number, wrapping at the top of the range.
pub open spec fn seq_wrap_inc(s: u32) -> u32 {
    if s < u32::MAX {
        (s + 1) as u32
    } else {
        0
    }
}

/// The ping message emitted with sequence `s`: four little-endian payload
/// bytes carrying `s`, the rest zero.
pub open spec fn spec_ping_message(s: u32) -> MsgView {
    MsgView {
        src: EndpointId::Ping,
        dst: EndpointId::Pong,
        ty: MsgType::Ping,
        len: 4,
        seq: s,
        payload: u32_le_bytes(s) + seq![0u8, 0u8, 0u8, 0u8],
    }
}

/// The pong reply carrying sequence `s` back to the ping task.
pub open spec fn spec_pong_message(s: u32) -> MsgView {
    MsgView {
        src: EndpointId::Pong,
        dst: EndpointId::Ping,
        ty: MsgType::Pong,
        len: 4,
        seq: s,
        payload: u32_le_bytes(s) + seq![0u8, 0u8, 0u8, 0u8],
    }
}

/// What one poll of the ping task does — one state-machine transition per
/// poll. Waiting: consume the buffered message and go idle on a pong
/// reply. Idle on a tick divisible by ten: send the next ping and advance
/// the sequence, unless the destination mailbox is full, in which case
/// nothing changes and the next matching tick retries.
pub open spec fn spec_ping_poll(p: PingView, r: RouterView, tick: u64) -> (PingView, RouterView) {
    if p.waiting {
        let r1 = spec_recv(r, EndpointId::Ping).0;
        let got = spec_recv(r, EndpointId::Ping).1;
        let waiting1 = !(got is Some && got->Some_0.ty == MsgType::Pong);
        ((PingView { seq: p.seq, waiting: waiting1 }), r1)
    } else if tick % 10 == 0 {
        let outcome = spec_send(r, spec_ping_message(p.seq));
        if outcome.1 is Ok {
            ((PingView { seq: seq_wrap_inc(p.seq), waiting: true }), outcome.0)
        } else {
            (p, r)
        }
    } else {
        (p, r)
    }
}

/// What one poll of the pong task does: consume a buffered ping, extract
/// the little-endian sequence from its payload, and send a pong carrying
/// the same sequence (dropped if the ping task's mailbox is full).
pub open spec fn spec_pong_poll(r: RouterView, tick: u64) -> RouterView {
    match r.slot(EndpointId::Pong) {
        Some(m) => {
            let r1 = spec_recv(r, EndpointId::Pong).0;
            if m.ty == MsgType::Ping {
                spec_send(r1, spec_pong_message(u32_from_le(m.payload))).0
            } else {
                r1
            }
        },
        None => r,
    }
}

/// The eight-byte payload whose first four bytes carry `v` little-endian.
pub fn payload_from_u32(v: u32) -> (p: [u8; 8])
    ensures
        p@ == u32_le_bytes(v) + seq![0u8, 0u8, 0u8, 0u8],
    {
    let mut p: [u8; 8] = [0u8; 8];
    write_u32_le(&mut p, v);
    proof {
        assert(p@ =~= u32_le_bytes(v) + seq![0u8, 0u8, 0u8, 0u8]);
    }
    p
}

/// Sends a ping every tenth tick and waits for the matching pong:
/// state machine over {idle, waiting} with a monotonically increasing
/// sequence number.
pub struct PingTask {
    seq: u32,
    waiting: bool,
}

impl View for PingTask {
    type V = PingView;

    closed spec fn view(&self) -> PingView {
        PingView { seq: self.seq, waiting: self.waiting }
    }
}

impl PingTask {
    pub fn new() -> (t: PingTask)
        ensures
            t@.seq == 1,
            !t@.waiting,
    {
        PingTask { seq: 1, waiting: false }
    }

    /// The sequence number the next ping will carry.
    pub fn seq(&self) -> (s: u32)
        ensures
            s == self@.seq,
    {
        self.seq
    }

    /// Whether the task awaits a pong reply.
    pub fn waiting(&self) -> (w: bool)
        ensures
            w == self@.waiting,
    {
        self.waiting
    }

    /// One poll: exactly the `spec_ping_poll` transition.
    pub fn poll(&mut self, router: &mut Router, tick: u64)
        ensures
            final(self)@ == spec_ping_poll(old(self)@, old(router)@, tick).0,
            final(router)@ == spec_ping_poll(old(self)@, old(router)@, tick).1,
    {
        if self.waiting {
            // Waiting: consume the buffered reply, if any, and go idle on
            // a pong.
            if let Some(msg) = router.recv(EndpointId::Ping) {
                if matches!(msg.header.ty, MsgType::Pong) {
                    self.waiting = false;
                }
            }
        } else if tick % 10 == 0 {
            // Idle: send a ping periodically; with a 100 ms timer tick
            // this sends roughly once a second.
            let payload = payload_from_u32(self.seq);
            let msg = Message {
                header: MsgHeader {
                    src: EndpointId::Ping,
                    dst: EndpointId::Pong,
                    ty: MsgType::Ping,
                    len: 4,
                    seq: self.seq,
                },
                payload,
            };
            match router.send(msg) {
                Ok(()) => {
                    self.waiting = true;
                    self.seq = if self.seq < u32::MAX {
                        self.seq + 1
                    } else {
                        0
                    };
                },
                Err(_) => {},
            }
        }
    }
}

impl Task for PingTask {
    fn id(&self) -> EndpointId {
        EndpointId::Ping
    }

    fn poll(&mut self, router: &mut Router, tick: u64) {
        PingTask::poll(self, router, tick)
    }
}

/// Stateless echo: answers each ping with a pong carrying the same
/// sequence.
pub struct PongTask {}

impl PongTask {
    pub fn new() -> (t: PongTask) {
        PongTask {}
    }

    /// One poll: exactly the `spec_pong_poll` transition.
    pub fn poll(&mut self, router: &mut Router, tick: u64)
        ensures
            final(router)@ == spec_pong_poll(old(router)@, tick),
            *final(self) == *old(self),
    {
        if let Some(msg) = router.recv(EndpointId::Pong) {
            if matches!(msg.header.ty, MsgType::Ping) {
                let s = read_u32_le(msg.payload.as_slice());
                let reply = Message {
                    header: MsgHeader {
                        src: EndpointId::Pong,
                        dst: EndpointId::Ping,
                        ty: MsgType::Pong,
                        len: 4,
                        seq: s,
                    },
                    payload: payload_from_u32(s),
                };
                let _ = router.send(reply);
            }
        }
    }
}

impl Task for PongTask {
    fn id(&self) -> EndpointId {
        EndpointId::Pong
    }

    fn poll(&mut self, router: &mut Router, tick: u64) {
        PongTask::poll(self, router, tick)
    }
}

/// One full sweep at `tick`: the ping task polls, then the pong task.
pub open spec fn spec_sweep(p: PingView, r: RouterView, tick: u64) -> (PingView, RouterView) {
    let pr = spec_ping_poll(p, r, tick);
    (pr.0, spec_pong_poll(pr.1, tick))
}

/// The task and router state after `n` sweeps from `(p, r)`, the sweeps
/// running at ticks 0, 1, ….
pub open spec fn spec_run(p: PingView, r: RouterView, n: nat) -> (PingView, RouterView)
    decreases n,
{
    if n == 0 {
        (p, r)
    } else {
        let prev = spec_run(p, r, (n - 1) as nat);
        spec_sweep(prev.0, prev.1, (n - 1) as u64)
    }
}

/// Drives the task pair: each iteration polls the ping task then the pong
/// task with the current tick, then advances the tick. The kernel's entry
/// loop repeats this forever, idling on the halt primitive between sweeps;
/// here the caller gives the number of sweeps, and the final tick count is
/// returned.
pub fn run(ping: &mut PingTask, pong: &mut PongTask, router: &mut Router, sweeps: u64) -> (ticks:
    u64)
    ensures
        ticks == sweeps,
        final(ping)@ == spec_run(old(ping)@, old(router)@, sweeps as nat).0,
        final(router)@ == spec_run(old(ping)@, old(router)@, sweeps as nat).1,
    {
    let ghost p0 = ping@;
    let ghost r0 = router@;
    let mut tick: u64 = 0;
    while tick < sweeps
        invariant
            tick <= sweeps,
            ping@ == spec_run(p0, r0, tick as nat).0,
            router@ == spec_run(p0, r0, tick as nat).1,
        decreases sweeps - tick,
    {
        ping.poll(router, tick);
        pong.poll(router, tick);
        tick = tick + 1;
        proof {
            assert(spec_run(p0, r0, tick as nat) == spec_sweep(
                spec_run(p0, r0, (tick - 1) as nat).0,
                spec_run(p0, r0, (tick - 1) as nat).1,
                (tick - 1) as u64,
            ));
        }
    }
    tick
}

} // verus!
