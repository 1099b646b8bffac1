//! Synchronous message-passing IPC: a single-slot mailbox per endpoint, a
//! router keyed by destination endpoint, and the little-endian payload codec.

use vstd::prelude::*;

verus! {

/// Largest payload carried by a message, in bytes.
pub const MAX_PAYLOAD: usize = 8;

/// Named endpoints of the closed IPC topology.
#[derive(Copy, Clone, Debug, PartialEq, Eq, Structural)]
pub enum EndpointId {
    Ping,
    Pong,
}

/// Kind of a message, mirroring the endpoint that emits it.
#[derive(Copy, Clone, Debug, PartialEq, Eq, Structural)]
pub enum MsgType {
    Ping,
    Pong,
}

/// Fixed message header: source, destination, kind, payload length and a
/// 32-bit sequence number.
#[derive(Copy, Clone, Debug, PartialEq, Eq, Structural)]
pub struct MsgHeader {
    pub src: EndpointId,
    pub dst: EndpointId,
    pub ty: MsgType,
    pub len: u8,
    pub seq: u32,
}

/// A header plus a fixed eight-byte payload.
#[derive(Copy, Clone, Debug)]
pub struct Message {
    pub header: MsgHeader,
    pub payload: [u8; MAX_PAYLOAD],
}

/// Mathematical image of a message: its header fields and its payload
/// bytes.
pub struct MsgView {
    pub src: EndpointId,
    pub dst: EndpointId,
    pub ty: MsgType,
    pub len: u8,
    pub seq: u32,
    pub payload: Seq<u8>,
}

impl View for Message {
    type V = MsgView;

    open spec fn view(&self) -> MsgView {
        MsgView {
            src: self.header.src,
            dst: self.header.dst,
            ty: self.header.ty,
            len: self.header.len,
            seq: self.header.seq,
            payload: self.payload@,
        }
    }
}

/// The sole fallible IPC outcome.
#[derive(Copy, Clone, Debug, PartialEq, Eq, Structural)]
pub enum SendError {
    MailboxFull,
}

/// The message a fresh mailbox is initialized with; never observable, since
/// an empty mailbox hands nothing out.
pub fn empty_message() -> (m: Message)
    ensures
        m@ == (MsgView {
            src: EndpointId::Ping,
            dst: EndpointId::Ping,
            ty: MsgType::Ping,
            len: 0,
            seq: 0,
            payload: Seq::new(8, |i: int| 0u8),
        }),
{
    let m = Message {
        header: MsgHeader {
            src: EndpointId::Ping,
            dst: EndpointId::Ping,
            ty: MsgType::Ping,
            len: 0,
            seq: 0,
        },
        payload: [0u8; MAX_PAYLOAD],
    };
    proof {
        assert(m@.payload =~= Seq::new(8, |i: int| 0u8));
    }
    m
}

/// Single-slot message buffer: either empty or holding exactly one message.
#[derive(Copy, Clone)]
pub struct Mailbox {
    full: bool,
    msg: Message,
}

impl Mailbox {
    /// What this mailbox currently buffers: a full mailbox is `Some` of its
    /// message's image, an empty one is `None`.
    pub closed spec fn slot(self) -> Option<MsgView> {
        if self.full {
            Some(self.msg@)
        } else {
            None
        }
    }

    pub fn new() -> (m: Mailbox)
        ensures
            m.slot() is None,
    {
        Mailbox { full: false, msg: empty_message() }
    }

    /// Buffers `msg` if the slot is free; a put into a full mailbox fails
    /// without mutating the buffer.
    pub fn put(&mut self, msg: Message) -> (r: Result<(), SendError>)
        ensures
            old(self).slot() is Some ==> r == Result::<(), SendError>::Err(SendError::MailboxFull)
                && *final(self) == *old(self),
            old(self).slot() is None ==> r == Result::<(), SendError>::Ok(())
                && final(self).slot() == Some(msg@),
    {
        if self.full {
            return Err(SendError::MailboxFull);
        }
        self.msg = msg;
        self.full = true;
        Ok(())
    }

    /// Empties the slot and returns the buffered message; a take from an
    /// empty mailbox returns nothing without mutating state.
    pub fn take(&mut self) -> (r: Option<Message>)
        ensures
            old(self).slot() is Some ==> r is Some && r->Some_0@ == old(self).slot()->Some_0
                && final(self).slot() is None,
            old(self).slot() is None ==> r is None && *final(self) == *old(self),
    {
        if !self.full {
            return None;
        }
        self.full = false;
        Some(self.msg)
    }
}

/// Mathematical model of the router: what each endpoint's mailbox buffers.
pub struct RouterView {
    pub ping: Option<MsgView>,
    pub pong: Option<MsgView>,
}

impl RouterView {
    /// The buffered message of endpoint `e`, if any.
    pub open spec fn slot(self, e: EndpointId) -> Option<MsgView> {
        match e {
            EndpointId::Ping => self.ping,
            EndpointId::Pong => self.pong,
        }
    }

    /// This view with endpoint `e`'s slot replaced by `m`.
    pub open spec fn store(self, e: EndpointId, m: Option<MsgView>) -> RouterView {
        match e {
            EndpointId::Ping => (RouterView { ping: m, ..self }),
            EndpointId::Pong => (RouterView { pong: m, ..self }),
        }
    }
}

/// What `Router::send` does to the router state, and what it returns.
pub open spec fn spec_send(r: RouterView, msg: MsgView) -> (RouterView, Result<(), SendError>) {
    if r.slot(msg.dst) is Some {
        (r, Err(SendError::MailboxFull))
    } else {
        (r.store(msg.dst, Some(msg)), Ok(()))
    }
}

/// What `Router::recv` does to the router state, and what it returns.
pub open spec fn spec_recv(r: RouterView, dst: EndpointId) -> (RouterView, Option<MsgView>) {
    match r.slot(dst) {
        Some(m) => (r.store(dst, None), Some(m)),
        None => (r, None),
    }
}

/// Delivers messages between the closed set of endpoints: one mailbox each.
pub struct Router {
    ping: Mailbox,
    pong: Mailbox,
}

impl View for Router {
    type V = RouterView;

    closed spec fn view(&self) -> RouterView {
        RouterView { ping: self.ping.slot(), pong: self.pong.slot() }
    }
}

impl Router {
    pub fn new() -> (r: Router)
        ensures
            r@.ping is None,
            r@.pong is None,
    {
        Router { ping: Mailbox::new(), pong: Mailbox::new() }
    }

    /// Routes `msg` by its destination header field; fails with
    /// `MailboxFull`, leaving every mailbox untouched, when that endpoint
    /// already buffers a message.
    pub fn send(&mut self, msg: Message) -> (r: Result<(), SendError>)
        ensures
            final(self)@ == spec_send(old(self)@, msg@).0,
            r == spec_send(old(self)@, msg@).1,
    {
        let r = match msg.header.dst {
            EndpointId::Ping => self.ping.put(msg),
            EndpointId::Pong => self.pong.put(msg),
        };
        r
    }

    /// Empties and returns `dst`'s mailbox, or nothing if it is empty.
    pub fn recv(&mut self, dst: EndpointId) -> (r: Option<Message>)
        ensures
            final(self)@ == spec_recv(old(self)@, dst).0,
            r is Some <==> spec_recv(old(self)@, dst).1 is Some,
            r is Some ==> r->Some_0@ == spec_recv(old(self)@, dst).1->Some_0,
    {
        let r = match dst {
            EndpointId::Ping => self.ping.take(),
            EndpointId::Pong => self.pong.take(),
        };
        r
    }

    /// Whether endpoint `e`'s mailbox currently buffers a message.
    pub fn is_full(&self, e: EndpointId) -> (b: bool)
        ensures
            b == (self@.slot(e) is Some),
    {
        match e {
            EndpointId::Ping => self.ping.full,
            EndpointId::Pong => self.pong.full,
        }
    }
}

/// A send that found the destination free is returned byte-identical by the
/// next receive on that endpoint.
pub proof fn lemma_send_then_recv(r: RouterView, msg: MsgView)
    requires
        spec_send(r, msg).1 is Ok,
    ensures
        spec_recv(spec_send(r, msg).0, msg.dst).1 == Some(msg),
        spec_recv(spec_send(r, msg).0, msg.dst).0.slot(msg.dst) is None,
{
}

/// A receive on an empty mailbox returns nothing and changes nothing.
pub proof fn lemma_recv_empty(r: RouterView, dst: EndpointId)
    requires
        r.slot(dst) is None,
    ensures
        spec_recv(r, dst).1 is None,
        spec_recv(r, dst).0 == r,
{
}

/// A send into a full mailbox fails and does not overwrite the buffered
/// message.
pub proof fn lemma_send_full(r: RouterView, msg: MsgView)
    requires
        r.slot(msg.dst) is Some,
    ensures
        spec_send(r, msg).1 == Result::<(), SendError>::Err(SendError::MailboxFull),
        spec_send(r, msg).0 == r,
{
}

/// The little-endian byte image of a 32-bit value, lowest byte first.
pub open spec fn u32_le_bytes(v: u32) -> Seq<u8> {
    seq![
        (v & 0xFF) as u8,
        ((v >> 8) & 0xFF) as u8,
        ((v >> 16) & 0xFF) as u8,
        ((v >> 24) & 0xFF) as u8,
    ]
}

/// The 32-bit value whose little-endian byte image the first four elements
/// of `b` are.
pub open spec fn u32_from_le(b: Seq<u8>) -> u32
    recommends
        b.len() >= 4,
{
    (b[0] as u32) | ((b[1] as u32) << 8) | ((b[2] as u32) << 16) | ((b[3] as u32) << 24)
}

/// Packs `v` into the first four bytes of `dst`, little-endian; the rest of
/// `dst` is untouched.
pub fn write_u32_le(dst: &mut [u8], v: u32)
    requires
        old(dst)@.len() >= 4,
    ensures
        final(dst)@.len() == old(dst)@.len(),
        final(dst)@[0] == u32_le_bytes(v)[0],
        final(dst)@[1] == u32_le_bytes(v)[1],
        final(dst)@[2] == u32_le_bytes(v)[2],
        final(dst)@[3] == u32_le_bytes(v)[3],
        forall|i: int| 4 <= i < old(dst)@.len() ==> final(dst)@[i] == old(dst)@[i],
    {
    dst[0] = (v & 0xFF) as u8;
    dst[1] = ((v >> 8) & 0xFF) as u8;
    dst[2] = ((v >> 16) & 0xFF) as u8;
    dst[3] = ((v >> 24) & 0xFF) as u8;
}

/// Reads a 32-bit value from the first four bytes of `src`, little-endian.
pub fn read_u32_le(src: &[u8]) -> (v: u32)
    requires
        src@.len() >= 4,
    ensures
        v == u32_from_le(src@),
    {
    (src[0] as u32) | ((src[1] as u32) << 8) | ((src[2] as u32) << 16) | ((src[3] as u32) << 24)
}

/// Unpacking the little-endian image of any 32-bit value gives the value
/// back.
pub proof fn lemma_u32_le_round_trip(v: u32)
    ensures
        u32_from_le(u32_le_bytes(v)) == v,
{
    assert(((v & 0xFF) as u8 as u32) | ((((v >> 8) & 0xFF) as u8 as u32) << 8)
        | ((((v >> 16) & 0xFF) as u8 as u32) << 16) | ((((v >> 24) & 0xFF) as u8 as u32) << 24)
        == v) by (bit_vector);
}

} // verus!
