use vstd::prelude::*;
use crate::relay::Relay;

verus! {

/// Readiness tag registered for the first endpoint of a session.
pub const TAG_GUEST1_IN: u64 = 1;

/// Readiness tag registered for the second endpoint of a session.
pub const TAG_GUEST2_IN: u64 = 2;

/// Which endpoint of a session became readable; it names the direction
/// relayed next: bytes received on that endpoint go to the other one.
#[derive(Clone, Copy, PartialEq, Eq, Structural, Debug)]
pub enum ReadySide {
    Guest1,
    Guest2,
}

/// The readiness tag under which a side's endpoint is registered.
pub open spec fn spec_tag_for_side(s: ReadySide) -> u64 {
    match s {
        ReadySide::Guest1 => TAG_GUEST1_IN,
        ReadySide::Guest2 => TAG_GUEST2_IN,
    }
}

/// The side a reported readiness tag belongs to; an unknown tag belongs
/// to no side and signals a registration invariant violation.
pub open spec fn spec_side_for_tag(tag: u64) -> Option<ReadySide> {
    if tag == TAG_GUEST1_IN {
        Some(ReadySide::Guest1)
    } else if tag == TAG_GUEST2_IN {
        Some(ReadySide::Guest2)
    } else {
        None
    }
}

/// The readiness tag to register a side's endpoint under.
pub fn tag_for_side(s: ReadySide) -> (r: u64)
    ensures
        r == spec_tag_for_side(s),
{
    match s {
        ReadySide::Guest1 => TAG_GUEST1_IN,
        ReadySide::Guest2 => TAG_GUEST2_IN,
    }
}

/// Maps a readiness tag reported by the multiplexer back to the side it
/// was registered for; `None` for a tag this session never registered.
pub fn side_for_tag(tag: u64) -> (r: Option<ReadySide>)
    ensures
        r == spec_side_for_tag(tag),
{
    if tag == TAG_GUEST1_IN {
        Some(ReadySide::Guest1)
    } else if tag == TAG_GUEST2_IN {
        Some(ReadySide::Guest2)
    } else {
        None
    }
}

/// Registration and reporting agree: the tag registered for a side is
/// reported back as exactly that side, so a session that registers only
/// these two tags can never see a foreign one as its own.
pub proof fn lemma_tag_side_round_trip(s: ReadySide)
    ensures
        spec_side_for_tag(spec_tag_for_side(s)) == Some(s),
{
}

/// How a session ended, if it has.
#[derive(Clone, Copy, PartialEq, Eq, Structural, Debug)]
pub enum SessionStatus {
    /// The session is still relaying.
    Active,
    /// One peer performed an orderly shutdown; not an error.
    Closed,
    /// A receive or send failed; the session ends, other sessions are
    /// untouched.
    Failed,
}

/// The forwarding engine of one session: two relay directions and a
/// running flag. The engine makes every decision of the duplex relay —
/// which bytes to send next, when a chunk is drained, when the session
/// ends and whether it ended in error — while the surrounding binary
/// performs the blocking socket calls and reports their outcomes.
pub struct Engine {
    buf_len: usize,
    status: SessionStatus,
    from_guest1: Relay,
    from_guest2: Relay,
}

impl Engine {
    /// The relay direction fed by the given side's endpoint.
    pub closed spec fn relay_of(self, s: ReadySide) -> Relay {
        match s {
            ReadySide::Guest1 => self.from_guest1,
            ReadySide::Guest2 => self.from_guest2,
        }
    }

    /// Every byte received from the given side's endpoint so far.
    pub open spec fn received(self, s: ReadySide) -> Seq<u8> {
        self.relay_of(s).received()
    }

    /// Every byte delivered to the opposite endpoint so far.
    pub open spec fn delivered(self, s: ReadySide) -> Seq<u8> {
        self.relay_of(s).delivered()
    }

    /// No bytes of the given direction wait to be sent.
    pub open spec fn is_idle(self, s: ReadySide) -> bool {
        self.relay_of(s).is_idle()
    }

    /// The session's status.
    pub closed spec fn status(self) -> SessionStatus {
        self.status
    }

    /// The configured chunk size.
    pub closed spec fn buf_len(self) -> usize {
        self.buf_len
    }

    /// The engine invariant: a positive buffer length and both relay
    /// directions well-formed.
    pub open spec fn wf(self) -> bool {
        &&& self.buf_len() >= 1
        &&& self.relay_of(ReadySide::Guest1).wf()
        &&& self.relay_of(ReadySide::Guest2).wf()
    }

    /// A fresh engine for one just-paired session.
    pub fn new(buf_len: usize) -> (r: Engine)
        requires
            buf_len >= 1,
        ensures
            r.wf(),
            r.status() == SessionStatus::Active,
            r.buf_len() == buf_len,
            r.received(ReadySide::Guest1) == Seq::<u8>::empty(),
            r.received(ReadySide::Guest2) == Seq::<u8>::empty(),
            r.delivered(ReadySide::Guest1) == Seq::<u8>::empty(),
            r.delivered(ReadySide::Guest2) == Seq::<u8>::empty(),
            r.is_idle(ReadySide::Guest1),
            r.is_idle(ReadySide::Guest2),
    {
        Engine {
            buf_len,
            status: SessionStatus::Active,
            from_guest1: Relay::new(),
            from_guest2: Relay::new(),
        }
    }

    /// Whether the relay loop keeps running.
    pub fn is_active(&self) -> (r: bool)
        ensures
            r == (self.status() == SessionStatus::Active),
    {
        match self.status {
            SessionStatus::Active => true,
            _ => false,
        }
    }

    /// The session's status, for the teardown log line.
    pub fn current_status(&self) -> (r: SessionStatus)
        ensures
            r == self.status(),
    {
        self.status
    }

    /// Takes in one chunk received from `side`'s endpoint. A receive
    /// never returns more than the buffer length, and a new receive is
    /// only issued once the previous chunk is drained.
    pub fn begin_chunk(&mut self, side: ReadySide, chunk: Vec<u8>)
        requires
            old(self).wf(),
            old(self).status() == SessionStatus::Active,
            old(self).is_idle(side),
            1 <= chunk@.len() <= old(self).buf_len(),
        ensures
            final(self).wf(),
            final(self).status() == SessionStatus::Active,
            final(self).buf_len() == old(self).buf_len(),
            final(self).received(side) == old(self).received(side) + chunk@,
            final(self).delivered(side) == old(self).delivered(side),
            final(self).pending(side) == chunk@,
            final(self).relay_of(side.other()) == old(self).relay_of(side.other()),
    {
        match side {
            ReadySide::Guest1 => self.from_guest1.accept_chunk(chunk),
            ReadySide::Guest2 => self.from_guest2.accept_chunk(chunk),
        }
    }

    /// The bytes the next send on the opposite endpoint must be given:
    /// the not-yet-accepted tail of the current chunk.
    pub fn pending_slice(&self, side: ReadySide) -> (r: &[u8])
        requires
            self.wf(),
        ensures
            r@ == self.pending(side),
    {
        match side {
            ReadySide::Guest1 => self.from_guest1.pending_slice(),
            ReadySide::Guest2 => self.from_guest2.pending_slice(),
        }
    }

    /// The bytes of `side`'s direction not yet accepted by the opposite
    /// endpoint.
    pub open spec fn pending(self, side: ReadySide) -> Seq<u8> {
        self.relay_of(side).pending()
    }

    /// Records that a send on the opposite endpoint accepted `n` bytes;
    /// a partial send resumes from the new offset.
    pub fn advance(&mut self, side: ReadySide, n: usize)
        requires
            old(self).wf(),
            n <= old(self).pending(side).len(),
        ensures
            final(self).wf(),
            final(self).status() == old(self).status(),
            final(self).buf_len() == old(self).buf_len(),
            final(self).received(side) == old(self).received(side),
            final(self).delivered(side) == old(self).delivered(side)
                + old(self).pending(side).take(n as int),
            final(self).pending(side) == old(self).pending(side).skip(n as int),
            final(self).relay_of(side.other()) == old(self).relay_of(side.other()),
    {
        match side {
            ReadySide::Guest1 => self.from_guest1.advance(n),
            ReadySide::Guest2 => self.from_guest2.advance(n),
        }
    }

    /// Whether `side`'s current chunk is fully drained, so the loop may
    /// poll for readiness again.
    pub fn chunk_done(&self, side: ReadySide) -> (r: bool)
        requires
            self.wf(),
        ensures
            r == self.is_idle(side),
    {
        match side {
            ReadySide::Guest1 => self.from_guest1.is_done(),
            ReadySide::Guest2 => self.from_guest2.is_done(),
        }
    }

    /// A receive on `side` returned zero bytes: the peer performed an
    /// orderly shutdown. The session stops relaying without reporting an
    /// error, and the byte histories stay as they are.
    pub fn on_peer_closed(&mut self, side: ReadySide)
        requires
            old(self).wf(),
            old(self).status() == SessionStatus::Active,
        ensures
            final(self).wf(),
            final(self).status() == SessionStatus::Closed,
            final(self).status() != SessionStatus::Failed,
            final(self).buf_len() == old(self).buf_len(),
            final(self).relay_of(ReadySide::Guest1) == old(self).relay_of(ReadySide::Guest1),
            final(self).relay_of(ReadySide::Guest2) == old(self).relay_of(ReadySide::Guest2),
    {
        let _ = side;
        self.status = SessionStatus::Closed;
    }

    /// A receive or send failed: the session ends in error. Only this engine's state changes; other
    /// sessions hold their own engines and are unaffected.
    pub fn on_io_error(&mut self)
        requires
            old(self).wf(),
            old(self).status() == SessionStatus::Active,
        ensures
            final(self).wf(),
            final(self).status() == SessionStatus::Failed,
            final(self).buf_len() == old(self).buf_len(),
            final(self).relay_of(ReadySide::Guest1) == old(self).relay_of(ReadySide::Guest1),
            final(self).relay_of(ReadySide::Guest2) == old(self).relay_of(ReadySide::Guest2),
    {
        self.status = SessionStatus::Failed;
    }
}

impl ReadySide {
    /// The opposite side: the endpoint the relayed bytes are sent to.
    pub open spec fn spec_other(self) -> ReadySide {
        match self {
            ReadySide::Guest1 => ReadySide::Guest2,
            ReadySide::Guest2 => ReadySide::Guest1,
        }
    }

    /// The opposite side, executably.
    #[verifier::when_used_as_spec(spec_other)]
    pub fn other(self) -> (r: ReadySide)
        ensures
            r == self.spec_other(),
    {
        match self {
            ReadySide::Guest1 => ReadySide::Guest2,
            ReadySide::Guest2 => ReadySide::Guest1,
        }
    }
}

/// Byte-exact duplex relay at session level: whenever a direction has no
/// pending bytes — in particular whenever the session ends — its
/// destination endpoint has accepted exactly the bytes received from its
/// source endpoint, in order, whatever the buffer length and however the
/// sends were cut.
pub proof fn lemma_engine_byte_exact(e: Engine, s: ReadySide)
    requires
        e.wf(),
        e.is_idle(s),
    ensures
        e.delivered(s) == e.received(s),
{
    crate::relay::lemma_relay_byte_exact(e.relay_of(s));
}

} // verus!
