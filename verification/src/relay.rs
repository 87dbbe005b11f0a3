use vstd::prelude::*;

verus! {

/// One direction of a session's byte relay.
///
/// The surrounding binary receives a chunk of bytes from one endpoint,
/// hands it in with `accept_chunk`, and then repeatedly sends
/// `pending_slice` on the other endpoint, reporting with `advance` how
/// many bytes each send accepted, until `is_idle` holds. The relay keeps
/// the full history of both ends in ghost state: `received` is every byte
/// taken from the source endpoint, `delivered` every byte the destination
/// endpoint has accepted, so that byte-exact forwarding is an invariant
/// rather than a hope.
pub struct Relay {
    chunk: Vec<u8>,
    off: usize,
    received: Ghost<Seq<u8>>,
    delivered: Ghost<Seq<u8>>,
}

impl Relay {
    /// Every byte ever received from the source endpoint, in order.
    pub closed spec fn received(self) -> Seq<u8> {
        self.received@
    }

    /// Every byte the destination endpoint has accepted, in order.
    pub closed spec fn delivered(self) -> Seq<u8> {
        self.delivered@
    }

    /// The bytes of the current chunk not yet accepted by the destination.
    pub closed spec fn pending(self) -> Seq<u8> {
        self.chunk@.skip(self.off as int)
    }

    /// No bytes are waiting to be sent.
    pub open spec fn is_idle(self) -> bool {
        self.pending().len() == 0
    }

    /// The relay invariant: what was received is exactly what was
    /// delivered followed by what is still pending.
    pub closed spec fn wf(self) -> bool {
        &&& self.off <= self.chunk@.len()
        &&& self.received@ == self.delivered@ + self.pending()
    }

    /// A fresh relay direction with no history.
    pub fn new() -> (r: Relay)
        ensures
            r.wf(),
            r.is_idle(),
            r.received() == Seq::<u8>::empty(),
            r.delivered() == Seq::<u8>::empty(),
    {
        let r = Relay {
            chunk: Vec::new(),
            off: 0,
            received: Ghost(Seq::empty()),
            delivered: Ghost(Seq::empty()),
        };
        proof {
            assert(r.received@ =~= r.delivered@ + r.pending());
        }
        r
    }

    /// Takes one received chunk in; the chunk must be fully drained
    /// before the next one is accepted.
    pub fn accept_chunk(&mut self, chunk: Vec<u8>)
        requires
            old(self).wf(),
            old(self).is_idle(),
            chunk@.len() >= 1,
        ensures
            final(self).wf(),
            final(self).received() == old(self).received() + chunk@,
            final(self).delivered() == old(self).delivered(),
            final(self).pending() == chunk@,
            !final(self).is_idle(),
    {
        proof {
            assert(old(self).received@ =~= old(self).delivered@);
        }
        self.received = Ghost(self.received@ + chunk@);
        self.chunk = chunk;
        self.off = 0;
        proof {
            assert(self.pending() =~= self.chunk@);
            assert(self.received@ =~= self.delivered@ + self.pending());
        }
    }

    /// The bytes to hand to the next send: the not-yet-accepted tail of
    /// the current chunk, starting at the resume offset.
    pub fn pending_slice(&self) -> (r: &[u8])
        requires
            self.wf(),
        ensures
            r@ == self.pending(),
    {
        proof {
            assert(self.pending() =~= self.chunk@.subrange(
                self.off as int,
                self.chunk@.len() as int,
            ));
        }
        vstd::slice::slice_subrange(self.chunk.as_slice(), self.off, self.chunk.len())
    }

    /// Records that the last send accepted `n` bytes. A partial send —
    /// `n` below the pending length — only moves the resume offset
    /// forward: the delivered stream grows by exactly the first `n`
    /// pending bytes and the rest stays pending, so no byte is dropped,
    /// duplicated or reordered.
    pub fn advance(&mut self, n: usize)
        requires
            old(self).wf(),
            n <= old(self).pending().len(),
        ensures
            final(self).wf(),
            final(self).received() == old(self).received(),
            final(self).delivered() == old(self).delivered() + old(self).pending().take(n as int),
            final(self).pending() == old(self).pending().skip(n as int),
    {
        proof {
            assert(old(self).chunk.len() == old(self).chunk@.len());
            assert(old(self).off + n <= old(self).chunk@.len());
            assert(old(self).pending().take(n as int) =~= old(self).chunk@.subrange(
                old(self).off as int,
                old(self).off + n,
            ));
            assert(old(self).pending().skip(n as int) =~= old(self).chunk@.skip(
                old(self).off + n,
            ));
        }
        self.delivered = Ghost(self.delivered@ + self.chunk@.subrange(
            self.off as int,
            self.off + n as int,
        ));
        self.off = self.off + n;
        proof {
            assert(old(self).pending() =~= old(self).pending().take(n as int)
                + old(self).pending().skip(n as int));
            assert(self.received@ =~= self.delivered@ + self.pending());
        }
    }

    /// Whether the current chunk is fully drained.
    pub fn is_done(&self) -> (r: bool)
        requires
            self.wf(),
        ensures
            r == self.is_idle(),
    {
        self.off == self.chunk.len()
    }
}

/// Byte-exact relay: whenever a direction has no bytes pending — in
/// particular after every fully drained chunk, and at session end — the
/// destination endpoint has accepted exactly the bytes received from the
/// source endpoint, equal in length and order, however the stream was cut
/// into chunks and however each chunk was cut into partial sends.
pub proof fn lemma_relay_byte_exact(r: Relay)
    requires
        r.wf(),
        r.is_idle(),
    ensures
        r.delivered() == r.received(),
{
    assert(r.received() =~= r.delivered() + r.pending());
    assert(r.delivered() + r.pending() =~= r.delivered());
}

/// Resumed sends compose: sending the first `n` bytes of a pending slice
/// and then `m` bytes of the remainder delivers exactly the first `n + m`
/// bytes — resuming from the new offset never drops, duplicates or
/// reorders a byte.
pub proof fn lemma_resumed_sends_compose(s: Seq<u8>, n: int, m: int)
    requires
        0 <= n,
        0 <= m,
        n + m <= s.len(),
    ensures
        s.take(n) + s.skip(n).take(m) == s.take(n + m),
{
    assert(s.take(n) + s.skip(n).take(m) =~= s.take(n + m));
}

} // verus!
