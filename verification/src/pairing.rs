use vstd::prelude::*;
use crate::config::Config;

verus! {

/// Where an accepted connection must be bridged to: the opposite
/// configured peer, dialed on the same port the service listens on.
#[derive(Clone, Copy, PartialEq, Eq, Structural, Debug)]
pub struct PairTarget {
    pub cid: u32,
    pub port: u32,
}

/// The pairing decision: the other configured identifier when the
/// inbound peer is allowed, nothing when it is not.
pub open spec fn spec_pair_target(cfg: Config, inbound_cid: u32) -> Option<PairTarget> {
    if inbound_cid == cfg.guest_a {
        Some(PairTarget { cid: cfg.guest_b, port: cfg.port })
    } else if inbound_cid == cfg.guest_b {
        Some(PairTarget { cid: cfg.guest_a, port: cfg.port })
    } else {
        None
    }
}

/// Resolves an accepted connection's peer identifier to the outbound
/// target. An inbound peer equal to one configured identifier is paired
/// with the other, on the same port; any other peer is unexpected and
/// gets no outbound attempt — the caller closes the accepted connection
/// and keeps accepting.
pub fn pair_target(cfg: &Config, inbound_cid: u32) -> (r: Option<PairTarget>)
    ensures
        r == spec_pair_target(*cfg, inbound_cid),
{
    if inbound_cid == cfg.guest_a {
        Some(PairTarget { cid: cfg.guest_b, port: cfg.port })
    } else if inbound_cid == cfg.guest_b {
        Some(PairTarget { cid: cfg.guest_a, port: cfg.port })
    } else {
        None
    }
}

/// Pairing correctness: an inbound connection from either configured
/// peer is paired with exactly the other configured peer, on the same
/// port — never with itself.
pub proof fn lemma_pairing_correct(cfg: Config, inbound_cid: u32)
    requires
        cfg.wf(),
        inbound_cid == cfg.guest_a || inbound_cid == cfg.guest_b,
    ensures
        spec_pair_target(cfg, inbound_cid) is Some,
        spec_pair_target(cfg, inbound_cid)->Some_0.port == cfg.port,
        inbound_cid == cfg.guest_a ==> spec_pair_target(cfg, inbound_cid)->Some_0.cid
            == cfg.guest_b,
        inbound_cid == cfg.guest_b ==> spec_pair_target(cfg, inbound_cid)->Some_0.cid
            == cfg.guest_a,
        spec_pair_target(cfg, inbound_cid)->Some_0.cid != inbound_cid,
{
}

/// Rejection: an inbound connection from a peer matching neither
/// configured identifier yields no outbound target at all.
pub proof fn lemma_pairing_rejects_unknown(cfg: Config, inbound_cid: u32)
    requires
        inbound_cid != cfg.guest_a,
        inbound_cid != cfg.guest_b,
    ensures
        spec_pair_target(cfg, inbound_cid) is None,
{
}

} // verus!
