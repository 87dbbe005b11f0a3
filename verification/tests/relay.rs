use vsock_bridge::engine::Engine;
use vsock_bridge::engine::ReadySide;
use vsock_bridge::engine::SessionStatus;
use vsock_bridge::engine::TAG_GUEST1_IN;
use vsock_bridge::engine::TAG_GUEST2_IN;
use vsock_bridge::engine::side_for_tag;
use vsock_bridge::engine::tag_for_side;

/// Plays the sending endpoint for one chunk: drains the pending bytes,
/// letting each send accept at most `max_send` bytes, and returns what
/// the destination received.
fn drain_chunk(e: &mut Engine, side: ReadySide, max_send: usize) -> Vec<u8> {
    let mut out: Vec<u8> = Vec::new();
    while !e.chunk_done(side) {
        let pending = e.pending_slice(side).to_vec();
        let n = if pending.len() < max_send { pending.len() } else { max_send };
        out.extend_from_slice(&pending[..n]);
        e.advance(side, n);
    }
    out
}

/// Relays `message` through a fresh engine of buffer length `buf_len`,
/// receiving in chunks of at most `buf_len` bytes and sending at most
/// `max_send` bytes per send; returns what the far side received.
fn relay_message(message: &[u8], buf_len: usize, max_send: usize) -> Vec<u8> {
    let mut e = Engine::new(buf_len);
    let mut out: Vec<u8> = Vec::new();
    let mut off: usize = 0;
    while off < message.len() {
        let end = if off + buf_len < message.len() { off + buf_len } else { message.len() };
        e.begin_chunk(ReadySide::Guest1, message[off..end].to_vec());
        out.extend_from_slice(&drain_chunk(&mut e, ReadySide::Guest1, max_send));
        off = end;
    }
    out
}

#[test]
fn relays_one_chunk_exactly() {
    let got = relay_message(b"ping", 128, 128);
    assert_eq!(got, b"ping".to_vec());
}

#[test]
fn partial_sends_resume_at_offset() {
    // Every send accepts a single byte: the chunk must still arrive
    // complete, in order, with nothing dropped or duplicated.
    let got = relay_message(b"abcdef", 128, 1);
    assert_eq!(got, b"abcdef".to_vec());
}

#[test]
fn relay_exact_for_every_buffer_length() {
    let message = b"hello, bridged world";
    // One byte, one byte short of the message, larger than any write.
    for buf_len in [1usize, message.len() - 1, 4096] {
        for max_send in [1usize, 3, 4096] {
            let got = relay_message(message, buf_len, max_send);
            assert_eq!(got, message.to_vec(), "buf_len {buf_len} max_send {max_send}");
        }
    }
}

#[test]
fn duplex_ping_pong_session() {
    let mut e = Engine::new(128);
    e.begin_chunk(ReadySide::Guest1, b"ping".to_vec());
    let to_guest2 = drain_chunk(&mut e, ReadySide::Guest1, 128);
    assert_eq!(to_guest2, b"ping".to_vec());
    e.begin_chunk(ReadySide::Guest2, b"pong".to_vec());
    let to_guest1 = drain_chunk(&mut e, ReadySide::Guest2, 128);
    assert_eq!(to_guest1, b"pong".to_vec());
    // Guest 1 closes: the session ends without an error.
    e.on_peer_closed(ReadySide::Guest1);
    assert!(!e.is_active());
    assert_eq!(e.current_status(), SessionStatus::Closed);
    // A fresh connection afterwards starts a new, independent session.
    let mut fresh = Engine::new(128);
    assert!(fresh.is_active());
    fresh.begin_chunk(ReadySide::Guest1, b"ping".to_vec());
    assert_eq!(drain_chunk(&mut fresh, ReadySide::Guest1, 128), b"ping".to_vec());
}

#[test]
fn orderly_shutdown_is_not_an_error() {
    let mut e = Engine::new(16);
    assert!(e.is_active());
    e.on_peer_closed(ReadySide::Guest2);
    assert!(!e.is_active());
    assert_eq!(e.current_status(), SessionStatus::Closed);
    assert_ne!(e.current_status(), SessionStatus::Failed);
}

#[test]
fn io_error_fails_the_session() {
    let mut e = Engine::new(16);
    e.on_io_error();
    assert!(!e.is_active());
    assert_eq!(e.current_status(), SessionStatus::Failed);
}

#[test]
fn sessions_are_independent() {
    // Two concurrent sessions hold two engines; an error in one leaves
    // the other relaying untouched.
    let mut failing = Engine::new(8);
    let mut healthy = Engine::new(8);
    failing.begin_chunk(ReadySide::Guest1, b"lost".to_vec());
    failing.on_io_error();
    assert_eq!(failing.current_status(), SessionStatus::Failed);
    assert!(healthy.is_active());
    healthy.begin_chunk(ReadySide::Guest1, b"safe".to_vec());
    let got = drain_chunk(&mut healthy, ReadySide::Guest1, 2);
    assert_eq!(got, b"safe".to_vec());
    assert!(healthy.is_active());
}

#[test]
fn readiness_tags_round_trip() {
    assert_eq!(tag_for_side(ReadySide::Guest1), TAG_GUEST1_IN);
    assert_eq!(tag_for_side(ReadySide::Guest2), TAG_GUEST2_IN);
    assert_eq!(side_for_tag(TAG_GUEST1_IN), Some(ReadySide::Guest1));
    assert_eq!(side_for_tag(TAG_GUEST2_IN), Some(ReadySide::Guest2));
    // A tag this session never registered belongs to no side.
    assert_eq!(side_for_tag(99), None);
}
