use vstd::prelude::*;

verus! {

/// All characters of a size string are ASCII.
pub open spec fn ascii_only(s: Seq<char>) -> bool {
    forall|i: int| 0 <= i < s.len() ==> #[trigger] (s[i] as u32) < 128
}

/// What `bytefmt::parse` makes of an ASCII size string: the byte count,
/// which depends on the characters alone, or nothing for a malformed
/// string.
pub uninterp spec fn parsed_byte_size(s: Seq<char>) -> Option<u64>;

/// Relies on bytefmt::parse: turns a human-readable byte-size string
/// ("128KiB", "1MB") into a byte count, or fails on a string its size
/// grammar rejects. Only ASCII strings are admitted: its digit pattern
/// also matches non-ASCII decimal digits, which its ASCII-only number
/// parse then aborts on.
#[verifier::external_body]
fn parse_byte_size(s: &str) -> (r: Option<u64>)
    requires
        ascii_only(s@),
    ensures
        r == parsed_byte_size(s@),
{
    match bytefmt::parse(s) {
        Ok(n) => Some(n),
        Err(_) => None,
    }
}

/// Parses the buffer-length option into a usable chunk size: the byte
/// count of the size string, provided it is positive and fits the
/// machine's word. Anything else — a malformed string, a zero size, an
/// oversized count — is a startup error. The caller checks that the
/// string is ASCII and treats any other one as the same startup error.
pub fn parse_buf_len(s: &str) -> (r: Option<usize>)
    requires
        ascii_only(s@),
    ensures
        r is Some <==> (parsed_byte_size(s@) is Some
            && 1 <= parsed_byte_size(s@)->Some_0 <= usize::MAX),
        r is Some ==> r->Some_0 == parsed_byte_size(s@)->Some_0,
{
    match parse_byte_size(s) {
        Some(n) => {
            if 1 <= n && n <= usize::MAX as u64 {
                Some(n as usize)
            } else {
                None
            }
        },
        None => None,
    }
}

/// Process-wide configuration, fixed at startup and shared read-only by
/// every session: the two allowed peer identifiers, the bridged port, and
/// the per-chunk buffer length.
pub struct Config {
    pub guest_a: u32,
    pub guest_b: u32,
    pub port: u32,
    pub buf_len: usize,
}

impl Config {
    /// The configuration invariant: the two allowed identifiers are
    /// distinct, and the relay buffer holds at least one byte.
    pub open spec fn wf(self) -> bool {
        &&& self.guest_a != self.guest_b
        &&& self.buf_len >= 1
    }

    /// Builds a configuration, rejecting equal identifiers and an empty
    /// buffer.
    pub fn new(guest_a: u32, guest_b: u32, port: u32, buf_len: usize) -> (r: Option<Config>)
        ensures
            r is Some <==> guest_a != guest_b && buf_len >= 1,
            r is Some ==> {
                &&& r->Some_0.guest_a == guest_a
                &&& r->Some_0.guest_b == guest_b
                &&& r->Some_0.port == port
                &&& r->Some_0.buf_len == buf_len
                &&& r->Some_0.wf()
            },
    {
        if guest_a != guest_b && buf_len >= 1 {
            Some(Config { guest_a, guest_b, port, buf_len })
        } else {
            None
        }
    }
}

} // verus!

