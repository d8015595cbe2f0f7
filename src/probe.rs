//! The discovery probe: the fixed text a client broadcasts to find servers.

use vstd::prelude::*;

verus! {

/// The length of the probe, and so the size of the receive buffer: a
/// datagram is judged on its first `PROBE_LEN` bytes.
pub const PROBE_LEN: usize = 22;

/// The bytes of an ASCII text.
pub open spec fn ascii_bytes(s: Seq<char>) -> Seq<u8> {
    s.map_values(|c: char| c as u8)
}

/// The probe as most clients send it.
pub open spec fn probe_lower() -> Seq<u8> {
    ascii_bytes("who is JellyfinServer?"@)
}

/// The probe with a capital first letter, as some clients send it.
pub open spec fn probe_capital() -> Seq<u8> {
    ascii_bytes("Who is JellyfinServer?"@)
}

/// A received buffer is a probe exactly when it equals one of the two
/// accepted texts, byte for byte; no other case variant is accepted.
pub open spec fn is_probe(buf: Seq<u8>) -> bool {
    buf == probe_lower() || buf == probe_capital()
}

/// Both accepted texts are exactly `PROBE_LEN` bytes long, so a buffer of
/// that size can hold either of them whole.
pub proof fn lemma_probe_len()
    ensures
        probe_lower().len() == PROBE_LEN,
        probe_capital().len() == PROBE_LEN,
{
    reveal_strlit("who is JellyfinServer?");
    reveal_strlit("Who is JellyfinServer?");
}

/// A buffer of any other length than `PROBE_LEN` is never a probe: a
/// datagram with a byte missing or a byte too many is ignored.
pub proof fn lemma_wrong_length_not_probe(buf: Seq<u8>)
    requires
        buf.len() != PROBE_LEN,
    ensures
        !is_probe(buf),
{
    lemma_probe_len();
}

fn bytes_equal(a: &[u8], b: &[u8]) -> (r: bool)
    ensures
        r == (a@ == b@),
{
    if a.len() != b.len() {
        return false;
    }
    let mut i: usize = 0;
    while i < a.len()
        invariant
            a@.len() == b@.len(),
            i <= a@.len(),
            forall|j: int| 0 <= j < i ==> a@[j] == b@[j],
        decreases a@.len() - i,
    {
        if a[i] != b[i] {
            return false;
        }
        i = i + 1;
    }
    assert(a@ =~= b@);
    true
}

fn lower_probe_bytes() -> (r: &'static [u8])
    ensures
        r@ == probe_lower(),
{
    let s = "who is JellyfinServer?";
    proof {
        reveal_strlit("who is JellyfinServer?");
        assert(s.is_ascii());
    }
    let r = s.as_bytes();
    assert(r@ =~= probe_lower());
    r
}

fn capital_probe_bytes() -> (r: &'static [u8])
    ensures
        r@ == probe_capital(),
{
    let s = "Who is JellyfinServer?";
    proof {
        reveal_strlit("Who is JellyfinServer?");
        assert(s.is_ascii());
    }
    let r = s.as_bytes();
    assert(r@ =~= probe_capital());
    r
}

/// Whether a received buffer is a discovery probe.
pub fn is_discovery_probe(buf: &[u8]) -> (r: bool)
    ensures
        r == is_probe(buf@),
{
    bytes_equal(buf, lower_probe_bytes()) || bytes_equal(buf, capital_probe_bytes())
}

} // verus!
