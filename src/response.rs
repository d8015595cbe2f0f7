//! The response payloads: one JSON object per advertised server, built
//! once at startup, and the choice of which of them answer a datagram.

use vstd::prelude::*;
use vstd::slice::slice_subrange;

use crate::config::ServerConfig;
use crate::probe::{ascii_bytes, is_discovery_probe, is_probe};

verus! {

/// serde_json's error, as returned by `serde_json::to_vec`; only its
/// presence is read.
#[verifier::external_type_specification]
#[verifier::external_body]
pub struct ExJsonError(serde_json::Error);

/// The JSON text of a string: quoted, with its special characters escaped.
pub uninterp spec fn json_string_of(s: Seq<char>) -> Seq<u8>;

/// Relies on serde_json::to_vec on a `str`: it writes the string as a
/// quoted, escaped JSON string, which depends on the characters alone, and
/// it succeeds, since its writes go into a `Vec<u8>`, which cannot fail.
#[verifier::external_body]
fn json_string(s: &str) -> (r: Result<Vec<u8>, serde_json::Error>)
    ensures
        r is Ok,
        r matches Ok(v) ==> v@ == json_string_of(s@),
{
    serde_json::to_vec(s)
}

/// The response object, given the JSON texts of the three strings. The
/// endpoint address is always null.
pub open spec fn payload_of(address: Seq<u8>, id: Seq<u8>, name: Seq<u8>) -> Seq<u8> {
    ascii_bytes("{\"Address\":"@) + address + ascii_bytes(",\"Id\":"@) + id + ascii_bytes(
        ",\"Name\":"@,
    ) + name + ascii_bytes(",\"EndpointAddress\":null}"@)
}

/// The response that advertises one server.
pub open spec fn response_of(s: ServerConfig) -> Seq<u8> {
    payload_of(json_string_of(s.url@), json_string_of(s.id@), json_string_of(s.name@))
}

fn push_bytes(out: &mut Vec<u8>, b: &[u8])
    ensures
        final(out)@ == old(out)@ + b@,
{
    let mut i: usize = 0;
    while i < b.len()
        invariant
            i <= b@.len(),
            out@ == old(out)@ + b@.subrange(0, i as int),
        decreases b@.len() - i,
    {
        out.push(b[i]);
        i = i + 1;
        assert(out@ =~= old(out)@ + b@.subrange(0, i as int));
    }
    assert(b@.subrange(0, b@.len() as int) =~= b@);
}

fn push_ascii(out: &mut Vec<u8>, s: &str)
    requires
        s.is_ascii(),
    ensures
        final(out)@ == old(out)@ + ascii_bytes(s@),
{
    let b = s.as_bytes();
    assert(b@ =~= ascii_bytes(s@));
    push_bytes(out, b);
}

/// Frames a response object around the JSON texts of its three strings.
pub fn response_payload(address: &Vec<u8>, id: &Vec<u8>, name: &Vec<u8>) -> (r: Vec<u8>)
    ensures
        r@ == payload_of(address@, id@, name@),
{
    let mut out: Vec<u8> = Vec::new();
    proof {
        reveal_strlit("{\"Address\":");
        reveal_strlit(",\"Id\":");
        reveal_strlit(",\"Name\":");
        reveal_strlit(",\"EndpointAddress\":null}");
    }
    push_ascii(&mut out, "{\"Address\":");
    push_bytes(&mut out, address.as_slice());
    push_ascii(&mut out, ",\"Id\":");
    push_bytes(&mut out, id.as_slice());
    push_ascii(&mut out, ",\"Name\":");
    push_bytes(&mut out, name.as_slice());
    push_ascii(&mut out, ",\"EndpointAddress\":null}");
    out
}

/// The response that advertises one server.
pub fn server_response(server: &ServerConfig) -> (r: Vec<u8>)
    ensures
        r@ == response_of(*server),
{
    let address = json_string(server.url.as_str()).unwrap();
    let id = json_string(server.id.as_str()).unwrap();
    let name = json_string(server.name.as_str()).unwrap();
    response_payload(&address, &id, &name)
}

/// Builds the response of every server once: one payload per server, in
/// the order of the servers.
pub fn preconstruct_response(servers: &Vec<ServerConfig>) -> (r: Vec<Vec<u8>>)
    ensures
        r@.len() == servers@.len(),
        forall|i: int| 0 <= i < servers@.len() ==> #[trigger] r@[i]@ == response_of(servers@[i]),
{
    let mut output: Vec<Vec<u8>> = Vec::new();
    let mut i: usize = 0;
    while i < servers.len()
        invariant
            i <= servers@.len(),
            output@.len() == i,
            forall|j: int| 0 <= j < i ==> #[trigger] output@[j]@ == response_of(servers@[j]),
        decreases servers@.len() - i,
    {
        output.push(server_response(&servers[i]));
        i = i + 1;
    }
    output
}

/// The datagrams that answer a received buffer: every payload, in order,
/// when the buffer is a probe; none otherwise.
pub fn replies<'a>(buf: &[u8], responses: &'a [Vec<u8>]) -> (r: &'a [Vec<u8>])
    ensures
        is_probe(buf@) ==> r@ == responses@,
        !is_probe(buf@) ==> r@.len() == 0,
{
    if is_discovery_probe(buf) {
        responses
    } else {
        slice_subrange(responses, 0, 0)
    }
}

} // verus!
