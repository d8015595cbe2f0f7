use jellyfin_discovery::probe::{is_discovery_probe, PROBE_LEN};

#[test]
fn probe_len_matches_both_literals() {
    assert_eq!(PROBE_LEN, b"who is JellyfinServer?".len());
    assert_eq!(PROBE_LEN, b"Who is JellyfinServer?".len());
}

#[test]
fn lower_case_probe_is_accepted() {
    assert!(is_discovery_probe(b"who is JellyfinServer?"));
}

#[test]
fn capital_probe_is_accepted() {
    assert!(is_discovery_probe(b"Who is JellyfinServer?"));
}

#[test]
fn all_caps_probe_is_rejected() {
    assert!(!is_discovery_probe(b"WHO IS JELLYFINSERVER?"));
}

#[test]
fn other_case_variant_is_rejected() {
    assert!(!is_discovery_probe(b"who is jellyfinserver?"));
}

#[test]
fn last_byte_difference_is_rejected() {
    assert!(!is_discovery_probe(b"who is JellyfinServer!"));
}

#[test]
fn first_byte_difference_is_rejected() {
    assert!(!is_discovery_probe(b"xho is JellyfinServer?"));
}

#[test]
fn short_datagram_in_zeroed_buffer_is_rejected() {
    let mut buf = [0u8; PROBE_LEN];
    buf[..6].copy_from_slice(b"who is");
    assert!(!is_discovery_probe(&buf));
}

#[test]
fn longer_or_shorter_buffer_is_rejected() {
    assert!(!is_discovery_probe(b"who is JellyfinServer??"));
    assert!(!is_discovery_probe(b"who is JellyfinServer"));
    assert!(!is_discovery_probe(b""));
}
