use proxy_ingress::proxy::base::{starts_with, Detection, ProtocolVariant, SupportedProtocols};

fn registry() -> SupportedProtocols {
    SupportedProtocols {
        variants: vec![
            ProtocolVariant { id: 1, signature: vec![5, 1], preamble_len: 3 },
            ProtocolVariant { id: 2, signature: b"CONNECT ".to_vec(), preamble_len: 8 },
            ProtocolVariant { id: 3, signature: vec![5], preamble_len: 2 },
        ],
    }
}

#[test]
fn starts_with_on_given_bytes() {
    assert!(starts_with(&[1, 2, 3], &[1, 2]));
    assert!(starts_with(&[1, 2, 3], &[]));
    assert!(starts_with(&[1, 2], &[1, 2]));
    assert!(!starts_with(&[1, 2], &[1, 2, 3]));
    assert!(!starts_with(&[1, 2, 3], &[1, 3]));
}

#[test]
fn first_matching_variant_wins() {
    let r = registry();
    assert_eq!(r.detect(&[5, 1, 0], 16), Detection::Recognized(0));
    assert_eq!(r.detect(b"CONNECT example.org:80", 16), Detection::Recognized(1));
    assert_eq!(r.detect(&[5, 2], 16), Detection::Recognized(2));
}

#[test]
fn earlier_variant_that_may_still_match_postpones() {
    let r = registry();
    assert_eq!(r.detect(&[5], 16), Detection::Incomplete);
    assert_eq!(r.detect(&[], 16), Detection::Incomplete);
    assert_eq!(r.detect(b"CONN", 16), Detection::Incomplete);
}

#[test]
fn unmatched_bytes_are_unrecognized() {
    let r = registry();
    assert_eq!(r.detect(&[9, 9, 9], 16), Detection::Unrecognized);
    assert_eq!(r.detect(b"GET / HTTP/1.1", 16), Detection::Unrecognized);
    assert_eq!(r.detect(b"CONNEKT", 16), Detection::Unrecognized);
}

#[test]
fn budget_ends_the_wait() {
    let r = registry();
    assert_eq!(r.detect(b"CONN", 4), Detection::Unrecognized);
    assert_eq!(r.detect(b"CONN", 5), Detection::Incomplete);
    assert_eq!(r.detect(&[], 0), Detection::Unrecognized);
}

#[test]
fn empty_registry_recognizes_nothing() {
    let r = SupportedProtocols { variants: vec![] };
    assert_eq!(r.detect(&[], 16), Detection::Unrecognized);
    assert_eq!(r.detect(&[1, 2, 3], 16), Detection::Unrecognized);
}

#[test]
fn recognition_survives_further_bytes() {
    let r = registry();
    let mut bytes = vec![5, 2];
    assert_eq!(r.detect(&bytes, 16), Detection::Recognized(2));
    bytes.extend_from_slice(&[1, 0, 0, 80]);
    assert_eq!(r.detect(&bytes, 16), Detection::Recognized(2));
}

#[test]
fn duplicate_keeps_the_variants() {
    let r = registry();
    let d = r.duplicate();
    assert_eq!(d.variants.len(), 3);
    assert_eq!(d.variants[1].id, 2);
    assert_eq!(d.variants[1].signature, b"CONNECT ".to_vec());
    assert_eq!(d.variants[2].preamble_len, 2);
}
