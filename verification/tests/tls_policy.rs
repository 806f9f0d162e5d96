use proxy_ingress::config::tls::{
    get_client_config, get_tls_config, load_certs, load_private_key, select_certs,
    select_private_key, TlsConfigError, VerificationMode,
};

const ED25519_FIRST: &str = "MC4CAQAwBQYDK2VwBCIEIJd3sZHP/jmoprNM5OCVcmBbL74uc5SYmjJBBD78cUbU";
const ED25519_SECOND: &str = "MC4CAQAwBQYDK2VwBCIEIHLyN5dsBQ060ZmkStHTd+42kdLw6W/Qhj3TO609GBKF";
const P256_KEY: [&str; 3] = [
    "MIGHAgEAMBMGByqGSM49AgEGCCqGSM49AwEHBG0wawIBAQQgx+h5lpw9bw/V1k9C",
    "dnTTZp7ZDptmvSq4CoPgUyOmjWihRANCAARfAXWfR/uQTV9YwxKjMWeyIHfvvlfv",
    "l6RlBIKHTkURiyrf57LwwSmmo8YXNrypHINSdDZLzXUGDMuwsG55nKb+",
];
const CERT: [&str; 9] = [
    "MIIBfjCCASOgAwIBAgIUWpmMeiPKYGpYIKeefYg2favOwSEwCgYIKoZIzj0EAwIw",
    "FDESMBAGA1UEAwwJbG9jYWxob3N0MB4XDTI2MTAyNzIxNDQwOFoXDTM2MTAyNDIx",
    "NDQwOFowFDESMBAGA1UEAwwJbG9jYWxob3N0MFkwEwYHKoZIzj0CAQYIKoZIzj0D",
    "AQcDQgAEXwF1n0f7kE1fWMMSozFnsiB3775X75ekZQSCh05FEYsq3+ey8MEppqPG",
    "Fza8qRyDUnQ2S811BgzLsLBueZym/qNTMFEwHQYDVR0OBBYEFGJ6MaL0kVktaEDU",
    "V6BGymOfrucoMB8GA1UdIwQYMBaAFGJ6MaL0kVktaEDUV6BGymOfrucoMA8GA1Ud",
    "EwEB/wQFMAMBAf8wCgYIKoZIzj0EAwIDSQAwRgIhANnEzETXgtrhSdKu6T1Alfnb",
    "KXAJ3t6FFpb1QWD7SnfxAiEAwJGVfHzbcf1atnby8IGkGLpMrtlGBB9CsKWnn52W",
    "+u0=",
];

fn section(label: &str, lines: &[&str]) -> Vec<u8> {
    let mut text = format!("-----BEGIN {}-----\n", label);
    for line in lines {
        text.push_str(line);
        text.push('\n');
    }
    text.push_str(&format!("-----END {}-----\n", label));
    text.into_bytes()
}

fn key_section(lines: &[&str]) -> Vec<u8> {
    section("PRIVATE KEY", lines)
}

fn cert_section() -> Vec<u8> {
    section("CERTIFICATE", &CERT)
}

#[test]
fn client_policy_disabled_is_none() {
    assert!(get_client_config(false, false).is_none());
    assert!(get_client_config(false, true).is_none());
}

#[test]
fn client_policy_strict_unless_insecure_is_asked() {
    assert_eq!(get_client_config(true, false).unwrap().verify, VerificationMode::Strict);
    assert_eq!(get_client_config(true, true).unwrap().verify, VerificationMode::Insecure);
}

#[test]
fn strict_policy_trusts_the_public_roots() {
    let strict = get_client_config(true, false).unwrap();
    assert_eq!(strict.trusted_roots(), webpki_roots::TLS_SERVER_ROOTS.0.len());
    assert_eq!(strict.trusted_roots(), strict.config.root_store.len());
    assert!(strict.trusted_roots() > 0);
}

#[test]
fn insecure_policy_trusts_no_root() {
    let insecure = get_client_config(true, true).unwrap();
    assert_eq!(insecure.trusted_roots(), 0);
    assert!(insecure.config.root_store.is_empty());
}

#[test]
fn untrusted_certificate_fails_strict_and_passes_insecure() {
    let strict = get_client_config(true, false).unwrap().verify;
    let insecure = get_client_config(true, true).unwrap().verify;
    assert!(!strict.accepts(false));
    assert!(strict.accepts(true));
    assert!(insecure.accepts(false));
    assert!(insecure.accepts(true));
    assert!(insecure.is_trust_downgrade());
    assert!(!strict.is_trust_downgrade());
}

#[test]
fn one_key_is_selected_with_its_der_contents() {
    let pem = key_section(&[ED25519_FIRST]);
    let key = load_private_key(&pem).unwrap();
    assert_eq!(key.ignored, 0);
    assert_eq!(key.der.len(), 48);
    assert_eq!(&key.der[..8], &[48, 46, 2, 1, 0, 48, 5, 6]);
    assert_eq!(&key.der[44..], &[252, 113, 70, 212]);
    assert_ne!(key.der, pem);
}

#[test]
fn no_key_is_key_not_found() {
    assert_eq!(load_private_key(b"").unwrap_err(), TlsConfigError::KeyNotFound);
    assert_eq!(load_private_key(&cert_section()).unwrap_err(), TlsConfigError::KeyNotFound);
    assert_eq!(select_private_key(Some(vec![])).unwrap_err(), TlsConfigError::KeyNotFound);
}

#[test]
fn several_keys_select_the_first_in_file_order() {
    let mut pem = key_section(&[ED25519_FIRST]);
    pem.extend_from_slice(&key_section(&[ED25519_SECOND]));
    pem.extend_from_slice(&key_section(&P256_KEY));
    let key = load_private_key(&pem).unwrap();
    assert_eq!(key.ignored, 2);
    assert_eq!(&key.der[44..], &[252, 113, 70, 212]);

    let mut swapped = key_section(&[ED25519_SECOND]);
    swapped.extend_from_slice(&key_section(&[ED25519_FIRST]));
    let key = load_private_key(&swapped).unwrap();
    assert_eq!(key.ignored, 1);
    assert_eq!(&key.der[44..], &[61, 24, 18, 133]);
}

#[test]
fn select_private_key_on_given_lists() {
    let key = select_private_key(Some(vec![vec![1, 2], vec![3]])).unwrap();
    assert_eq!(key.der, vec![1, 2]);
    assert_eq!(key.ignored, 1);
    let key = select_private_key(Some(vec![vec![9]])).unwrap();
    assert_eq!(key.der, vec![9]);
    assert_eq!(key.ignored, 0);
    assert_eq!(select_private_key(None).unwrap_err(), TlsConfigError::KeyLoadFailed);
}

#[test]
fn undecodable_key_section_is_key_load_failed() {
    let pem = key_section(&["!!!! not base64 !!!!"]);
    assert_eq!(load_private_key(&pem).unwrap_err(), TlsConfigError::KeyLoadFailed);
}

#[test]
fn certificates_come_out_in_file_order() {
    let mut pem = cert_section();
    pem.extend_from_slice(&section("CERTIFICATE", &["AQID"]));
    let chain = load_certs(&pem).unwrap();
    assert_eq!(chain.len(), 2);
    assert_eq!(chain[0].len(), 386);
    assert_eq!(&chain[0][..4], &[48, 130, 1, 126]);
    assert_eq!(chain[1], vec![1, 2, 3]);
}

#[test]
fn undecodable_certificate_is_cert_load_failed() {
    let pem = section("CERTIFICATE", &["%%%%"]);
    assert_eq!(load_certs(&pem).unwrap_err(), TlsConfigError::CertLoadFailed);
    assert_eq!(select_certs(None).unwrap_err(), TlsConfigError::CertLoadFailed);
    assert_eq!(select_certs(Some(vec![vec![7]])).unwrap(), vec![vec![7]]);
}

#[test]
fn server_policy_from_one_certificate_and_one_key() {
    let policy = match get_tls_config(&cert_section(), &key_section(&P256_KEY)) {
        Ok(p) => p,
        Err(e) => panic!("no policy: {:?}", e),
    };
    assert_eq!(policy.cert_chain.len(), 1);
    assert_eq!(policy.cert_chain[0].len(), 386);
    assert_eq!(policy.key.len(), 138);
    assert_eq!(&policy.key[134..], &[121, 156, 166, 254]);
    assert_eq!(policy.ignored_keys, 0);
    assert!(!policy.has_ignored_keys());
}

#[test]
fn server_policy_with_several_keys_uses_the_first() {
    let mut keys = key_section(&P256_KEY);
    keys.extend_from_slice(&key_section(&[ED25519_FIRST]));
    let policy = match get_tls_config(&cert_section(), &keys) {
        Ok(p) => p,
        Err(e) => panic!("no policy: {:?}", e),
    };
    assert_eq!(policy.key.len(), 138);
    assert_eq!(policy.ignored_keys, 1);
    assert!(policy.has_ignored_keys());
}

#[test]
fn server_policy_errors_in_order() {
    let bad_cert = section("CERTIFICATE", &["%%%%"]);
    let bad_key = key_section(&["!!!!"]);
    assert!(matches!(get_tls_config(&bad_cert, &bad_key), Err(TlsConfigError::CertLoadFailed)));
    assert!(matches!(
        get_tls_config(&cert_section(), &bad_key),
        Err(TlsConfigError::KeyLoadFailed)
    ));
    assert!(matches!(get_tls_config(&cert_section(), b""), Err(TlsConfigError::KeyNotFound)));
}

#[test]
fn unusable_key_is_key_mismatch() {
    let junk = key_section(&["AQIDBAUGBwg="]);
    assert!(matches!(get_tls_config(&cert_section(), &junk), Err(TlsConfigError::KeyMismatch)));
}
