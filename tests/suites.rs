use tlscore::enums::{CipherSuite, HashAlgorithm, SignatureAlgorithm, SignatureScheme};
use tlscore::suites::{
    all_ciphersuites, choose_ciphersuite_preferring_client, choose_ciphersuite_preferring_server,
    reduce_given_sigalg, SupportedCipherSuite,
};

fn suite(cs: CipherSuite) -> SupportedCipherSuite {
    SupportedCipherSuite::lookup(cs).unwrap()
}

#[test]
fn test_client_pref() {
    let client = vec![
        CipherSuite::TLS_ECDHE_RSA_WITH_AES_128_GCM_SHA256,
        CipherSuite::TLS_ECDHE_RSA_WITH_AES_256_GCM_SHA384,
    ];
    let server = vec![
        suite(CipherSuite::TLS_ECDHE_RSA_WITH_AES_256_GCM_SHA384),
        suite(CipherSuite::TLS_ECDHE_RSA_WITH_AES_128_GCM_SHA256),
    ];
    let chosen = choose_ciphersuite_preferring_client(&client, &server);
    assert!(chosen.is_some());
    assert_eq!(chosen.unwrap(), suite(CipherSuite::TLS_ECDHE_RSA_WITH_AES_128_GCM_SHA256));
}

#[test]
fn test_server_pref() {
    let client = vec![
        CipherSuite::TLS_ECDHE_RSA_WITH_AES_128_GCM_SHA256,
        CipherSuite::TLS_ECDHE_RSA_WITH_AES_256_GCM_SHA384,
    ];
    let server = vec![
        suite(CipherSuite::TLS_ECDHE_RSA_WITH_AES_256_GCM_SHA384),
        suite(CipherSuite::TLS_ECDHE_RSA_WITH_AES_128_GCM_SHA256),
    ];
    let chosen = choose_ciphersuite_preferring_server(&client, &server);
    assert!(chosen.is_some());
    assert_eq!(chosen.unwrap(), suite(CipherSuite::TLS_ECDHE_RSA_WITH_AES_256_GCM_SHA384));
}

#[test]
fn preference_with_no_overlap_is_none() {
    let client = vec![CipherSuite::TLS13_AES_128_GCM_SHA256];
    let server = vec![suite(CipherSuite::TLS_ECDHE_RSA_WITH_AES_128_GCM_SHA256)];
    assert!(choose_ciphersuite_preferring_client(&client, &server).is_none());
    assert!(choose_ciphersuite_preferring_server(&client, &server).is_none());
    assert!(choose_ciphersuite_preferring_client(&[], &server).is_none());
}

#[test]
fn table_has_nine_suites_tls13_first() {
    let all = all_ciphersuites();
    assert_eq!(all.len(), 9);
    assert_eq!(all[0].suite, CipherSuite::TLS13_CHACHA20_POLY1305_SHA256);
    assert_eq!(all[8].suite, CipherSuite::TLS_ECDHE_RSA_WITH_AES_128_GCM_SHA256);
    assert!(SupportedCipherSuite::lookup(CipherSuite::Unknown(0x1234)).is_none());
}

#[test]
fn key_block_len_formula() {
    // (16 + 4) * 2 + 8
    assert_eq!(suite(CipherSuite::TLS_ECDHE_RSA_WITH_AES_128_GCM_SHA256).key_block_len(), 48);
    // (32 + 12) * 2 + 0
    assert_eq!(suite(CipherSuite::TLS_ECDHE_RSA_WITH_CHACHA20_POLY1305_SHA256).key_block_len(), 88);
}

#[test]
fn reduce_keeps_anonymous_and_matching_sign() {
    let all = all_ciphersuites();
    let rsa = reduce_given_sigalg(&all, &SignatureAlgorithm::RSA);
    assert_eq!(rsa.len(), 6);
    assert!(rsa.iter().all(|s| s.sign == SignatureAlgorithm::RSA || s.sign == SignatureAlgorithm::Anonymous));
    assert_eq!(rsa[3].suite, CipherSuite::TLS_ECDHE_RSA_WITH_CHACHA20_POLY1305_SHA256);
}

#[test]
fn resolve_sig_scheme_prefers_suite_hash() {
    let s = suite(CipherSuite::TLS_ECDHE_RSA_WITH_AES_256_GCM_SHA384);
    let offered = vec![SignatureScheme::RSA_PKCS1_SHA256, SignatureScheme::RSA_PKCS1_SHA384];
    assert_eq!(s.resolve_sig_scheme(&offered), Some(SignatureScheme::RSA_PKCS1_SHA384));
    let offered = vec![SignatureScheme::RSA_PKCS1_SHA256, SignatureScheme::RSA_PKCS1_SHA512];
    assert_eq!(s.resolve_sig_scheme(&offered), Some(SignatureScheme::RSA_PKCS1_SHA512));
    let offered = vec![SignatureScheme::ECDSA_NISTP256_SHA256];
    assert_eq!(s.resolve_sig_scheme(&offered), None);
    let tls13 = suite(CipherSuite::TLS13_AES_128_GCM_SHA256);
    assert_eq!(tls13.resolve_sig_scheme(&offered), None);
    assert_eq!(s.hash, HashAlgorithm::SHA384);
}
