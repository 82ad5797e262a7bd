use tlscore::crypto::{fill_random, verify_slices_are_equal};
use tlscore::enums::{HandshakeType, HashAlgorithm, NamedGroup};
use tlscore::error::TLSError;
use tlscore::hash_hs::HandshakeHash;
use tlscore::handshake::{HandshakeMessagePayload, HandshakePayload};
use tlscore::key_schedule::{hkdf_expand_label, KeySchedule, SecretKind};
use tlscore::kx::KeyExchange;
use tlscore::persist::{client_session_key, get_encoding, read_bytes};
use tlscore::server_hs::{handle_finished, tls13_certverify_message, ServerSessionValue};
use tlscore::session::{prf, SessionRandoms, SessionSecrets};
use tlscore::base::PayloadU8;
use tlscore::enums::CipherSuite;

fn hex(s: &str) -> Vec<u8> {
    (0..s.len()).step_by(2).map(|i| u8::from_str_radix(&s[i..i + 2], 16).unwrap()).collect()
}

#[test]
fn transcript_hash_is_sha256_of_messages() {
    let mut t = HandshakeHash::new();
    t.update_raw(b"abc");
    t.start_hash(HashAlgorithm::SHA256);
    assert_eq!(t.get_current_hash(), hex("ba7816bf8f01cfea414140de5dae2223b00361a396177a9cb410ff61f20015ad"));
}

#[test]
fn transcript_hash_does_not_depend_on_start_time() {
    let m1 = HandshakeMessagePayload { typ: HandshakeType::ServerHelloDone, payload: HandshakePayload::ServerHelloDone };
    let m2 = HandshakeMessagePayload { typ: HandshakeType::HelloRequest, payload: HandshakePayload::HelloRequest };
    let mut early = HandshakeHash::new();
    early.start_hash(HashAlgorithm::SHA384);
    early.add_message(&m1);
    early.add_message(&m2);
    let mut late = HandshakeHash::new();
    late.add_message(&m1);
    late.add_message(&m2);
    late.start_hash(HashAlgorithm::SHA384);
    assert_eq!(early.get_current_hash(), late.get_current_hash());
    assert_eq!(early.get_current_hash().len(), 48);
}

#[test]
fn raw_buffer_kept_for_client_auth_only() {
    let mut t = HandshakeHash::new();
    t.update_raw(b"one");
    t.start_hash(HashAlgorithm::SHA256);
    t.update_raw(b"two");
    assert_eq!(t.take_handshake_buf(), b"onetwo".to_vec());
    t.abandon_client_auth();
    t.update_raw(b"three");
    assert!(t.take_handshake_buf().is_empty());
}

#[test]
fn tls12_prf_known_answer() {
    // PRF with SHA-256, from the TLS 1.2 PRF test vectors.
    let secret = hex("9bbe436ba940f017b17652849a71db35");
    let seed = hex("a0ba9f936cda311827a6f796ffd5198c");
    let out = prf(HashAlgorithm::SHA256, &secret, b"test label", &seed, 100);
    assert_eq!(out.len(), 100);
    assert_eq!(&out[..16], &hex("e3f229ba727be17b8d122620557cd453")[..]);
}

#[test]
fn verify_data_agrees_between_peers() {
    let randoms = SessionRandoms { client: [1u8; 32], server: [2u8; 32] };
    let client = SessionSecrets::new(&randoms, HashAlgorithm::SHA256, &[7u8; 32]);
    let server = SessionSecrets::new(&randoms, HashAlgorithm::SHA256, &[7u8; 32]);
    let h = [9u8; 32];
    assert_eq!(client.client_verify_data(&h), server.client_verify_data(&h));
    assert_eq!(client.server_verify_data(&h), server.server_verify_data(&h));
    assert_eq!(client.client_verify_data(&h).len(), 12);
    assert_ne!(client.client_verify_data(&h), client.server_verify_data(&h));
    assert_eq!(client.get_master_secret().len(), 48);
    let resumed = SessionSecrets::new_resume(&randoms, HashAlgorithm::SHA256, &client.get_master_secret());
    assert_eq!(resumed.client_verify_data(&h), client.client_verify_data(&h));
    assert_eq!(client.make_key_block(40).len(), 40);
}

#[test]
fn wrong_finished_is_decrypt_error() {
    let randoms = SessionRandoms { client: [1u8; 32], server: [2u8; 32] };
    let secrets = SessionSecrets::new(&randoms, HashAlgorithm::SHA256, &[7u8; 32]);
    let mut t = HandshakeHash::new();
    t.start_hash(HashAlgorithm::SHA256);
    let m = HandshakeMessagePayload { typ: HandshakeType::Finished, payload: HandshakePayload::Finished(tlscore::base::Payload::new(vec![0; 12])) };
    let r = handle_finished(&secrets, &mut t, &m, &[0u8; 12], false, &tlscore::handshake::SessionID::empty());
    assert!(matches!(r, Err(TLSError::DecryptError)));
    let good = secrets.client_verify_data(&t.get_current_hash());
    let r = handle_finished(&secrets, &mut t, &m, &good, false, &tlscore::handshake::SessionID::new(vec![1]));
    let actions = r.ok().unwrap();
    assert!(actions.save_session && actions.send_flight);
}

#[test]
fn constant_time_compare() {
    assert!(verify_slices_are_equal(b"abc", b"abc"));
    assert!(!verify_slices_are_equal(b"abc", b"abd"));
    assert!(!verify_slices_are_equal(b"abc", b"ab"));
}

#[test]
fn random_bytes_have_the_length_asked() {
    let a = fill_random(16).unwrap();
    let b = fill_random(16).unwrap();
    assert_eq!(a.len(), 16);
    assert_ne!(a, b);
}

#[test]
fn ecdhe_peers_agree() {
    for g in [NamedGroup::X25519, NamedGroup::secp256r1, NamedGroup::secp384r1] {
        let a = KeyExchange::start_ecdhe(g).unwrap();
        let b = KeyExchange::start_ecdhe(g).unwrap();
        let a_pub = a.pubkey.clone();
        let b_pub = b.pubkey.clone();
        let ra = a.complete(&b_pub).unwrap();
        let rb = b.complete(&a_pub).unwrap();
        assert_eq!(ra.premaster_secret, rb.premaster_secret);
        assert_eq!(ra.pubkey, a_pub);
    }
    assert!(KeyExchange::start_ecdhe(NamedGroup::X448).is_none());
    let a = KeyExchange::start_ecdhe(NamedGroup::X25519).unwrap();
    assert!(a.complete(&[1, 2, 3]).is_none());
}

#[test]
fn key_schedule_secrets_differ_by_kind() {
    let mut ks = KeySchedule::new(HashAlgorithm::SHA256);
    ks.input_empty();
    ks.input_secret(&[5u8; 32]);
    let h = [3u8; 32];
    let c = ks.derive(SecretKind::ClientHandshakeTrafficSecret, &h);
    let s = ks.derive(SecretKind::ServerHandshakeTrafficSecret, &h);
    assert_eq!(c.len(), 32);
    assert_ne!(c, s);
    assert_eq!(c, ks.derive(SecretKind::ClientHandshakeTrafficSecret, &h));
    ks.set_traffic_secrets(c.clone(), s.clone());
    let vd = ks.sign_verify_data(SecretKind::ClientHandshakeTrafficSecret, &h);
    assert_eq!(vd.len(), 32);
    assert_ne!(vd, ks.sign_verify_data(SecretKind::ServerHandshakeTrafficSecret, &h));
}

#[test]
fn hkdf_expand_label_depends_on_label() {
    let a = hkdf_expand_label(HashAlgorithm::SHA384, &[1u8; 48], b"finished", b"");
    let b = hkdf_expand_label(HashAlgorithm::SHA384, &[1u8; 48], b"finishes", b"");
    assert_eq!(a.len(), 48);
    assert_ne!(a, b);
}

#[test]
fn certificate_verify_message_layout() {
    let m = tls13_certverify_message(&[0xaa; 4]);
    assert_eq!(&m[..64], &[0x20u8; 64][..]);
    assert_eq!(&m[64..98], b"TLS 1.3, server CertificateVerify\x00");
    assert_eq!(&m[98..], &[0xaa; 4]);
}

#[test]
fn server_session_value_round_trip() {
    let v = ServerSessionValue {
        cipher_suite: CipherSuite::TLS_ECDHE_RSA_WITH_AES_128_GCM_SHA256,
        master_secret: PayloadU8::new(vec![3; 48]),
        client_cert_chain: Some(vec![tlscore::base::PayloadU24::new(vec![1, 2])]),
    };
    let bytes = get_encoding(&v);
    let back: ServerSessionValue = read_bytes(&bytes).unwrap();
    assert_eq!(back.cipher_suite, v.cipher_suite);
    assert_eq!(back.master_secret.0, vec![3; 48]);
    assert_eq!(back.client_cert_chain.unwrap()[0].0, vec![1, 2]);
    let mut longer = bytes.clone();
    longer.push(0);
    assert!(read_bytes::<ServerSessionValue>(&longer).is_none());
    assert_eq!(&client_session_key(b"a.b")[..], b"session\x03a.b");
}

#[test]
fn key_block_is_cut_in_order() {
    let suite = tlscore::suites::SupportedCipherSuite::lookup(CipherSuite::TLS_ECDHE_RSA_WITH_AES_128_GCM_SHA256).unwrap();
    let block: Vec<u8> = (0..48u8).collect();
    let kb = tlscore::session::split_key_block(&suite, &block);
    assert_eq!(kb.client_write_key, (0..16u8).collect::<Vec<u8>>());
    assert_eq!(kb.server_write_key, (16..32u8).collect::<Vec<u8>>());
    assert_eq!(kb.client_write_iv, vec![32, 33, 34, 35]);
    assert_eq!(kb.server_write_iv, vec![36, 37, 38, 39]);
    assert_eq!(kb.explicit_nonce, (40..48u8).collect::<Vec<u8>>());
}
