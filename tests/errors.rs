use tlscore::base::PayloadU8;
use tlscore::client_hs::{check_server_kx_sig_alg, handle_server_kx};
use tlscore::enums::{
    AlertDescription, CipherSuite, Compression, ECPointFormat, HandshakeType, HashAlgorithm, NamedGroup,
    ProtocolVersion, SignatureAlgorithm, SignatureScheme,
};
use tlscore::error::{Incompatibility, Misbehaviour, TLSError};
use tlscore::handshake::{
    ClientExtension, ClientHelloPayload, DigitallySignedStruct, HandshakeMessagePayload, HandshakePayload,
    Random, ServerKeyExchangePayload, SessionID,
};
use tlscore::hash_hs::HandshakeHash;
use tlscore::kx::KeyExchange;
use tlscore::server_hs::{handle_client_hello, handle_client_kx, ServerConfig};
use tlscore::session::SessionRandoms;
use tlscore::suites::{all_ciphersuites, SupportedCipherSuite};

fn config() -> ServerConfig {
    ServerConfig {
        ciphersuites: all_ciphersuites(),
        ignore_client_order: true,
        alpn_protocols: vec![],
        client_auth_offer: false,
        client_auth_mandatory: false,
        ticketer_enabled: false,
    }
}

fn hello(exts: Vec<ClientExtension>) -> ClientHelloPayload {
    ClientHelloPayload {
        client_version: ProtocolVersion::TLSv1_2,
        random: Random { gmt_unix_time: 0, opaque: [0; 28] },
        session_id: SessionID::empty(),
        cipher_suites: vec![CipherSuite::TLS_ECDHE_RSA_WITH_AES_256_GCM_SHA384],
        compression_methods: vec![Compression::Null],
        extensions: exts,
    }
}

fn incompatibility(exts: Vec<ClientExtension>) -> (Option<AlertDescription>, TLSError) {
    let e = handle_client_hello(&config(), &hello(exts), Some(SignatureAlgorithm::RSA), None, None).err().unwrap();
    (e.alert, e.error)
}

#[test]
fn tls12_hello_without_groups_or_points() {
    let hf = Some(AlertDescription::HandshakeFailure);
    assert_eq!(incompatibility(vec![]), (hf, TLSError::PeerIncompatibleError(Incompatibility::NoGroupsDescribed)));
    assert_eq!(
        incompatibility(vec![ClientExtension::NamedGroups(vec![NamedGroup::X25519])]),
        (hf, TLSError::PeerIncompatibleError(Incompatibility::NoPointFormatsDescribed))
    );
    assert_eq!(
        incompatibility(vec![
            ClientExtension::NamedGroups(vec![NamedGroup::X25519]),
            ClientExtension::ECPointFormats(vec![ECPointFormat::ANSIX962CompressedPrime]),
        ]),
        (Some(AlertDescription::HandshakeFailure), TLSError::PeerIncompatibleError(Incompatibility::NoUncompressedPoints))
    );
}

#[test]
fn tls12_hello_without_common_scheme_or_group() {
    let hf = Some(AlertDescription::HandshakeFailure);
    let base = vec![
        ClientExtension::NamedGroups(vec![NamedGroup::X25519]),
        ClientExtension::ECPointFormats(vec![ECPointFormat::Uncompressed]),
    ];
    assert_eq!(incompatibility(base.clone()), (hf, TLSError::PeerIncompatibleError(Incompatibility::NoSignatureSchemeInCommon)));
    let mut exts = vec![
        ClientExtension::NamedGroups(vec![NamedGroup::X448]),
        ClientExtension::ECPointFormats(vec![ECPointFormat::Uncompressed]),
    ];
    exts.push(ClientExtension::SignatureAlgorithms(vec![SignatureScheme::RSA_PKCS1_SHA384]));
    assert_eq!(incompatibility(exts), (hf, TLSError::PeerIncompatibleError(Incompatibility::NoGroupInCommon)));
}

#[test]
fn tls13_hello_without_groups_or_schemes() {
    let hf = Some(AlertDescription::HandshakeFailure);
    let v = ClientExtension::SupportedVersions(vec![ProtocolVersion::Unknown(0x7f12)]);
    assert_eq!(incompatibility(vec![v.clone()]), (hf, TLSError::PeerIncompatibleError(Incompatibility::NoGroupsDescribed)));
    assert_eq!(
        incompatibility(vec![v.clone(), ClientExtension::NamedGroups(vec![NamedGroup::X448])]),
        (hf, TLSError::PeerIncompatibleError(Incompatibility::NoSignatureSchemesDescribed))
    );
    assert_eq!(
        incompatibility(vec![
            v,
            ClientExtension::NamedGroups(vec![NamedGroup::X448]),
            ClientExtension::SignatureAlgorithms(vec![]),
            ClientExtension::KeyShare(vec![]),
        ]),
        (None, TLSError::PeerIncompatibleError(Incompatibility::NoGroupInCommon))
    );
}

#[test]
fn server_kx_checks() {
    let rsa = SupportedCipherSuite::lookup(CipherSuite::TLS_ECDHE_RSA_WITH_AES_128_GCM_SHA256).unwrap();
    let ecdsa_sig = DigitallySignedStruct::new(SignatureScheme::ECDSA_NISTP256_SHA256, vec![1]);
    let e = check_server_kx_sig_alg(&rsa, &ecdsa_sig).err().unwrap();
    assert_eq!(e.error, TLSError::PeerMisbehavedError(Misbehaviour::WrongSignatureAlgorithm));
    assert!(check_server_kx_sig_alg(&rsa, &DigitallySignedStruct::new(SignatureScheme::RSA_PSS_SHA256, vec![1])).is_ok());

    let tls13 = SupportedCipherSuite::lookup(CipherSuite::TLS13_AES_128_GCM_SHA256).unwrap();
    let kx = ServerKeyExchangePayload::Unknown(tlscore::base::Payload::new(vec![3, 0, 29]));
    let m = HandshakeMessagePayload { typ: HandshakeType::ServerKeyExchange, payload: HandshakePayload::ServerKeyExchange(kx.clone()) };
    let mut t = HandshakeHash::new();
    let e = handle_server_kx(&mut t, &kx, &m, &tls13).err().unwrap();
    assert_eq!(e.error, TLSError::PeerIncompatibleError(Incompatibility::UndecodableKeyExchange));
    let e = handle_server_kx(&mut t, &kx, &m, &rsa).err().unwrap();
    assert_eq!(e.error, TLSError::PeerIncompatibleError(Incompatibility::UndecodableKeyExchange));
}

#[test]
fn bad_client_key_exchange_fails() {
    let suite = SupportedCipherSuite::lookup(CipherSuite::TLS_ECDHE_RSA_WITH_AES_128_GCM_SHA256).unwrap();
    let kx = KeyExchange::start_ecdhe(NamedGroup::secp256r1).unwrap();
    let randoms = SessionRandoms::empty();
    // A one-byte point is no P-256 point.
    let mut bad = Vec::new();
    tlscore::codec::Codec::encode(&PayloadU8::new(vec![4]), &mut bad);
    let e = handle_client_kx(kx, &bad, &randoms, &suite, false).err().unwrap();
    assert_eq!(e.error, TLSError::PeerMisbehavedError(Misbehaviour::KeyExchangeFailed));
    assert_eq!(suite.hash, HashAlgorithm::SHA256);
}
