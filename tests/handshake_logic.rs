use tlscore::base::{PayloadU16, PayloadU8};
use tlscore::client_hs::{
    emit_client_hello, find_key_share, handle_ccs, handle_server_hello, randomise_sessionid_for_ticket,
    sent_unsolicited_extensions, session_to_save, ClientConfig, ClientSessionValue, ClientState,
};
use tlscore::enums::{
    AlertDescription, CipherSuite, Compression, ContentType, ExtensionType, HandshakeType, NamedGroup,
    ProtocolVersion, SignatureAlgorithm, SignatureScheme, ECPointFormat,
};
use tlscore::error::{Incompatibility, Internal, Misbehaviour, TLSError};
use tlscore::expect::{client_expect, server_expect};
use tlscore::handshake::{
    ClientExtension, ClientHelloPayload, HandshakePayload, KeyShareEntry, Random, ServerExtension,
    ServerHelloPayload, SessionID,
};
use tlscore::kx::KeyExchange;
use tlscore::server_hs::{
    self, handle_client_hello, process_extensions, ClientHelloDecision, ServerConfig, ServerSessionValue,
    ServerState,
};
use tlscore::suites::{all_ciphersuites, SupportedCipherSuite};

fn random() -> Random {
    Random { gmt_unix_time: 1, opaque: [5u8; 28] }
}

fn client_config() -> ClientConfig {
    ClientConfig { ciphersuites: all_ciphersuites(), alpn_protocols: vec![b"h2".to_vec()], enable_tickets: true }
}

fn server_config() -> ServerConfig {
    ServerConfig {
        ciphersuites: all_ciphersuites(),
        ignore_client_order: false,
        alpn_protocols: vec![b"http/1.1".to_vec(), b"h2".to_vec()],
        client_auth_offer: false,
        client_auth_mandatory: false,
        ticketer_enabled: true,
    }
}

fn server_hello(version: ProtocolVersion, exts: Vec<ServerExtension>) -> ServerHelloPayload {
    ServerHelloPayload {
        server_version: version,
        random: random(),
        session_id: SessionID::new(vec![3; 32]),
        cipher_suite: CipherSuite::TLS_ECDHE_RSA_WITH_AES_128_GCM_SHA256,
        compression_method: Compression::Null,
        extensions: exts,
    }
}

fn sent() -> Vec<ExtensionType> {
    vec![ExtensionType::ServerName, ExtensionType::SessionTicket, ExtensionType::ALProtocolNegotiation, ExtensionType::KeyShare]
}

fn tls12_client_hello(exts: Vec<ClientExtension>, session_id: Vec<u8>) -> ClientHelloPayload {
    ClientHelloPayload {
        client_version: ProtocolVersion::TLSv1_2,
        random: random(),
        session_id: SessionID::new(session_id),
        cipher_suites: vec![
            CipherSuite::TLS_ECDHE_RSA_WITH_AES_128_GCM_SHA256,
            CipherSuite::TLS_ECDHE_RSA_WITH_AES_256_GCM_SHA384,
        ],
        compression_methods: vec![Compression::Null],
        extensions: exts,
    }
}

fn tls12_exts() -> Vec<ClientExtension> {
    vec![
        ClientExtension::NamedGroups(vec![NamedGroup::secp256r1, NamedGroup::X25519]),
        ClientExtension::ECPointFormats(vec![ECPointFormat::Uncompressed]),
        ClientExtension::SignatureAlgorithms(vec![SignatureScheme::RSA_PKCS1_SHA256]),
    ]
}

#[test]
fn client_hello_offers_everything() {
    let flight = emit_client_hello(&client_config(), b"example.com", None, random(), &[0u8; 16]);
    assert_eq!(flight.message.typ, HandshakeType::ClientHello);
    assert_eq!(flight.offered_key_shares.len(), 3);
    assert_eq!(flight.offered_key_shares[0].group, NamedGroup::X25519);
    match &flight.message.payload {
        HandshakePayload::ClientHello(ch) => {
            assert!(ch.session_id.is_empty());
            assert_eq!(ch.cipher_suites.len(), 9);
            assert_eq!(ch.extensions.len(), 8);
            assert!(matches!(ch.extensions[6], ClientExtension::SessionTicketRequest));
            assert_eq!(
                flight.sent_extensions,
                vec![
                    ExtensionType::SupportedVersions,
                    ExtensionType::ServerName,
                    ExtensionType::ECPointFormats,
                    ExtensionType::EllipticCurves,
                    ExtensionType::SignatureAlgorithms,
                    ExtensionType::KeyShare,
                    ExtensionType::SessionTicket,
                    ExtensionType::ALProtocolNegotiation,
                ]
            );
            match &ch.extensions[0] {
                ClientExtension::SupportedVersions(v) => {
                    assert_eq!(v, &vec![ProtocolVersion::Unknown(0x7f12), ProtocolVersion::TLSv1_2])
                }
                _ => panic!("versions first"),
            }
        }
        _ => panic!("not a ClientHello"),
    }
}

#[test]
fn ticket_resumption_randomises_session_id() {
    let csv = ClientSessionValue {
        cipher_suite: CipherSuite::TLS_ECDHE_RSA_WITH_AES_128_GCM_SHA256,
        session_id: SessionID::new(vec![1; 32]),
        ticket: PayloadU16::new(vec![9, 9]),
        master_secret: PayloadU8::new(vec![4; 48]),
    };
    let mut c = csv.clone();
    randomise_sessionid_for_ticket(&mut c, &[8u8; 16]);
    assert_eq!(c.session_id, SessionID::new(vec![8; 16]));
    let flight = emit_client_hello(&client_config(), b"example.com", Some(csv), random(), &[8u8; 16]);
    match &flight.message.payload {
        HandshakePayload::ClientHello(ch) => {
            assert_eq!(ch.session_id, SessionID::new(vec![8; 16]));
            assert!(matches!(&ch.extensions[6], ClientExtension::SessionTicketOffer(p) if p.0 == vec![9, 9]));
        }
        _ => panic!("not a ClientHello"),
    }
}

#[test]
fn tls11_server_hello_is_incompatible() {
    let sh = server_hello(ProtocolVersion::TLSv1_1, vec![]);
    let err = handle_server_hello(&client_config(), &sent(), &None, &random(), &sh).err().unwrap();
    assert_eq!(err.alert, Some(AlertDescription::HandshakeFailure));
    assert_eq!(err.error, TLSError::PeerIncompatibleError(Incompatibility::NoSupportedVersion));
}

#[test]
fn server_hello_duplicate_extensions_rejected() {
    let sh = server_hello(
        ProtocolVersion::TLSv1_2,
        vec![ServerExtension::ServerNameAcknowledgement, ServerExtension::ServerNameAcknowledgement],
    );
    let err = handle_server_hello(&client_config(), &sent(), &None, &random(), &sh).err().unwrap();
    assert_eq!(err.alert, Some(AlertDescription::DecodeError));
    assert_eq!(err.error, TLSError::PeerMisbehavedError(Misbehaviour::DuplicateExtensions));
}

#[test]
fn unsolicited_extension_rejected_but_renegotiation_info_allowed() {
    let sh = server_hello(ProtocolVersion::TLSv1_2, vec![ServerExtension::ECPointFormats(vec![ECPointFormat::Uncompressed])]);
    let err = handle_server_hello(&client_config(), &sent(), &None, &random(), &sh).err().unwrap();
    assert_eq!(err.alert, Some(AlertDescription::UnsupportedExtension));
    assert_eq!(err.error, TLSError::PeerMisbehavedError(Misbehaviour::UnsolicitedExtension));
    let ok = vec![ServerExtension::make_empty_renegotiation_info()];
    assert!(!sent_unsolicited_extensions(&sent(), &ok));
    let sh = server_hello(ProtocolVersion::TLSv1_2, ok);
    let d = handle_server_hello(&client_config(), &sent(), &None, &random(), &sh).ok().unwrap();
    assert_eq!(d.next, ClientState::ExpectCertificate);
    assert!(!d.is_tls13);
}

#[test]
fn server_hello_checks_compression_alpn_and_suite() {
    let mut sh = server_hello(ProtocolVersion::TLSv1_2, vec![]);
    sh.compression_method = Compression::Deflate;
    let err = handle_server_hello(&client_config(), &sent(), &None, &random(), &sh).err().unwrap();
    assert_eq!(err.error, TLSError::PeerMisbehavedError(Misbehaviour::NonNullCompression));

    let sh = server_hello(ProtocolVersion::TLSv1_2, vec![ServerExtension::make_alpn(b"spdy")]);
    let err = handle_server_hello(&client_config(), &sent(), &None, &random(), &sh).err().unwrap();
    assert_eq!(err.alert, Some(AlertDescription::IllegalParameter));
    assert_eq!(err.error, TLSError::PeerMisbehavedError(Misbehaviour::NonOfferedAlpnProtocol));

    let sh = server_hello(ProtocolVersion::TLSv1_2, vec![ServerExtension::make_alpn(b"h2")]);
    let d = handle_server_hello(&client_config(), &sent(), &None, &random(), &sh).ok().unwrap();
    assert_eq!(d.alpn_protocol, Some(b"h2".to_vec()));

    let mut sh = server_hello(ProtocolVersion::TLSv1_2, vec![]);
    sh.cipher_suite = CipherSuite::Unknown(0x0005);
    let err = handle_server_hello(&client_config(), &sent(), &None, &random(), &sh).err().unwrap();
    assert_eq!(err.error, TLSError::PeerMisbehavedError(Misbehaviour::NonOfferedCipherSuite));
}

#[test]
fn tls13_server_hello_goes_to_encrypted_extensions() {
    let mut sh = server_hello(ProtocolVersion::Unknown(0x7f12), vec![]);
    sh.cipher_suite = CipherSuite::TLS13_AES_128_GCM_SHA256;
    let d = handle_server_hello(&client_config(), &sent(), &None, &random(), &sh).ok().unwrap();
    assert!(d.is_tls13);
    assert_eq!(d.next, ClientState::ExpectEncryptedExtensions);
}

#[test]
fn client_resumption_requires_same_suite() {
    let resuming = ClientSessionValue {
        cipher_suite: CipherSuite::TLS_ECDHE_RSA_WITH_AES_256_GCM_SHA384,
        session_id: SessionID::new(vec![3; 32]),
        ticket: PayloadU16::new(vec![]),
        master_secret: PayloadU8::new(vec![4; 48]),
    };
    let sh = server_hello(ProtocolVersion::TLSv1_2, vec![]);
    let err = handle_server_hello(&client_config(), &sent(), &Some(resuming.clone()), &random(), &sh).err().unwrap();
    assert_eq!(err.alert, None);
    assert_eq!(err.error, TLSError::PeerMisbehavedError(Misbehaviour::ResumptionVariedCipherSuite));
    let mut same = resuming;
    same.cipher_suite = CipherSuite::TLS_ECDHE_RSA_WITH_AES_128_GCM_SHA256;
    let sh = server_hello(ProtocolVersion::TLSv1_2, vec![ServerExtension::SessionTicketAcknowledgement]);
    let d = handle_server_hello(&client_config(), &sent(), &Some(same), &random(), &sh).ok().unwrap();
    assert!(d.resumed);
    assert_eq!(d.secrets.unwrap().get_master_secret(), vec![4; 48]);
    assert_eq!(d.next, ClientState::ExpectNewTicketResume);
}

#[test]
fn ccs_interleaved_with_fragment_is_fatal() {
    match handle_ccs(false, false) {
        Err(TLSError::InappropriateMessage { expect_types, got_type }) => {
            assert_eq!(expect_types, vec![ContentType::Handshake]);
            assert_eq!(got_type, ContentType::ChangeCipherSpec);
        }
        _ => panic!("expected InappropriateMessage"),
    }
    assert_eq!(handle_ccs(true, false), Ok(ClientState::ExpectFinished));
    assert_eq!(handle_ccs(true, true), Ok(ClientState::ExpectFinishedResume));
    assert!(server_hs::handle_ccs(false).is_err());
    assert_eq!(server_hs::handle_ccs(true), Ok(ServerState::ExpectFinished));
}

#[test]
fn key_share_must_be_offered() {
    let mut offered = vec![
        KeyExchange::start_ecdhe(NamedGroup::X25519).unwrap(),
        KeyExchange::start_ecdhe(NamedGroup::secp256r1).unwrap(),
    ];
    let k = find_key_share(&mut offered, NamedGroup::secp256r1).ok().unwrap();
    assert_eq!(k.group, NamedGroup::secp256r1);
    assert!(offered.is_empty());
    let mut offered = vec![KeyExchange::start_ecdhe(NamedGroup::X25519).unwrap()];
    let err = find_key_share(&mut offered, NamedGroup::secp384r1).err().unwrap();
    assert_eq!(err.alert, Some(AlertDescription::IllegalParameter));
    assert_eq!(err.error, TLSError::PeerMisbehavedError(Misbehaviour::WrongKeyShareGroup));
}

#[test]
fn session_saved_only_with_id_or_ticket() {
    assert!(session_to_save(vec![], None, &SessionID::empty(), CipherSuite::TLS13_AES_128_GCM_SHA256, &[1; 48]).is_none());
    let v = session_to_save(vec![5, 5], None, &SessionID::empty(), CipherSuite::TLS13_AES_128_GCM_SHA256, &[1; 48]).unwrap();
    assert_eq!(v.ticket.0, vec![5, 5]);
    let old = ClientSessionValue {
        cipher_suite: CipherSuite::TLS13_AES_128_GCM_SHA256,
        session_id: SessionID::empty(),
        ticket: PayloadU16::new(vec![7]),
        master_secret: PayloadU8::new(vec![]),
    };
    let v = session_to_save(vec![], Some(old), &SessionID::new(vec![2]), CipherSuite::TLS13_AES_128_GCM_SHA256, &[1; 48]).unwrap();
    assert_eq!(v.ticket.0, vec![7]);
    assert_eq!(v.master_secret.0, vec![1; 48]);
}

#[test]
fn server_rejects_old_or_compressed_or_duplicated_hellos() {
    let cfg = server_config();
    let mut ch = tls12_client_hello(tls12_exts(), vec![]);
    ch.client_version = ProtocolVersion::TLSv1_1;
    let err = handle_client_hello(&cfg, &ch, Some(SignatureAlgorithm::RSA), None, None).err().unwrap();
    assert_eq!(err.alert, Some(AlertDescription::ProtocolVersion));
    assert_eq!(err.error, TLSError::PeerIncompatibleError(Incompatibility::ClientTooOld));

    let mut ch = tls12_client_hello(tls12_exts(), vec![]);
    ch.compression_methods = vec![Compression::Deflate];
    let err = handle_client_hello(&cfg, &ch, Some(SignatureAlgorithm::RSA), None, None).err().unwrap();
    assert_eq!(err.alert, Some(AlertDescription::HandshakeFailure));

    let mut exts = tls12_exts();
    exts.push(ClientExtension::NamedGroups(vec![NamedGroup::X25519]));
    let ch = tls12_client_hello(exts, vec![]);
    let err = handle_client_hello(&cfg, &ch, Some(SignatureAlgorithm::RSA), None, None).err().unwrap();
    assert_eq!(err.alert, Some(AlertDescription::DecodeError));
    assert_eq!(err.error, TLSError::PeerMisbehavedError(Misbehaviour::DuplicateExtensions));

    let ch = tls12_client_hello(tls12_exts(), vec![]);
    let err = handle_client_hello(&cfg, &ch, None, None, None).err().unwrap();
    assert_eq!(err.alert, Some(AlertDescription::AccessDenied));
    assert_eq!(err.error, TLSError::General(Internal::NoCertificateResolved));

    let err = handle_client_hello(&cfg, &ch, Some(SignatureAlgorithm::ECDSA), None, None).err().unwrap();
    assert_eq!(err.error, TLSError::PeerIncompatibleError(Incompatibility::NoCipherSuiteInCommon));
}

#[test]
fn server_full_tls12_handshake_decision() {
    let cfg = server_config();
    let mut exts = tls12_exts();
    exts.push(ClientExtension::SessionTicketRequest);
    exts.push(ClientExtension::Protocols(vec![PayloadU8::new(b"h2".to_vec())]));
    let ch = tls12_client_hello(exts, vec![]);
    match handle_client_hello(&cfg, &ch, Some(SignatureAlgorithm::RSA), None, None).ok().unwrap() {
        ClientHelloDecision::Full12 { suite, sigscheme, group, answer } => {
            assert_eq!(suite.suite, CipherSuite::TLS_ECDHE_RSA_WITH_AES_128_GCM_SHA256);
            assert_eq!(sigscheme, SignatureScheme::RSA_PKCS1_SHA256);
            assert_eq!(group, NamedGroup::X25519);
            assert!(answer.send_ticket);
            assert_eq!(answer.alpn_protocol, Some(b"h2".to_vec()));
            assert_eq!(answer.extensions.len(), 2);
        }
        _ => panic!("expected a full handshake"),
    }
}

#[test]
fn server_resumption_from_cache() {
    let cfg = server_config();
    let ch = tls12_client_hello(tls12_exts(), vec![6; 32]);
    let stored = ServerSessionValue {
        cipher_suite: CipherSuite::TLS_ECDHE_RSA_WITH_AES_128_GCM_SHA256,
        master_secret: PayloadU8::new(vec![0x42; 48]),
        client_cert_chain: None,
    };
    match handle_client_hello(&cfg, &ch, Some(SignatureAlgorithm::RSA), None, Some(stored.clone())).ok().unwrap() {
        ClientHelloDecision::Resume12 { suite, session_id, value, from_ticket, .. } => {
            assert_eq!(suite.suite, value.cipher_suite);
            assert_eq!(value.master_secret.0, vec![0x42; 48]);
            assert_eq!(session_id, SessionID::new(vec![6; 32]));
            assert!(!from_ticket);
        }
        _ => panic!("expected resumption"),
    }
    let mut other = stored;
    other.cipher_suite = CipherSuite::TLS_ECDHE_RSA_WITH_AES_256_GCM_SHA384;
    let err = handle_client_hello(&cfg, &ch, Some(SignatureAlgorithm::RSA), None, Some(other)).err().unwrap();
    assert_eq!(err.error, TLSError::PeerMisbehavedError(Misbehaviour::ResumptionVariedCipherSuite));
}

#[test]
fn server_tls13_chooses_share_or_asks_for_retry() {
    let cfg = server_config();
    let mut ch = tls12_client_hello(vec![], vec![]);
    ch.cipher_suites = vec![CipherSuite::TLS13_AES_128_GCM_SHA256];
    ch.extensions = vec![
        ClientExtension::SupportedVersions(vec![ProtocolVersion::Unknown(0x7f12)]),
        ClientExtension::NamedGroups(vec![NamedGroup::X448, NamedGroup::X25519]),
        ClientExtension::SignatureAlgorithms(vec![SignatureScheme::RSA_PSS_SHA256]),
        ClientExtension::KeyShare(vec![KeyShareEntry::new(NamedGroup::X448, &[1; 56])]),
    ];
    match handle_client_hello(&cfg, &ch, Some(SignatureAlgorithm::RSA), None, None).ok().unwrap() {
        ClientHelloDecision::RetryRequest { group, .. } => assert_eq!(group, NamedGroup::X25519),
        _ => panic!("expected HelloRetryRequest"),
    }
    ch.extensions[3] = ClientExtension::KeyShare(vec![
        KeyShareEntry::new(NamedGroup::X448, &[1; 56]),
        KeyShareEntry::new(NamedGroup::X25519, &[2; 32]),
    ]);
    match handle_client_hello(&cfg, &ch, Some(SignatureAlgorithm::RSA), None, None).ok().unwrap() {
        ClientHelloDecision::Tls13 { suite, share, .. } => {
            assert_eq!(suite.suite, CipherSuite::TLS13_AES_128_GCM_SHA256);
            assert_eq!(share.group, NamedGroup::X25519);
            assert_eq!(share.payload.0, vec![2; 32]);
        }
        _ => panic!("expected TLS 1.3"),
    }
    ch.extensions.pop();
    let err = handle_client_hello(&cfg, &ch, Some(SignatureAlgorithm::RSA), None, None).err().unwrap();
    assert_eq!(err.error, TLSError::PeerIncompatibleError(Incompatibility::NoKeySharesSent));
}

#[test]
fn empty_alpn_protocol_is_misbehaviour() {
    let mut exts = tls12_exts();
    exts.push(ClientExtension::Protocols(vec![PayloadU8::new(vec![])]));
    let ch = tls12_client_hello(exts, vec![]);
    let err = process_extensions(&server_config(), &ch, false).err().unwrap();
    assert_eq!(err.error, TLSError::PeerMisbehavedError(Misbehaviour::EmptyAlpnProtocol));
}

#[test]
fn states_expect_their_messages() {
    let e = client_expect(ClientState::ExpectCCS);
    assert!(e.check_message(ContentType::ChangeCipherSpec, None).is_ok());
    assert!(e.check_message(ContentType::Handshake, Some(HandshakeType::Finished)).is_err());
    let e = server_expect(ServerState::ExpectClientHello);
    assert!(e.check_message(ContentType::Handshake, Some(HandshakeType::ClientHello)).is_ok());
    assert!(matches!(
        e.check_message(ContentType::Handshake, Some(HandshakeType::Finished)),
        Err(TLSError::InappropriateHandshakeMessage { .. })
    ));
    let _ = SupportedCipherSuite::lookup(CipherSuite::TLS13_AES_128_GCM_SHA256);
}

#[test]
fn non_utf8_alpn_not_offered_is_rejected() {
    let sh = server_hello(ProtocolVersion::TLSv1_2, vec![ServerExtension::make_alpn(&[0xff, 0xfe])]);
    let err = handle_server_hello(&client_config(), &sent(), &None, &random(), &sh).err().unwrap();
    assert_eq!(err.alert, Some(AlertDescription::IllegalParameter));
    assert_eq!(err.error, TLSError::PeerMisbehavedError(Misbehaviour::NonOfferedAlpnProtocol));
}

#[test]
fn compression_and_points_give_handshake_failure() {
    let cfg = server_config();
    let mut exts = tls12_exts();
    exts[1] = ClientExtension::ECPointFormats(vec![ECPointFormat::ANSIX962CompressedPrime]);
    let ch = tls12_client_hello(exts, vec![]);
    let err = handle_client_hello(&cfg, &ch, Some(SignatureAlgorithm::RSA), None, None).err().unwrap();
    assert_eq!(err.alert, Some(AlertDescription::HandshakeFailure));
    assert_eq!(err.error, TLSError::PeerIncompatibleError(Incompatibility::NoUncompressedPoints));
}

#[test]
fn certificate_verify_steps() {
    let m = tlscore::handshake::HandshakeMessagePayload {
        typ: HandshakeType::CertificateVerify,
        payload: HandshakePayload::CertificateVerify(tlscore::handshake::DigitallySignedStruct::new(SignatureScheme::RSA_PKCS1_SHA256, vec![1])),
    };
    let mut t = tlscore::hash_hs::HandshakeHash::new();
    let err = server_hs::handle_certificate_verify(Err(TLSError::DecryptError), &mut t, &m).err().unwrap();
    assert_eq!(err.alert, Some(AlertDescription::AccessDenied));
    assert_eq!(server_hs::handle_certificate_verify(Ok(()), &mut t, &m).ok(), Some(ServerState::ExpectCCS));
    assert_eq!(t.take_handshake_buf().len(), 4 + 2 + 2 + 1);
    let mut t = tlscore::hash_hs::HandshakeHash::new();
    assert_eq!(
        tlscore::client_hs::handle_certificate_verify_tls13(Ok(()), &mut t, &m).ok(),
        Some(ClientState::ExpectFinished)
    );
}
