use tlscore::base::PayloadU24;
use tlscore::client_hs::{self, emit_client_hello, handle_server_hello, ClientConfig, ClientState, TrafficAction};
use tlscore::codec::Reader;
use tlscore::enums::{
    CipherSuite, ContentType, ExtensionType, NamedGroup, ProtocolVersion, SignatureAlgorithm, SignatureScheme,
};
use tlscore::handshake::{ClientExtension, HandshakeMessagePayload, HandshakePayload, Random, ServerExtension, SessionID};
use tlscore::hash_hs::HandshakeHash;
use tlscore::record_guard::RecordGuard;
use tlscore::server_hs::{self, handle_client_hello, ClientHelloDecision, ServerConfig, ServerState};
use tlscore::session::SessionRandoms;
use tlscore::suites::{all_ciphersuites, SupportedCipherSuite};

fn rnd(b: u8) -> Random {
    Random { gmt_unix_time: b as u32, opaque: [b; 28] }
}

fn bytes32(r: &Random) -> [u8; 32] {
    let mut out = [0u8; 32];
    r.write_slice(&mut out);
    out
}

fn wire(m: &HandshakeMessagePayload) -> HandshakeMessagePayload {
    let mut b = Vec::new();
    m.encode(&mut b);
    let mut r = Reader::init(&b);
    HandshakeMessagePayload::read(&mut r).unwrap()
}

fn finished_data(m: &HandshakeMessagePayload) -> Vec<u8> {
    match &m.payload {
        HandshakePayload::Finished(p) => p.0.clone(),
        _ => panic!("not a Finished"),
    }
}

fn server_config() -> ServerConfig {
    ServerConfig {
        ciphersuites: all_ciphersuites(),
        ignore_client_order: false,
        alpn_protocols: vec![],
        client_auth_offer: false,
        client_auth_mandatory: false,
        ticketer_enabled: false,
    }
}

#[test]
fn tls12_fresh_ecdhe_rsa_handshake() {
    let suite = SupportedCipherSuite::lookup(CipherSuite::TLS_ECDHE_RSA_WITH_AES_128_GCM_SHA256).unwrap();
    let cfg = ClientConfig { ciphersuites: vec![suite], alpn_protocols: vec![], enable_tickets: false };
    let crand = rnd(1);
    let srand = rnd(2);
    let flight = emit_client_hello(&cfg, b"example.com", None, crand, &[0u8; 16]);
    let mut ch_msg = flight.message;
    // A TLS 1.2-only client: no supported_versions extension.
    if let HandshakePayload::ClientHello(ch) = &mut ch_msg.payload {
        ch.extensions.remove(0);
    }
    let sent: Vec<ExtensionType> = flight.sent_extensions[1..].to_vec();
    let ch = match &ch_msg.payload {
        HandshakePayload::ClientHello(ch) => ch.clone(),
        _ => unreachable!(),
    };
    let mut ct = HandshakeHash::new();
    ct.add_message(&ch_msg);

    // Server: ClientHello to ServerHelloDone.
    let (ssuite, sigscheme, group, answer) =
        match handle_client_hello(&server_config(), &ch, Some(SignatureAlgorithm::RSA), None, None).ok().unwrap() {
            ClientHelloDecision::Full12 { suite, sigscheme, group, answer } => (suite, sigscheme, group, answer),
            _ => panic!("expected a full TLS 1.2 handshake"),
        };
    assert_eq!(ssuite.suite, suite.suite);
    assert_eq!(sigscheme, SignatureScheme::RSA_PKCS1_SHA256);
    assert_eq!(group, NamedGroup::X25519);
    let randoms = SessionRandoms { client: bytes32(&crand), server: bytes32(&srand) };
    let mut st = HandshakeHash::new();
    server_hs::join_client_hello(&mut st, &ssuite, &ch_msg);
    let start = server_hs::start_full_tls12(
        &ssuite,
        &SessionID::new(vec![4; 32]),
        srand,
        &randoms,
        answer,
        vec![PayloadU24::new(vec![0x30, 0x00])],
        group,
        &mut st,
    )
    .ok()
    .unwrap();
    let signed = start.to_sign.clone();
    assert_eq!(&signed[..32], &randoms.client[..]);
    let sh_msg = start.server_hello;
    let cert_msg = start.certificate;
    let kx = start.kx;
    let end = server_hs::finish_full_tls12(&server_config(), start.params, sigscheme, vec![0xaa; 8], vec![], &mut st);
    assert_eq!(end.next, ServerState::ExpectClientKX);
    assert!(end.certificate_request.is_none());
    let skx_msg = end.server_kx;
    let shd_msg = end.server_hello_done;

    // Client: ServerHello to its Finished.
    let sh = match &wire(&sh_msg).payload {
        HandshakePayload::ServerHello(sh) => sh.clone(),
        _ => unreachable!(),
    };
    let d = handle_server_hello(&cfg, &sent, &None, &crand, &sh).ok().unwrap();
    assert_eq!(d.next, ClientState::ExpectCertificate);
    client_hs::join_server_hello(&mut ct, &d, &ch_msg, &sh_msg);
    let (chain, next) = client_hs::handle_certificate(&mut ct, &wire(&cert_msg), false).unwrap();
    assert_eq!(next, ClientState::ExpectServerKX);
    assert_eq!(chain[0].0, vec![0x30, 0x00]);
    let skx_wire = wire(&skx_msg);
    let kx_payload = match &skx_wire.payload {
        HandshakePayload::ServerKeyExchange(p) => p.clone(),
        _ => unreachable!(),
    };
    let (sig, kx_params, next) = client_hs::handle_server_kx(&mut ct, &kx_payload, &skx_wire, &d.suite).ok().unwrap();
    assert_eq!(next, ClientState::ExpectServerHelloDoneOrCertRequest);
    assert_eq!(&signed[64..], &kx_params[..]);
    assert!(client_hs::handle_done_or_certreq(&mut ct, &shd_msg, &d.suite, false).is_none());
    let cflight = client_hs::handle_server_hello_done(&mut ct, &shd_msg, &d.suite, &randoms, &kx_params, &sig, Ok(()), false, None)
        .ok()
        .unwrap();
    assert!(cflight.certificate.is_none() && cflight.to_sign.is_none());
    let mut client_guard = RecordGuard::new();
    client_guard.we_now_encrypting();
    let (cfin, next) = client_hs::finish_client_flight(&cflight.secrets, &mut ct, None, false);
    assert_eq!(next, ClientState::ExpectCCS);

    // Server: ClientKeyExchange to its Finished.
    let ckx = match &cflight.client_kx.payload {
        HandshakePayload::ClientKeyExchange(p) => p.0.clone(),
        _ => unreachable!(),
    };
    let (secrets, next) = server_hs::handle_client_kx(kx, &ckx, &randoms, &ssuite, false).ok().unwrap();
    assert_eq!(next, ServerState::ExpectCCS);
    assert_eq!(secrets.get_master_secret(), cflight.secrets.get_master_secret());
    st.add_message(&cflight.client_kx);
    assert_eq!(server_hs::handle_ccs(true), Ok(ServerState::ExpectFinished));
    let actions = server_hs::handle_finished(&secrets, &mut st, &cfin, &finished_data(&cfin), false, &SessionID::new(vec![4; 32]))
        .ok()
        .unwrap();
    assert!(actions.save_session && actions.send_flight);
    let sfin = server_hs::emit_finished(&secrets, &mut st);

    // Client: the server's Finished.
    assert_eq!(client_hs::handle_ccs(true, false), Ok(ClientState::ExpectFinished));
    client_guard.peer_now_encrypting();
    assert!(client_guard.is_we_encrypting() && client_guard.is_peer_encrypting());
    assert_eq!(client_hs::handle_finished_tls12(&cflight.secrets, &mut ct, &sfin, &finished_data(&sfin)), Ok(ClientState::TrafficTLS12));
}

#[test]
fn tls13_fresh_x25519_handshake() {
    let cfg = ClientConfig { ciphersuites: all_ciphersuites(), alpn_protocols: vec![], enable_tickets: false };
    let flight = emit_client_hello(&cfg, b"example.com", None, rnd(1), &[0u8; 16]);
    let ch_msg = flight.message;
    let mut offered = flight.offered_key_shares;
    let ch = match &ch_msg.payload {
        HandshakePayload::ClientHello(ch) => ch.clone(),
        _ => unreachable!(),
    };
    assert!(matches!(ch.extensions[0], ClientExtension::SupportedVersions(_)));

    let (suite, share, _schemes, answer) =
        match handle_client_hello(&server_config(), &ch, Some(SignatureAlgorithm::ECDSA), None, None).ok().unwrap() {
            ClientHelloDecision::Tls13 { suite, share, sigschemes, answer } => (suite, share, sigschemes, answer),
            _ => panic!("expected TLS 1.3"),
        };
    assert_eq!(suite.suite, CipherSuite::TLS13_CHACHA20_POLY1305_SHA256);
    assert_eq!(share.group, NamedGroup::X25519);
    let mut st = HandshakeHash::new();
    st.start_hash(suite.hash);
    st.add_message(&ch_msg);
    let (sh_msg, mut sks) = server_hs::emit_server_hello_tls13(&share, &suite, rnd(2), &mut st).ok().unwrap();
    let ee = server_hs::emit_encrypted_extensions(answer);
    st.add_message(&ee);
    let cert = server_hs::emit_certificate_tls13(&vec![PayloadU24::new(vec![0x30, 0x00])]);
    st.add_message(&cert);
    let cv = server_hs::emit_certificate_verify(SignatureScheme::ECDSA_NISTP256_SHA256, vec![1, 2, 3]);
    st.add_message(&cv);
    let sfin = server_hs::emit_finished_tls13(&sks, &mut st);

    let mut ct = HandshakeHash::new();
    ct.add_message(&ch_msg);
    let sh = match &wire(&sh_msg).payload {
        HandshakePayload::ServerHello(sh) => sh.clone(),
        _ => unreachable!(),
    };
    assert_eq!(sh.server_version, ProtocolVersion::Unknown(0x7f12));
    assert!(matches!(sh.extensions[0], ServerExtension::KeyShare(_)));
    let d = handle_server_hello(&cfg, &flight.sent_extensions, &None, &rnd(1), &sh).ok().unwrap();
    assert!(d.is_tls13);
    ct.start_hash(d.suite.hash);
    ct.add_message(&sh_msg);
    let mut cks = client_hs::start_handshake_traffic(&mut offered, &d.suite, &sh, &ct).ok().unwrap();
    assert!(offered.is_empty());
    assert_eq!(client_hs::handle_encrypted_extensions(&mut ct, &wire(&ee)), ClientState::ExpectCertificate);
    let cert_wire = {
        let mut b = Vec::new();
        cert.encode(&mut b);
        let mut r = Reader::init(&b);
        HandshakeMessagePayload::read_version(&mut r, ProtocolVersion::Unknown(0x7f12)).unwrap()
    };
    let (chain, next) = client_hs::handle_certificate(&mut ct, &cert_wire, true).unwrap();
    assert_eq!(next, ClientState::ExpectCertificateVerify);
    assert_eq!(chain.len(), 1);
    ct.add_message(&cv);
    let cfin = client_hs::handle_finished_tls13(&mut cks, &mut ct, &sfin, &finished_data(&sfin)).ok().unwrap();
    assert_eq!(server_hs::handle_finished_tls13(&mut sks, &mut st, &cfin, &finished_data(&cfin)), Ok(ServerState::Traffic));
    assert_eq!(ct.get_current_hash(), st.get_current_hash());
    assert_eq!(client_hs::handle_traffic_tls13(ContentType::ApplicationData).0, TrafficAction::Deliver);
    assert_eq!(client_hs::handle_traffic_tls13(ContentType::Handshake).0, TrafficAction::Ignore);
}

#[test]
fn tls13_wrong_server_finished_is_decrypt_error() {
    let cfg = ClientConfig { ciphersuites: all_ciphersuites(), alpn_protocols: vec![], enable_tickets: false };
    let flight = emit_client_hello(&cfg, b"example.com", None, rnd(1), &[0u8; 16]);
    let ch = match &flight.message.payload {
        HandshakePayload::ClientHello(ch) => ch.clone(),
        _ => unreachable!(),
    };
    let (suite, share) = match handle_client_hello(&server_config(), &ch, Some(SignatureAlgorithm::RSA), None, None).ok().unwrap() {
        ClientHelloDecision::Tls13 { suite, share, .. } => (suite, share),
        _ => panic!("expected TLS 1.3"),
    };
    let mut st = HandshakeHash::new();
    st.start_hash(suite.hash);
    st.add_message(&flight.message);
    let (sh_msg, _) = server_hs::emit_server_hello_tls13(&share, &suite, rnd(2), &mut st).ok().unwrap();
    let sh = match &sh_msg.payload {
        HandshakePayload::ServerHello(sh) => sh.clone(),
        _ => unreachable!(),
    };
    let mut ct = HandshakeHash::new();
    ct.add_message(&flight.message);
    ct.start_hash(suite.hash);
    ct.add_message(&sh_msg);
    let mut offered = flight.offered_key_shares;
    let mut cks = client_hs::start_handshake_traffic(&mut offered, &suite, &sh, &ct).ok().unwrap();
    let bogus = client_hs::finished_message(vec![0u8; 32]);
    assert!(matches!(
        client_hs::handle_finished_tls13(&mut cks, &mut ct, &bogus, &[0u8; 32]),
        Err(tlscore::error::TLSError::DecryptError)
    ));
    let mut sh2 = sh.clone();
    sh2.extensions.clear();
    let mut offered = Vec::new();
    let err = client_hs::start_handshake_traffic(&mut offered, &suite, &sh2, &ct).err().unwrap();
    assert_eq!(err.alert, Some(tlscore::enums::AlertDescription::MissingExtension));
}

fn abbreviated_handshake(from_ticket: bool) {
    let suite = SupportedCipherSuite::lookup(CipherSuite::TLS_ECDHE_RSA_WITH_AES_128_GCM_SHA256).unwrap();
    let master = vec![0x5a; 48];
    let stored_id = vec![0x11; 32];
    let csv = client_hs::ClientSessionValue {
        cipher_suite: suite.suite,
        session_id: SessionID::new(stored_id.clone()),
        ticket: tlscore::base::PayloadU16::new(if from_ticket { vec![0xee; 20] } else { vec![] }),
        master_secret: tlscore::base::PayloadU8::new(master.clone()),
    };
    let cfg = ClientConfig { ciphersuites: vec![suite], alpn_protocols: vec![], enable_tickets: true };
    let flight = emit_client_hello(&cfg, b"example.com", Some(csv), rnd(1), &[0x22; 16]);
    let resuming = flight.resuming_session.clone();
    let mut ch_msg = flight.message;
    if let HandshakePayload::ClientHello(ch) = &mut ch_msg.payload {
        ch.extensions.remove(0);
    }
    let sent: Vec<ExtensionType> = flight.sent_extensions[1..].to_vec();
    let ch = match &ch_msg.payload {
        HandshakePayload::ClientHello(ch) => ch.clone(),
        _ => unreachable!(),
    };
    if from_ticket {
        assert_eq!(ch.session_id, SessionID::new(vec![0x22; 16]));
    } else {
        assert_eq!(ch.session_id, SessionID::new(stored_id.clone()));
    }
    let stored = server_hs::ServerSessionValue {
        cipher_suite: suite.suite,
        master_secret: tlscore::base::PayloadU8::new(master.clone()),
        client_cert_chain: None,
    };
    let (ticket_value, cached_value) = if from_ticket { (Some(stored), None) } else { (None, Some(stored)) };
    let scfg = ServerConfig { ticketer_enabled: true, ..server_config() };
    let (ssuite, sid, value, answer) =
        match handle_client_hello(&scfg, &ch, Some(SignatureAlgorithm::RSA), ticket_value, cached_value).ok().unwrap() {
            ClientHelloDecision::Resume12 { suite, session_id, value, from_ticket: t, answer } => {
                assert_eq!(t, from_ticket);
                (suite, session_id, value, answer)
            }
            _ => panic!("expected resumption"),
        };
    assert_eq!(sid, ch.session_id);
    let send_ticket = answer.send_ticket;
    let randoms = SessionRandoms { client: bytes32(&rnd(1)), server: bytes32(&rnd(2)) };
    let mut st = HandshakeHash::new();
    st.start_hash(ssuite.hash);
    st.add_message(&ch_msg);
    let mut wrong = value.clone();
    wrong.cipher_suite = CipherSuite::TLS_ECDHE_RSA_WITH_AES_256_GCM_SHA384;
    let before = st.get_current_hash();
    let err = server_hs::start_resumption(&ssuite, &sid, rnd(2), &randoms, &wrong, server_hs::process_extensions(&scfg, &ch, false).ok().unwrap(), None, 300, &mut st).err().unwrap();
    assert_eq!(err.error, tlscore::error::TLSError::PeerMisbehavedError(tlscore::error::Misbehaviour::ResumptionVariedCipherSuite));
    assert_eq!(st.get_current_hash(), before);
    let rf = server_hs::start_resumption(&ssuite, &sid, rnd(2), &randoms, &value, answer, Some(vec![0xcc; 8]), 300, &mut st).ok().unwrap();
    assert_eq!(rf.next, ServerState::ExpectCCS);
    assert!(send_ticket);
    let sh_msg = rf.server_hello;
    let ssecrets = rf.secrets;
    assert_eq!(ssecrets.get_master_secret(), master);
    let ticket_msg = rf.ticket.unwrap();
    let sfin = rf.finished;

    let mut ct = HandshakeHash::new();
    ct.add_message(&ch_msg);
    let sh = match &sh_msg.payload {
        HandshakePayload::ServerHello(sh) => sh.clone(),
        _ => unreachable!(),
    };
    let d = handle_server_hello(&cfg, &sent, &resuming, &rnd(1), &sh).ok().unwrap();
    assert!(d.resumed);
    assert_eq!(d.next, ClientState::ExpectNewTicketResume);
    ct.start_hash(d.suite.hash);
    ct.add_message(&sh_msg);
    let csecrets = d.secrets.unwrap();
    assert_eq!(csecrets.get_master_secret(), master);
    let nst = match &ticket_msg.payload {
        HandshakePayload::NewSessionTicket(t) => t.clone(),
        _ => unreachable!(),
    };
    let (new_ticket, lifetime, next) = client_hs::handle_new_ticket(&nst, true);
    assert_eq!((new_ticket.clone(), lifetime, next), (vec![0xcc; 8], 300, ClientState::ExpectCCSResume));
    ct.add_message(&ticket_msg);
    assert_eq!(client_hs::handle_ccs(true, true), Ok(ClientState::ExpectFinishedResume));
    let (cfin, next) = client_hs::handle_finished_resume(&csecrets, &mut ct, &sfin, &finished_data(&sfin)).ok().unwrap();
    assert_eq!(next, ClientState::TrafficTLS12);
    let actions = server_hs::handle_finished(&ssecrets, &mut st, &cfin, &finished_data(&cfin), true, &sid).ok().unwrap();
    assert!(!actions.save_session && !actions.send_flight);
    let saved = client_hs::session_to_save(new_ticket, resuming, &sh.session_id, d.suite.suite, &csecrets.get_master_secret()).unwrap();
    assert_eq!(saved.ticket.0, vec![0xcc; 8]);
}

#[test]
fn tls12_session_id_resumption() {
    abbreviated_handshake(false);
}

#[test]
fn tls12_ticket_resumption() {
    abbreviated_handshake(true);
}

#[test]
fn tls13_hello_retry_then_handshake() {
    // The client's only share is in a group the server does not take.
    let cfg = ClientConfig { ciphersuites: all_ciphersuites(), alpn_protocols: vec![], enable_tickets: false };
    let flight = emit_client_hello(&cfg, b"example.com", None, rnd(1), &[0u8; 16]);
    let mut ch = match &flight.message.payload {
        HandshakePayload::ClientHello(ch) => ch.clone(),
        _ => unreachable!(),
    };
    ch.extensions[5] = ClientExtension::KeyShare(vec![tlscore::handshake::KeyShareEntry::new(NamedGroup::X448, &[1; 56])]);
    let group = match handle_client_hello(&server_config(), &ch, Some(SignatureAlgorithm::RSA), None, None).ok().unwrap() {
        ClientHelloDecision::RetryRequest { group, .. } => group,
        _ => panic!("expected HelloRetryRequest"),
    };
    assert_eq!(group, NamedGroup::X25519);
    let hrr = server_hs::emit_hello_retry_request(group);
    let mut b = Vec::new();
    hrr.encode(&mut b);
    assert_eq!(&b[..4], &[6, 0, 0, 10]);
    // The second ClientHello carries an X25519 share and goes on as TLS 1.3.
    let second = emit_client_hello(&cfg, b"example.com", None, rnd(3), &[0u8; 16]);
    let ch2 = match &second.message.payload {
        HandshakePayload::ClientHello(ch) => ch.clone(),
        _ => unreachable!(),
    };
    match handle_client_hello(&server_config(), &ch2, Some(SignatureAlgorithm::RSA), None, None).ok().unwrap() {
        ClientHelloDecision::Tls13 { share, .. } => assert_eq!(share.group, NamedGroup::X25519),
        _ => panic!("expected TLS 1.3"),
    }
}
