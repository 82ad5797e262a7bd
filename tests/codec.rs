use tlscore::base::{Payload, PayloadU16, PayloadU8};
use tlscore::codec::{Codec, Reader};
use tlscore::enums::{
    CipherSuite, Compression, ExtensionType, HandshakeType, NamedGroup, ProtocolVersion,
    SignatureScheme,
};
use tlscore::handshake::{
    ClientExtension, ClientHelloPayload, HandshakeMessagePayload, HandshakePayload, HelloRetryExtension,
    HelloRetryRequest, KeyShareEntry, Random, ServerExtension, ServerHelloPayload, SessionID,
};

fn random() -> Random {
    let mut opaque = [0u8; 28];
    for (i, b) in opaque.iter_mut().enumerate() {
        *b = i as u8;
    }
    Random { gmt_unix_time: 0x01020304, opaque }
}

fn client_hello() -> ClientHelloPayload {
    ClientHelloPayload {
        client_version: ProtocolVersion::TLSv1_2,
        random: random(),
        session_id: SessionID::new(vec![7; 16]),
        cipher_suites: vec![CipherSuite::TLS_ECDHE_RSA_WITH_AES_128_GCM_SHA256],
        compression_methods: vec![Compression::Null],
        extensions: vec![
            ClientExtension::NamedGroups(vec![NamedGroup::X25519, NamedGroup::secp256r1]),
            ClientExtension::SignatureAlgorithms(vec![SignatureScheme::RSA_PKCS1_SHA256]),
            ClientExtension::make_sni(b"example.com"),
            ClientExtension::SessionTicketRequest,
            ClientExtension::KeyShare(vec![KeyShareEntry::new(NamedGroup::X25519, &[1, 2, 3])]),
        ],
    }
}

fn encode_msg(m: &HandshakeMessagePayload) -> Vec<u8> {
    let mut b = Vec::new();
    m.encode(&mut b);
    b
}

#[test]
fn integers_are_big_endian() {
    let mut b = Vec::new();
    tlscore::codec::encode_u16(0x1234, &mut b);
    tlscore::codec::encode_u24(0x0a0b0c, &mut b);
    tlscore::codec::encode_u32(0xdeadbeef, &mut b);
    assert_eq!(b, vec![0x12, 0x34, 0x0a, 0x0b, 0x0c, 0xde, 0xad, 0xbe, 0xef]);
    let mut r = Reader::init(&b);
    assert_eq!(r.read_u16(), Some(0x1234));
    assert_eq!(r.read_u24(), Some(0x0a0b0c));
    assert_eq!(r.read_u32(), Some(0xdeadbeef));
    assert_eq!(r.read_u8(), None);
}

#[test]
fn session_id_round_trip_and_limit() {
    let id = SessionID::new(vec![9; 40]);
    assert_eq!(id.len(), 32);
    let mut b = Vec::new();
    id.encode(&mut b);
    assert_eq!(b[0], 32);
    let mut r = Reader::init(&b);
    assert_eq!(SessionID::read(&mut r), Some(id));
    let mut too_long = vec![33u8];
    too_long.extend_from_slice(&[0u8; 33]);
    let mut r = Reader::init(&too_long);
    assert!(SessionID::read(&mut r).is_none());
    assert!(SessionID::empty().is_empty());
}

#[test]
fn random_round_trip_and_write_slice() {
    let rnd = random();
    let mut b = Vec::new();
    rnd.encode(&mut b);
    assert_eq!(&b[..4], &[1, 2, 3, 4]);
    assert_eq!(b.len(), 32);
    let back = Random::from_slice(&b);
    assert_eq!(back.gmt_unix_time, rnd.gmt_unix_time);
    assert_eq!(back.opaque, rnd.opaque);
    let mut out = [0xffu8; 34];
    rnd.write_slice(&mut out);
    assert_eq!(&out[..32], &b[..]);
    assert_eq!(&out[32..], &[0xff, 0xff]);
}

#[test]
fn payloads_carry_their_length() {
    let mut b = Vec::new();
    PayloadU8::new(vec![1, 2]).encode(&mut b);
    PayloadU16::new(vec![3]).encode(&mut b);
    Payload::new(vec![4, 5]).encode(&mut b);
    assert_eq!(b, vec![2, 1, 2, 0, 1, 3, 4, 5]);
}

#[test]
fn client_hello_round_trip() {
    let m = HandshakeMessagePayload {
        typ: HandshakeType::ClientHello,
        payload: HandshakePayload::ClientHello(client_hello()),
    };
    let bytes = encode_msg(&m);
    assert_eq!(bytes[0], 1);
    assert_eq!(m.len(), bytes.len());
    let mut r = Reader::init(&bytes);
    let back = HandshakeMessagePayload::read(&mut r).unwrap();
    assert!(!r.any_left());
    assert_eq!(encode_msg(&back), bytes);
    match back.payload {
        HandshakePayload::ClientHello(ch) => {
            assert_eq!(ch.extensions.len(), 5);
            assert!(!ch.has_duplicate_extension());
            assert_eq!(ch.get_namedgroups_extension().unwrap(), &vec![NamedGroup::X25519, NamedGroup::secp256r1]);
            assert!(matches!(ch.get_ticket_extension(), Some(ClientExtension::SessionTicketRequest)));
            assert!(ch.get_alpn_extension().is_none());
        }
        _ => panic!("not a ClientHello"),
    }
}

#[test]
fn server_hello_tls13_omits_session_id_and_compression() {
    let sh = ServerHelloPayload {
        server_version: ProtocolVersion::Unknown(0x7f12),
        random: random(),
        session_id: SessionID::empty(),
        cipher_suite: CipherSuite::TLS13_AES_128_GCM_SHA256,
        compression_method: Compression::Null,
        extensions: vec![ServerExtension::KeyShare(KeyShareEntry::new(NamedGroup::X25519, &[9; 32]))],
    };
    let mut b = Vec::new();
    sh.encode(&mut b);
    // version, random, suite, then the extension block
    assert_eq!(&b[..2], &[0x7f, 0x12]);
    assert_eq!(&b[34..36], &[0x13, 0x01]);
    assert_eq!(b.len(), 2 + 32 + 2 + 2 + (2 + 2 + 2 + 2 + 32));
    let mut r = Reader::init(&b);
    let back = ServerHelloPayload::read(&mut r).unwrap();
    let mut b2 = Vec::new();
    back.encode(&mut b2);
    assert_eq!(b, b2);
    assert_eq!(back.get_key_share().unwrap().group, NamedGroup::X25519);
}

#[test]
fn server_hello_tls12_round_trip() {
    let sh = ServerHelloPayload {
        server_version: ProtocolVersion::TLSv1_2,
        random: random(),
        session_id: SessionID::new(vec![1, 2, 3]),
        cipher_suite: CipherSuite::TLS_ECDHE_RSA_WITH_AES_128_GCM_SHA256,
        compression_method: Compression::Null,
        extensions: vec![
            ServerExtension::make_empty_renegotiation_info(),
            ServerExtension::make_alpn(b"h2"),
        ],
    };
    let mut b = Vec::new();
    sh.encode(&mut b);
    let mut r = Reader::init(&b);
    let back = ServerHelloPayload::read(&mut r).unwrap();
    let mut b2 = Vec::new();
    back.encode(&mut b2);
    assert_eq!(b, b2);
    assert_eq!(back.session_id, sh.session_id);
    assert_eq!(back.get_alpn_protocol(), Some(b"h2".to_vec()));
}

#[test]
fn empty_extension_block_is_accepted() {
    let sh = ServerHelloPayload {
        server_version: ProtocolVersion::TLSv1_2,
        random: random(),
        session_id: SessionID::empty(),
        cipher_suite: CipherSuite::TLS_ECDHE_RSA_WITH_AES_128_GCM_SHA256,
        compression_method: Compression::Null,
        extensions: vec![],
    };
    let mut b = Vec::new();
    sh.encode(&mut b);
    b.extend_from_slice(&[0, 0]);
    let mut r = Reader::init(&b);
    let back = ServerHelloPayload::read(&mut r).unwrap();
    assert!(back.extensions.is_empty());
}

#[test]
fn unknown_extension_round_trips_opaquely() {
    let bytes = vec![0x12, 0x34, 0x00, 0x02, 0xaa, 0xbb];
    let mut r = Reader::init(&bytes);
    let ext = ClientExtension::read(&mut r).unwrap();
    assert_eq!(ext.get_type(), ExtensionType::Unknown(0x1234));
    let mut b = Vec::new();
    ext.encode(&mut b);
    assert_eq!(b, bytes);
}

#[test]
fn extension_with_trailing_bytes_is_rejected() {
    // ECPointFormats with a one-byte list and a stray byte after it.
    let bytes = vec![0x00, 0x0b, 0x00, 0x03, 0x01, 0x00, 0x99];
    let mut r = Reader::init(&bytes);
    assert!(ClientExtension::read(&mut r).is_none());
}

#[test]
fn hostname_must_be_utf8() {
    // server_name extension: list of one HostName entry holding 0xff.
    let bytes = vec![0x00, 0x00, 0x00, 0x06, 0x00, 0x04, 0x00, 0x00, 0x01, 0xff];
    let mut r = Reader::init(&bytes);
    assert!(ClientExtension::read(&mut r).is_none());
    let good = vec![0x00, 0x00, 0x00, 0x06, 0x00, 0x04, 0x00, 0x00, 0x01, b'a'];
    let mut r = Reader::init(&good);
    assert!(ClientExtension::read(&mut r).is_some());
}

#[test]
fn hello_retry_request_carries_extension_body() {
    let hrr = HelloRetryRequest {
        server_version: ProtocolVersion::Unknown(0x7f12),
        extensions: vec![HelloRetryExtension::KeyShare(NamedGroup::X25519)],
    };
    let mut b = Vec::new();
    hrr.encode(&mut b);
    assert_eq!(b, vec![0x7f, 0x12, 0x00, 0x06, 0x00, 0x28, 0x00, 0x02, 0x00, 0x1d]);
    let mut r = Reader::init(&b);
    let back = HelloRetryRequest::read(&mut r).unwrap();
    assert!(matches!(back.extensions[0], HelloRetryExtension::KeyShare(NamedGroup::X25519)));
}

#[test]
fn certificate_parsing_follows_version() {
    let m = HandshakeMessagePayload {
        typ: HandshakeType::Certificate,
        payload: HandshakePayload::Certificate(vec![tlscore::base::PayloadU24::new(vec![1, 2, 3])]),
    };
    let bytes = encode_msg(&m);
    let mut r = Reader::init(&bytes);
    let back = HandshakeMessagePayload::read_version(&mut r, ProtocolVersion::TLSv1_2).unwrap();
    assert!(matches!(back.payload, HandshakePayload::Certificate(_)));
    let mut r = Reader::init(&bytes);
    // The same bytes are not a TLS 1.3 certificate message.
    assert!(HandshakeMessagePayload::read_version(&mut r, ProtocolVersion::Unknown(0x7f12)).is_none());
}

#[test]
fn server_hello_done_with_body_is_unknown() {
    let bytes = vec![14, 0, 0, 1, 0xaa];
    let mut r = Reader::init(&bytes);
    let m = HandshakeMessagePayload::read(&mut r).unwrap();
    assert!(matches!(m.payload, HandshakePayload::Unknown(_)));
    let bytes = vec![14, 0, 0, 0];
    let mut r = Reader::init(&bytes);
    let m = HandshakeMessagePayload::read(&mut r).unwrap();
    assert!(matches!(m.payload, HandshakePayload::ServerHelloDone));
}

#[test]
fn enum_codes() {
    assert_eq!(ProtocolVersion::from_u16(0x0303), ProtocolVersion::TLSv1_2);
    assert_eq!(ProtocolVersion::from_u16(0x7f12), ProtocolVersion::Unknown(0x7f12));
    assert_eq!(ExtensionType::RenegotiationInfo.get_u16(), 0xff01);
    assert_eq!(NamedGroup::from_u16(29), NamedGroup::X25519);
}
