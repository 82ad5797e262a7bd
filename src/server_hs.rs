//! The server's handshake: what it decides on each message from the client,
//! and what it sends back. Cryptography, certificate checks and storage are
//! done by the caller with the values these functions take and hand back.

use vstd::prelude::*;
use crate::base::{PayloadU8, PayloadU24, copy_bytes};
use crate::client_hs::{finished_message, handshake_message, handshake_schedule};
use crate::codec::Codec;
use crate::crypto::{hmac_of, supported_hash, verify_slices_are_equal};
use crate::enums::{
    AlertDescription, CipherSuite, ClientCertificateType, Compression, ECCurveType, ECPointFormat,
    ExtensionType, HandshakeType, NamedGroup, ProtocolVersion, SignatureAlgorithm, SignatureScheme,
};
use crate::error::{
    Incompatibility, Internal, Misbehaviour, Rejection, TLSError, ccs_interleaved, incompatible,
    incompatible_by, is_ccs_interleaved, misbehaved, misbehaved_by, reject, spec_reject,
};
use crate::groups::{ConvertProtocolNameList, supported_groups, utf8_names};
use crate::handshake::{
    CertificateEntry, CertificatePayload, CertificatePayloadTLS13, CertificateRequestPayload,
    ClientExtension, ClientHelloPayload, DigitallySignedStruct, DistinguishedName,
    ECDHEServerKeyExchange, HandshakeMessagePayload, HandshakePayload, HelloRetryExtension,
    HelloRetryRequest, KeyShareEntry, NewSessionTicketPayload, Random, ServerECDHParams,
    ServerExtension, ServerHelloPayload, ServerKeyExchangePayload, SessionID, bytes_equal,
    client_ext_types, first_client_ext, has_duplicate,
};
use crate::hash_hs::{HandshakeHash, spec_add, spec_current_hash};
use crate::key_schedule::{
    KeySchedule, SecretKind, label_c_ap, label_s_ap, spec_expand_label, spec_finished_mac,
    spec_handshake_schedule, start_handshake_schedule, zeroes,
};
use crate::kx::KeyExchange;
use crate::session::{
    SessionRandoms, SessionSecrets, label_client_finished, label_server_finished,
    spec_master_secret, spec_verify_data,
};
use crate::suites::{
    SupportedCipherSuite, choose_ciphersuite_preferring_client, choose_ciphersuite_preferring_server,
    first_group_in_both, first_in_both, reduce_given_sigalg, sig_preference,
    spec_choose_preferring_client, spec_choose_preferring_server, spec_reduce_given_sigalg,
    spec_supported_groups,
};

verus! {

/// Where the server's handshake stands.
#[derive(Debug, Clone, Copy, PartialEq, Eq, Structural)]
pub enum ServerState {
    ExpectClientHello,
    ExpectCertificate,
    ExpectClientKX,
    ExpectCertificateVerify,
    ExpectCCS,
    ExpectFinished,
    ExpectFinishedTLS13,
    Traffic,
}

/// What the server is configured with.
pub struct ServerConfig {
    /// The suites the server supports, best first.
    pub ciphersuites: Vec<SupportedCipherSuite>,
    /// Choose by the server's order rather than the client's.
    pub ignore_client_order: bool,
    /// The ALPN protocols the server speaks, best first.
    pub alpn_protocols: Vec<Vec<u8>>,
    /// Ask TLS 1.2 clients for a certificate.
    pub client_auth_offer: bool,
    /// Refuse TLS 1.2 clients that send no certificate.
    pub client_auth_mandatory: bool,
    /// Whether the configured ticketer issues tickets.
    pub ticketer_enabled: bool,
}

/// What the server keeps of a session to resume it later.
#[derive(Debug, Clone)]
pub struct ServerSessionValue {
    pub cipher_suite: CipherSuite,
    pub master_secret: PayloadU8,
    pub client_cert_chain: Option<CertificatePayload>,
}

/// The protocols' bytes.
pub open spec fn protocol_views(p: Seq<Vec<u8>>) -> Seq<Seq<u8>> {
    p.map_values(|v: Vec<u8>| v@)
}

/// What the server answers to the extensions of a hello.
pub struct ExtensionAnswer {
    pub extensions: Vec<ServerExtension>,
    pub alpn_protocol: Option<Vec<u8>>,
    /// TLS 1.2: a ticket will be issued.
    pub send_ticket: bool,
}

/// The server's reading of a hello's extensions: the ALPN protocol chosen,
/// and whether to acknowledge SNI, secure renegotiation and tickets.
pub struct ExtensionChoice {
    pub alpn: Option<Seq<u8>>,
    pub sni: bool,
    pub reneg: bool,
    pub ticket: bool,
}

pub open spec fn spec_process_extensions(
    config: &ServerConfig,
    hello: ClientHelloPayload,
    tls13: bool,
) -> Result<ExtensionChoice, Rejection> {
    let exts = hello.extensions@;
    let alpn_ext = first_client_ext(exts, ExtensionType::ALProtocolNegotiation);
    if alpn_ext matches Some(ClientExtension::Protocols(v)) && raw_names(v@).contains(
        Seq::<u8>::empty(),
    ) {
        Err(misbehaved(None, Misbehaviour::EmptyAlpnProtocol))
    } else {
        Ok(
            ExtensionChoice {
                alpn: match alpn_ext {
                    Some(ClientExtension::Protocols(v)) => first_in_both(
                        protocol_views(config.alpn_protocols@),
                        utf8_names(v@),
                    ),
                    _ => None,
                },
                sni: first_client_ext(exts, ExtensionType::ServerName) matches Some(
                    ClientExtension::ServerName(_),
                ),
                reneg: !tls13 && (first_client_ext(exts, ExtensionType::RenegotiationInfo) is Some
                    || hello.cipher_suites@.contains(CipherSuite::TLS_EMPTY_RENEGOTIATION_INFO_SCSV)),
                ticket: !tls13 && first_client_ext(exts, ExtensionType::SessionTicket) is Some
                    && config.ticketer_enabled,
            },
        )
    }
}

/// Whether `exts` lists, in this order, the ALPN answer, the SNI, secure
/// renegotiation and ticket acknowledgements that `c` calls for.
pub open spec fn answers(exts: Seq<ServerExtension>, c: ExtensionChoice) -> bool {
    let a: int = if c.alpn is Some { 1 } else { 0 };
    let b: int = a + if c.sni { 1int } else { 0 };
    let d: int = b + if c.reneg { 1int } else { 0 };
    let e: int = d + if c.ticket { 1int } else { 0 };
    &&& exts.len() == e
    &&& c.alpn matches Some(p) ==> (exts[0] matches ServerExtension::Protocols(v) && v@.len() == 1
        && v@[0].0@ == p)
    &&& c.sni ==> (exts[a] matches ServerExtension::ServerNameAcknowledgement)
    &&& c.reneg ==> (exts[b] matches ServerExtension::RenegotiationInfo(p) && p.0@.len() == 0)
    &&& c.ticket ==> (exts[d] matches ServerExtension::SessionTicketAcknowledgement)
}

/// The names of a protocol list, as bytes.
pub open spec fn raw_names(v: Seq<PayloadU8>) -> Seq<Seq<u8>> {
    v.map_values(|p: PayloadU8| p.0@)
}

fn contains_empty(names: &Vec<PayloadU8>) -> (r: bool)
    ensures
        r == raw_names(names@).contains(Seq::<u8>::empty()),
{
    let mut i: usize = 0;
    while i < names.len()
        invariant
            0 <= i <= names@.len(),
            forall|j: int| 0 <= j < i ==> names@[j].0@ != Seq::<u8>::empty(),
        decreases names@.len() - i,
    {
        if names[i].0.len() == 0 {
            assert(raw_names(names@)[i as int] == Seq::<u8>::empty());
            return true;
        }
        i = i + 1;
    }
    assert(!raw_names(names@).contains(Seq::<u8>::empty())) by {
        if raw_names(names@).contains(Seq::<u8>::empty()) {
            let k = choose|k: int|
                0 <= k < names@.len() && #[trigger] raw_names(names@)[k]
                    == Seq::<u8>::empty();
            assert(names@[k].0@ == Seq::<u8>::empty());
        }
    }
    false
}

fn contains_name(names: &Vec<Vec<u8>>, x: &[u8]) -> (r: bool)
    ensures
        r == protocol_views(names@).contains(x@),
{
    let mut i: usize = 0;
    while i < names.len()
        invariant
            0 <= i <= names@.len(),
            forall|j: int| 0 <= j < i ==> names@[j]@ != x@,
        decreases names@.len() - i,
    {
        if bytes_equal(names[i].as_slice(), x) {
            assert(protocol_views(names@)[i as int] == x@);
            return true;
        }
        i = i + 1;
    }
    assert(!protocol_views(names@).contains(x@)) by {
        if protocol_views(names@).contains(x@) {
            let k = choose|k: int|
                0 <= k < protocol_views(names@).len() && protocol_views(names@)[k] == x@;
            assert(names@[k]@ == x@);
        }
    }
    false
}

/// The first of `ours` that `theirs` also holds.
fn first_name_in_both(ours: &Vec<Vec<u8>>, theirs: &Vec<Vec<u8>>) -> (r: Option<Vec<u8>>)
    ensures
        match first_in_both(protocol_views(ours@), protocol_views(theirs@)) {
            Some(p) => r matches Some(q) && q@ == p,
            None => r is None,
        },
{
    let ghost o = protocol_views(ours@);
    let mut i: usize = 0;
    assert(o.skip(0) =~= o);
    while i < ours.len()
        invariant
            0 <= i <= ours@.len(),
            o == protocol_views(ours@),
            first_in_both(o, protocol_views(theirs@)) == first_in_both(o.skip(i as int), protocol_views(theirs@)),
        decreases ours@.len() - i,
    {
        assert(o.skip(i as int)[0] == ours@[i as int]@);
        if contains_name(theirs, ours[i].as_slice()) {
            return Some(copy_bytes(&ours[i]));
        }
        assert(o.skip(i as int).skip(1) =~= o.skip(i + 1));
        i = i + 1;
    }
    None
}

fn contains_suite_code(s: &Vec<CipherSuite>, x: CipherSuite) -> (r: bool)
    ensures
        r == s@.contains(x),
{
    let mut i: usize = 0;
    while i < s.len()
        invariant
            0 <= i <= s@.len(),
            forall|j: int| 0 <= j < i ==> s@[j] != x,
        decreases s@.len() - i,
    {
        if s[i] == x {
            return true;
        }
        i = i + 1;
    }
    false
}

/// Answers the extensions of a hello: ALPN, SNI, and for TLS 1.2 secure
/// renegotiation and tickets. A client offering an empty ALPN protocol
/// misbehaves.
pub fn process_extensions(config: &ServerConfig, hello: &ClientHelloPayload, tls13: bool) -> (r:
    Result<ExtensionAnswer, Rejection>)
    ensures
        match spec_process_extensions(config, *hello, tls13) {
            Err(e) => r == Err::<ExtensionAnswer, Rejection>(e),
            Ok(c) => r matches Ok(a) && answers(a.extensions@, c) && a.send_ticket == c.ticket && (
            match c.alpn {
                Some(p) => a.alpn_protocol matches Some(q) && q@ == p,
                None => a.alpn_protocol is None,
            }),
        },
{
    let mut ret: Vec<ServerExtension> = Vec::new();
    let mut alpn_protocol: Option<Vec<u8>> = None;
    if let Some(their_protocols) = hello.get_alpn_extension() {
        let their_proto_strings = their_protocols.to_strings();
        proof {
            assert(protocol_views(their_proto_strings@) == utf8_names(their_protocols@));
        }
        if contains_empty(their_protocols) {
            return Err(misbehaved_by(None, Misbehaviour::EmptyAlpnProtocol));
        }
        alpn_protocol = first_name_in_both(&config.alpn_protocols, &their_proto_strings);
        if let Some(selected) = &alpn_protocol {
            ret.push(ServerExtension::make_alpn(selected.as_slice()));
        }
    }
    let ghost a = ret@.len();
    if hello.get_sni_extension().is_some() {
        ret.push(ServerExtension::ServerNameAcknowledgement);
    }
    let ghost b = ret@.len();
    let mut send_ticket = false;
    if !tls13 {
        let secure_reneg_offered = hello.find_extension(ExtensionType::RenegotiationInfo).is_some()
            || contains_suite_code(
            &hello.cipher_suites,
            CipherSuite::TLS_EMPTY_RENEGOTIATION_INFO_SCSV,
        );
        if secure_reneg_offered {
            ret.push(ServerExtension::make_empty_renegotiation_info());
        }
        if hello.find_extension(ExtensionType::SessionTicket).is_some() && config.ticketer_enabled {
            send_ticket = true;
            ret.push(ServerExtension::SessionTicketAcknowledgement);
        }
    }
    Ok(ExtensionAnswer { extensions: ret, alpn_protocol, send_ticket })
}

/// The suite chosen for a client, given the signature algorithm of the
/// server's certificate.
pub open spec fn spec_cert_suite(
    config: &ServerConfig,
    hello: ClientHelloPayload,
    sigalg: SignatureAlgorithm,
) -> Option<SupportedCipherSuite> {
    let usable = spec_reduce_given_sigalg(config.ciphersuites@, sigalg);
    if config.ignore_client_order {
        spec_choose_preferring_server(hello.cipher_suites@, usable)
    } else {
        spec_choose_preferring_client(hello.cipher_suites@, usable)
    }
}

pub open spec fn groups_ext(h: ClientHelloPayload) -> Option<Seq<NamedGroup>> {
    match first_client_ext(h.extensions@, ExtensionType::EllipticCurves) {
        Some(ClientExtension::NamedGroups(v)) => Some(v@),
        _ => None,
    }
}

pub open spec fn sigalgs_ext(h: ClientHelloPayload) -> Option<Seq<SignatureScheme>> {
    match first_client_ext(h.extensions@, ExtensionType::SignatureAlgorithms) {
        Some(ClientExtension::SignatureAlgorithms(v)) => Some(v@),
        _ => None,
    }
}

pub open spec fn keyshare_ext(h: ClientHelloPayload) -> Option<Seq<KeyShareEntry>> {
    match first_client_ext(h.extensions@, ExtensionType::KeyShare) {
        Some(ClientExtension::KeyShare(v)) => Some(v@),
        _ => None,
    }
}

pub open spec fn ecpoints_ext(h: ClientHelloPayload) -> Option<Seq<ECPointFormat>> {
    match first_client_ext(h.extensions@, ExtensionType::ECPointFormats) {
        Some(ClientExtension::ECPointFormats(v)) => Some(v@),
        _ => None,
    }
}

/// Whether the client offers TLS 1.3 (draft 18).
pub open spec fn offers_tls13(h: ClientHelloPayload) -> bool {
    match first_client_ext(h.extensions@, ExtensionType::SupportedVersions) {
        Some(ClientExtension::SupportedVersions(v)) => v@.contains(ProtocolVersion::Unknown(0x7f12)),
        _ => false,
    }
}

/// Whether the client offers a ticket.
pub open spec fn offers_ticket(h: ClientHelloPayload) -> bool {
    first_client_ext(h.extensions@, ExtensionType::SessionTicket) matches Some(
        ClientExtension::SessionTicketOffer(_),
    )
}

pub open spec fn share_groups(s: Seq<KeyShareEntry>) -> Seq<NamedGroup> {
    s.map_values(|k: KeyShareEntry| k.group)
}

/// What the server does with a ClientHello it accepts.
pub enum HelloOutcome {
    /// Asks for a key share in `group` (TLS 1.3).
    Retry { suite: SupportedCipherSuite, group: NamedGroup },
    /// Goes on with TLS 1.3 in `group`.
    Tls13 { suite: SupportedCipherSuite, group: NamedGroup },
    /// Resumes a TLS 1.2 session, from a ticket or from the session cache.
    Resume { suite: SupportedCipherSuite, from_ticket: bool },
    /// A full TLS 1.2 handshake.
    Full { suite: SupportedCipherSuite, sigscheme: SignatureScheme, group: NamedGroup },
}

pub open spec fn spec_resume(
    config: &ServerConfig,
    hello: ClientHelloPayload,
    suite: SupportedCipherSuite,
    value: ServerSessionValue,
    from_ticket: bool,
) -> Result<HelloOutcome, Rejection> {
    if value.cipher_suite != suite.suite {
        Err(misbehaved(None, Misbehaviour::ResumptionVariedCipherSuite))
    } else {
        match spec_process_extensions(config, hello, false) {
            Err(e) => Err(e),
            Ok(_) => Ok(HelloOutcome::Resume { suite, from_ticket }),
        }
    }
}

pub open spec fn spec_tls13_outcome(
    config: &ServerConfig,
    hello: ClientHelloPayload,
    suite: SupportedCipherSuite,
) -> Result<HelloOutcome, Rejection> {
    let hf = Some(AlertDescription::HandshakeFailure);
    if groups_ext(hello) is None {
        Err(incompatible(hf, Incompatibility::NoGroupsDescribed))
    } else if sigalgs_ext(hello) is None {
        Err(incompatible(hf, Incompatibility::NoSignatureSchemesDescribed))
    } else if keyshare_ext(hello) is None {
        Err(incompatible(hf, Incompatibility::NoKeySharesSent))
    } else {
        match first_in_both(spec_supported_groups(), share_groups(keyshare_ext(hello).unwrap())) {
            None => match first_in_both(spec_supported_groups(), groups_ext(hello).unwrap()) {
                Some(g) => Ok(HelloOutcome::Retry { suite, group: g }),
                None => Err(incompatible(None, Incompatibility::NoGroupInCommon)),
            },
            Some(g) => match spec_process_extensions(config, hello, true) {
                Err(e) => Err(e),
                Ok(_) => Ok(HelloOutcome::Tls13 { suite, group: g }),
            },
        }
    }
}

pub open spec fn spec_tls12_outcome(
    config: &ServerConfig,
    hello: ClientHelloPayload,
    suite: SupportedCipherSuite,
    ticket_value: Option<ServerSessionValue>,
    cached_value: Option<ServerSessionValue>,
) -> Result<HelloOutcome, Rejection> {
    let hf = Some(AlertDescription::HandshakeFailure);
    if groups_ext(hello) is None {
        Err(incompatible(hf, Incompatibility::NoGroupsDescribed))
    } else if ecpoints_ext(hello) is None {
        Err(incompatible(hf, Incompatibility::NoPointFormatsDescribed))
    } else if !ecpoints_ext(hello).unwrap().contains(ECPointFormat::Uncompressed) {
        Err(
            incompatible(
                Some(AlertDescription::HandshakeFailure),
                Incompatibility::NoUncompressedPoints,
            ),
        )
    } else if offers_ticket(hello) && ticket_value is Some {
        spec_resume(config, hello, suite, ticket_value.unwrap(), true)
    } else if !offers_ticket(hello) && hello.session_id@.len() > 0 && cached_value is Some {
        spec_resume(config, hello, suite, cached_value.unwrap(), false)
    } else {
        let offered = match sigalgs_ext(hello) {
            Some(v) => v,
            None => Seq::empty(),
        };
        let sig = if suite.signs_with_hash() {
            first_in_both(sig_preference(suite), offered)
        } else {
            None
        };
        if sig is None {
            Err(incompatible(hf, Incompatibility::NoSignatureSchemeInCommon))
        } else if first_in_both(spec_supported_groups(), groups_ext(hello).unwrap()) is None {
            Err(incompatible(hf, Incompatibility::NoGroupInCommon))
        } else {
            match spec_process_extensions(config, hello, false) {
                Err(e) => Err(e),
                Ok(_) => Ok(
                    HelloOutcome::Full {
                        suite,
                        sigscheme: sig.unwrap(),
                        group: first_in_both(spec_supported_groups(), groups_ext(hello).unwrap()).unwrap(),
                    },
                ),
            }
        }
    }
}

/// The server's decision on a ClientHello, step by step: the first check
/// that fails decides the rejection.
pub open spec fn spec_client_hello_outcome(
    config: &ServerConfig,
    hello: ClientHelloPayload,
    sigalg: Option<SignatureAlgorithm>,
    ticket_value: Option<ServerSessionValue>,
    cached_value: Option<ServerSessionValue>,
) -> Result<HelloOutcome, Rejection> {
    if hello.client_version.value() < 0x0303 {
        Err(incompatible(Some(AlertDescription::ProtocolVersion), Incompatibility::ClientTooOld))
    } else if !hello.compression_methods@.contains(Compression::Null) {
        Err(
            incompatible(Some(AlertDescription::HandshakeFailure), Incompatibility::NoNullCompression),
        )
    } else if has_duplicate(client_ext_types(hello.extensions@)) {
        Err(misbehaved(Some(AlertDescription::DecodeError), Misbehaviour::DuplicateExtensions))
    } else if sigalg is None {
        Err(
            spec_reject(
                Some(AlertDescription::AccessDenied),
                TLSError::General(Internal::NoCertificateResolved),
            ),
        )
    } else if spec_cert_suite(config, hello, sigalg.unwrap()) is None {
        Err(
            incompatible(
                Some(AlertDescription::HandshakeFailure),
                Incompatibility::NoCipherSuiteInCommon,
            ),
        )
    } else if offers_tls13(hello) {
        spec_tls13_outcome(config, hello, spec_cert_suite(config, hello, sigalg.unwrap()).unwrap())
    } else {
        spec_tls12_outcome(
            config,
            hello,
            spec_cert_suite(config, hello, sigalg.unwrap()).unwrap(),
            ticket_value,
            cached_value,
        )
    }
}

/// What the server does with a ClientHello it accepts, with what it needs to
/// do it.
pub enum ClientHelloDecision {
    RetryRequest { suite: SupportedCipherSuite, group: NamedGroup },
    Tls13 {
        suite: SupportedCipherSuite,
        share: KeyShareEntry,
        sigschemes: Vec<SignatureScheme>,
        answer: ExtensionAnswer,
    },
    Resume12 {
        suite: SupportedCipherSuite,
        session_id: SessionID,
        value: ServerSessionValue,
        from_ticket: bool,
        answer: ExtensionAnswer,
    },
    Full12 {
        suite: SupportedCipherSuite,
        sigscheme: SignatureScheme,
        group: NamedGroup,
        answer: ExtensionAnswer,
    },
}

pub open spec fn outcome_of(d: ClientHelloDecision) -> HelloOutcome {
    match d {
        ClientHelloDecision::RetryRequest { suite, group } => HelloOutcome::Retry { suite, group },
        ClientHelloDecision::Tls13 { suite, share, .. } => HelloOutcome::Tls13 {
            suite,
            group: share.group,
        },
        ClientHelloDecision::Resume12 { suite, from_ticket, .. } => HelloOutcome::Resume {
            suite,
            from_ticket,
        },
        ClientHelloDecision::Full12 { suite, sigscheme, group, .. } => HelloOutcome::Full {
            suite,
            sigscheme,
            group,
        },
    }
}

/// Whether the answer to the extensions is the one `process_extensions` gives.
pub open spec fn answer_ok(
    config: &ServerConfig,
    hello: ClientHelloPayload,
    tls13: bool,
    a: ExtensionAnswer,
) -> bool {
    spec_process_extensions(config, hello, tls13) matches Ok(c) && answers(a.extensions@, c)
        && a.send_ticket == c.ticket && (match c.alpn {
        Some(p) => a.alpn_protocol matches Some(q) && q@ == p,
        None => a.alpn_protocol is None,
    })
}

/// The decision's details beyond its outcome.
pub open spec fn decision_details(
    config: &ServerConfig,
    hello: ClientHelloPayload,
    ticket_value: Option<ServerSessionValue>,
    cached_value: Option<ServerSessionValue>,
    d: ClientHelloDecision,
) -> bool {
    match d {
        ClientHelloDecision::RetryRequest { .. } => true,
        ClientHelloDecision::Tls13 { share, sigschemes, answer, .. } => keyshare_ext(hello)
            matches Some(v) && (exists|i: int|
            0 <= i < v.len() && v[i].group == share.group && v[i].payload.0@ == share.payload.0@
                && forall|j: int| 0 <= j < i ==> v[j].group != share.group) && Some(sigschemes@)
            == sigalgs_ext(hello) && answer_ok(config, hello, true, answer),
        ClientHelloDecision::Resume12 { session_id, value, from_ticket, answer, .. } => session_id@
            == hello.session_id@ && Some(value) == (if from_ticket {
            ticket_value
        } else {
            cached_value
        }) && answer_ok(config, hello, false, answer),
        ClientHelloDecision::Full12 { answer, .. } => answer_ok(config, hello, false, answer),
    }
}

fn find_ext_vec_contains_version(v: &Vec<ProtocolVersion>, x: ProtocolVersion) -> (r: bool)
    ensures
        r == v@.contains(x),
{
    let mut i: usize = 0;
    while i < v.len()
        invariant
            0 <= i <= v@.len(),
            forall|j: int| 0 <= j < i ==> v@[j] != x,
        decreases v@.len() - i,
    {
        if v[i] == x {
            return true;
        }
        i = i + 1;
    }
    false
}

fn contains_compression(v: &Vec<Compression>, x: Compression) -> (r: bool)
    ensures
        r == v@.contains(x),
{
    let mut i: usize = 0;
    while i < v.len()
        invariant
            0 <= i <= v@.len(),
            forall|j: int| 0 <= j < i ==> v@[j] != x,
        decreases v@.len() - i,
    {
        if v[i] == x {
            return true;
        }
        i = i + 1;
    }
    false
}

fn contains_point_format(v: &Vec<ECPointFormat>, x: ECPointFormat) -> (r: bool)
    ensures
        r == v@.contains(x),
{
    let mut i: usize = 0;
    while i < v.len()
        invariant
            0 <= i <= v@.len(),
            forall|j: int| 0 <= j < i ==> v@[j] != x,
        decreases v@.len() - i,
    {
        if v[i] == x {
            return true;
        }
        i = i + 1;
    }
    false
}

fn groups_of_shares(s: &Vec<KeyShareEntry>) -> (r: Vec<NamedGroup>)
    ensures
        r@ == share_groups(s@),
{
    let mut r: Vec<NamedGroup> = Vec::new();
    let mut i: usize = 0;
    while i < s.len()
        invariant
            0 <= i <= s@.len(),
            r@ == share_groups(s@.take(i as int)),
        decreases s@.len() - i,
    {
        r.push(s[i].group);
        i = i + 1;
        assert(r@ =~= share_groups(s@.take(i as int)));
    }
    assert(s@.take(i as int) =~= s@);
    r
}

/// The position of the first share in `group`, which `share_groups` shows
/// there is.
fn share_in_group(s: &Vec<KeyShareEntry>, group: NamedGroup) -> (r: usize)
    requires
        share_groups(s@).contains(group),
    ensures
        r < s@.len(),
        s@[r as int].group == group,
        forall|j: int| 0 <= j < r ==> s@[j].group != group,
{
    let mut i: usize = 0;
    while i < s.len()
        invariant
            0 <= i <= s@.len(),
            share_groups(s@).contains(group),
            forall|j: int| 0 <= j < i ==> s@[j].group != group,
        decreases s@.len() - i,
    {
        if s[i].group == group {
            return i;
        }
        i = i + 1;
    }
    proof {
        let k = choose|k: int| 0 <= k < share_groups(s@).len() && share_groups(s@)[k] == group;
        assert(s@[k].group == group);
    }
    0
}

/// Decides on a ClientHello. `sigalg` is the signature algorithm of the
/// certificate resolved for this client (None if none was). `ticket_value` is
/// what the offered ticket decrypted to, and `cached_value` what the session
/// cache holds under the offered session id; each is used only where the
/// handshake calls for it.
pub fn handle_client_hello(
    config: &ServerConfig,
    hello: &ClientHelloPayload,
    sigalg: Option<SignatureAlgorithm>,
    ticket_value: Option<ServerSessionValue>,
    cached_value: Option<ServerSessionValue>,
) -> (r: Result<ClientHelloDecision, Rejection>)
    ensures
        match spec_client_hello_outcome(config, *hello, sigalg, ticket_value, cached_value) {
            Err(e) => r == Err::<ClientHelloDecision, Rejection>(e),
            Ok(o) => r matches Ok(d) && outcome_of(d) == o && decision_details(
                config,
                *hello,
                ticket_value,
                cached_value,
                d,
            ),
        },
{
    let hf = Some(AlertDescription::HandshakeFailure);
    if hello.client_version.get_u16() < 0x0303 {
        return Err(
            incompatible_by(Some(AlertDescription::ProtocolVersion), Incompatibility::ClientTooOld),
        );
    }
    if !contains_compression(&hello.compression_methods, Compression::Null) {
        return Err(
            incompatible_by(
                Some(AlertDescription::HandshakeFailure),
                Incompatibility::NoNullCompression,
            ),
        );
    }
    if hello.has_duplicate_extension() {
        return Err(
            misbehaved_by(Some(AlertDescription::DecodeError), Misbehaviour::DuplicateExtensions),
        );
    }
    let sigalg = match sigalg {
        Some(a) => a,
        None => {
            return Err(
                reject(
                    Some(AlertDescription::AccessDenied),
                    TLSError::General(Internal::NoCertificateResolved),
                ),
            );
        },
    };
    let usable = reduce_given_sigalg(config.ciphersuites.as_slice(), &sigalg);
    let maybe_suite = if config.ignore_client_order {
        choose_ciphersuite_preferring_server(hello.cipher_suites.as_slice(), usable.as_slice())
    } else {
        choose_ciphersuite_preferring_client(hello.cipher_suites.as_slice(), usable.as_slice())
    };
    let suite = match maybe_suite {
        Some(s) => s,
        None => {
            return Err(incompatible_by(hf, Incompatibility::NoCipherSuiteInCommon));
        },
    };
    let tls13 = match hello.get_versions_extension() {
        Some(versions) => find_ext_vec_contains_version(versions, ProtocolVersion::Unknown(0x7f12)),
        None => false,
    };
    if tls13 {
        let groups = match hello.get_namedgroups_extension() {
            Some(g) => g,
            None => return Err(incompatible_by(hf, Incompatibility::NoGroupsDescribed)),
        };
        let sigschemes = match hello.get_sigalgs_extension() {
            Some(g) => g,
            None => return Err(incompatible_by(hf, Incompatibility::NoSignatureSchemesDescribed)),
        };
        let shares = match hello.get_keyshare_extension() {
            Some(g) => g,
            None => return Err(incompatible_by(hf, Incompatibility::NoKeySharesSent)),
        };
        let ours = supported_groups();
        let share_groups_v = groups_of_shares(shares);
        let chosen = first_group_in_both(ours.as_slice(), share_groups_v.as_slice());
        let group = match chosen {
            Some(g) => g,
            None => {
                return match first_group_in_both(ours.as_slice(), groups.as_slice()) {
                    Some(g) => Ok(ClientHelloDecision::RetryRequest { suite, group: g }),
                    None => Err(incompatible_by(None, Incompatibility::NoGroupInCommon)),
                };
            },
        };
        proof {
            lemma_first_in_both_contained(ours@, share_groups_v@);
        }
        let idx = share_in_group(shares, group);
        let share = KeyShareEntry::new(shares[idx].group, shares[idx].payload.0.as_slice());
        let answer = match process_extensions(config, hello, true) {
            Ok(a) => a,
            Err(e) => return Err(e),
        };
        let sigs = copy_schemes(sigschemes);
        return Ok(ClientHelloDecision::Tls13 { suite, share, sigschemes: sigs, answer });
    }
    let groups = match hello.get_namedgroups_extension() {
        Some(g) => g,
        None => return Err(incompatible_by(hf, Incompatibility::NoGroupsDescribed)),
    };
    let ecpoints = match hello.get_ecpoints_extension() {
        Some(g) => g,
        None => return Err(incompatible_by(hf, Incompatibility::NoPointFormatsDescribed)),
    };
    if !contains_point_format(ecpoints, ECPointFormat::Uncompressed) {
        return Err(
            incompatible_by(
                Some(AlertDescription::HandshakeFailure),
                Incompatibility::NoUncompressedPoints,
            ),
        );
    }
    let ticket_offered = match hello.get_ticket_extension() {
        Some(ClientExtension::SessionTicketOffer(_)) => true,
        _ => false,
    };
    let resume = if ticket_offered {
        match ticket_value {
            Some(v) => Some((v, true)),
            None => None,
        }
    } else if !hello.session_id.is_empty() {
        match cached_value {
            Some(v) => Some((v, false)),
            None => None,
        }
    } else {
        None
    };
    if let Some((value, from_ticket)) = resume {
        if value.cipher_suite != suite.suite {
            return Err(misbehaved_by(None, Misbehaviour::ResumptionVariedCipherSuite));
        }
        let answer = match process_extensions(config, hello, false) {
            Ok(a) => a,
            Err(e) => return Err(e),
        };
        return Ok(
            ClientHelloDecision::Resume12 {
                suite,
                session_id: hello.session_id.copy(),
                value,
                from_ticket,
                answer,
            },
        );
    }
    let empty: Vec<SignatureScheme> = Vec::new();
    let offered = match hello.get_sigalgs_extension() {
        Some(v) => v,
        None => &empty,
    };
    let sigscheme = match suite.resolve_sig_scheme(offered.as_slice()) {
        Some(s) => s,
        None => return Err(incompatible_by(hf, Incompatibility::NoSignatureSchemeInCommon)),
    };
    let ours = supported_groups();
    let group = match first_group_in_both(ours.as_slice(), groups.as_slice()) {
        Some(g) => g,
        None => return Err(incompatible_by(hf, Incompatibility::NoGroupInCommon)),
    };
    let answer = match process_extensions(config, hello, false) {
        Ok(a) => a,
        Err(e) => return Err(e),
    };
    Ok(ClientHelloDecision::Full12 { suite, sigscheme, group, answer })
}

pub proof fn lemma_first_in_both_contained<T>(ours: Seq<T>, theirs: Seq<T>)
    ensures
        first_in_both(ours, theirs) matches Some(x) ==> theirs.contains(x),
    decreases ours.len(),
{
    if ours.len() > 0 && !theirs.contains(ours[0]) {
        lemma_first_in_both_contained(ours.skip(1), theirs);
    }
}

fn copy_schemes(v: &Vec<SignatureScheme>) -> (r: Vec<SignatureScheme>)
    ensures
        r@ == v@,
{
    let mut r: Vec<SignatureScheme> = Vec::new();
    let mut i: usize = 0;
    while i < v.len()
        invariant
            0 <= i <= v@.len(),
            r@ == v@.take(i as int),
        decreases v@.len() - i,
    {
        r.push(v[i]);
        i = i + 1;
        assert(r@ =~= v@.take(i as int));
    }
    assert(v@.take(i as int) =~= v@);
    r
}

/// A ClientHello offering TLS 1.2 or later and Null compression that carries
/// two extensions of one type is rejected with a DecodeError alert.
pub proof fn lemma_client_hello_duplicates_rejected(
    config: &ServerConfig,
    hello: ClientHelloPayload,
    sigalg: Option<SignatureAlgorithm>,
    ticket_value: Option<ServerSessionValue>,
    cached_value: Option<ServerSessionValue>,
)
    requires
        hello.client_version.value() >= 0x0303,
        hello.compression_methods@.contains(Compression::Null),
        has_duplicate(client_ext_types(hello.extensions@)),
    ensures
        spec_client_hello_outcome(config, hello, sigalg, ticket_value, cached_value) == Err::<
            HelloOutcome,
            Rejection,
        >(misbehaved(Some(AlertDescription::DecodeError), Misbehaviour::DuplicateExtensions)),
{
}

/// A server resumes a session only under the suite it just chose, and that
/// suite is the session's own; the session's master secret is taken as
/// stored. A session stored under another suite is refused.
pub proof fn lemma_resumption_invariant(
    config: &ServerConfig,
    hello: ClientHelloPayload,
    sigalg: Option<SignatureAlgorithm>,
    ticket_value: Option<ServerSessionValue>,
    cached_value: Option<ServerSessionValue>,
    d: ClientHelloDecision,
)
    ensures
        spec_client_hello_outcome(config, hello, sigalg, ticket_value, cached_value) matches Ok(
            HelloOutcome::Resume { suite, from_ticket },
        ) ==> (if from_ticket {
            ticket_value
        } else {
            cached_value
        }) matches Some(v) && v.cipher_suite == suite.suite,
        spec_client_hello_outcome(config, hello, sigalg, ticket_value, cached_value) is Ok
            && outcome_of(d) == spec_client_hello_outcome(
            config,
            hello,
            sigalg,
            ticket_value,
            cached_value,
        ).unwrap() && decision_details(config, hello, ticket_value, cached_value, d) ==> (
        d matches ClientHelloDecision::Resume12 { value, from_ticket, .. } ==> Some(value) == (
        if from_ticket {
            ticket_value
        } else {
            cached_value
        })),
{
}

/// A stored session whose suite is not the one just chosen is not resumed:
/// the handshake stops.
pub proof fn lemma_resumption_refused(
    config: &ServerConfig,
    hello: ClientHelloPayload,
    suite: SupportedCipherSuite,
    value: ServerSessionValue,
    from_ticket: bool,
)
    requires
        value.cipher_suite != suite.suite,
    ensures
        spec_resume(config, hello, suite, value, from_ticket) == Err::<HelloOutcome, Rejection>(
            misbehaved(None, Misbehaviour::ResumptionVariedCipherSuite),
        ),
{
}

/// The TLS 1.2 ServerHello.
pub fn emit_server_hello(
    suite: &SupportedCipherSuite,
    session_id: &SessionID,
    random: Random,
    answer: ExtensionAnswer,
) -> (r: HandshakeMessagePayload)
    ensures
        r.typ == HandshakeType::ServerHello,
        r.payload matches HandshakePayload::ServerHello(sh) && sh.server_version
            == ProtocolVersion::TLSv1_2 && sh.random == random && sh.session_id@ == session_id@
            && sh.cipher_suite == suite.suite && sh.compression_method == Compression::Null
            && sh.extensions == answer.extensions,
{
    handshake_message(
        HandshakeType::ServerHello,
        HandshakePayload::ServerHello(
            ServerHelloPayload {
                server_version: ProtocolVersion::TLSv1_2,
                random,
                session_id: session_id.copy(),
                cipher_suite: suite.suite,
                compression_method: Compression::Null,
                extensions: answer.extensions,
            },
        ),
    )
}

/// TLS 1.3: completes the key exchange with the client's share, makes the
/// ServerHello (draft 18) carrying our share, joins it to the transcript, and
/// starts the handshake traffic secrets.
pub fn emit_server_hello_tls13(
    share: &KeyShareEntry,
    suite: &SupportedCipherSuite,
    random: Random,
    transcript: &mut HandshakeHash,
) -> (r: Result<(HandshakeMessagePayload, KeySchedule), Rejection>)
    requires
        supported_hash(suite.hash),
        old(transcript)@.alg == Some(suite.hash),
    ensures
        r is Err ==> r == Err::<(HandshakeMessagePayload, KeySchedule), Rejection>(
            misbehaved(None, Misbehaviour::KeyExchangeFailed),
        ) && final(transcript)@ == old(transcript)@,
        !crate::kx::spec_kx_group(share.group) ==> r == Err::<(HandshakeMessagePayload, KeySchedule), Rejection>(
            misbehaved(None, Misbehaviour::KeyExchangeFailed),
        ),
        r matches Ok((m, ks)) ==> {
            &&& m.typ == HandshakeType::ServerHello
            &&& m.payload matches HandshakePayload::ServerHello(sh) && sh.server_version
                == ProtocolVersion::Unknown(0x7f12) && sh.random == random && sh.cipher_suite
                == suite.suite && sh.session_id@.len() == 0 && sh.compression_method
                == Compression::Null && sh.extensions@.len() == 1 && (sh.extensions@[0] matches ServerExtension::KeyShare(
                k,
            ) && k.group == share.group)
            &&& final(transcript)@ == spec_add(old(transcript)@, m.encoding())
            &&& handshake_schedule(ks@, suite.hash, spec_current_hash(final(transcript)@))
            &&& exists|pk: Seq<u8>, pms: Seq<u8>|
                #![trigger spec_handshake_schedule(ks@, suite.hash, pms, spec_current_hash(final(transcript)@)), pk.len()]
                pms.len() <= 48 && (m.payload matches HandshakePayload::ServerHello(sh) && (
                sh.extensions@[0] matches ServerExtension::KeyShare(k) && k.payload.0@ == pk))
                && spec_handshake_schedule(ks@, suite.hash, pms, spec_current_hash(final(transcript)@))
        },
{
    let kx = match KeyExchange::start_ecdhe(share.group) {
        Some(k) => k,
        None => return Err(misbehaved_by(None, Misbehaviour::KeyExchangeFailed)),
    };
    let kxr = match kx.complete(share.payload.0.as_slice()) {
        Some(k) => k,
        None => return Err(misbehaved_by(None, Misbehaviour::KeyExchangeFailed)),
    };
    let (m, ks) = server_hello_tls13(share.group, kxr.pubkey.as_slice(), kxr.premaster_secret.as_slice(), suite, random, transcript);
    assert(kxr.premaster_secret@.len() <= 48);
    Ok((m, ks))
}

/// TLS 1.3: the ServerHello (draft 18) carrying our public value `pubkey` in
/// `group`, joined to the transcript, and the key schedule started from the
/// premaster secret `pms` over the transcript up to it.
pub fn server_hello_tls13(
    group: NamedGroup,
    pubkey: &[u8],
    pms: &[u8],
    suite: &SupportedCipherSuite,
    random: Random,
    transcript: &mut HandshakeHash,
) -> (r: (HandshakeMessagePayload, KeySchedule))
    requires
        supported_hash(suite.hash),
        old(transcript)@.alg == Some(suite.hash),
        pms@.len() <= crate::crypto::max_input(),
    ensures
        r.0.typ == HandshakeType::ServerHello,
        r.0.payload matches HandshakePayload::ServerHello(sh) && sh.server_version
            == ProtocolVersion::Unknown(0x7f12) && sh.random == random && sh.cipher_suite
            == suite.suite && sh.session_id@.len() == 0 && sh.compression_method == Compression::Null
            && sh.extensions@.len() == 1 && (sh.extensions@[0] matches ServerExtension::KeyShare(k)
            && k.group == group && k.payload.0@ == pubkey@),
        final(transcript)@ == spec_add(old(transcript)@, r.0.encoding()),
        spec_handshake_schedule(r.1@, suite.hash, pms@, spec_current_hash(final(transcript)@)),
{
    let mut extensions: Vec<ServerExtension> = Vec::new();
    extensions.push(ServerExtension::KeyShare(KeyShareEntry::new(group, pubkey)));
    let sh = handshake_message(
        HandshakeType::ServerHello,
        HandshakePayload::ServerHello(
            ServerHelloPayload {
                server_version: ProtocolVersion::Unknown(0x7f12),
                random,
                session_id: SessionID::empty(),
                cipher_suite: suite.suite,
                compression_method: Compression::Null,
                extensions,
            },
        ),
    );
    transcript.add_message(&sh);
    let handshake_hash = transcript.get_current_hash();
    let ks = start_handshake_schedule(suite.hash, pms, handshake_hash.as_slice());
    (sh, ks)
}

/// A HelloRetryRequest (draft 18) asking for a key share in `group`.
pub fn emit_hello_retry_request(group: NamedGroup) -> (r: HandshakeMessagePayload)
    ensures
        r.typ == HandshakeType::HelloRetryRequest,
        r.payload matches HandshakePayload::HelloRetryRequest(h) && h.server_version
            == ProtocolVersion::Unknown(0x7f12) && h.extensions@.len() == 1 && (h.extensions@[0] matches HelloRetryExtension::KeyShare(
            g,
        ) && g == group),
{
    let mut extensions: Vec<HelloRetryExtension> = Vec::new();
    extensions.push(HelloRetryExtension::KeyShare(group));
    handshake_message(
        HandshakeType::HelloRetryRequest,
        HandshakePayload::HelloRetryRequest(
            HelloRetryRequest { server_version: ProtocolVersion::Unknown(0x7f12), extensions },
        ),
    )
}

/// TLS 1.3 EncryptedExtensions carrying the answer to the hello's extensions.
pub fn emit_encrypted_extensions(answer: ExtensionAnswer) -> (r: HandshakeMessagePayload)
    ensures
        r.typ == HandshakeType::EncryptedExtensions,
        r.payload == HandshakePayload::EncryptedExtensions(answer.extensions),
{
    handshake_message(HandshakeType::EncryptedExtensions, HandshakePayload::EncryptedExtensions(answer.extensions))
}

/// The TLS 1.2 Certificate: the chain as resolved.
pub fn emit_certificate(chain: CertificatePayload) -> (r: HandshakeMessagePayload)
    ensures
        r.typ == HandshakeType::Certificate,
        r.payload == HandshakePayload::Certificate(chain),
{
    handshake_message(HandshakeType::Certificate, HandshakePayload::Certificate(chain))
}

/// The TLS 1.3 Certificate: the chain, each certificate without extensions,
/// with an empty request context.
pub fn emit_certificate_tls13(chain: &CertificatePayload) -> (r: HandshakeMessagePayload)
    ensures
        r.typ == HandshakeType::Certificate,
        r.payload matches HandshakePayload::CertificateTLS13(c) && c.request_context.0@.len() == 0
            && c.list@.len() == chain@.len() && forall|i: int|
            0 <= i < chain@.len() ==> #[trigger] c.list@[i].cert.0@ == chain@[i].0@
                && c.list@[i].exts@.len() == 0,
{
    let mut cert_body = CertificatePayloadTLS13::new();
    let mut i: usize = 0;
    while i < chain.len()
        invariant
            0 <= i <= chain@.len(),
            cert_body.request_context.0@.len() == 0,
            cert_body.list@.len() == i,
            forall|j: int|
                0 <= j < i ==> #[trigger] cert_body.list@[j].cert.0@ == chain@[j].0@
                    && cert_body.list@[j].exts@.len() == 0,
        decreases chain@.len() - i,
    {
        let entry = CertificateEntry {
            cert: PayloadU24::new(copy_bytes(&chain[i].0)),
            exts: Vec::new(),
        };
        assert(entry.cert.0@ == chain@[i as int].0@ && entry.exts@.len() == 0);
        let ghost prev = cert_body.list@;
        cert_body.list.push(entry);
        assert(cert_body.list@ == prev.push(entry));
        assert forall|j: int| 0 <= j < i + 1 implies #[trigger] cert_body.list@[j].cert.0@
            == chain@[j].0@ && cert_body.list@[j].exts@.len() == 0 by {
            if j < i {
                assert(cert_body.list@[j] == prev[j]);
            }
        }
        i = i + 1;
    }
    handshake_message(HandshakeType::Certificate, HandshakePayload::CertificateTLS13(cert_body))
}

/// The bytes "TLS 1.3, server CertificateVerify" and a zero byte.
pub open spec fn certverify_context() -> Seq<u8> {
    seq![84, 76, 83, 32, 49, 46, 51, 44, 32, 115, 101, 114, 118, 101, 114, 32, 67, 101, 114, 116, 105, 102, 105, 99, 97, 116, 101, 86, 101, 114, 105, 102, 121, 0]
}

/// What the server signs in its TLS 1.3 CertificateVerify: 64 spaces, the
/// context string with its zero byte, then the transcript hash.
pub fn tls13_certverify_message(handshake_hash: &[u8]) -> (r: Vec<u8>)
    ensures
        r@ == Seq::new(64, |i: int| 0x20u8) + certverify_context() + handshake_hash@,
{
    let mut message: Vec<u8> = Vec::new();
    let mut i: usize = 0;
    while i < 64
        invariant
            0 <= i <= 64,
            message@ == Seq::new(i as nat, |j: int| 0x20u8),
        decreases 64 - i,
    {
        message.push(0x20u8);
        i = i + 1;
        assert(message@ =~= Seq::new(i as nat, |j: int| 0x20u8));
    }
    let context: Vec<u8> = vec![84, 76, 83, 32, 49, 46, 51, 44, 32, 115, 101, 114, 118, 101, 114, 32, 67, 101, 114, 116, 105, 102, 105, 99, 97, 116, 101, 86, 101, 114, 105, 102, 121, 0];
    assert(context@ =~= certverify_context());
    crate::codec::append_bytes(&mut message, context.as_slice());
    crate::codec::append_bytes(&mut message, handshake_hash);
    message
}

/// A CertificateVerify carrying `sig` made with `scheme`.
pub fn emit_certificate_verify(scheme: SignatureScheme, sig: Vec<u8>) -> (r: HandshakeMessagePayload)
    ensures
        r.typ == HandshakeType::CertificateVerify,
        r.payload matches HandshakePayload::CertificateVerify(d) && d.scheme == scheme && d.sig.0@
            == sig@,
{
    handshake_message(HandshakeType::CertificateVerify, HandshakePayload::CertificateVerify(DigitallySignedStruct::new(scheme, sig)))
}

/// The ECDHE parameters the server offers in `group`, and what it signs over
/// them: client random, server random, then the parameters' wire form.
pub fn server_kx_params(group: NamedGroup, pubkey: &Vec<u8>, randoms: &SessionRandoms) -> (r: (
    ServerECDHParams,
    Vec<u8>,
))
    ensures
        r.0.curve_params.curve_type == ECCurveType::NamedCurve,
        r.0.curve_params.named_group == group,
        r.0.public.0@ == pubkey@,
        r.1@ == randoms.client@ + randoms.server@ + r.0.encoding(),
{
    let secdh = ServerECDHParams::new(&group, pubkey);
    let mut msg: Vec<u8> = Vec::new();
    crate::codec::append_bytes(&mut msg, vstd::array::array_as_slice(&randoms.client));
    crate::codec::append_bytes(&mut msg, vstd::array::array_as_slice(&randoms.server));
    secdh.encode(&mut msg);
    assert(msg@ =~= randoms.client@ + randoms.server@ + secdh.encoding());
    (secdh, msg)
}

/// The ServerKeyExchange: the parameters and the signature over them.
pub fn emit_server_kx(params: ServerECDHParams, scheme: SignatureScheme, sig: Vec<u8>) -> (r:
    HandshakeMessagePayload)
    ensures
        r.typ == HandshakeType::ServerKeyExchange,
        r.payload matches HandshakePayload::ServerKeyExchange(ServerKeyExchangePayload::ECDHE(x))
            && x.params == params && x.dss.scheme == scheme && x.dss.sig.0@ == sig@,
{
    handshake_message(
        HandshakeType::ServerKeyExchange,
        HandshakePayload::ServerKeyExchange(
            ServerKeyExchangePayload::ECDHE(
                ECDHEServerKeyExchange { params, dss: DigitallySignedStruct::new(scheme, sig) },
            ),
        ),
    )
}

/// The CertificateRequest, when client authentication is offered: RSA or
/// ECDSA certificates, signed with a scheme this library verifies, from one
/// of the authorities `canames`.
pub fn emit_certificate_req(config: &ServerConfig, canames: Vec<DistinguishedName>) -> (r: Option<HandshakeMessagePayload>)
    ensures
        !config.client_auth_offer ==> r is None,
        config.client_auth_offer ==> (r matches Some(m) && m.typ == HandshakeType::CertificateRequest
            && (m.payload matches HandshakePayload::CertificateRequest(c) && c.certtypes@ == seq![
            ClientCertificateType::RSASign,
            ClientCertificateType::ECDSASign,
        ] && c.sigschemes@ == crate::groups::spec_supported_verify() && c.canames == canames)),
{
    if !config.client_auth_offer {
        return None;
    }
    let certtypes = vec![ClientCertificateType::RSASign, ClientCertificateType::ECDSASign];
    assert(certtypes@ =~= seq![ClientCertificateType::RSASign, ClientCertificateType::ECDSASign]);
    let cr = CertificateRequestPayload {
        certtypes,
        sigschemes: crate::groups::supported_verify(),
        canames,
    };
    Some(handshake_message(HandshakeType::CertificateRequest, HandshakePayload::CertificateRequest(cr)))
}

pub fn emit_server_hello_done() -> (r: HandshakeMessagePayload)
    ensures
        r.typ == HandshakeType::ServerHelloDone,
        r.payload == HandshakePayload::ServerHelloDone,
{
    handshake_message(HandshakeType::ServerHelloDone, HandshakePayload::ServerHelloDone)
}

/// The NewSessionTicket, when one is to be sent. A ticket that could not be
/// sealed goes out empty.
pub fn emit_ticket(send_ticket: bool, sealed: Option<Vec<u8>>, lifetime: u32) -> (r: Option<
    HandshakeMessagePayload,
>)
    ensures
        !send_ticket ==> r is None,
        send_ticket ==> (r matches Some(m) && m.typ == HandshakeType::NewSessionTicket && (
        m.payload matches HandshakePayload::NewSessionTicket(t) && t.lifetime_hint == lifetime
            && t.ticket.0@ == match sealed {
            Some(v) => v@,
            None => Seq::empty(),
        })),
{
    if !send_ticket {
        return None;
    }
    let ticket = match sealed {
        Some(v) => v,
        None => Vec::new(),
    };
    Some(handshake_message(HandshakeType::NewSessionTicket, HandshakePayload::NewSessionTicket(NewSessionTicketPayload::new(lifetime, ticket))))
}

/// The client's certificate (client authentication): an empty chain is
/// accepted, without authentication, unless authentication is mandatory.
/// The result says whether the chain must be verified.
pub fn handle_client_certificate(chain: &CertificatePayload, mandatory: bool) -> (r: (bool, ServerState))
    ensures
        r.0 == !(chain@.len() == 0 && !mandatory),
        r.1 == ServerState::ExpectClientKX,
{
    if chain.len() == 0 && !mandatory {
        return (false, ServerState::ExpectClientKX);
    }
    (true, ServerState::ExpectClientKX)
}

/// The client's key exchange: completes ECDHE with its public value and
/// makes the master secret. Then the client's CertificateVerify is due if it
/// authenticates, else its ChangeCipherSpec.
pub fn handle_client_kx(
    kx: KeyExchange,
    client_kx: &[u8],
    randoms: &SessionRandoms,
    suite: &SupportedCipherSuite,
    doing_client_auth: bool,
) -> (r: Result<(SessionSecrets, ServerState), Rejection>)
    requires
        supported_hash(suite.hash),
    ensures
        r is Err ==> r == Err::<(SessionSecrets, ServerState), Rejection>(
            misbehaved(None, Misbehaviour::KeyExchangeFailed),
        ),
        !(exists|p: crate::handshake::ClientECDHParams|
            #![auto]
            client_kx@.take(p.encoding().len() as int) == p.encoding()) ==> r is Err,
        r matches Ok((secrets, next)) ==> secrets@.hash == suite.hash && secrets@.randoms
            == *randoms && (exists|pms: Seq<u8>| pms.len() <= 48 && secrets@.master_secret == #[trigger] spec_master_secret(suite.hash, *randoms, pms))
            && next == if doing_client_auth {
            ServerState::ExpectCertificateVerify
        } else {
            ServerState::ExpectCCS
        },
{
    let kxd = match kx.server_complete(client_kx) {
        Some(k) => k,
        None => return Err(misbehaved_by(None, Misbehaviour::KeyExchangeFailed)),
    };
    Ok(secrets_from_premaster(randoms, suite, kxd.premaster_secret.as_slice(), doing_client_auth))
}

/// TLS 1.2: the master secret made from the premaster secret `pms`, and the
/// state after the client's key exchange: its CertificateVerify if it
/// authenticates, else its ChangeCipherSpec.
pub fn secrets_from_premaster(
    randoms: &SessionRandoms,
    suite: &SupportedCipherSuite,
    pms: &[u8],
    doing_client_auth: bool,
) -> (r: (SessionSecrets, ServerState))
    requires
        supported_hash(suite.hash),
        pms@.len() <= crate::crypto::max_input(),
    ensures
        r.0@.master_secret == spec_master_secret(suite.hash, *randoms, pms@),
        r.0@.hash == suite.hash,
        r.0@.randoms == *randoms,
        r.1 == if doing_client_auth {
            ServerState::ExpectCertificateVerify
        } else {
            ServerState::ExpectCCS
        },
{
    let secrets = SessionSecrets::new(randoms, suite.hash, pms);
    let next = if doing_client_auth {
        ServerState::ExpectCertificateVerify
    } else {
        ServerState::ExpectCCS
    };
    (secrets, next)
}

/// A ChangeCipherSpec is only taken when no handshake message is half
/// received. After it the client's Finished is due.
pub fn handle_ccs(joiner_is_empty: bool) -> (r: Result<ServerState, TLSError>)
    ensures
        !joiner_is_empty ==> (r matches Err(e) && is_ccs_interleaved(e)),
        joiner_is_empty ==> r == Ok::<ServerState, TLSError>(ServerState::ExpectFinished),
{
    if !joiner_is_empty {
        return Err(ccs_interleaved());
    }
    Ok(ServerState::ExpectFinished)
}

/// What follows a good client Finished (TLS 1.2).
pub struct FinishedActions {
    /// Store the session under its id in the cache.
    pub save_session: bool,
    /// Send NewSessionTicket (if tickets are on), ChangeCipherSpec and Finished.
    pub send_flight: bool,
}

/// TLS 1.2: checks the client's Finished with ring's slice comparison and joins it to
/// the transcript. On a full handshake the session is then stored (if it has
/// an id) and the server's last flight is due; on a resumed one the server
/// has already sent its flight.
pub fn handle_finished(
    secrets: &SessionSecrets,
    transcript: &mut HandshakeHash,
    m: &HandshakeMessagePayload,
    received: &[u8],
    doing_resume: bool,
    session_id: &SessionID,
) -> (r: Result<FinishedActions, TLSError>)
    requires
        supported_hash(secrets@.hash),
        old(transcript)@.alg matches Some(a) && supported_hash(a),
    ensures
        received@ != spec_verify_data(
            secrets@.hash,
            secrets@.master_secret,
            label_client_finished(),
            spec_current_hash(old(transcript)@),
        ) ==> r == Err::<FinishedActions, TLSError>(TLSError::DecryptError) && final(transcript)@
            == old(transcript)@,
        received@ == spec_verify_data(
            secrets@.hash,
            secrets@.master_secret,
            label_client_finished(),
            spec_current_hash(old(transcript)@),
        ) ==> (r matches Ok(a) && a.save_session == (!doing_resume && session_id@.len() > 0)
            && a.send_flight == !doing_resume && final(transcript)@ == spec_add(
            old(transcript)@,
            m.encoding(),
        )),
{
    let vh = transcript.get_current_hash();
    let expect = secrets.client_verify_data(vh.as_slice());
    if !verify_slices_are_equal(expect.as_slice(), received) {
        return Err(TLSError::DecryptError);
    }
    transcript.add_message(m);
    Ok(FinishedActions { save_session: !doing_resume && !session_id.is_empty(), send_flight: !doing_resume })
}

/// TLS 1.2: the server's Finished over the transcript so far, which it then joins.
pub fn emit_finished(secrets: &SessionSecrets, transcript: &mut HandshakeHash) -> (r:
    HandshakeMessagePayload)
    requires
        supported_hash(secrets@.hash),
        old(transcript)@.alg matches Some(a) && supported_hash(a),
    ensures
        r.payload matches HandshakePayload::Finished(p) && p.0@ == spec_verify_data(
            secrets@.hash,
            secrets@.master_secret,
            label_server_finished(),
            spec_current_hash(old(transcript)@),
        ),
        final(transcript)@ == spec_add(old(transcript)@, r.encoding()),
{
    let vh = transcript.get_current_hash();
    let verify_data = secrets.server_verify_data(vh.as_slice());
    let f = finished_message(verify_data);
    transcript.add_message(&f);
    f
}

/// TLS 1.3: the server's Finished over the transcript so far, which it then joins.
pub fn emit_finished_tls13(ks: &KeySchedule, transcript: &mut HandshakeHash) -> (r:
    HandshakeMessagePayload)
    requires
        supported_hash(ks@.hash),
        old(transcript)@.alg == Some(ks@.hash),
    ensures
        r.payload matches HandshakePayload::Finished(p) && p.0@ == spec_finished_mac(
            ks@.hash,
            ks@.server_traffic,
            spec_current_hash(old(transcript)@),
        ),
        final(transcript)@ == spec_add(old(transcript)@, r.encoding()),
{
    let handshake_hash = transcript.get_current_hash();
    let vd = ks.sign_verify_data(SecretKind::ServerHandshakeTrafficSecret, handshake_hash.as_slice());
    let f = finished_message(vd);
    transcript.add_message(&f);
    f
}

/// TLS 1.3: checks the client's Finished, joins it to the transcript, and
/// moves to the application traffic secrets, derived over the transcript up
/// to the server's Finished (`server_finished_hash`).
pub fn handle_finished_tls13(
    ks: &mut KeySchedule,
    transcript: &mut HandshakeHash,
    m: &HandshakeMessagePayload,
    received: &[u8],
) -> (r: Result<ServerState, TLSError>)
    requires
        supported_hash(old(ks)@.hash),
        old(transcript)@.alg == Some(old(ks)@.hash),
    ensures
        received@ != spec_finished_mac(old(ks)@.hash, old(ks)@.client_traffic, spec_current_hash(old(transcript)@))
            <==> r == Err::<ServerState, TLSError>(TLSError::DecryptError),
        received@ == spec_finished_mac(old(ks)@.hash, old(ks)@.client_traffic, spec_current_hash(old(transcript)@))
            ==> r is Ok,
        r is Err ==> final(ks)@ == old(ks)@ && final(transcript)@ == old(transcript)@,
        r is Ok ==> {
            let h = old(ks)@.hash;
            let master = hmac_of(h, old(ks)@.current, zeroes(h));
            let hs_hash = spec_current_hash(old(transcript)@);
            &&& r == Ok::<ServerState, TLSError>(ServerState::Traffic)
            &&& final(transcript)@ == spec_add(old(transcript)@, m.encoding())
            &&& final(ks)@.current == master
            &&& final(ks)@.client_traffic == spec_expand_label(h, master, label_c_ap(), hs_hash)
            &&& final(ks)@.server_traffic == spec_expand_label(h, master, label_s_ap(), hs_hash)
        },
{
    let handshake_hash = transcript.get_current_hash();
    let expect = ks.sign_verify_data(SecretKind::ClientHandshakeTrafficSecret, handshake_hash.as_slice());
    if !verify_slices_are_equal(expect.as_slice(), received) {
        return Err(TLSError::DecryptError);
    }
    transcript.add_message(m);
    ks.input_empty();
    let read_key = ks.derive(SecretKind::ClientApplicationTrafficSecret, handshake_hash.as_slice());
    let write_key = ks.derive(SecretKind::ServerApplicationTrafficSecret, handshake_hash.as_slice());
    ks.set_traffic_secrets(read_key, write_key);
    Ok(ServerState::Traffic)
}

/// What the server stores of a session: its suite, master secret and the
/// client's verified certificate chain, if any.
pub fn get_server_session_value(
    suite: &SupportedCipherSuite,
    secrets: &SessionSecrets,
    client_cert_chain: Option<CertificatePayload>,
) -> (r: ServerSessionValue)
    ensures
        r.cipher_suite == suite.suite,
        r.master_secret.0@ == secrets@.master_secret,
        r.client_cert_chain == client_cert_chain,
{
    ServerSessionValue {
        cipher_suite: suite.suite,
        master_secret: PayloadU8::new(secrets.get_master_secret()),
        client_cert_chain,
    }
}

/// What the server sends when it resumes a TLS 1.2 session.
pub struct ResumedFlight {
    pub server_hello: HandshakeMessagePayload,
    pub ticket: Option<HandshakeMessagePayload>,
    /// Sent after the server's ChangeCipherSpec.
    pub finished: HandshakeMessagePayload,
    pub secrets: SessionSecrets,
    pub next: ServerState,
}

/// Resumes the TLS 1.2 session `value` under the suite just chosen. The
/// stored suite must be that suite. The server sends ServerHello echoing the
/// client's session id, a NewSessionTicket if tickets are on, its
/// ChangeCipherSpec and its Finished, with secrets made from the stored
/// master secret as stored; the client's ChangeCipherSpec is due next.
pub fn start_resumption(
    suite: &SupportedCipherSuite,
    session_id: &SessionID,
    random: Random,
    randoms: &SessionRandoms,
    value: &ServerSessionValue,
    answer: ExtensionAnswer,
    sealed_ticket: Option<Vec<u8>>,
    ticket_lifetime: u32,
    transcript: &mut HandshakeHash,
) -> (r: Result<ResumedFlight, Rejection>)
    requires
        supported_hash(suite.hash),
        old(transcript)@.alg == Some(suite.hash),
        value.master_secret.0@.len() <= crate::crypto::max_input(),
    ensures
        value.cipher_suite != suite.suite <==> r == Err::<ResumedFlight, Rejection>(
            misbehaved(None, Misbehaviour::ResumptionVariedCipherSuite),
        ),
        value.cipher_suite == suite.suite ==> r is Ok,
        r is Err ==> final(transcript)@ == old(transcript)@,
        r matches Ok(f) ==> {
            let t1 = spec_add(old(transcript)@, f.server_hello.encoding());
            let t2 = match f.ticket {
                Some(t) => spec_add(t1, t.encoding()),
                None => t1,
            };
            &&& f.server_hello.payload matches HandshakePayload::ServerHello(sh) && sh.server_version
                == ProtocolVersion::TLSv1_2 && sh.random == random && sh.session_id@
                == session_id@ && sh.cipher_suite == suite.suite && sh.compression_method
                == Compression::Null
            &&& (f.ticket is Some) == answer.send_ticket
            &&& f.secrets@.master_secret == value.master_secret.0@
            &&& f.secrets@.hash == suite.hash
            &&& f.secrets@.randoms == *randoms
            &&& f.finished.payload matches HandshakePayload::Finished(p) && p.0@ == spec_verify_data(
                suite.hash,
                value.master_secret.0@,
                label_server_finished(),
                spec_current_hash(t2),
            )
            &&& final(transcript)@ == spec_add(t2, f.finished.encoding())
            &&& f.next == ServerState::ExpectCCS
        },
{
    if value.cipher_suite != suite.suite {
        return Err(misbehaved_by(None, Misbehaviour::ResumptionVariedCipherSuite));
    }
    let send_ticket = answer.send_ticket;
    let server_hello = emit_server_hello(suite, session_id, random, answer);
    transcript.add_message(&server_hello);
    let secrets = SessionSecrets::new_resume(randoms, suite.hash, value.master_secret.0.as_slice());
    let ticket = emit_ticket(send_ticket, sealed_ticket, ticket_lifetime);
    if let Some(t) = &ticket {
        transcript.add_message(t);
    }
    let finished = emit_finished(&secrets, transcript);
    Ok(ResumedFlight { server_hello, ticket, finished, secrets, next: ServerState::ExpectCCS })
}

/// The first part of the server's full TLS 1.2 flight, up to what its key
/// must sign.
pub struct FullFlightStart {
    pub server_hello: HandshakeMessagePayload,
    pub certificate: HandshakeMessagePayload,
    pub kx: KeyExchange,
    pub params: ServerECDHParams,
    /// Client random, server random and the parameters' wire form.
    pub to_sign: Vec<u8>,
}

/// Full TLS 1.2 handshake, after the ClientHello was decided on: ServerHello
/// (with `session_id`), Certificate, and the server's ECDHE key in `group`,
/// both messages joined to the transcript. What the server's key must sign
/// for ServerKeyExchange is handed out.
pub fn start_full_tls12(
    suite: &SupportedCipherSuite,
    session_id: &SessionID,
    random: Random,
    randoms: &SessionRandoms,
    answer: ExtensionAnswer,
    chain: CertificatePayload,
    group: NamedGroup,
    transcript: &mut HandshakeHash,
) -> (r: Result<FullFlightStart, Rejection>)
    ensures
        r is Err ==> r == Err::<FullFlightStart, Rejection>(
            misbehaved(None, Misbehaviour::KeyExchangeFailed),
        ) && final(transcript)@ == old(transcript)@,
        (suite.kx != crate::handshake::KeyExchangeAlgorithm::ECDHE || !crate::kx::spec_kx_group(
            group,
        )) ==> r is Err,
        r matches Ok(f) ==> {
            &&& f.server_hello.payload matches HandshakePayload::ServerHello(sh) && sh.server_version
                == ProtocolVersion::TLSv1_2 && sh.random == random && sh.session_id@
                == session_id@ && sh.cipher_suite == suite.suite && sh.compression_method
                == Compression::Null && sh.extensions == answer.extensions
            &&& f.certificate.typ == HandshakeType::Certificate
            &&& f.certificate.payload == HandshakePayload::Certificate(chain)
            &&& f.kx.group == group
            &&& f.params.curve_params.curve_type == ECCurveType::NamedCurve
            &&& f.params.curve_params.named_group == group
            &&& f.params.public.0@ == f.kx.pubkey@
            &&& f.to_sign@ == randoms.client@ + randoms.server@ + f.params.encoding()
            &&& final(transcript)@ == spec_add(
                spec_add(old(transcript)@, f.server_hello.encoding()),
                f.certificate.encoding(),
            )
        },
{
    let kx = match suite.start_server_kx(group) {
        Some(k) => k,
        None => return Err(misbehaved_by(None, Misbehaviour::KeyExchangeFailed)),
    };
    let server_hello = emit_server_hello(suite, session_id, random, answer);
    transcript.add_message(&server_hello);
    let certificate = emit_certificate(chain);
    transcript.add_message(&certificate);
    let (params, to_sign) = server_kx_params(group, &kx.pubkey, randoms);
    Ok(FullFlightStart { server_hello, certificate, kx, params, to_sign })
}

/// The rest of the server's full TLS 1.2 flight.
pub struct FullFlightEnd {
    pub server_kx: HandshakeMessagePayload,
    pub certificate_request: Option<HandshakeMessagePayload>,
    pub server_hello_done: HandshakeMessagePayload,
    /// Whether the client was asked to authenticate.
    pub doing_client_auth: bool,
    pub next: ServerState,
}

/// Full TLS 1.2 handshake, once the server's key signed `to_sign` with
/// `sigscheme`: ServerKeyExchange, a CertificateRequest if client
/// authentication is offered, and ServerHelloDone, joined to the transcript
/// in that order. The client's Certificate is due next if it was asked for,
/// else its ClientKeyExchange.
pub fn finish_full_tls12(
    config: &ServerConfig,
    params: ServerECDHParams,
    sigscheme: SignatureScheme,
    sig: Vec<u8>,
    canames: Vec<DistinguishedName>,
    transcript: &mut HandshakeHash,
) -> (r: FullFlightEnd)
    ensures
        r.server_kx.payload matches HandshakePayload::ServerKeyExchange(
            ServerKeyExchangePayload::ECDHE(x),
        ) && x.params == params && x.dss.scheme == sigscheme && x.dss.sig.0@ == sig@,
        (r.certificate_request is Some) == config.client_auth_offer,
        r.doing_client_auth == config.client_auth_offer,
        r.server_hello_done.payload == HandshakePayload::ServerHelloDone,
        r.next == if config.client_auth_offer {
            ServerState::ExpectCertificate
        } else {
            ServerState::ExpectClientKX
        },
        final(transcript)@ == spec_add(
            match r.certificate_request {
                Some(c) => spec_add(spec_add(old(transcript)@, r.server_kx.encoding()), c.encoding()),
                None => spec_add(old(transcript)@, r.server_kx.encoding()),
            },
            r.server_hello_done.encoding(),
        ),
{
    let server_kx = emit_server_kx(params, sigscheme, sig);
    transcript.add_message(&server_kx);
    let certificate_request = emit_certificate_req(config, canames);
    if let Some(c) = &certificate_request {
        transcript.add_message(c);
    }
    let server_hello_done = emit_server_hello_done();
    transcript.add_message(&server_hello_done);
    let doing_client_auth = certificate_request.is_some();
    let next = if doing_client_auth {
        ServerState::ExpectCertificate
    } else {
        ServerState::ExpectClientKX
    };
    FullFlightEnd { server_kx, certificate_request, server_hello_done, doing_client_auth, next }
}

/// TLS 1.2 client authentication: the caller verified the client's
/// CertificateVerify over the raw handshake (`take_handshake_buf`) with the
/// client's certificate. A failure ends the handshake with an AccessDenied
/// alert; otherwise the message joins the transcript and the client's
/// ChangeCipherSpec is due.
pub fn handle_certificate_verify(
    verified: Result<(), TLSError>,
    transcript: &mut HandshakeHash,
    m: &HandshakeMessagePayload,
) -> (r: Result<ServerState, Rejection>)
    ensures
        verified matches Err(e) ==> r == Err::<ServerState, Rejection>(
            spec_reject(Some(AlertDescription::AccessDenied), e),
        ) && final(transcript)@ == old(transcript)@,
        verified is Ok ==> r == Ok::<ServerState, Rejection>(ServerState::ExpectCCS) && final(transcript)@ == spec_add(old(transcript)@, m.encoding()),
{
    match verified {
        Err(e) => Err(reject(Some(AlertDescription::AccessDenied), e)),
        Ok(()) => {
            transcript.add_message(m);
            Ok(ServerState::ExpectCCS)
        },
    }
}

/// After a ClientHello is decided on: the transcript starts hashing with the
/// chosen suite's hash and takes the ClientHello.
pub fn join_client_hello(
    transcript: &mut HandshakeHash,
    suite: &SupportedCipherSuite,
    ch: &HandshakeMessagePayload,
)
    requires
        old(transcript)@.alg is None,
        old(transcript)@.transcript.len() == 0,
        ch.encoding().len() <= crate::crypto::max_input(),
    ensures
        final(transcript)@.alg == Some(suite.hash),
        final(transcript)@.transcript == ch.encoding(),
        spec_current_hash(final(transcript)@) == crate::crypto::digest_of(suite.hash, ch.encoding()),
{
    crate::hash_hs::start_and_add(transcript, suite.hash, ch);
    assert(old(transcript)@.transcript + ch.encoding() =~= ch.encoding());
}

} // verus!
