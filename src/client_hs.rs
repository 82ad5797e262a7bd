//! The client's handshake: what it sends, and what it decides on each
//! message from the server. Cryptography and I/O are done by the caller with
//! the values these functions hand back.

use vstd::prelude::*;
use crate::base::{Payload, PayloadU8, PayloadU16, PayloadU24, copy_bytes};
use crate::codec::Codec;
use crate::crypto::{hmac_of, supported_hash, verify_slices_are_equal};
use crate::enums::{
    AlertDescription, CipherSuite, ClientCertificateType, Compression, ContentType, ECPointFormat,
    ExtensionType, HandshakeType, NamedGroup, ProtocolVersion, SignatureScheme,
};
use crate::error::{
    Incompatibility, Misbehaviour, Rejection, TLSError, ccs_interleaved, incompatible,
    incompatible_by, is_ccs_interleaved, misbehaved, misbehaved_by,
};
use crate::groups::{spec_supported_verify, supported_groups, supported_point_formats, supported_verify};
use crate::handshake::{
    ASN1Cert, CertificatePayload, CertificateRequestPayload, ClientExtension, ClientHelloPayload,
    DigitallySignedStruct, HandshakeMessagePayload, HandshakePayload, KeyExchangeAlgorithm,
    KeyShareEntry, NewSessionTicketPayload, Random, ServerExtension, ServerHelloPayload,
    ServerKeyExchangePayload, SessionID, bytes_equal, client_ext_types, first_server_ext,
    has_duplicate, is_tls13, server_ext_types, spec_is_tls13,
};
use crate::hash_hs::{HandshakeHash, spec_add, spec_current_hash};
use crate::key_schedule::{
    KeySchedule, SecretKind, kind_label, label_c_ap, label_s_ap, spec_expand_label,
    spec_finished_mac, zeroes,
};
use crate::kx::{KeyExchange, bytes_to_vec};
use crate::session::{
    SessionRandoms, SessionSecrets, label_client_finished, label_server_finished, spec_verify_data,
};
use crate::suites::{
    DecomposedSignatureScheme, SupportedCipherSuite, first_in_both, first_with_code, scheme_sign,
    sig_preference, spec_supported_groups,
};

verus! {

/// Where the client's handshake stands.
#[derive(Debug, Clone, Copy, PartialEq, Eq, Structural)]
pub enum ClientState {
    ExpectServerHello,
    ExpectEncryptedExtensions,
    ExpectCertificate,
    ExpectCertificateVerify,
    ExpectServerKX,
    ExpectServerHelloDoneOrCertRequest,
    ExpectServerHelloDone,
    ExpectNewTicket,
    ExpectCCS,
    ExpectFinished,
    ExpectNewTicketResume,
    ExpectCCSResume,
    ExpectFinishedResume,
    TrafficTLS12,
    TrafficTLS13,
}

/// What the client is configured with.
pub struct ClientConfig {
    /// The suites to offer, best first.
    pub ciphersuites: Vec<SupportedCipherSuite>,
    /// The ALPN protocols to offer; none when empty.
    pub alpn_protocols: Vec<Vec<u8>>,
    /// Whether to ask for and use session tickets.
    pub enable_tickets: bool,
}

/// What the client keeps of a session to resume it later.
#[derive(Debug, Clone)]
pub struct ClientSessionValue {
    pub cipher_suite: CipherSuite,
    pub session_id: SessionID,
    pub ticket: PayloadU16,
    pub master_secret: PayloadU8,
}

/// The codes of `suites`, in order.
pub open spec fn suite_codes(suites: Seq<SupportedCipherSuite>) -> Seq<CipherSuite> {
    suites.map_values(|s: SupportedCipherSuite| s.suite)
}

/// The protocols' bytes.
pub open spec fn protocol_views(p: Seq<Vec<u8>>) -> Seq<Seq<u8>> {
    p.map_values(|v: Vec<u8>| v@)
}

impl ClientConfig {
    /// The codes of the configured suites, in order.
    pub fn get_cipher_suites(&self) -> (r: Vec<CipherSuite>)
        ensures
            r@ == suite_codes(self.ciphersuites@),
    {
        let mut r: Vec<CipherSuite> = Vec::new();
        let mut i: usize = 0;
        while i < self.ciphersuites.len()
            invariant
                0 <= i <= self.ciphersuites@.len(),
                r@ == suite_codes(self.ciphersuites@.take(i as int)),
            decreases self.ciphersuites@.len() - i,
        {
            r.push(self.ciphersuites[i].suite);
            i = i + 1;
            assert(r@ =~= suite_codes(self.ciphersuites@.take(i as int)));
        }
        assert(self.ciphersuites@.take(i as int) =~= self.ciphersuites@);
        r
    }

    /// The configured suite with code `cs`.
    pub fn find_cipher_suite(&self, cs: CipherSuite) -> (r: Option<SupportedCipherSuite>)
        ensures
            r == first_with_code(self.ciphersuites@, cs),
    {
        let mut i: usize = 0;
        assert(self.ciphersuites@.skip(0) =~= self.ciphersuites@);
        while i < self.ciphersuites.len()
            invariant
                0 <= i <= self.ciphersuites@.len(),
                first_with_code(self.ciphersuites@, cs) == first_with_code(
                    self.ciphersuites@.skip(i as int),
                    cs,
                ),
            decreases self.ciphersuites@.len() - i,
        {
            assert(self.ciphersuites@.skip(i as int)[0] == self.ciphersuites@[i as int]);
            if self.ciphersuites[i].suite == cs {
                return Some(self.ciphersuites[i]);
            }
            assert(self.ciphersuites@.skip(i as int).skip(1) =~= self.ciphersuites@.skip(i + 1));
            i = i + 1;
        }
        None
    }

    /// Whether `proto` is one of the configured ALPN protocols.
    pub fn offers_protocol(&self, proto: &[u8]) -> (r: bool)
        ensures
            r == protocol_views(self.alpn_protocols@).contains(proto@),
    {
        let mut i: usize = 0;
        while i < self.alpn_protocols.len()
            invariant
                0 <= i <= self.alpn_protocols@.len(),
                forall|j: int| 0 <= j < i ==> self.alpn_protocols@[j]@ != proto@,
            decreases self.alpn_protocols@.len() - i,
        {
            if bytes_equal(self.alpn_protocols[i].as_slice(), proto) {
                assert(protocol_views(self.alpn_protocols@)[i as int] == proto@);
                return true;
            }
            i = i + 1;
        }
        assert(!protocol_views(self.alpn_protocols@).contains(proto@)) by {
            if protocol_views(self.alpn_protocols@).contains(proto@) {
                let k = choose|k: int|
                    0 <= k < protocol_views(self.alpn_protocols@).len() && protocol_views(
                        self.alpn_protocols@,
                    )[k] == proto@;
                assert(self.alpn_protocols@[k]@ == proto@);
            }
        }
        false
    }
}

/// With a ticket to offer, the session id only signals resumption (RFC 5077
/// section 3.4): it becomes the fresh random `random_id`.
pub fn randomise_sessionid_for_ticket(csv: &mut ClientSessionValue, random_id: &[u8])
    requires
        random_id@.len() == 16,
    ensures
        old(csv).ticket.0@.len() > 0 ==> final(csv).session_id@ == random_id@,
        old(csv).ticket.0@.len() == 0 ==> final(csv).session_id@ == old(csv).session_id@,
        final(csv).ticket.0@ == old(csv).ticket.0@,
        final(csv).cipher_suite == old(csv).cipher_suite,
        final(csv).master_secret.0@ == old(csv).master_secret.0@,
{
    if csv.ticket.0.len() > 0 {
        csv.session_id = SessionID::new(bytes_to_vec(random_id));
    }
}

/// A supported group's place in the order of preference; 3 for any other.
pub open spec fn group_rank(g: NamedGroup) -> int {
    if g == NamedGroup::X25519 {
        0
    } else if g == NamedGroup::secp384r1 {
        1
    } else if g == NamedGroup::secp256r1 {
        2
    } else {
        3
    }
}

/// The versions a client offers: TLS 1.3 draft 18, then TLS 1.2.
pub open spec fn spec_offered_versions() -> Seq<ProtocolVersion> {
    seq![ProtocolVersion::Unknown(0x7f12), ProtocolVersion::TLSv1_2]
}

/// What the ClientHello's extension list must be.
pub open spec fn client_hello_exts_ok(
    exts: Seq<ClientExtension>,
    config: &ClientConfig,
    dns_name: Seq<u8>,
    ticket: Seq<u8>,
    key_shares: Seq<KeyShareEntry>,
) -> bool {
    let n = 6 + (if config.enable_tickets { 1int } else { 0 }) + (if config.alpn_protocols@.len()
        > 0 {
        1int
    } else {
        0
    });
    &&& exts.len() == n
    &&& exts[0] matches ClientExtension::SupportedVersions(v) && v@ == spec_offered_versions()
    &&& exts[1] matches ClientExtension::ServerName(v) && v@.len() == 1 && (
    v@[0].payload matches crate::handshake::ServerNamePayload::HostName(p) && p.0@ == dns_name)
    &&& exts[2] matches ClientExtension::ECPointFormats(v) && v@ == seq![ECPointFormat::Uncompressed]
    &&& exts[3] matches ClientExtension::NamedGroups(v) && v@ == spec_supported_groups()
    &&& exts[4] matches ClientExtension::SignatureAlgorithms(v) && v@ == spec_supported_verify()
    &&& exts[5] matches ClientExtension::KeyShare(v) && v@ == key_shares
    &&& config.enable_tickets ==> (if ticket.len() == 0 {
        exts[6] matches ClientExtension::SessionTicketRequest
    } else {
        exts[6] matches ClientExtension::SessionTicketOffer(p) && p.0@ == ticket
    })
    &&& config.alpn_protocols@.len() > 0 ==> (exts[n - 1] matches ClientExtension::Protocols(v)
        && v@.len() == config.alpn_protocols@.len() && forall|i: int|
        0 <= i < v@.len() ==> #[trigger] v@[i].0@ == config.alpn_protocols@[i]@)
}

/// The ALPN offer: one name per configured protocol.
pub fn protocol_name_list(names: &Vec<Vec<u8>>) -> (r: Vec<PayloadU8>)
    ensures
        r@.len() == names@.len(),
        forall|i: int| 0 <= i < r@.len() ==> #[trigger] r@[i].0@ == names@[i]@,
{
    let mut ret: Vec<PayloadU8> = Vec::new();
    let mut i: usize = 0;
    while i < names.len()
        invariant
            0 <= i <= names@.len(),
            ret@.len() == i,
            forall|j: int| 0 <= j < i ==> #[trigger] ret@[j].0@ == names@[j]@,
        decreases names@.len() - i,
    {
        ret.push(PayloadU8::new(copy_bytes(&names[i])));
        i = i + 1;
    }
    ret
}

/// Builds the ClientHello from what was decided before it: the random, the
/// session id and ticket to offer, and the key shares made.
pub fn build_client_hello(
    config: &ClientConfig,
    dns_name: &[u8],
    random: Random,
    session_id: SessionID,
    ticket: &[u8],
    key_shares: Vec<KeyShareEntry>,
) -> (r: ClientHelloPayload)
    ensures
        r.client_version == ProtocolVersion::TLSv1_2,
        r.random == random,
        r.session_id@ == session_id@,
        r.cipher_suites@ == suite_codes(config.ciphersuites@),
        r.compression_methods@ == seq![Compression::Null],
        client_hello_exts_ok(r.extensions@, config, dns_name@, ticket@, key_shares@),
{
    let ghost shares = key_shares@;
    let mut exts: Vec<ClientExtension> = Vec::new();
    let mut versions: Vec<ProtocolVersion> = Vec::new();
    versions.push(ProtocolVersion::Unknown(0x7f12));
    versions.push(ProtocolVersion::TLSv1_2);
    assert(versions@ =~= spec_offered_versions());
    exts.push(ClientExtension::SupportedVersions(versions));
    exts.push(ClientExtension::make_sni(dns_name));
    exts.push(ClientExtension::ECPointFormats(supported_point_formats()));
    exts.push(ClientExtension::NamedGroups(supported_groups()));
    exts.push(ClientExtension::SignatureAlgorithms(supported_verify()));
    exts.push(ClientExtension::KeyShare(key_shares));
    if config.enable_tickets {
        if ticket.len() == 0 {
            exts.push(ClientExtension::SessionTicketRequest);
        } else {
            exts.push(ClientExtension::SessionTicketOffer(Payload::new(bytes_to_vec(ticket))));
        }
    }
    if config.alpn_protocols.len() > 0 {
        exts.push(ClientExtension::Protocols(protocol_name_list(&config.alpn_protocols)));
    }
    let mut compression: Vec<Compression> = Vec::new();
    compression.push(Compression::Null);
    assert(compression@ =~= seq![Compression::Null]);
    ClientHelloPayload {
        client_version: ProtocolVersion::TLSv1_2,
        random,
        session_id,
        cipher_suites: config.get_cipher_suites(),
        compression_methods: compression,
        extensions: exts,
    }
}

/// The client's first flight: its hello, the types of the extensions it sent,
/// the private halves of its key shares, and the session it offers to resume.
pub struct ClientHelloFlight {
    pub message: HandshakeMessagePayload,
    pub sent_extensions: Vec<ExtensionType>,
    pub offered_key_shares: Vec<KeyExchange>,
    pub resuming_session: Option<ClientSessionValue>,
}

/// Makes the ClientHello. `resuming` is the session cached for this server,
/// if any; `random_id` is 16 fresh random bytes, the session id when a ticket
/// is offered. One key share is made per supported group.
pub fn emit_client_hello(
    config: &ClientConfig,
    dns_name: &[u8],
    resuming: Option<ClientSessionValue>,
    random: Random,
    random_id: &[u8],
) -> (r: ClientHelloFlight)
    requires
        random_id@.len() == 16,
    ensures
        r.message.typ == HandshakeType::ClientHello,
        r.message.payload matches HandshakePayload::ClientHello(ch) && {
            &&& ch.client_version == ProtocolVersion::TLSv1_2
            &&& ch.compression_methods@ == seq![Compression::Null]
            &&& ch.random == random
            &&& ch.cipher_suites@ == suite_codes(config.ciphersuites@)
            &&& r.sent_extensions@ == client_ext_types(ch.extensions@)
            &&& ch.extensions@.len() >= 6
            &&& forall|i: int|
                0 <= i < r.offered_key_shares@.len() ==> spec_supported_groups().contains(
                    #[trigger] r.offered_key_shares@[i].group,
                )
            &&& forall|i: int, j: int|
                0 <= i < j < r.offered_key_shares@.len() ==> group_rank(
                    #[trigger] r.offered_key_shares@[i].group,
                ) < group_rank(#[trigger] r.offered_key_shares@[j].group)
            &&& ch.extensions@[5] matches ClientExtension::KeyShare(v) && v@.len()
                == r.offered_key_shares@.len() && forall|i: int|
                0 <= i < v@.len() ==> #[trigger] v@[i].group == r.offered_key_shares@[i].group
                && v@[i].payload.0@ == r.offered_key_shares@[i].pubkey@
            &&& match resuming {
                None => ch.session_id@.len() == 0 && r.resuming_session is None,
                Some(csv) => r.resuming_session matches Some(s) && s.ticket.0@ == csv.ticket.0@
                    && s.cipher_suite == csv.cipher_suite && s.master_secret.0@
                    == csv.master_secret.0@ && ch.session_id@ == s.session_id@ && (
                csv.ticket.0@.len() > 0 ==> s.session_id@ == random_id@) && (csv.ticket.0@.len()
                    == 0 ==> s.session_id@ == csv.session_id@),
            }
            &&& client_hello_exts_ok(
                ch.extensions@,
                config,
                dns_name@,
                match r.resuming_session {
                    Some(s) => s.ticket.0@,
                    None => Seq::empty(),
                },
                ch.extensions@[5]->KeyShare_0@,
            )
        },
{
    let mut resuming = resuming;
    let (session_id, ticket) = match &mut resuming {
        Some(csv) => {
            randomise_sessionid_for_ticket(csv, random_id);
            (csv.session_id.copy(), copy_bytes(&csv.ticket.0))
        },
        None => (SessionID::empty(), Vec::new()),
    };
    let groups = supported_groups();
    let mut key_shares: Vec<KeyShareEntry> = Vec::new();
    let mut offered: Vec<KeyExchange> = Vec::new();
    let mut i: usize = 0;
    while i < groups.len()
        invariant
            0 <= i <= groups@.len(),
            key_shares@.len() == offered@.len(),
            forall|j: int|
                0 <= j < key_shares@.len() ==> #[trigger] key_shares@[j].group == offered@[j].group
                    && key_shares@[j].payload.0@ == offered@[j].pubkey@,
            groups@ == spec_supported_groups(),
            forall|j: int|
                0 <= j < offered@.len() ==> spec_supported_groups().contains(
                    #[trigger] offered@[j].group,
                ),
            forall|j: int| 0 <= j < offered@.len() ==> group_rank(#[trigger] offered@[j].group) < i,
            forall|a: int, b: int|
                0 <= a < b < offered@.len() ==> group_rank(#[trigger] offered@[a].group) < group_rank(
                    #[trigger] offered@[b].group,
                ),
        decreases groups@.len() - i,
    {
        if let Some(kx) = KeyExchange::start_ecdhe(groups[i]) {
            assert(spec_supported_groups()[i as int] == kx.group);
            assert(group_rank(kx.group) == i);
            key_shares.push(KeyShareEntry::new(groups[i], kx.pubkey.as_slice()));
            offered.push(kx);
        }
        i = i + 1;
    }
    let ch = build_client_hello(config, dns_name, random, session_id, ticket.as_slice(), key_shares);
    let sent = crate::handshake::client_types_of(&ch.extensions);
    ClientHelloFlight {
        message: HandshakeMessagePayload {
            typ: HandshakeType::ClientHello,
            payload: HandshakePayload::ClientHello(ch),
        },
        sent_extensions: sent,
        offered_key_shares: offered,
        resuming_session: resuming,
    }
}

/// Whether some extension's type is neither among those sent nor
/// RenegotiationInfo, which a server may send unasked.
pub open spec fn spec_unsolicited(sent: Seq<ExtensionType>, exts: Seq<ServerExtension>) -> bool {
    exists|i: int|
        0 <= i < exts.len() && !sent.contains(#[trigger] exts[i].ext_type())
            && exts[i].ext_type() != ExtensionType::RenegotiationInfo
}

fn contains_type(s: &[ExtensionType], t: ExtensionType) -> (r: bool)
    ensures
        r == s@.contains(t),
{
    let mut i: usize = 0;
    while i < s.len()
        invariant
            0 <= i <= s@.len(),
            forall|j: int| 0 <= j < i ==> s@[j] != t,
        decreases s@.len() - i,
    {
        if s[i] == t {
            return true;
        }
        i = i + 1;
    }
    false
}

/// Whether the server sent an extension the client did not ask for.
pub fn sent_unsolicited_extensions(sent: &[ExtensionType], exts: &Vec<ServerExtension>) -> (r:
    bool)
    ensures
        r == spec_unsolicited(sent@, exts@),
{
    let mut i: usize = 0;
    while i < exts.len()
        invariant
            0 <= i <= exts@.len(),
            forall|j: int|
                0 <= j < i ==> sent@.contains(#[trigger] exts@[j].ext_type()) || exts@[j].ext_type()
                    == ExtensionType::RenegotiationInfo,
        decreases exts@.len() - i,
    {
        let t = exts[i].get_type();
        if !contains_type(sent, t) && t != ExtensionType::RenegotiationInfo {
            return true;
        }
        i = i + 1;
    }
    false
}

/// The protocol a ServerHello's extensions choose by ALPN, as
/// `get_alpn_protocol` reads it: the one name of a one-name list.
pub open spec fn spec_alpn_choice(exts: Seq<ServerExtension>) -> Option<Seq<u8>> {
    match first_server_ext(exts, ExtensionType::ALProtocolNegotiation) {
        Some(ServerExtension::Protocols(v)) => if v@.len() == 1 {
            Some(v@[0].0@)
        } else {
            None
        },
        _ => None,
    }
}

/// Whether a server's version is one a client accepts, and whether it is 1.3.
pub open spec fn version_accepted(v: ProtocolVersion) -> bool {
    v == ProtocolVersion::TLSv1_2 || spec_is_tls13(v)
}

/// The checks on a ServerHello, in the order they are made: the first that
/// fails decides the rejection.
pub open spec fn spec_server_hello_rejection(
    config: &ClientConfig,
    sent: Seq<ExtensionType>,
    resuming: Option<ClientSessionValue>,
    sh: ServerHelloPayload,
) -> Option<Rejection> {
    if !version_accepted(sh.server_version) {
        Some(
            incompatible(Some(AlertDescription::HandshakeFailure), Incompatibility::NoSupportedVersion),
        )
    } else if sh.compression_method != Compression::Null {
        Some(misbehaved(Some(AlertDescription::HandshakeFailure), Misbehaviour::NonNullCompression))
    } else if has_duplicate(server_ext_types(sh.extensions@)) {
        Some(misbehaved(Some(AlertDescription::DecodeError), Misbehaviour::DuplicateExtensions))
    } else if spec_unsolicited(sent, sh.extensions@) {
        Some(
            misbehaved(Some(AlertDescription::UnsupportedExtension), Misbehaviour::UnsolicitedExtension),
        )
    } else if spec_alpn_choice(sh.extensions@) matches Some(p) && !protocol_views(
        config.alpn_protocols@,
    ).contains(p) {
        Some(
            misbehaved(Some(AlertDescription::IllegalParameter), Misbehaviour::NonOfferedAlpnProtocol),
        )
    } else if first_with_code(config.ciphersuites@, sh.cipher_suite) is None {
        Some(
            misbehaved(Some(AlertDescription::HandshakeFailure), Misbehaviour::NonOfferedCipherSuite),
        )
    } else if !spec_is_tls13(sh.server_version) && (resuming matches Some(r) && r.session_id@
        == sh.session_id@ && r.cipher_suite != sh.cipher_suite) {
        Some(misbehaved(None, Misbehaviour::ResumptionVariedCipherSuite))
    } else {
        None
    }
}

/// What the client learnt from an acceptable ServerHello.
pub struct ServerHelloDecision {
    pub is_tls13: bool,
    pub suite: SupportedCipherSuite,
    pub alpn_protocol: Option<Vec<u8>>,
    /// TLS 1.2: the server may send a NewSessionTicket.
    pub must_issue_new_ticket: bool,
    /// TLS 1.2: the server agreed to resume the offered session.
    pub resumed: bool,
    /// The secrets of the resumed session, made from its stored master secret.
    pub secrets: Option<SessionSecrets>,
    pub next: ClientState,
}

/// Checks a ServerHello against what was offered, and decides what comes next.
/// `sent` holds the types of the extensions the ClientHello carried and
/// `resuming` the session it offered to resume.
pub fn handle_server_hello(
    config: &ClientConfig,
    sent: &[ExtensionType],
    resuming: &Option<ClientSessionValue>,
    client_random: &Random,
    sh: &ServerHelloPayload,
) -> (r: Result<ServerHelloDecision, Rejection>)
    requires
        resuming matches Some(c) ==> c.master_secret.0@.len() <= crate::crypto::max_input(),
    ensures
        match spec_server_hello_rejection(config, sent@, *resuming, *sh) {
            Some(rej) => r == Err::<ServerHelloDecision, Rejection>(rej),
            None => r matches Ok(d) && {
                &&& d.is_tls13 == spec_is_tls13(sh.server_version)
                &&& Some(d.suite) == first_with_code(config.ciphersuites@, sh.cipher_suite)
                &&& d.suite.suite == sh.cipher_suite
                &&& (match spec_alpn_choice(sh.extensions@) {
                    Some(p) => d.alpn_protocol matches Some(q) && q@ == p,
                    None => d.alpn_protocol is None,
                })
                &&& d.must_issue_new_ticket == (!d.is_tls13 && first_server_ext(
                    sh.extensions@,
                    ExtensionType::SessionTicket,
                ) is Some)
                &&& d.resumed == (!d.is_tls13 && (resuming matches Some(s) && s.session_id@
                    == sh.session_id@))
                &&& (d.secrets is Some) == d.resumed
                &&& d.secrets matches Some(s) ==> (s@.master_secret
                    == resuming.unwrap().master_secret.0@ && s@.hash == d.suite.hash
                    && s@.randoms.client@ == client_random.encoding() && s@.randoms.server@
                    == sh.random.encoding())
                &&& d.next == if d.is_tls13 {
                    ClientState::ExpectEncryptedExtensions
                } else if !d.resumed {
                    ClientState::ExpectCertificate
                } else if d.must_issue_new_ticket {
                    ClientState::ExpectNewTicketResume
                } else {
                    ClientState::ExpectCCSResume
                }
            },
        },
{
    let tls13 = is_tls13(sh.server_version);
    if !(sh.server_version == ProtocolVersion::TLSv1_2 || tls13) {
        return Err(
            incompatible_by(
                Some(AlertDescription::HandshakeFailure),
                Incompatibility::NoSupportedVersion,
            ),
        );
    }
    if sh.compression_method != Compression::Null {
        return Err(
            misbehaved_by(Some(AlertDescription::HandshakeFailure), Misbehaviour::NonNullCompression),
        );
    }
    if sh.has_duplicate_extension() {
        return Err(
            misbehaved_by(Some(AlertDescription::DecodeError), Misbehaviour::DuplicateExtensions),
        );
    }
    if sent_unsolicited_extensions(sent, &sh.extensions) {
        return Err(
            misbehaved_by(
                Some(AlertDescription::UnsupportedExtension),
                Misbehaviour::UnsolicitedExtension,
            ),
        );
    }
    let alpn_protocol = sh.get_alpn_protocol();
    if let Some(p) = &alpn_protocol {
        if !config.offers_protocol(p.as_slice()) {
            return Err(
                misbehaved_by(
                    Some(AlertDescription::IllegalParameter),
                    Misbehaviour::NonOfferedAlpnProtocol,
                ),
            );
        }
    }
    let suite = match config.find_cipher_suite(sh.cipher_suite) {
        Some(s) => s,
        None => {
            return Err(
                misbehaved_by(
                    Some(AlertDescription::HandshakeFailure),
                    Misbehaviour::NonOfferedCipherSuite,
                ),
            );
        },
    };
    proof {
        first_with_code_has_code(config.ciphersuites@, sh.cipher_suite);
    }
    if tls13 {
        return Ok(
            ServerHelloDecision {
                is_tls13: true,
                suite,
                alpn_protocol,
                must_issue_new_ticket: false,
                resumed: false,
                secrets: None,
                next: ClientState::ExpectEncryptedExtensions,
            },
        );
    }
    let must_issue_new_ticket = sh.find_extension(ExtensionType::SessionTicket).is_some();
    let mut resumed = false;
    let mut secrets: Option<SessionSecrets> = None;
    if let Some(res) = resuming {
        if res.session_id == sh.session_id {
            resumed = true;
            if res.cipher_suite != suite.suite {
                return Err(misbehaved_by(None, Misbehaviour::ResumptionVariedCipherSuite));
            }
            let randoms = SessionRandoms { client: client_random.to_bytes(), server: sh.random.to_bytes() };
            secrets = Some(SessionSecrets::new_resume(&randoms, suite.hash, res.master_secret.0.as_slice()));
        }
    }
    let next = if !resumed {
        ClientState::ExpectCertificate
    } else if must_issue_new_ticket {
        ClientState::ExpectNewTicketResume
    } else {
        ClientState::ExpectCCSResume
    };
    Ok(
        ServerHelloDecision {
            is_tls13: false,
            suite,
            alpn_protocol,
            must_issue_new_ticket,
            resumed,
            secrets,
            next,
        },
    )
}

pub proof fn first_with_code_has_code(s: Seq<SupportedCipherSuite>, cs: CipherSuite)
    ensures
        first_with_code(s, cs) matches Some(x) ==> x.suite == cs,
    decreases s.len(),
{
    if s.len() > 0 && s[0].suite != cs {
        first_with_code_has_code(s.skip(1), cs);
    }
}

/// Takes from the offered key shares the one in `group`, discarding all the
/// others. The server must answer in a group the client offered.
pub fn find_key_share(offered: &mut Vec<KeyExchange>, group: NamedGroup) -> (r: Result<
    KeyExchange,
    Rejection,
>)
    ensures
        final(offered)@.len() == 0,
        r matches Ok(k) ==> k.group == group,
        r matches Ok(k) ==> exists|i: int|
            0 <= i < old(offered)@.len() && k == old(offered)@[i] && forall|j: int|
                0 <= j < i ==> old(offered)@[j].group != group,
        r is Ok <==> exists|i: int| 0 <= i < old(offered)@.len() && old(offered)@[i].group == group,
        r is Err ==> r == Err::<KeyExchange, Rejection>(
            misbehaved(Some(AlertDescription::IllegalParameter), Misbehaviour::WrongKeyShareGroup),
        ),
{
    let ghost orig = offered@;
    let ghost mut removed: int = 0;
    while offered.len() > 0
        invariant
            0 <= removed <= orig.len(),
            orig == old(offered)@,
            offered@ == orig.skip(removed),
            forall|i: int| 0 <= i < removed ==> orig[i].group != group,
        decreases offered@.len(),
    {
        let share = offered.remove(0);
        proof {
            assert(share.group == orig[removed].group);
            assert(offered@ =~= orig.skip(removed + 1));
        }
        if share.group == group {
            assert(0 <= removed < orig.len() && orig[removed].group == group);
            assert(share == orig[removed]);
            offered.clear();
            return Ok(share);
        }
        proof {
            removed = removed + 1;
        }
    }
    assert(removed == orig.len());
    Err(misbehaved_by(Some(AlertDescription::IllegalParameter), Misbehaviour::WrongKeyShareGroup))
}

/// A ChangeCipherSpec is only taken when no handshake message is half
/// received. After it the server's Finished is due.
pub fn handle_ccs(joiner_is_empty: bool, resuming: bool) -> (r: Result<ClientState, TLSError>)
    ensures
        !joiner_is_empty ==> (r matches Err(e) && is_ccs_interleaved(e)),
        joiner_is_empty ==> r == Ok::<ClientState, TLSError>(
            if resuming {
                ClientState::ExpectFinishedResume
            } else {
                ClientState::ExpectFinished
            },
        ),
{
    if !joiner_is_empty {
        return Err(ccs_interleaved());
    }
    if resuming {
        Ok(ClientState::ExpectFinishedResume)
    } else {
        Ok(ClientState::ExpectFinished)
    }
}

/// The ticket and lifetime a NewSessionTicket gives, and the state after it.
pub fn handle_new_ticket(ticket: &NewSessionTicketPayload, resuming: bool) -> (r: (
    Vec<u8>,
    u32,
    ClientState,
))
    ensures
        r.0@ == ticket.ticket.0@,
        r.1 == ticket.lifetime_hint,
        r.2 == if resuming {
            ClientState::ExpectCCSResume
        } else {
            ClientState::ExpectCCS
        },
{
    let next = if resuming {
        ClientState::ExpectCCSResume
    } else {
        ClientState::ExpectCCS
    };
    (copy_bytes(&ticket.ticket.0), ticket.lifetime_hint, next)
}

/// The server must sign its key exchange with the algorithm of the suite.
pub fn check_server_kx_sig_alg(suite: &SupportedCipherSuite, sig: &DigitallySignedStruct) -> (r:
    Result<(), Rejection>)
    ensures
        r is Ok <==> suite.sign == scheme_sign(sig.scheme),
        r is Err ==> r == Err::<(), Rejection>(misbehaved(None, Misbehaviour::WrongSignatureAlgorithm)),
{
    if suite.sign != sig.scheme.sign() {
        return Err(misbehaved_by(None, Misbehaviour::WrongSignatureAlgorithm));
    }
    Ok(())
}

/// What the server signed in its key exchange: ClientHello.random ||
/// ServerHello.random || the ECDHE parameters.
pub fn server_kx_signed_message(client_random: &[u8], server_random: &[u8], params: &[u8]) -> (r:
    Vec<u8>)
    ensures
        r@ == client_random@ + server_random@ + params@,
{
    let mut message: Vec<u8> = Vec::new();
    crate::codec::append_bytes(&mut message, client_random);
    crate::codec::append_bytes(&mut message, server_random);
    crate::codec::append_bytes(&mut message, params);
    assert(message@ =~= client_random@ + server_random@ + params@);
    message
}

/// The scheme for client authentication, given a CertificateRequest and
/// whether a certificate and key were found for it. Only RSA signing is
/// done; without it, or without a certificate or a common scheme, the client
/// answers without authenticating.
pub fn client_auth_scheme(
    suite: &SupportedCipherSuite,
    certreq: &CertificateRequestPayload,
    have_cert: bool,
) -> (r: Option<SignatureScheme>)
    ensures
        !certreq.certtypes@.contains(ClientCertificateType::RSASign) ==> r is None,
        !have_cert ==> r is None,
        certreq.certtypes@.contains(ClientCertificateType::RSASign) && have_cert
            && suite.signs_with_hash() ==> r == first_in_both(
            sig_preference(*suite),
            certreq.sigschemes@,
        ),
        !suite.signs_with_hash() ==> r is None,
{
    let mut rsa = false;
    let mut i: usize = 0;
    while i < certreq.certtypes.len()
        invariant
            0 <= i <= certreq.certtypes@.len(),
            rsa <==> exists|j: int|
                0 <= j < i && certreq.certtypes@[j] == ClientCertificateType::RSASign,
        decreases certreq.certtypes@.len() - i,
    {
        if certreq.certtypes[i] == ClientCertificateType::RSASign {
            rsa = true;
        }
        i = i + 1;
    }
    if !rsa || !have_cert {
        return None;
    }
    suite.resolve_sig_scheme(certreq.sigschemes.as_slice())
}

/// What to store for resuming with this server later, if anything: a new
/// ticket if the server issued one, else the ticket offered before; nothing
/// when there is neither a session id nor a ticket.
pub fn session_to_save(
    new_ticket: Vec<u8>,
    resuming: Option<ClientSessionValue>,
    session_id: &SessionID,
    suite: CipherSuite,
    master_secret: &[u8],
) -> (r: Option<ClientSessionValue>)
    ensures
        ({
            let ticket = if new_ticket@.len() > 0 {
                new_ticket@
            } else {
                match resuming {
                    Some(s) => s.ticket.0@,
                    None => Seq::empty(),
                }
            };
            if session_id@.len() == 0 && ticket.len() == 0 {
                r is None
            } else {
                r matches Some(v) && v.cipher_suite == suite && v.session_id@ == session_id@
                    && v.ticket.0@ == ticket && v.master_secret.0@ == master_secret@
            }
        }),
{
    let ticket = if new_ticket.len() > 0 {
        new_ticket
    } else {
        match resuming {
            Some(s) => s.ticket.0,
            None => Vec::new(),
        }
    };
    if session_id.is_empty() && ticket.len() == 0 {
        return None;
    }
    Some(
        ClientSessionValue {
            cipher_suite: suite,
            session_id: session_id.copy(),
            ticket: PayloadU16::new(ticket),
            master_secret: PayloadU8::new(bytes_to_vec(master_secret)),
        },
    )
}

/// A ServerHello of an accepted version with Null compression that carries
/// two extensions of one type is rejected with a DecodeError alert.
pub proof fn lemma_server_hello_duplicates_rejected(
    config: &ClientConfig,
    sent: Seq<ExtensionType>,
    resuming: Option<ClientSessionValue>,
    sh: ServerHelloPayload,
)
    requires
        version_accepted(sh.server_version),
        sh.compression_method == Compression::Null,
        has_duplicate(server_ext_types(sh.extensions@)),
    ensures
        spec_server_hello_rejection(config, sent, resuming, sh) == Some(
            misbehaved(Some(AlertDescription::DecodeError), Misbehaviour::DuplicateExtensions),
        ),
{
}

/// A ServerHello that passes the earlier checks but carries an extension
/// whose type was not sent, and is not RenegotiationInfo, is rejected with an
/// UnsupportedExtension alert.
pub proof fn lemma_unsolicited_extension_rejected(
    config: &ClientConfig,
    sent: Seq<ExtensionType>,
    resuming: Option<ClientSessionValue>,
    sh: ServerHelloPayload,
    i: int,
)
    requires
        version_accepted(sh.server_version),
        sh.compression_method == Compression::Null,
        !has_duplicate(server_ext_types(sh.extensions@)),
        0 <= i < sh.extensions@.len(),
        !sent.contains(sh.extensions@[i].ext_type()),
        sh.extensions@[i].ext_type() != ExtensionType::RenegotiationInfo,
    ensures
        spec_server_hello_rejection(config, sent, resuming, sh) == Some(
            misbehaved(Some(AlertDescription::UnsupportedExtension), Misbehaviour::UnsolicitedExtension),
        ),
{
    assert(spec_unsolicited(sent, sh.extensions@));
}

/// When a TLS 1.2 server echoes the offered session id it resumes; the
/// client accepts that only under the suite of the stored session.
pub proof fn lemma_client_resumption_keeps_suite(
    config: &ClientConfig,
    sent: Seq<ExtensionType>,
    resuming: Option<ClientSessionValue>,
    sh: ServerHelloPayload,
)
    requires
        spec_server_hello_rejection(config, sent, resuming, sh) is None,
        !spec_is_tls13(sh.server_version),
        resuming matches Some(r) && r.session_id@ == sh.session_id@,
    ensures
        resuming.unwrap().cipher_suite == sh.cipher_suite,
{
}

/// A stage secret of the handshake stage: HKDF-Extract of the early secret
/// (made with no input) with some premaster secret.
pub open spec fn is_handshake_stage(h: crate::enums::HashAlgorithm, current: Seq<u8>) -> bool {
    exists|pms: Seq<u8>| current == #[trigger] hmac_of(h, hmac_of(h, zeroes(h), zeroes(h)), pms)
}

/// The key schedule right after ServerHello: in the handshake stage, with the
/// handshake traffic secrets over the transcript hash.
pub open spec fn handshake_schedule(
    ks: crate::key_schedule::KeyScheduleView,
    h: crate::enums::HashAlgorithm,
    hs_hash: Seq<u8>,
) -> bool {
    &&& ks.hash == h
    &&& is_handshake_stage(h, ks.current)
    &&& ks.client_traffic == spec_expand_label(h, ks.current, kind_label(
        SecretKind::ClientHandshakeTrafficSecret,
    ), hs_hash)
    &&& ks.server_traffic == spec_expand_label(h, ks.current, kind_label(
        SecretKind::ServerHandshakeTrafficSecret,
    ), hs_hash)
}

/// The key share a TLS 1.3 ServerHello carries, if any.
pub open spec fn their_share(sh: ServerHelloPayload) -> Option<KeyShareEntry> {
    match first_server_ext(sh.extensions@, ExtensionType::KeyShare) {
        Some(ServerExtension::KeyShare(k)) => Some(k),
        _ => None,
    }
}

/// TLS 1.3: completes the key exchange with the server's share and starts the
/// handshake traffic secrets. The ServerHello must carry a key share, in a
/// group the client offered.
pub fn start_handshake_traffic(
    offered: &mut Vec<KeyExchange>,
    suite: &SupportedCipherSuite,
    sh: &ServerHelloPayload,
    transcript: &HandshakeHash,
) -> (r: Result<KeySchedule, Rejection>)
    requires
        supported_hash(suite.hash),
        transcript@.alg == Some(suite.hash),
    ensures
        their_share(*sh) is None <==> r == Err::<KeySchedule, Rejection>(
            misbehaved(Some(AlertDescription::MissingExtension), Misbehaviour::MissingKeyShare),
        ),
        their_share(*sh) is None ==> final(offered)@ == old(offered)@,
        their_share(*sh) is Some ==> final(offered)@.len() == 0,
        their_share(*sh) matches Some(k) ==> (r == Err::<KeySchedule, Rejection>(
            misbehaved(Some(AlertDescription::IllegalParameter), Misbehaviour::WrongKeyShareGroup),
        ) <==> !exists|i: int| 0 <= i < old(offered)@.len() && old(offered)@[i].group == k.group),
        r is Err ==> r == Err::<KeySchedule, Rejection>(
            misbehaved(Some(AlertDescription::MissingExtension), Misbehaviour::MissingKeyShare),
        ) || r == Err::<KeySchedule, Rejection>(
            misbehaved(Some(AlertDescription::IllegalParameter), Misbehaviour::WrongKeyShareGroup),
        ) || r == Err::<KeySchedule, Rejection>(misbehaved(None, Misbehaviour::KeyExchangeFailed)),
        r matches Ok(ks) ==> handshake_schedule(ks@, suite.hash, spec_current_hash(transcript@)),
        r matches Ok(ks) ==> crate::key_schedule::from_ecdhe_premaster(
            ks@,
            suite.hash,
            spec_current_hash(transcript@),
        ),
{
    let their_key_share = match sh.get_key_share() {
        Some(k) => k,
        None => {
            return Err(
                misbehaved_by(
                    Some(AlertDescription::MissingExtension),
                    Misbehaviour::MissingKeyShare,
                ),
            );
        },
    };
    let our_key_share = match find_key_share(offered, their_key_share.group) {
        Ok(k) => k,
        Err(e) => return Err(e),
    };
    let shared = match our_key_share.complete(their_key_share.payload.0.as_slice()) {
        Some(s) => s,
        None => return Err(misbehaved_by(None, Misbehaviour::KeyExchangeFailed)),
    };
    let handshake_hash = transcript.get_current_hash();
    let key_schedule = crate::key_schedule::start_handshake_schedule(
        suite.hash,
        shared.premaster_secret.as_slice(),
        handshake_hash.as_slice(),
    );
    assert(key_schedule@.current == hmac_of(suite.hash, hmac_of(suite.hash, zeroes(suite.hash), zeroes(suite.hash)), shared.premaster_secret@));
    assert(crate::key_schedule::spec_handshake_schedule(
        key_schedule@,
        suite.hash,
        shared.premaster_secret@,
        spec_current_hash(transcript@),
    ));
    assert(crate::key_schedule::from_ecdhe_premaster(
        key_schedule@,
        suite.hash,
        spec_current_hash(transcript@),
    ));
    Ok(key_schedule)
}

/// A handshake message of type `typ`.
pub fn handshake_message(typ: HandshakeType, payload: HandshakePayload) -> (r: HandshakeMessagePayload)
    ensures
        r.typ == typ,
        r.payload == payload,
{
    HandshakeMessagePayload { typ, payload }
}

/// TLS 1.3 EncryptedExtensions: recorded in the transcript; a Certificate is next.
pub fn handle_encrypted_extensions(transcript: &mut HandshakeHash, m: &HandshakeMessagePayload) -> (r:
    ClientState)
    ensures
        final(transcript)@ == spec_add(old(transcript)@, m.encoding()),
        r == ClientState::ExpectCertificate,
{
    transcript.add_message(m);
    ClientState::ExpectCertificate
}

/// The server's certificate chain, leaf first, in either encoding; what is
/// due next depends on the version.
pub fn handle_certificate(
    transcript: &mut HandshakeHash,
    m: &HandshakeMessagePayload,
    tls13: bool,
) -> (r: Option<(CertificatePayload, ClientState)>)
    ensures
        final(transcript)@ == spec_add(old(transcript)@, m.encoding()),
        r matches Some((chain, next)) ==> next == if tls13 {
            ClientState::ExpectCertificateVerify
        } else {
            ClientState::ExpectServerKX
        },
        m.payload matches HandshakePayload::CertificateTLS13(c) ==> (tls13 ==> (r matches Some((
            chain,
            _,
        )) && chain@.len() == c.list@.len() && forall|i: int|
            0 <= i < chain@.len() ==> #[trigger] chain@[i].0@ == c.list@[i].cert.0@)),
        m.payload matches HandshakePayload::Certificate(c) ==> (!tls13 ==> (r matches Some((
            chain,
            _,
        )) && chain@.len() == c@.len() && forall|i: int|
            0 <= i < chain@.len() ==> #[trigger] chain@[i].0@ == c@[i].0@)),
        r is Some ==> (tls13 && (m.payload matches HandshakePayload::CertificateTLS13(_))) || (!tls13
            && (m.payload matches HandshakePayload::Certificate(_))),
{
    transcript.add_message(m);
    match (&m.payload, tls13) {
        (HandshakePayload::CertificateTLS13(c), true) => Some((c.convert(), ClientState::ExpectCertificateVerify)),
        (HandshakePayload::Certificate(c), false) => {
            let mut chain: Vec<ASN1Cert> = Vec::new();
            let mut i: usize = 0;
            while i < c.len()
                invariant
                    0 <= i <= c@.len(),
                    chain@.len() == i,
                    forall|j: int| 0 <= j < i ==> #[trigger] chain@[j].0@ == c@[j].0@,
                decreases c@.len() - i,
            {
                chain.push(PayloadU24::new(copy_bytes(&c[i].0)));
                i = i + 1;
            }
            Some((chain, ClientState::ExpectServerKX))
        },
        _ => None,
    }
}

/// TLS 1.2 ServerKeyExchange: decoded by the suite's key exchange, and kept
/// (the signature, and the signed parameters' wire form) for checking once
/// the certificate chain is checked.
pub fn handle_server_kx(
    transcript: &mut HandshakeHash,
    kx: &ServerKeyExchangePayload,
    m: &HandshakeMessagePayload,
    suite: &SupportedCipherSuite,
) -> (r: Result<(DigitallySignedStruct, Vec<u8>, ClientState), Rejection>)
    ensures
        final(transcript)@ == spec_add(old(transcript)@, m.encoding()),
        r matches Ok((sig, params, next)) ==> next == ClientState::ExpectServerHelloDoneOrCertRequest
            && suite.kx == KeyExchangeAlgorithm::ECDHE,
        suite.kx != KeyExchangeAlgorithm::ECDHE ==> r == Err::<
            (DigitallySignedStruct, Vec<u8>, ClientState),
            Rejection,
        >(incompatible(None, Incompatibility::UndecodableKeyExchange)),
{
    let decoded = kx.unwrap_given_kxa(&suite.kx);
    transcript.add_message(m);
    let decoded = match decoded {
        Some(d) => d,
        None => return Err(incompatible_by(None, Incompatibility::UndecodableKeyExchange)),
    };
    let sig = match decoded.get_sig() {
        Some(s) => s,
        None => return Err(incompatible_by(None, Incompatibility::UndecodableKeyExchange)),
    };
    let mut params: Vec<u8> = Vec::new();
    decoded.encode_params(&mut params);
    Ok((sig, params, ClientState::ExpectServerHelloDoneOrCertRequest))
}

/// The ClientKeyExchange carrying our ECDHE public value.
pub fn emit_clientkx(pubkey: &[u8]) -> (r: HandshakeMessagePayload)
    ensures
        r.typ == HandshakeType::ClientKeyExchange,
        r.payload matches HandshakePayload::ClientKeyExchange(p) && p.0@ == seq![
            pubkey@.len() as u8,
        ] + pubkey@,
{
    let ecpoint = PayloadU8::new(bytes_to_vec(pubkey));
    let mut buf: Vec<u8> = Vec::new();
    ecpoint.encode(&mut buf);
    assert(buf@ =~= seq![pubkey@.len() as u8] + pubkey@);
    handshake_message(HandshakeType::ClientKeyExchange, HandshakePayload::ClientKeyExchange(Payload::new(buf)))
}

/// A Finished carrying `verify_data`.
pub fn finished_message(verify_data: Vec<u8>) -> (r: HandshakeMessagePayload)
    ensures
        r.typ == HandshakeType::Finished,
        r.payload matches HandshakePayload::Finished(p) && p.0@ == verify_data@,
{
    handshake_message(HandshakeType::Finished, HandshakePayload::Finished(Payload::new(verify_data)))
}

/// TLS 1.2: the client's Finished over the transcript so far, which it then joins.
pub fn emit_finished(secrets: &SessionSecrets, transcript: &mut HandshakeHash) -> (r:
    HandshakeMessagePayload)
    requires
        supported_hash(secrets@.hash),
        old(transcript)@.alg matches Some(a) && supported_hash(a),
    ensures
        r.payload matches HandshakePayload::Finished(p) && p.0@ == spec_verify_data(
            secrets@.hash,
            secrets@.master_secret,
            label_client_finished(),
            spec_current_hash(old(transcript)@),
        ),
        final(transcript)@ == spec_add(old(transcript)@, r.encoding()),
{
    let vh = transcript.get_current_hash();
    let verify_data = secrets.client_verify_data(vh.as_slice());
    let f = finished_message(verify_data);
    transcript.add_message(&f);
    f
}

/// TLS 1.2: checks the server's Finished against the transcript so far, with
/// ring's slice comparison, and joins it to the transcript. A mismatch is a
/// DecryptError.
pub fn handle_finished_tls12(
    secrets: &SessionSecrets,
    transcript: &mut HandshakeHash,
    m: &HandshakeMessagePayload,
    received: &[u8],
) -> (r: Result<ClientState, TLSError>)
    requires
        supported_hash(secrets@.hash),
        old(transcript)@.alg matches Some(a) && supported_hash(a),
    ensures
        received@ == spec_verify_data(
            secrets@.hash,
            secrets@.master_secret,
            label_server_finished(),
            spec_current_hash(old(transcript)@),
        ) ==> r == Ok::<ClientState, TLSError>(ClientState::TrafficTLS12) && final(transcript)@
            == spec_add(old(transcript)@, m.encoding()),
        received@ != spec_verify_data(
            secrets@.hash,
            secrets@.master_secret,
            label_server_finished(),
            spec_current_hash(old(transcript)@),
        ) ==> r == Err::<ClientState, TLSError>(TLSError::DecryptError) && final(transcript)@
            == old(transcript)@,
{
    let vh = transcript.get_current_hash();
    let expect = secrets.server_verify_data(vh.as_slice());
    if !verify_slices_are_equal(expect.as_slice(), received) {
        return Err(TLSError::DecryptError);
    }
    transcript.add_message(m);
    Ok(ClientState::TrafficTLS12)
}

/// TLS 1.3: checks the server's Finished, joins it to the transcript, makes
/// the client's Finished, and moves the schedule to the application traffic
/// secrets, derived over the transcript up to the server's Finished.
pub fn handle_finished_tls13(
    ks: &mut KeySchedule,
    transcript: &mut HandshakeHash,
    m: &HandshakeMessagePayload,
    received: &[u8],
) -> (r: Result<HandshakeMessagePayload, TLSError>)
    requires
        supported_hash(old(ks)@.hash),
        old(transcript)@.alg == Some(old(ks)@.hash),
    ensures
        received@ != spec_finished_mac(old(ks)@.hash, old(ks)@.server_traffic, spec_current_hash(old(transcript)@))
            <==> r == Err::<HandshakeMessagePayload, TLSError>(TLSError::DecryptError),
        received@ == spec_finished_mac(old(ks)@.hash, old(ks)@.server_traffic, spec_current_hash(old(transcript)@))
            ==> r is Ok,
        r is Err ==> final(ks)@ == old(ks)@ && final(transcript)@ == old(transcript)@,
        r matches Ok(f) ==> {
            let t1 = spec_add(old(transcript)@, m.encoding());
            let h = old(ks)@.hash;
            let master = hmac_of(h, old(ks)@.current, zeroes(h));
            &&& f.payload matches HandshakePayload::Finished(p) && p.0@ == spec_finished_mac(
                h,
                old(ks)@.client_traffic,
                spec_current_hash(t1),
            )
            &&& final(transcript)@ == spec_add(t1, f.encoding())
            &&& final(ks)@.current == master
            &&& final(ks)@.client_traffic == spec_expand_label(h, master, label_c_ap(), spec_current_hash(t1))
            &&& final(ks)@.server_traffic == spec_expand_label(h, master, label_s_ap(), spec_current_hash(t1))
        },
{
    let handshake_hash = transcript.get_current_hash();
    let expect = ks.sign_verify_data(SecretKind::ServerHandshakeTrafficSecret, handshake_hash.as_slice());
    if !verify_slices_are_equal(expect.as_slice(), received) {
        return Err(TLSError::DecryptError);
    }
    transcript.add_message(m);
    let handshake_hash = transcript.get_current_hash();
    let vd = ks.sign_verify_data(SecretKind::ClientHandshakeTrafficSecret, handshake_hash.as_slice());
    let f = finished_message(vd);
    transcript.add_message(&f);
    ks.input_empty();
    let write_key = ks.derive(SecretKind::ClientApplicationTrafficSecret, handshake_hash.as_slice());
    let read_key = ks.derive(SecretKind::ServerApplicationTrafficSecret, handshake_hash.as_slice());
    ks.set_traffic_secrets(write_key, read_key);
    Ok(f)
}

/// TLS 1.2 CertificateRequest: client authentication is now under way (the
/// client answers with a Certificate, empty if it has none), and the scheme
/// for its CertificateVerify is chosen. ServerHelloDone is due next.
pub fn handle_certificate_req(
    transcript: &mut HandshakeHash,
    m: &HandshakeMessagePayload,
    suite: &SupportedCipherSuite,
    certreq: &CertificateRequestPayload,
    have_cert: bool,
) -> (r: (Option<SignatureScheme>, ClientState))
    ensures
        final(transcript)@ == spec_add(old(transcript)@, m.encoding()),
        r.1 == ClientState::ExpectServerHelloDone,
        certreq.certtypes@.contains(ClientCertificateType::RSASign) && have_cert
            && suite.signs_with_hash() ==> r.0 == first_in_both(
            sig_preference(*suite),
            certreq.sigschemes@,
        ),
        !(certreq.certtypes@.contains(ClientCertificateType::RSASign) && have_cert
            && suite.signs_with_hash()) ==> r.0 is None,
{
    transcript.add_message(m);
    (client_auth_scheme(suite, certreq, have_cert), ClientState::ExpectServerHelloDone)
}

/// A master secret made from an ECDHE premaster secret (at most 48 bytes).
pub open spec fn master_from_ecdhe(master: Seq<u8>, h: crate::enums::HashAlgorithm, randoms: SessionRandoms) -> bool {
    exists|pms: Seq<u8>| pms.len() <= 48 && master == #[trigger] crate::session::spec_master_secret(h, randoms, pms)
}

/// A ClientKeyExchange carrying a public value behind its one-byte length.
pub open spec fn carries_public_value(m: HandshakeMessagePayload) -> bool {
    m.payload matches HandshakePayload::ClientKeyExchange(p) && exists|pk: Seq<u8>|
        #[trigger] (seq![pk.len() as u8] + pk) == p.0@
}

/// The client's answer to ServerHelloDone, up to its ChangeCipherSpec.
pub struct ClientKxFlight {
    /// The client's Certificate, when the server asked for one.
    pub certificate: Option<HandshakeMessagePayload>,
    pub client_kx: HandshakeMessagePayload,
    /// The handshake so far, for the client's key to sign in CertificateVerify.
    pub to_sign: Option<Vec<u8>>,
    pub secrets: SessionSecrets,
}

/// TLS 1.2 ServerHelloDone. `verified` is the caller's check of the server's
/// certificate chain and of its signature over the key exchange; a failure
/// there ends the handshake as it says. Then: the signature must be of the
/// suite's algorithm; the client's Certificate goes out if asked for (empty
/// without one); ECDHE is completed with the server's parameters;
/// ClientKeyExchange goes out; the master secret is made. When the client
/// authenticates with `client_cert`, the handshake so far, for its key to
/// sign, is handed out.
pub fn handle_server_hello_done(
    transcript: &mut HandshakeHash,
    m: &HandshakeMessagePayload,
    suite: &SupportedCipherSuite,
    randoms: &SessionRandoms,
    server_kx_params: &[u8],
    server_kx_sig: &DigitallySignedStruct,
    verified: Result<(), Rejection>,
    doing_client_auth: bool,
    client_cert: Option<CertificatePayload>,
) -> (r: Result<ClientKxFlight, Rejection>)
    requires
        supported_hash(suite.hash),
    ensures
        verified matches Err(e) ==> r == Err::<ClientKxFlight, Rejection>(e),
        verified is Ok ==> (r == Err::<ClientKxFlight, Rejection>(
            misbehaved(None, Misbehaviour::WrongSignatureAlgorithm),
        ) <==> suite.sign != scheme_sign(server_kx_sig.scheme)),
        verified is Ok && suite.sign == scheme_sign(server_kx_sig.scheme) && (suite.kx
            != KeyExchangeAlgorithm::ECDHE || !crate::kx::kx_params_usable(server_kx_params@))
            ==> r == Err::<ClientKxFlight, Rejection>(misbehaved(None, Misbehaviour::KeyExchangeFailed)),
        verified is Ok && r is Err ==> r == Err::<ClientKxFlight, Rejection>(
            misbehaved(None, Misbehaviour::WrongSignatureAlgorithm),
        ) || r == Err::<ClientKxFlight, Rejection>(misbehaved(None, Misbehaviour::KeyExchangeFailed)),
        r matches Ok(f) ==> {
            let t1 = match f.certificate {
                Some(c) => spec_add(spec_add(old(transcript)@, m.encoding()), c.encoding()),
                None => spec_add(old(transcript)@, m.encoding()),
            };
            let t2 = spec_add(t1, f.client_kx.encoding());
            &&& verified is Ok
            &&& suite.sign == scheme_sign(server_kx_sig.scheme)
            &&& suite.kx == KeyExchangeAlgorithm::ECDHE
            &&& crate::kx::kx_params_usable(server_kx_params@)
            &&& f.certificate is Some == doing_client_auth
            &&& f.certificate matches Some(c) ==> (c.typ == HandshakeType::Certificate && (
            c.payload matches HandshakePayload::Certificate(v) && (client_cert matches Some(cc)
                ==> v == cc) && (client_cert is None ==> v@.len() == 0)))
            &&& f.to_sign is Some == (doing_client_auth && client_cert is Some)
            &&& f.to_sign matches Some(b) ==> b@ == t2.buffer
            &&& f.client_kx.typ == HandshakeType::ClientKeyExchange
            &&& f.secrets@.hash == suite.hash
            &&& f.secrets@.randoms == *randoms
            &&& master_from_ecdhe(f.secrets@.master_secret, suite.hash, *randoms)
            &&& carries_public_value(f.client_kx)
            &&& final(transcript)@.transcript == t2.transcript
        },
{
    if let Err(e) = verified {
        return Err(e);
    }
    transcript.add_message(m);
    if let Err(e) = check_server_kx_sig_alg(suite, server_kx_sig) {
        return Err(e);
    }
    let have_key = client_cert.is_some();
    let certificate = if doing_client_auth {
        let chain = match client_cert {
            Some(c) => c,
            None => Vec::new(),
        };
        let c = handshake_message(HandshakeType::Certificate, HandshakePayload::Certificate(chain));
        transcript.add_message(&c);
        Some(c)
    } else {
        None
    };
    let kxd = match suite.do_client_kx(server_kx_params) {
        Some(k) => k,
        None => return Err(misbehaved_by(None, Misbehaviour::KeyExchangeFailed)),
    };
    let (client_kx, to_sign, secrets) = client_kx_step(
        transcript,
        suite,
        randoms,
        kxd.pubkey.as_slice(),
        kxd.premaster_secret.as_slice(),
        doing_client_auth && have_key,
    );
    assert(master_from_ecdhe(secrets@.master_secret, suite.hash, *randoms));
    assert(carries_public_value(client_kx));
    Ok(ClientKxFlight { certificate, client_kx, to_sign, secrets })
}

/// TLS 1.2: sends ClientKeyExchange carrying our public value `pubkey`,
/// joined to the transcript; hands out the handshake so far when the client
/// signs it (`signs`), else drops the raw transcript; and makes the master
/// secret from the premaster secret `pms`.
pub fn client_kx_step(
    transcript: &mut HandshakeHash,
    suite: &SupportedCipherSuite,
    randoms: &SessionRandoms,
    pubkey: &[u8],
    pms: &[u8],
    signs: bool,
) -> (r: (HandshakeMessagePayload, Option<Vec<u8>>, SessionSecrets))
    requires
        supported_hash(suite.hash),
        pms@.len() <= crate::crypto::max_input(),
    ensures
        r.0.typ == HandshakeType::ClientKeyExchange,
        r.0.payload matches HandshakePayload::ClientKeyExchange(p) && p.0@ == seq![
            pubkey@.len() as u8,
        ] + pubkey@,
        final(transcript)@.transcript == spec_add(old(transcript)@, r.0.encoding()).transcript,
        final(transcript)@.alg == old(transcript)@.alg,
        (r.1 is Some) == signs,
        r.1 matches Some(b) ==> b@ == spec_add(old(transcript)@, r.0.encoding()).buffer,
        !signs ==> !final(transcript)@.client_auth_enabled && final(transcript)@.buffer.len() == 0,
        r.2@.master_secret == crate::session::spec_master_secret(suite.hash, *randoms, pms@),
        r.2@.hash == suite.hash,
        r.2@.randoms == *randoms,
{
    let client_kx = emit_clientkx(pubkey);
    transcript.add_message(&client_kx);
    let to_sign = if signs {
        Some(transcript.take_handshake_buf())
    } else {
        transcript.abandon_client_auth();
        None
    };
    let secrets = SessionSecrets::new(randoms, suite.hash, pms);
    (client_kx, to_sign, secrets)
}

/// The end of the client's flight: its CertificateVerify (if it signed),
/// then, after its ChangeCipherSpec, its Finished. A NewSessionTicket is due
/// next if the server said it would send one, else the server's
/// ChangeCipherSpec.
pub fn finish_client_flight(
    secrets: &SessionSecrets,
    transcript: &mut HandshakeHash,
    certificate_verify: Option<HandshakeMessagePayload>,
    must_issue_new_ticket: bool,
) -> (r: (HandshakeMessagePayload, ClientState))
    requires
        supported_hash(secrets@.hash),
        old(transcript)@.alg matches Some(a) && supported_hash(a),
    ensures
        ({
            let t1 = match certificate_verify {
                Some(cv) => spec_add(old(transcript)@, cv.encoding()),
                None => old(transcript)@,
            };
            &&& r.0.payload matches HandshakePayload::Finished(p) && p.0@ == spec_verify_data(
                secrets@.hash,
                secrets@.master_secret,
                label_client_finished(),
                spec_current_hash(t1),
            )
            &&& final(transcript)@ == spec_add(t1, r.0.encoding())
        }),
        r.1 == if must_issue_new_ticket {
            ClientState::ExpectNewTicket
        } else {
            ClientState::ExpectCCS
        },
{
    if let Some(cv) = &certificate_verify {
        transcript.add_message(cv);
    }
    let f = emit_finished(secrets, transcript);
    let next = if must_issue_new_ticket {
        ClientState::ExpectNewTicket
    } else {
        ClientState::ExpectCCS
    };
    (f, next)
}

/// After ServerKeyExchange: a CertificateRequest starts client
/// authentication (the answer is that of `handle_certificate_req`); anything
/// else is ServerHelloDone, for `handle_server_hello_done`, and the raw
/// transcript kept for signing is dropped.
pub fn handle_done_or_certreq(
    transcript: &mut HandshakeHash,
    m: &HandshakeMessagePayload,
    suite: &SupportedCipherSuite,
    have_cert: bool,
) -> (r: Option<(Option<SignatureScheme>, ClientState)>)
    ensures
        m.payload matches HandshakePayload::CertificateRequest(c) ==> (r matches Some((s, next))
            && next == ClientState::ExpectServerHelloDone && final(transcript)@ == spec_add(
            old(transcript)@,
            m.encoding(),
        ) && (c.certtypes@.contains(ClientCertificateType::RSASign) && have_cert
            && suite.signs_with_hash() ==> s == first_in_both(sig_preference(*suite), c.sigschemes@))),
        !(m.payload matches HandshakePayload::CertificateRequest(_)) ==> r is None
            && !final(transcript)@.client_auth_enabled && final(transcript)@.buffer.len() == 0
            && final(transcript)@.transcript == old(transcript)@.transcript && final(transcript)@.alg
            == old(transcript)@.alg,
{
    match &m.payload {
        HandshakePayload::CertificateRequest(certreq) => Some(
            handle_certificate_req(transcript, m, suite, certreq, have_cert),
        ),
        _ => {
            transcript.abandon_client_auth();
            None
        },
    }
}

/// TLS 1.2, resumed: checks the server's Finished (which came first), then
/// makes the client's own Finished, sent after its ChangeCipherSpec.
pub fn handle_finished_resume(
    secrets: &SessionSecrets,
    transcript: &mut HandshakeHash,
    m: &HandshakeMessagePayload,
    received: &[u8],
) -> (r: Result<(HandshakeMessagePayload, ClientState), TLSError>)
    requires
        supported_hash(secrets@.hash),
        old(transcript)@.alg matches Some(a) && supported_hash(a),
    ensures
        received@ != spec_verify_data(
            secrets@.hash,
            secrets@.master_secret,
            label_server_finished(),
            spec_current_hash(old(transcript)@),
        ) <==> r == Err::<(HandshakeMessagePayload, ClientState), TLSError>(TLSError::DecryptError),
        r matches Ok((f, next)) ==> next == ClientState::TrafficTLS12 && (f.payload matches HandshakePayload::Finished(
            p,
        ) && p.0@ == spec_verify_data(
            secrets@.hash,
            secrets@.master_secret,
            label_client_finished(),
            spec_current_hash(spec_add(old(transcript)@, m.encoding())),
        )) && final(transcript)@ == spec_add(spec_add(old(transcript)@, m.encoding()), f.encoding()),
{
    let next = match handle_finished_tls12(secrets, transcript, m, received) {
        Ok(s) => s,
        Err(e) => return Err(e),
    };
    let f = emit_finished(secrets, transcript);
    Ok((f, next))
}

/// What the client does with a message in TLS 1.3 traffic.
#[derive(Debug, Clone, Copy, PartialEq, Eq, Structural)]
pub enum TrafficAction {
    /// Application data: hand the plaintext to the application.
    Deliver,
    /// A post-handshake NewSessionTicket (or other handshake message): ignored.
    Ignore,
}

/// TLS 1.3 traffic: application data is delivered, anything else the state
/// admits (a NewSessionTicket) is ignored. The state does not change.
pub fn handle_traffic_tls13(content_type: ContentType) -> (r: (TrafficAction, ClientState))
    ensures
        r.0 == (if content_type == ContentType::ApplicationData {
            TrafficAction::Deliver
        } else {
            TrafficAction::Ignore
        }),
        r.1 == ClientState::TrafficTLS13,
{
    if content_type == ContentType::ApplicationData {
        (TrafficAction::Deliver, ClientState::TrafficTLS13)
    } else {
        (TrafficAction::Ignore, ClientState::TrafficTLS13)
    }
}

/// TLS 1.3 CertificateVerify: the caller verified the server's chain and its
/// signature over `tls13_certverify_message` of the transcript hash so far.
/// A failure ends the handshake as it says; otherwise the message joins the
/// transcript and the server's Finished is due.
pub fn handle_certificate_verify_tls13(
    verified: Result<(), Rejection>,
    transcript: &mut HandshakeHash,
    m: &HandshakeMessagePayload,
) -> (r: Result<ClientState, Rejection>)
    ensures
        verified matches Err(e) ==> r == Err::<ClientState, Rejection>(e) && final(transcript)@
            == old(transcript)@,
        verified is Ok ==> r == Ok::<ClientState, Rejection>(ClientState::ExpectFinished) && final(transcript)@ == spec_add(old(transcript)@, m.encoding()),
{
    match verified {
        Err(e) => Err(e),
        Ok(()) => {
            transcript.add_message(m);
            Ok(ClientState::ExpectFinished)
        },
    }
}

/// After an accepted ServerHello: the transcript, which holds the ClientHello,
/// starts hashing with the chosen suite's hash and takes the ServerHello.
/// Its hash is then of ClientHello and ServerHello, in that order.
pub fn join_server_hello(
    transcript: &mut HandshakeHash,
    d: &ServerHelloDecision,
    ch: &HandshakeMessagePayload,
    m: &HandshakeMessagePayload,
)
    requires
        old(transcript)@.alg is None,
        old(transcript)@.transcript == ch.encoding(),
        ch.encoding().len() + m.encoding().len() <= crate::crypto::max_input(),
    ensures
        final(transcript)@.alg == Some(d.suite.hash),
        final(transcript)@.transcript == ch.encoding() + m.encoding(),
        spec_current_hash(final(transcript)@) == crate::crypto::digest_of(
            d.suite.hash,
            ch.encoding() + m.encoding(),
        ),
{
    crate::hash_hs::start_and_add(transcript, d.suite.hash, m);
}

} // verus!
