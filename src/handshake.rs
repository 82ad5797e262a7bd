//! Handshake messages and their wire forms.
//!
//! Every `read` hands back only a value whose `encoding()` is exactly the bytes
//! it consumed; every `encode` appends exactly `encoding()`.

use vstd::prelude::*;
use crate::base::{Payload, PayloadU8, PayloadU16, PayloadU24, copy_bytes};
use crate::codec::{
    Codec, Reader, append_bytes, be16, be24, be32, encode_u24, enc_vec_u8, enc_vec_u16, enc_vec_u24, encode_u16,
    encode_u32, encode_vec_u8, encode_vec_u16, encode_vec_u24, lemma_be16_of_value, read_vec_u8,
    read_vec_u16, read_vec_u24, be16_value, be24_value, be32_value, lemma_be32_round_trip,
};
use crate::enums::{
    CipherSuite, ClientCertificateType, Compression, ECCurveType, ECPointFormat, ExtensionType,
    HandshakeType, HeartbeatMode, KeyUpdateRequest, NamedGroup, ProtocolVersion,
    ServerNameType, SignatureScheme,
};

verus! {

/// Whether two byte strings are equal.
pub fn bytes_equal(a: &[u8], b: &[u8]) -> (r: bool)
    ensures
        r == (a@ == b@),
{
    if a.len() != b.len() {
        return false;
    }
    let mut i: usize = 0;
    while i < a.len()
        invariant
            a@.len() == b@.len(),
            0 <= i <= a@.len(),
            forall|j: int| 0 <= j < i ==> a@[j] == b@[j],
        decreases a@.len() - i,
    {
        if a[i] != b[i] {
            return false;
        }
        i = i + 1;
    }
    assert(a@ =~= b@);
    true
}

/// The 32-byte hello random: a time and 28 opaque bytes.
#[derive(Debug, Clone, Copy)]
pub struct Random {
    pub gmt_unix_time: u32,
    pub opaque: [u8; 28],
}

impl Codec for Random {
    open spec fn encoding(&self) -> Seq<u8> {
        be32(self.gmt_unix_time) + self.opaque@
    }

    fn encode(&self, bytes: &mut Vec<u8>) {
        encode_u32(self.gmt_unix_time, bytes);
        append_bytes(bytes, vstd::array::array_as_slice(&self.opaque));
    }

    fn read(r: &mut Reader) -> (res: Option<Random>)
        ensures
            old(r).rest().len() >= 32 ==> (res matches Some(x) && x.gmt_unix_time == be32_value(
                old(r).rest(),
            ) && x.opaque@ == old(r).rest().subrange(4, 32)),
    {
        let rest0 = Ghost(r.rest());
        let time = match r.read_u32() {
            Some(t) => t,
            None => return None,
        };
        let bytes = match r.take(28) {
            Some(b) => b,
            None => return None,
        };
        let rnd = Random::from_parts(time, bytes);
        proof {
            lemma_be32_round_trip(time, seq![]);
            let s = rest0@;
            assert(be32(time) =~= s.take(4)) by {
                assert(s.take(4) =~= be32(be32_value(s)) + Seq::<u8>::empty()) by {
                    lemma_be32_of_value(s);
                }
            }
            assert(old(r).rest() =~= rnd.encoding() + r.rest());
            assert(rnd.opaque@ =~= old(r).rest().subrange(4, 32));
        }
        Some(rnd)
    }
}

pub proof fn lemma_be32_of_value(s: Seq<u8>)
    requires
        s.len() >= 4,
    ensures
        s.take(4) == be32(be32_value(s)),
{
    let (a, b, c, d) = (s[0], s[1], s[2], s[3]);
    let v = be32_value(s);
    assert(v as int == a as int * 16777216 + b as int * 65536 + c as int * 256 + d as int);
    assert((v / 16777216) as u8 == a && ((v / 65536) % 256) as u8 == b && ((v / 256) % 256) as u8
        == c && (v % 256) as u8 == d) by (nonlinear_arith)
        requires
            v as int == a as int * 16777216 + b as int * 65536 + c as int * 256 + d as int,
            0 <= a < 256,
            0 <= b < 256,
            0 <= c < 256,
            0 <= d < 256,
    ;
    assert(s.take(4) =~= be32(v));
}

impl Random {
    fn from_parts(time: u32, bytes: &[u8]) -> (r: Random)
        requires
            bytes@.len() == 28,
        ensures
            r.gmt_unix_time == time,
            r.opaque@ == bytes@,
    {
        let mut opaque = [0u8; 28];
        let mut i: usize = 0;
        while i < 28
            invariant
                bytes@.len() == 28,
                0 <= i <= 28,
                forall|j: int| 0 <= j < i ==> opaque@[j] == bytes@[j],
            decreases 28 - i,
        {
            opaque[i] = bytes[i];
            i = i + 1;
        }
        assert(opaque@ =~= bytes@);
        Random { gmt_unix_time: time, opaque }
    }

    /// The random whose wire form is `bytes`.
    pub fn from_slice(bytes: &[u8]) -> (r: Random)
        requires
            bytes@.len() == 32,
        ensures
            r.encoding() == bytes@,
    {
        let mut rd = Reader::init(bytes);
        let time = rd.read_u32().unwrap();
        let rest = rd.take(28).unwrap();
        let rnd = Random::from_parts(time, rest);
        proof {
            lemma_be32_of_value(bytes@);
            assert(bytes@ =~= rnd.encoding());
        }
        rnd
    }

    /// The wire form, as an array.
    pub fn to_bytes(&self) -> (r: [u8; 32])
        ensures
            r@ == self.encoding(),
    {
        let mut buf: Vec<u8> = Vec::new();
        self.encode(&mut buf);
        assert(buf@.len() == 32);
        let mut out = [0u8; 32];
        let mut i: usize = 0;
        while i < 32
            invariant
                0 <= i <= 32,
                buf@ == self.encoding(),
                buf@.len() == 32,
                forall|j: int| 0 <= j < i ==> out@[j] == buf@[j],
            decreases 32 - i,
        {
            out[i] = buf[i];
            i = i + 1;
        }
        assert(out@ =~= buf@);
        out
    }

    /// Writes the wire form over the start of `bytes`, as much of it as fits.
    pub fn write_slice(&self, bytes: &mut [u8])
        ensures
            final(bytes)@.len() == old(bytes)@.len(),
            old(bytes)@.len() <= 32 ==> final(bytes)@ == self.encoding().take(old(bytes)@.len() as int),
            old(bytes)@.len() > 32 ==> final(bytes)@ == self.encoding() + old(bytes)@.skip(32),
    {
        let mut buf: Vec<u8> = Vec::new();
        self.encode(&mut buf);
        assert(buf@ == self.encoding());
        assert(buf@.len() == 32);
        let mut i: usize = 0;
        while i < bytes.len() && i < 32
            invariant
                buf@ == self.encoding(),
                buf@.len() == 32,
                0 <= i <= 32,
                i <= old(bytes)@.len(),
                bytes@.len() == old(bytes)@.len(),
                forall|j: int| 0 <= j < i ==> bytes@[j] == buf@[j],
                forall|j: int| i <= j < bytes@.len() ==> bytes@[j] == old(bytes)@[j],
            decreases 32 - i,
        {
            bytes[i] = buf[i];
            i = i + 1;
        }
        proof {
            if old(bytes)@.len() <= 32 {
                assert(bytes@ =~= self.encoding().take(old(bytes)@.len() as int));
            } else {
                assert(bytes@ =~= self.encoding() + old(bytes)@.skip(32));
            }
        }
    }
}

/// A session id: at most 32 bytes.
#[derive(Debug, Clone)]
pub struct SessionID {
    bytes: Vec<u8>,
}

impl View for SessionID {
    type V = Seq<u8>;

    closed spec fn view(&self) -> Seq<u8> {
        self.bytes@
    }
}

impl PartialEq for SessionID {
    fn eq(&self, other: &SessionID) -> (r: bool) {
        bytes_equal(self.bytes.as_slice(), other.bytes.as_slice())
    }
}

impl vstd::std_specs::cmp::PartialEqSpecImpl for SessionID {
    open spec fn obeys_eq_spec() -> bool {
        true
    }

    open spec fn eq_spec(&self, other: &SessionID) -> bool {
        self@ == other@
    }
}

impl Codec for SessionID {
    open spec fn encoding(&self) -> Seq<u8> {
        seq![self@.len() as u8] + self@
    }

    fn encode(&self, bytes: &mut Vec<u8>) {
        bytes.push(self.bytes.len() as u8);
        append_bytes(bytes, self.bytes.as_slice());
        assert(bytes@ =~= old(bytes)@ + self.encoding());
    }

    fn read(r: &mut Reader) -> (res: Option<SessionID>)
        ensures
            old(r).rest().len() >= 1 && old(r).rest()[0] <= 32 && old(r).rest().len() >= 1
                + old(r).rest()[0] ==> (res matches Some(v) && v@ == old(r).rest().subrange(
                1,
                1 + old(r).rest()[0],
            )),
            old(r).rest().len() >= 1 && old(r).rest()[0] > 32 ==> res is None,
    {
        let len = match r.read_u8() {
            Some(x) => x,
            None => return None,
        };
        let bytes = match r.take(len as usize) {
            Some(b) => b,
            None => return None,
        };
        if len <= 32 {
            let s = SessionID { bytes: vstd::slice::slice_to_vec(bytes) };
            assert(old(r).rest() =~= s.encoding() + r.rest());
            assert(s@ =~= old(r).rest().subrange(1, 1 + len));
            Some(s)
        } else {
            None
        }
    }
}

impl SessionID {
    /// Every session id holds at most 32 bytes.
    pub open spec fn wf(&self) -> bool {
        self@.len() <= 32
    }

    /// The id made of the first 32 bytes of `bytes` (all of them if fewer).
    pub fn new(bytes: Vec<u8>) -> (r: SessionID)
        ensures
            bytes@.len() <= 32 ==> r@ == bytes@,
            bytes@.len() > 32 ==> r@ == bytes@.take(32),
            r.wf(),
    {
        let mut bytes = bytes;
        bytes.truncate(32);
        SessionID { bytes }
    }

    pub fn empty() -> (r: SessionID)
        ensures
            r@.len() == 0,
    {
        SessionID::new(Vec::new())
    }

    pub fn len(&self) -> (r: usize)
        ensures
            r == self@.len(),
    {
        self.bytes.len()
    }

    pub fn is_empty(&self) -> (r: bool)
        ensures
            r == (self@.len() == 0),
    {
        self.len() == 0
    }

    /// A copy of this id.
    pub fn copy(&self) -> (r: SessionID)
        ensures
            r@ == self@,
    {
        SessionID { bytes: copy_bytes(&self.bytes) }
    }

    /// The id's bytes.
    pub fn as_bytes(&self) -> (r: &[u8])
        ensures
            r@ == self@,
    {
        self.bytes.as_slice()
    }
}

/// An extension's wire form: its type, the two-byte length of its body, the body.
pub open spec fn ext_frame(typ: ExtensionType, body: Seq<u8>) -> Seq<u8> {
    typ.encoding() + be16(body.len() as u16) + body
}

fn encode_ext(typ: ExtensionType, body: &Vec<u8>, bytes: &mut Vec<u8>)
    ensures
        final(bytes)@ == old(bytes)@ + ext_frame(typ, body@),
{
    typ.encode(bytes);
    encode_u16(body.len() as u16, bytes);
    append_bytes(bytes, body.as_slice());
    assert(bytes@ =~= old(bytes)@ + ext_frame(typ, body@));
}

/// The body length an extension frame at the start of `s` announces.
pub open spec fn frame_len(s: Seq<u8>) -> int {
    be16_value(s.skip(2)) as int
}

/// Whether `s` starts with a whole extension frame.
pub open spec fn frame_fits(s: Seq<u8>) -> bool {
    s.len() >= 4 && s.len() >= 4 + frame_len(s)
}

/// The body of the extension frame at the start of `s`.
pub open spec fn frame_body(s: Seq<u8>) -> Seq<u8> {
    s.subrange(4, 4 + frame_len(s))
}

/// An extension written as a frame reads back as that frame.
pub proof fn lemma_frame_round_trip(t: ExtensionType, body: Seq<u8>, tail: Seq<u8>)
    requires
        t.wf(),
        body.len() < 0x1_0000,
    ensures
        ({
            let s = ext_frame(t, body) + tail;
            &&& frame_fits(s)
            &&& ExtensionType::from_value(be16_value(s)) == t
            &&& frame_body(s) == body
            &&& s.skip(4 + frame_len(s)) == tail
        }),
{
    let v = t.value();
    let n = body.len() as u16;
    let rest = be16(n) + body + tail;
    let s = ext_frame(t, body) + tail;
    assert(t.encoding() == be16(v));
    assert(s =~= be16(v) + rest);
    crate::codec::lemma_be16_round_trip(v, rest);
    assert(be16_value(s) == v);
    assert(s.skip(2) =~= rest);
    crate::codec::lemma_be16_round_trip(n, body + tail);
    assert(rest =~= be16(n) + (body + tail));
    assert(frame_len(s) == body.len());
    assert(frame_body(s) =~= body);
    assert(s.skip(4 + frame_len(s)) =~= tail);
}

/// Reads an extension's type and length, and gives a reader over its body.
fn read_ext_header<'a>(r: &mut Reader<'a>) -> (res: Option<(ExtensionType, Reader<'a>)>)
    requires
        old(r).wf(),
    ensures
        final(r).wf(),
        res matches Some((t, sub)) ==> sub.wf() && old(r).rest() == ext_frame(t, sub.rest())
            + final(r).rest(),
        frame_fits(old(r).rest()) ==> (res matches Some((t, sub)) && t == ExtensionType::from_value(
            be16_value(old(r).rest()),
        ) && sub.rest() == frame_body(old(r).rest()) && final(r).rest() == old(r).rest().skip(
            4 + frame_len(old(r).rest()),
        )),
{
    let typ = match ExtensionType::read(r) {
        Some(t) => t,
        None => return None,
    };
    let mid = Ghost(r.rest());
    proof {
        if mid@.len() >= 2 {
            lemma_be16_of_value(mid@);
        }
    }
    let len = match r.read_u16() {
        Some(l) => l,
        None => return None,
    };
    let sub = match r.sub(len as usize) {
        Some(s) => s,
        None => return None,
    };
    assert(old(r).rest() =~= ext_frame(typ, sub.rest()) + r.rest());
    Some((typ, sub))
}

/// An extension of a type this library does not interpret.
#[derive(Debug, Clone)]
pub struct UnknownExtension {
    pub typ: ExtensionType,
    pub payload: Payload,
}

impl UnknownExtension {
    fn read(typ: ExtensionType, sub: &mut Reader) -> (res: Option<UnknownExtension>)
        requires
            old(sub).wf(),
        ensures
            final(sub).wf(),
            res matches Some(u) && u.typ == typ && old(sub).rest() == u.payload.0@
                && final(sub).rest().len() == 0,
    {
        let n = sub.left();
        match sub.take(n) {
            Some(b) => Some(UnknownExtension { typ, payload: Payload::new(vstd::slice::slice_to_vec(b)) }),
            None => None,
        }
    }
}

/// What a server name says: a host name, or bytes of a kind not interpreted.
#[derive(Debug, Clone)]
pub enum ServerNamePayload {
    HostName(PayloadU16),
    Unknown(Payload),
}

/// One entry of the server name extension.
#[derive(Debug, Clone)]
pub struct ServerName {
    pub typ: ServerNameType,
    pub payload: ServerNamePayload,
}

/// Whether the bytes are well-formed UTF-8.
pub uninterp spec fn is_utf8(b: Seq<u8>) -> bool;

/// Relies on std::str::from_utf8: it succeeds exactly on well-formed UTF-8,
/// which the empty string is.
#[verifier::external_body]
pub(crate) fn check_utf8(b: &[u8]) -> (r: bool)
    ensures
        r == is_utf8(b@),
        b@.len() == 0 ==> r,
{
    std::str::from_utf8(b).is_ok()
}

impl Codec for ServerName {
    open spec fn encoding(&self) -> Seq<u8> {
        self.typ.encoding() + match self.payload {
            ServerNamePayload::HostName(p) => p.encoding(),
            ServerNamePayload::Unknown(p) => p.0@,
        }
    }

    fn encode(&self, bytes: &mut Vec<u8>) {
        self.typ.encode(bytes);
        match &self.payload {
            ServerNamePayload::HostName(p) => p.encode(bytes),
            ServerNamePayload::Unknown(p) => p.encode(bytes),
        }
        assert(bytes@ =~= old(bytes)@ + self.encoding());
    }

    fn read(r: &mut Reader) -> (res: Option<ServerName>) {
        let typ = match ServerNameType::read(r) {
            Some(t) => t,
            None => return None,
        };
        let mid = Ghost(r.rest());
        let payload = match typ {
            ServerNameType::HostName => {
                let p = match PayloadU16::read(r) {
                    Some(p) => p,
                    None => return None,
                };
                if !check_utf8(p.0.as_slice()) {
                    return None;
                }
                assert(mid@ == p.encoding() + r.rest());
                ServerNamePayload::HostName(p)
            },
            _ => {
                let p = match Payload::read(r) {
                    Some(p) => p,
                    None => return None,
                };
                ServerNamePayload::Unknown(p)
            },
        };
        let sn = ServerName { typ, payload };
        assert(old(r).rest() =~= sn.encoding() + r.rest());
        Some(sn)
    }
}

/// A list of protocol names, as offered or chosen by ALPN.
pub type ProtocolNameList = Vec<PayloadU8>;

/// A key share: a group and a public value in it.
#[derive(Debug, Clone)]
pub struct KeyShareEntry {
    pub group: NamedGroup,
    pub payload: PayloadU16,
}

impl KeyShareEntry {
    pub fn new(group: NamedGroup, payload: &[u8]) -> (r: KeyShareEntry)
        ensures
            r.group == group,
            r.payload.0@ == payload@,
    {
        KeyShareEntry { group, payload: PayloadU16::new(vstd::slice::slice_to_vec(payload)) }
    }
}

impl Codec for KeyShareEntry {
    open spec fn encoding(&self) -> Seq<u8> {
        self.group.encoding() + self.payload.encoding()
    }

    fn encode(&self, bytes: &mut Vec<u8>) {
        self.group.encode(bytes);
        self.payload.encode(bytes);
        assert(bytes@ =~= old(bytes)@ + self.encoding());
    }

    fn read(r: &mut Reader) -> (res: Option<KeyShareEntry>) {
        let group = match NamedGroup::read(r) {
            Some(g) => g,
            None => return None,
        };
        let payload = match PayloadU16::read(r) {
            Some(p) => p,
            None => return None,
        };
        let k = KeyShareEntry { group, payload };
        assert(old(r).rest() =~= k.encoding() + r.rest());
        Some(k)
    }
}

/// The ClientHello extension types this library reads into their own variants.
pub open spec fn client_ext_interpreted(t: ExtensionType) -> bool {
    t == ExtensionType::ECPointFormats || t == ExtensionType::EllipticCurves || t
        == ExtensionType::SignatureAlgorithms || t == ExtensionType::Heartbeat || t
        == ExtensionType::ServerName || t == ExtensionType::SessionTicket || t
        == ExtensionType::ALProtocolNegotiation || t == ExtensionType::SupportedVersions || t
        == ExtensionType::KeyShare
}

/// The ServerHello extension types this library reads into their own variants.
pub open spec fn server_ext_interpreted(t: ExtensionType) -> bool {
    t == ExtensionType::ECPointFormats || t == ExtensionType::Heartbeat || t
        == ExtensionType::ServerName || t == ExtensionType::SessionTicket || t
        == ExtensionType::RenegotiationInfo || t == ExtensionType::ALProtocolNegotiation || t
        == ExtensionType::KeyShare
}

/// An unknown extension's wire form reads back as the same unknown
/// extension: the exact `read` clauses apply to it, with these values.
pub proof fn lemma_unknown_extension_round_trip(u: UnknownExtension, tail: Seq<u8>)
    requires
        u.typ.wf(),
        u.payload.0@.len() < 0x1_0000,
    ensures
        ({
            let s = ClientExtension::Unknown(u).encoding() + tail;
            &&& s == ServerExtension::Unknown(u).encoding() + tail
            &&& frame_fits(s)
            &&& ExtensionType::from_value(be16_value(s)) == u.typ
            &&& frame_body(s) == u.payload.0@
            &&& s.skip(4 + frame_len(s)) == tail
        }),
{
    lemma_frame_round_trip(u.typ, u.payload.0@, tail);
}

/// An extension of a ClientHello.
#[derive(Debug, Clone)]
pub enum ClientExtension {
    ECPointFormats(Vec<ECPointFormat>),
    NamedGroups(Vec<NamedGroup>),
    SignatureAlgorithms(Vec<SignatureScheme>),
    Heartbeat(HeartbeatMode),
    ServerName(Vec<ServerName>),
    SessionTicketRequest,
    SessionTicketOffer(Payload),
    Protocols(ProtocolNameList),
    SupportedVersions(Vec<ProtocolVersion>),
    KeyShare(Vec<KeyShareEntry>),
    Unknown(UnknownExtension),
}

impl ClientExtension {
    pub open spec fn ext_type(&self) -> ExtensionType {
        match self {
            ClientExtension::ECPointFormats(_) => ExtensionType::ECPointFormats,
            ClientExtension::NamedGroups(_) => ExtensionType::EllipticCurves,
            ClientExtension::SignatureAlgorithms(_) => ExtensionType::SignatureAlgorithms,
            ClientExtension::Heartbeat(_) => ExtensionType::Heartbeat,
            ClientExtension::ServerName(_) => ExtensionType::ServerName,
            ClientExtension::SessionTicketRequest => ExtensionType::SessionTicket,
            ClientExtension::SessionTicketOffer(_) => ExtensionType::SessionTicket,
            ClientExtension::Protocols(_) => ExtensionType::ALProtocolNegotiation,
            ClientExtension::SupportedVersions(_) => ExtensionType::SupportedVersions,
            ClientExtension::KeyShare(_) => ExtensionType::KeyShare,
            ClientExtension::Unknown(u) => u.typ,
        }
    }

    /// The extension's body, without its type and length.
    pub open spec fn body(&self) -> Seq<u8> {
        match self {
            ClientExtension::ECPointFormats(v) => enc_vec_u8(v@),
            ClientExtension::NamedGroups(v) => enc_vec_u16(v@),
            ClientExtension::SignatureAlgorithms(v) => enc_vec_u16(v@),
            ClientExtension::Heartbeat(m) => m.encoding(),
            ClientExtension::ServerName(v) => enc_vec_u16(v@),
            ClientExtension::SessionTicketRequest => Seq::empty(),
            ClientExtension::SessionTicketOffer(p) => p.0@,
            ClientExtension::Protocols(v) => enc_vec_u16(v@),
            ClientExtension::SupportedVersions(v) => enc_vec_u8(v@),
            ClientExtension::KeyShare(v) => enc_vec_u16(v@),
            ClientExtension::Unknown(u) => u.payload.0@,
        }
    }

    pub fn get_type(&self) -> (r: ExtensionType)
        ensures
            r == self.ext_type(),
    {
        match self {
            ClientExtension::ECPointFormats(_) => ExtensionType::ECPointFormats,
            ClientExtension::NamedGroups(_) => ExtensionType::EllipticCurves,
            ClientExtension::SignatureAlgorithms(_) => ExtensionType::SignatureAlgorithms,
            ClientExtension::Heartbeat(_) => ExtensionType::Heartbeat,
            ClientExtension::ServerName(_) => ExtensionType::ServerName,
            ClientExtension::SessionTicketRequest => ExtensionType::SessionTicket,
            ClientExtension::SessionTicketOffer(_) => ExtensionType::SessionTicket,
            ClientExtension::Protocols(_) => ExtensionType::ALProtocolNegotiation,
            ClientExtension::SupportedVersions(_) => ExtensionType::SupportedVersions,
            ClientExtension::KeyShare(_) => ExtensionType::KeyShare,
            ClientExtension::Unknown(u) => u.typ,
        }
    }

    /// A server name extension that names `hostname` alone.
    pub fn make_sni(hostname: &[u8]) -> (r: ClientExtension)
        ensures
            r matches ClientExtension::ServerName(v) && v@.len() == 1 && v@[0].typ
                == ServerNameType::HostName && (v@[0].payload matches ServerNamePayload::HostName(p)
                && p.0@ == hostname@),
    {
        let name = ServerName {
            typ: ServerNameType::HostName,
            payload: ServerNamePayload::HostName(
                PayloadU16::new(vstd::slice::slice_to_vec(hostname)),
            ),
        };
        ClientExtension::ServerName(vec![name])
    }
}

impl Codec for ClientExtension {
    open spec fn encoding(&self) -> Seq<u8> {
        ext_frame(self.ext_type(), self.body())
    }

    fn encode(&self, bytes: &mut Vec<u8>) {
        let mut sub: Vec<u8> = Vec::new();
        match self {
            ClientExtension::ECPointFormats(r) => encode_vec_u8(&mut sub, r),
            ClientExtension::NamedGroups(r) => encode_vec_u16(&mut sub, r),
            ClientExtension::SignatureAlgorithms(r) => encode_vec_u16(&mut sub, r),
            ClientExtension::Heartbeat(r) => r.encode(&mut sub),
            ClientExtension::ServerName(r) => encode_vec_u16(&mut sub, r),
            ClientExtension::SessionTicketRequest => {},
            ClientExtension::SessionTicketOffer(r) => r.encode(&mut sub),
            ClientExtension::Protocols(r) => encode_vec_u16(&mut sub, r),
            ClientExtension::SupportedVersions(r) => encode_vec_u8(&mut sub, r),
            ClientExtension::KeyShare(r) => encode_vec_u16(&mut sub, r),
            ClientExtension::Unknown(r) => r.payload.encode(&mut sub),
        }
        assert(sub@ =~= self.body());
        encode_ext(self.get_type(), &sub, bytes);
    }

    fn read(r: &mut Reader) -> (res: Option<ClientExtension>)
        ensures
            frame_fits(old(r).rest()) && !client_ext_interpreted(
                ExtensionType::from_value(be16_value(old(r).rest())),
            ) ==> (res matches Some(ClientExtension::Unknown(u)) && u.typ == ExtensionType::from_value(
                be16_value(old(r).rest()),
            ) && u.payload.0@ == frame_body(old(r).rest()) && final(r).rest() == old(r).rest().skip(
                4 + frame_len(old(r).rest()),
            )),
            frame_fits(old(r).rest()) && ExtensionType::from_value(be16_value(old(r).rest()))
                == ExtensionType::SessionTicket ==> (res matches Some(e) && (frame_len(old(r).rest())
                == 0 ==> e is SessionTicketRequest) && (frame_len(old(r).rest()) > 0 ==> (
            e matches ClientExtension::SessionTicketOffer(p) && p.0@ == frame_body(old(r).rest())))),
    {
        let (typ, mut sub) = match read_ext_header(r) {
            Some(x) => x,
            None => return None,
        };
        let body = Ghost(sub.rest());
        let ext = match typ {
            ExtensionType::ECPointFormats => ClientExtension::ECPointFormats(
                match read_vec_u8(&mut sub) {
                    Some(v) => v,
                    None => return None,
                },
            ),
            ExtensionType::EllipticCurves => ClientExtension::NamedGroups(
                match read_vec_u16(&mut sub) {
                    Some(v) => v,
                    None => return None,
                },
            ),
            ExtensionType::SignatureAlgorithms => ClientExtension::SignatureAlgorithms(
                match read_vec_u16(&mut sub) {
                    Some(v) => v,
                    None => return None,
                },
            ),
            ExtensionType::Heartbeat => ClientExtension::Heartbeat(
                match HeartbeatMode::read(&mut sub) {
                    Some(v) => v,
                    None => return None,
                },
            ),
            ExtensionType::ServerName => ClientExtension::ServerName(
                match read_vec_u16(&mut sub) {
                    Some(v) => v,
                    None => return None,
                },
            ),
            ExtensionType::SessionTicket => {
                if sub.any_left() {
                    ClientExtension::SessionTicketOffer(
                        match Payload::read(&mut sub) {
                            Some(v) => v,
                            None => return None,
                        },
                    )
                } else {
                    ClientExtension::SessionTicketRequest
                }
            },
            ExtensionType::ALProtocolNegotiation => ClientExtension::Protocols(
                match read_vec_u16(&mut sub) {
                    Some(v) => v,
                    None => return None,
                },
            ),
            ExtensionType::SupportedVersions => ClientExtension::SupportedVersions(
                match read_vec_u8(&mut sub) {
                    Some(v) => v,
                    None => return None,
                },
            ),
            ExtensionType::KeyShare => ClientExtension::KeyShare(
                match read_vec_u16(&mut sub) {
                    Some(v) => v,
                    None => return None,
                },
            ),
            _ => ClientExtension::Unknown(
                match UnknownExtension::read(typ, &mut sub) {
                    Some(v) => v,
                    None => return None,
                },
            ),
        };
        if sub.any_left() {
            return None;
        }
        assert(body@ =~= ext.body());
        Some(ext)
    }
}

/// An extension of a ServerHello or of EncryptedExtensions.
#[derive(Debug, Clone)]
pub enum ServerExtension {
    ECPointFormats(Vec<ECPointFormat>),
    Heartbeat(HeartbeatMode),
    ServerNameAcknowledgement,
    SessionTicketAcknowledgement,
    RenegotiationInfo(PayloadU8),
    Protocols(ProtocolNameList),
    KeyShare(KeyShareEntry),
    Unknown(UnknownExtension),
}

impl ServerExtension {
    pub open spec fn ext_type(&self) -> ExtensionType {
        match self {
            ServerExtension::ECPointFormats(_) => ExtensionType::ECPointFormats,
            ServerExtension::Heartbeat(_) => ExtensionType::Heartbeat,
            ServerExtension::ServerNameAcknowledgement => ExtensionType::ServerName,
            ServerExtension::SessionTicketAcknowledgement => ExtensionType::SessionTicket,
            ServerExtension::RenegotiationInfo(_) => ExtensionType::RenegotiationInfo,
            ServerExtension::Protocols(_) => ExtensionType::ALProtocolNegotiation,
            ServerExtension::KeyShare(_) => ExtensionType::KeyShare,
            ServerExtension::Unknown(u) => u.typ,
        }
    }

    /// The extension's body, without its type and length.
    pub open spec fn body(&self) -> Seq<u8> {
        match self {
            ServerExtension::ECPointFormats(v) => enc_vec_u8(v@),
            ServerExtension::Heartbeat(m) => m.encoding(),
            ServerExtension::ServerNameAcknowledgement => Seq::empty(),
            ServerExtension::SessionTicketAcknowledgement => Seq::empty(),
            ServerExtension::RenegotiationInfo(p) => p.encoding(),
            ServerExtension::Protocols(v) => enc_vec_u16(v@),
            ServerExtension::KeyShare(k) => k.encoding(),
            ServerExtension::Unknown(u) => u.payload.0@,
        }
    }

    pub fn get_type(&self) -> (r: ExtensionType)
        ensures
            r == self.ext_type(),
    {
        match self {
            ServerExtension::ECPointFormats(_) => ExtensionType::ECPointFormats,
            ServerExtension::Heartbeat(_) => ExtensionType::Heartbeat,
            ServerExtension::ServerNameAcknowledgement => ExtensionType::ServerName,
            ServerExtension::SessionTicketAcknowledgement => ExtensionType::SessionTicket,
            ServerExtension::RenegotiationInfo(_) => ExtensionType::RenegotiationInfo,
            ServerExtension::Protocols(_) => ExtensionType::ALProtocolNegotiation,
            ServerExtension::KeyShare(_) => ExtensionType::KeyShare,
            ServerExtension::Unknown(u) => u.typ,
        }
    }

    /// An ALPN extension that names `proto` alone.
    pub fn make_alpn(proto: &[u8]) -> (r: ServerExtension)
        ensures
            r matches ServerExtension::Protocols(v) && v@.len() == 1 && v@[0].0@ == proto@,
    {
        ServerExtension::Protocols(vec![PayloadU8::new(vstd::slice::slice_to_vec(proto))])
    }

    pub fn make_empty_renegotiation_info() -> (r: ServerExtension)
        ensures
            r matches ServerExtension::RenegotiationInfo(p) && p.0@.len() == 0,
    {
        ServerExtension::RenegotiationInfo(PayloadU8::empty())
    }
}

impl Codec for ServerExtension {
    open spec fn encoding(&self) -> Seq<u8> {
        ext_frame(self.ext_type(), self.body())
    }

    fn encode(&self, bytes: &mut Vec<u8>) {
        let mut sub: Vec<u8> = Vec::new();
        match self {
            ServerExtension::ECPointFormats(r) => encode_vec_u8(&mut sub, r),
            ServerExtension::Heartbeat(r) => r.encode(&mut sub),
            ServerExtension::ServerNameAcknowledgement => {},
            ServerExtension::SessionTicketAcknowledgement => {},
            ServerExtension::RenegotiationInfo(r) => r.encode(&mut sub),
            ServerExtension::Protocols(r) => encode_vec_u16(&mut sub, r),
            ServerExtension::KeyShare(r) => r.encode(&mut sub),
            ServerExtension::Unknown(r) => r.payload.encode(&mut sub),
        }
        assert(sub@ =~= self.body());
        encode_ext(self.get_type(), &sub, bytes);
    }

    fn read(r: &mut Reader) -> (res: Option<ServerExtension>)
        ensures
            frame_fits(old(r).rest()) && !server_ext_interpreted(
                ExtensionType::from_value(be16_value(old(r).rest())),
            ) ==> (res matches Some(ServerExtension::Unknown(u)) && u.typ == ExtensionType::from_value(
                be16_value(old(r).rest()),
            ) && u.payload.0@ == frame_body(old(r).rest()) && final(r).rest() == old(r).rest().skip(
                4 + frame_len(old(r).rest()),
            )),
    {
        let (typ, mut sub) = match read_ext_header(r) {
            Some(x) => x,
            None => return None,
        };
        let body = Ghost(sub.rest());
        let ext = match typ {
            ExtensionType::ECPointFormats => ServerExtension::ECPointFormats(
                match read_vec_u8(&mut sub) {
                    Some(v) => v,
                    None => return None,
                },
            ),
            ExtensionType::Heartbeat => ServerExtension::Heartbeat(
                match HeartbeatMode::read(&mut sub) {
                    Some(v) => v,
                    None => return None,
                },
            ),
            ExtensionType::ServerName => ServerExtension::ServerNameAcknowledgement,
            ExtensionType::SessionTicket => ServerExtension::SessionTicketAcknowledgement,
            ExtensionType::RenegotiationInfo => ServerExtension::RenegotiationInfo(
                match PayloadU8::read(&mut sub) {
                    Some(v) => v,
                    None => return None,
                },
            ),
            ExtensionType::ALProtocolNegotiation => ServerExtension::Protocols(
                match read_vec_u16(&mut sub) {
                    Some(v) => v,
                    None => return None,
                },
            ),
            ExtensionType::KeyShare => ServerExtension::KeyShare(
                match KeyShareEntry::read(&mut sub) {
                    Some(v) => v,
                    None => return None,
                },
            ),
            _ => ServerExtension::Unknown(
                match UnknownExtension::read(typ, &mut sub) {
                    Some(v) => v,
                    None => return None,
                },
            ),
        };
        if sub.any_left() {
            return None;
        }
        assert(body@ =~= ext.body());
        Some(ext)
    }
}

/// Whether `v` is TLS 1.3, as this library speaks it (draft 18 or final).
pub open spec fn spec_is_tls13(v: ProtocolVersion) -> bool {
    v == ProtocolVersion::TLSv1_3 || v == ProtocolVersion::Unknown(0x7f12)
}

pub fn is_tls13(v: ProtocolVersion) -> (r: bool)
    ensures
        r == spec_is_tls13(v),
{
    v == ProtocolVersion::TLSv1_3 || v == ProtocolVersion::Unknown(0x7f12)
}

/// Whether two entries of `types` share a code point.
pub open spec fn has_duplicate(types: Seq<ExtensionType>) -> bool {
    exists|i: int, j: int| 0 <= i < j < types.len() && types[i].value() == types[j].value()
}

/// Whether two entries of `types` share a code point.
pub fn types_have_duplicate(types: &Vec<ExtensionType>) -> (r: bool)
    ensures
        r == has_duplicate(types@),
{
    let mut j: usize = 0;
    while j < types.len()
        invariant
            0 <= j <= types@.len(),
            forall|a: int, b: int|
                0 <= a < b < j ==> types@[a].value() != types@[b].value(),
        decreases types@.len() - j,
    {
        let tj = types[j].get_u16();
        let mut i: usize = 0;
        while i < j
            invariant
                0 <= i <= j < types@.len(),
                tj == types@[j as int].value(),
                forall|a: int| 0 <= a < i ==> types@[a].value() != tj,
            decreases j - i,
        {
            if types[i].get_u16() == tj {
                return true;
            }
            i = i + 1;
        }
        j = j + 1;
    }
    false
}

/// The types of the client extensions, in order.
pub open spec fn client_ext_types(exts: Seq<ClientExtension>) -> Seq<ExtensionType> {
    exts.map_values(|e: ClientExtension| e.ext_type())
}

/// The types of the server extensions, in order.
pub open spec fn server_ext_types(exts: Seq<ServerExtension>) -> Seq<ExtensionType> {
    exts.map_values(|e: ServerExtension| e.ext_type())
}

/// The first client extension of type `t`.
pub open spec fn first_client_ext(s: Seq<ClientExtension>, t: ExtensionType) -> Option<
    ClientExtension,
>
    decreases s.len(),
{
    if s.len() == 0 {
        None
    } else if s[0].ext_type() == t {
        Some(s[0])
    } else {
        first_client_ext(s.skip(1), t)
    }
}

/// The first server extension of type `t`.
pub open spec fn first_server_ext(s: Seq<ServerExtension>, t: ExtensionType) -> Option<
    ServerExtension,
>
    decreases s.len(),
{
    if s.len() == 0 {
        None
    } else if s[0].ext_type() == t {
        Some(s[0])
    } else {
        first_server_ext(s.skip(1), t)
    }
}

pub proof fn lemma_first_client_ext_none(s: Seq<ClientExtension>, t: ExtensionType)
    ensures
        first_client_ext(s, t) is None <==> forall|i: int| 0 <= i < s.len() ==> s[i].ext_type() != t,
    decreases s.len(),
{
    if s.len() > 0 {
        lemma_first_client_ext_none(s.skip(1), t);
        assert forall|i: int| 1 <= i < s.len() implies s[i] == s.skip(1)[i - 1] by {}
    }
}

pub proof fn lemma_first_server_ext_none(s: Seq<ServerExtension>, t: ExtensionType)
    ensures
        first_server_ext(s, t) is None <==> forall|i: int| 0 <= i < s.len() ==> s[i].ext_type() != t,
    decreases s.len(),
{
    if s.len() > 0 {
        lemma_first_server_ext_none(s.skip(1), t);
        assert forall|i: int| 1 <= i < s.len() implies s[i] == s.skip(1)[i - 1] by {}
    }
}

/// The extensions' types, in order.
pub fn client_types_of(exts: &Vec<ClientExtension>) -> (r: Vec<ExtensionType>)
    ensures
        r@ == client_ext_types(exts@),
{
    let mut r: Vec<ExtensionType> = Vec::new();
    let mut i: usize = 0;
    while i < exts.len()
        invariant
            0 <= i <= exts@.len(),
            r@ == client_ext_types(exts@.take(i as int)),
        decreases exts@.len() - i,
    {
        r.push(exts[i].get_type());
        i = i + 1;
        assert(r@ =~= client_ext_types(exts@.take(i as int)));
    }
    assert(exts@.take(i as int) =~= exts@);
    r
}

/// The extensions' types, in order.
pub fn server_types_of(exts: &Vec<ServerExtension>) -> (r: Vec<ExtensionType>)
    ensures
        r@ == server_ext_types(exts@),
{
    let mut r: Vec<ExtensionType> = Vec::new();
    let mut i: usize = 0;
    while i < exts.len()
        invariant
            0 <= i <= exts@.len(),
            r@ == server_ext_types(exts@.take(i as int)),
        decreases exts@.len() - i,
    {
        r.push(exts[i].get_type());
        i = i + 1;
        assert(r@ =~= server_ext_types(exts@.take(i as int)));
    }
    assert(exts@.take(i as int) =~= exts@);
    r
}

fn find_client_ext(exts: &Vec<ClientExtension>, t: ExtensionType) -> (r: Option<&ClientExtension>)
    ensures
        match r {
            Some(e) => first_client_ext(exts@, t) == Some(*e),
            None => first_client_ext(exts@, t) is None,
        },
{
    let mut i: usize = 0;
    assert(exts@.skip(0) =~= exts@);
    while i < exts.len()
        invariant
            0 <= i <= exts@.len(),
            first_client_ext(exts@, t) == first_client_ext(exts@.skip(i as int), t),
        decreases exts@.len() - i,
    {
        assert(exts@.skip(i as int)[0] == exts@[i as int]);
        if exts[i].get_type() == t {
            return Some(&exts[i]);
        }
        assert(exts@.skip(i as int).skip(1) =~= exts@.skip(i + 1));
        i = i + 1;
    }
    None
}

fn find_server_ext(exts: &Vec<ServerExtension>, t: ExtensionType) -> (r: Option<&ServerExtension>)
    ensures
        match r {
            Some(e) => first_server_ext(exts@, t) == Some(*e),
            None => first_server_ext(exts@, t) is None,
        },
{
    let mut i: usize = 0;
    assert(exts@.skip(0) =~= exts@);
    while i < exts.len()
        invariant
            0 <= i <= exts@.len(),
            first_server_ext(exts@, t) == first_server_ext(exts@.skip(i as int), t),
        decreases exts@.len() - i,
    {
        assert(exts@.skip(i as int)[0] == exts@[i as int]);
        if exts[i].get_type() == t {
            return Some(&exts[i]);
        }
        assert(exts@.skip(i as int).skip(1) =~= exts@.skip(i + 1));
        i = i + 1;
    }
    None
}

/// The list, behind a two-byte length, if it is not empty; nothing otherwise.
pub open spec fn enc_exts<T: Codec>(s: Seq<T>) -> Seq<u8> {
    if s.len() > 0 {
        enc_vec_u16(s)
    } else {
        Seq::empty()
    }
}

/// Reads the extension block that may end a hello. `extra` says whether it
/// was present but empty, which the encoding then leaves out.
fn read_hello_exts<T: Codec>(r: &mut Reader) -> (res: Option<(Vec<T>, bool)>)
    requires
        old(r).wf(),
    ensures
        final(r).wf(),
        res matches Some((v, extra)) ==> final(r).rest().len() == 0 && if extra {
            v@.len() == 0 && old(r).rest() == be16(0)
        } else {
            old(r).rest() == enc_exts(v@)
        },
{
    if !r.any_left() {
        assert(old(r).rest() =~= enc_exts(Seq::<T>::empty()));
        return Some((Vec::new(), false));
    }
    let v: Vec<T> = match read_vec_u16(r) {
        Some(v) => v,
        None => return None,
    };
    if r.any_left() {
        return None;
    }
    if v.len() == 0 {
        assert(old(r).rest() =~= be16(0));
        Some((v, true))
    } else {
        assert(old(r).rest() =~= enc_exts(v@));
        Some((v, false))
    }
}

/// A ClientHello.
#[derive(Debug, Clone)]
pub struct ClientHelloPayload {
    pub client_version: ProtocolVersion,
    pub random: Random,
    pub session_id: SessionID,
    pub cipher_suites: Vec<CipherSuite>,
    pub compression_methods: Vec<Compression>,
    pub extensions: Vec<ClientExtension>,
}

impl ClientHelloPayload {
    pub open spec fn encoding(&self) -> Seq<u8> {
        self.client_version.encoding() + self.random.encoding() + self.session_id.encoding()
            + enc_vec_u16(self.cipher_suites@) + enc_vec_u8(self.compression_methods@) + enc_exts(
            self.extensions@,
        )
    }

    pub fn encode(&self, bytes: &mut Vec<u8>)
        ensures
            final(bytes)@ == old(bytes)@ + self.encoding(),
    {
        self.client_version.encode(bytes);
        self.random.encode(bytes);
        self.session_id.encode(bytes);
        encode_vec_u16(bytes, &self.cipher_suites);
        encode_vec_u8(bytes, &self.compression_methods);
        if self.extensions.len() > 0 {
            encode_vec_u16(bytes, &self.extensions);
        }
        assert(bytes@ =~= old(bytes)@ + self.encoding());
    }

    /// Reads a ClientHello that fills the rest of `r`. The wire form is
    /// `encoding()`, or that followed by an empty extension block.
    #[verifier::rlimit(40)]
    pub fn read(r: &mut Reader) -> (res: Option<ClientHelloPayload>)
        requires
            old(r).wf(),
        ensures
            final(r).wf(),
            res matches Some(v) ==> final(r).rest().len() == 0 && (old(r).rest() == v.encoding()
                || (v.extensions@.len() == 0 && old(r).rest() == v.encoding() + be16(0))),
    {
        let ghost start = r.rest();
        let client_version = match ProtocolVersion::read(r) {
            Some(x) => x,
            None => return None,
        };
        let ghost p1 = client_version.encoding();
        assert(start =~= p1 + r.rest());
        let random = match Random::read(r) {
            Some(x) => x,
            None => return None,
        };
        let ghost p2 = p1 + random.encoding();
        assert(start =~= p2 + r.rest());
        let session_id = match SessionID::read(r) {
            Some(x) => x,
            None => return None,
        };
        let ghost p3 = p2 + session_id.encoding();
        assert(start =~= p3 + r.rest());
        let cipher_suites = match read_vec_u16(r) {
            Some(x) => x,
            None => return None,
        };
        let ghost p4 = p3 + enc_vec_u16(cipher_suites@);
        assert(start =~= p4 + r.rest());
        let compression_methods = match read_vec_u8(r) {
            Some(x) => x,
            None => return None,
        };
        let ghost p5 = p4 + enc_vec_u8(compression_methods@);
        assert(start =~= p5 + r.rest());
        let ghost before_exts = r.rest();
        let (extensions, _extra) = match read_hello_exts(r) {
            Some(x) => x,
            None => return None,
        };
        let ch = ClientHelloPayload {
            client_version,
            random,
            session_id,
            cipher_suites,
            compression_methods,
            extensions,
        };
        assert(ch.encoding() =~= p5 + enc_exts(ch.extensions@));
        assert(old(r).rest() =~= ch.encoding() || old(r).rest() =~= ch.encoding() + be16(0));
        Some(ch)
    }

    /// Whether two extensions share a type.
    pub fn has_duplicate_extension(&self) -> (r: bool)
        ensures
            r == has_duplicate(client_ext_types(self.extensions@)),
    {
        let types = client_types_of(&self.extensions);
        types_have_duplicate(&types)
    }

    /// The first extension of type `ext`.
    pub fn find_extension(&self, ext: ExtensionType) -> (r: Option<&ClientExtension>)
        ensures
            match r {
                Some(e) => first_client_ext(self.extensions@, ext) == Some(*e),
                None => first_client_ext(self.extensions@, ext) is None,
            },
    {
        find_client_ext(&self.extensions, ext)
    }

    pub fn get_sni_extension(&self) -> (r: Option<&Vec<ServerName>>)
        ensures
            match first_client_ext(self.extensions@, ExtensionType::ServerName) {
                Some(ClientExtension::ServerName(v)) => r == Some(&v),
                _ => r is None,
            },
    {
        match self.find_extension(ExtensionType::ServerName) {
            Some(ClientExtension::ServerName(req)) => Some(req),
            _ => None,
        }
    }

    pub fn get_sigalgs_extension(&self) -> (r: Option<&Vec<SignatureScheme>>)
        ensures
            match first_client_ext(self.extensions@, ExtensionType::SignatureAlgorithms) {
                Some(ClientExtension::SignatureAlgorithms(v)) => r == Some(&v),
                _ => r is None,
            },
    {
        match self.find_extension(ExtensionType::SignatureAlgorithms) {
            Some(ClientExtension::SignatureAlgorithms(req)) => Some(req),
            _ => None,
        }
    }

    pub fn get_namedgroups_extension(&self) -> (r: Option<&Vec<NamedGroup>>)
        ensures
            match first_client_ext(self.extensions@, ExtensionType::EllipticCurves) {
                Some(ClientExtension::NamedGroups(v)) => r == Some(&v),
                _ => r is None,
            },
    {
        match self.find_extension(ExtensionType::EllipticCurves) {
            Some(ClientExtension::NamedGroups(req)) => Some(req),
            _ => None,
        }
    }

    pub fn get_ecpoints_extension(&self) -> (r: Option<&Vec<ECPointFormat>>)
        ensures
            match first_client_ext(self.extensions@, ExtensionType::ECPointFormats) {
                Some(ClientExtension::ECPointFormats(v)) => r == Some(&v),
                _ => r is None,
            },
    {
        match self.find_extension(ExtensionType::ECPointFormats) {
            Some(ClientExtension::ECPointFormats(req)) => Some(req),
            _ => None,
        }
    }

    pub fn get_alpn_extension(&self) -> (r: Option<&ProtocolNameList>)
        ensures
            match first_client_ext(self.extensions@, ExtensionType::ALProtocolNegotiation) {
                Some(ClientExtension::Protocols(v)) => r == Some(&v),
                _ => r is None,
            },
    {
        match self.find_extension(ExtensionType::ALProtocolNegotiation) {
            Some(ClientExtension::Protocols(req)) => Some(req),
            _ => None,
        }
    }

    pub fn get_versions_extension(&self) -> (r: Option<&Vec<ProtocolVersion>>)
        ensures
            match first_client_ext(self.extensions@, ExtensionType::SupportedVersions) {
                Some(ClientExtension::SupportedVersions(v)) => r == Some(&v),
                _ => r is None,
            },
    {
        match self.find_extension(ExtensionType::SupportedVersions) {
            Some(ClientExtension::SupportedVersions(req)) => Some(req),
            _ => None,
        }
    }

    pub fn get_keyshare_extension(&self) -> (r: Option<&Vec<KeyShareEntry>>)
        ensures
            match first_client_ext(self.extensions@, ExtensionType::KeyShare) {
                Some(ClientExtension::KeyShare(v)) => r == Some(&v),
                _ => r is None,
            },
    {
        match self.find_extension(ExtensionType::KeyShare) {
            Some(ClientExtension::KeyShare(req)) => Some(req),
            _ => None,
        }
    }

    pub fn get_ticket_extension(&self) -> (r: Option<&ClientExtension>)
        ensures
            match r {
                Some(e) => first_client_ext(self.extensions@, ExtensionType::SessionTicket) == Some(*e),
                None => first_client_ext(self.extensions@, ExtensionType::SessionTicket) is None,
            },
    {
        self.find_extension(ExtensionType::SessionTicket)
    }
}

/// A ServerHello. In TLS 1.3 its wire form leaves out the session id and the
/// compression method.
#[derive(Debug, Clone)]
pub struct ServerHelloPayload {
    pub server_version: ProtocolVersion,
    pub random: Random,
    pub session_id: SessionID,
    pub cipher_suite: CipherSuite,
    pub compression_method: Compression,
    pub extensions: Vec<ServerExtension>,
}

impl ServerHelloPayload {
    pub open spec fn encoding(&self) -> Seq<u8> {
        self.server_version.encoding() + self.random.encoding() + (if spec_is_tls13(
            self.server_version,
        ) {
            self.cipher_suite.encoding()
        } else {
            self.session_id.encoding() + self.cipher_suite.encoding()
                + self.compression_method.encoding()
        }) + enc_exts(self.extensions@)
    }

    pub fn encode(&self, bytes: &mut Vec<u8>)
        ensures
            final(bytes)@ == old(bytes)@ + self.encoding(),
    {
        self.server_version.encode(bytes);
        self.random.encode(bytes);
        if is_tls13(self.server_version) {
            self.cipher_suite.encode(bytes);
        } else {
            self.session_id.encode(bytes);
            self.cipher_suite.encode(bytes);
            self.compression_method.encode(bytes);
        }
        if self.extensions.len() > 0 {
            encode_vec_u16(bytes, &self.extensions);
        }
        assert(bytes@ =~= old(bytes)@ + self.encoding());
    }

    /// Reads a ServerHello that fills the rest of `r`. The wire form is
    /// `encoding()`, or that followed by an empty extension block.
    #[verifier::rlimit(40)]
    pub fn read(r: &mut Reader) -> (res: Option<ServerHelloPayload>)
        requires
            old(r).wf(),
        ensures
            final(r).wf(),
            res matches Some(v) ==> final(r).rest().len() == 0 && (old(r).rest() == v.encoding()
                || (v.extensions@.len() == 0 && old(r).rest() == v.encoding() + be16(0))),
    {
        let ghost start = r.rest();
        let server_version = match ProtocolVersion::read(r) {
            Some(x) => x,
            None => return None,
        };
        let ghost p1 = server_version.encoding();
        assert(start =~= p1 + r.rest());
        let random = match Random::read(r) {
            Some(x) => x,
            None => return None,
        };
        let ghost p2 = p1 + random.encoding();
        assert(start =~= p2 + r.rest());
        let ghost mid = r.rest();
        let (session_id, cipher_suite, compression_method) = if is_tls13(server_version) {
            let cs = match CipherSuite::read(r) {
                Some(x) => x,
                None => return None,
            };
            assert(mid =~= cs.encoding() + r.rest());
            (SessionID::empty(), cs, Compression::Null)
        } else {
            let sid = match SessionID::read(r) {
                Some(x) => x,
                None => return None,
            };
            let ghost m1 = r.rest();
            let cs = match CipherSuite::read(r) {
                Some(x) => x,
                None => return None,
            };
            let ghost m2 = r.rest();
            let cm = match Compression::read(r) {
                Some(x) => x,
                None => return None,
            };
            assert(mid =~= sid.encoding() + cs.encoding() + cm.encoding() + r.rest());
            (sid, cs, cm)
        };
        let ghost body = if spec_is_tls13(server_version) {
            cipher_suite.encoding()
        } else {
            session_id.encoding() + cipher_suite.encoding() + compression_method.encoding()
        };
        assert(mid =~= body + r.rest());
        let ghost p3 = p2 + body;
        assert(start =~= p3 + r.rest());
        let (extensions, _extra) = match read_hello_exts(r) {
            Some(x) => x,
            None => return None,
        };
        let sh = ServerHelloPayload {
            server_version,
            random,
            session_id,
            cipher_suite,
            compression_method,
            extensions,
        };
        assert(sh.encoding() =~= p3 + enc_exts(sh.extensions@));
        assert(old(r).rest() =~= sh.encoding() || old(r).rest() =~= sh.encoding() + be16(0));
        Some(sh)
    }

    /// Whether two extensions share a type.
    pub fn has_duplicate_extension(&self) -> (r: bool)
        ensures
            r == has_duplicate(server_ext_types(self.extensions@)),
    {
        let types = server_types_of(&self.extensions);
        types_have_duplicate(&types)
    }

    /// The first extension of type `ext`.
    pub fn find_extension(&self, ext: ExtensionType) -> (r: Option<&ServerExtension>)
        ensures
            match r {
                Some(e) => first_server_ext(self.extensions@, ext) == Some(*e),
                None => first_server_ext(self.extensions@, ext) is None,
            },
    {
        find_server_ext(&self.extensions, ext)
    }

    /// The protocol chosen by ALPN: present when the first ALPN extension
    /// names exactly one protocol.
    pub fn get_alpn_protocol(&self) -> (r: Option<Vec<u8>>)
        ensures
            match first_server_ext(self.extensions@, ExtensionType::ALProtocolNegotiation) {
                Some(ServerExtension::Protocols(v)) => if v@.len() == 1 {
                    r matches Some(p) && p@ == v@[0].0@
                } else {
                    r is None
                },
                _ => r is None,
            },
    {
        match self.find_extension(ExtensionType::ALProtocolNegotiation) {
            Some(ServerExtension::Protocols(protos)) => {
                if protos.len() == 1 {
                    Some(copy_bytes(&protos[0].0))
                } else {
                    None
                }
            },
            _ => None,
        }
    }

    pub fn get_key_share(&self) -> (r: Option<&KeyShareEntry>)
        ensures
            match first_server_ext(self.extensions@, ExtensionType::KeyShare) {
                Some(ServerExtension::KeyShare(k)) => r == Some(&k),
                _ => r is None,
            },
    {
        match self.find_extension(ExtensionType::KeyShare) {
            Some(ServerExtension::KeyShare(share)) => Some(share),
            _ => None,
        }
    }
}

/// An extension of a HelloRetryRequest.
#[derive(Debug, Clone)]
pub enum HelloRetryExtension {
    KeyShare(NamedGroup),
    Cookie(PayloadU16),
    Unknown(UnknownExtension),
}

impl HelloRetryExtension {
    pub open spec fn ext_type(&self) -> ExtensionType {
        match self {
            HelloRetryExtension::KeyShare(_) => ExtensionType::KeyShare,
            HelloRetryExtension::Cookie(_) => ExtensionType::Cookie,
            HelloRetryExtension::Unknown(u) => u.typ,
        }
    }

    pub open spec fn body(&self) -> Seq<u8> {
        match self {
            HelloRetryExtension::KeyShare(g) => g.encoding(),
            HelloRetryExtension::Cookie(p) => p.encoding(),
            HelloRetryExtension::Unknown(u) => u.payload.0@,
        }
    }

    pub fn get_type(&self) -> (r: ExtensionType)
        ensures
            r == self.ext_type(),
    {
        match self {
            HelloRetryExtension::KeyShare(_) => ExtensionType::KeyShare,
            HelloRetryExtension::Cookie(_) => ExtensionType::Cookie,
            HelloRetryExtension::Unknown(u) => u.typ,
        }
    }
}

impl Codec for HelloRetryExtension {
    open spec fn encoding(&self) -> Seq<u8> {
        ext_frame(self.ext_type(), self.body())
    }

    fn encode(&self, bytes: &mut Vec<u8>) {
        let mut sub: Vec<u8> = Vec::new();
        match self {
            HelloRetryExtension::KeyShare(r) => r.encode(&mut sub),
            HelloRetryExtension::Cookie(r) => r.encode(&mut sub),
            HelloRetryExtension::Unknown(r) => r.payload.encode(&mut sub),
        }
        assert(sub@ =~= self.body());
        encode_ext(self.get_type(), &sub, bytes);
    }

    fn read(r: &mut Reader) -> (res: Option<HelloRetryExtension>) {
        let (typ, mut sub) = match read_ext_header(r) {
            Some(x) => x,
            None => return None,
        };
        let body = Ghost(sub.rest());
        let ext = match typ {
            ExtensionType::KeyShare => HelloRetryExtension::KeyShare(
                match NamedGroup::read(&mut sub) {
                    Some(v) => v,
                    None => return None,
                },
            ),
            ExtensionType::Cookie => HelloRetryExtension::Cookie(
                match PayloadU16::read(&mut sub) {
                    Some(v) => v,
                    None => return None,
                },
            ),
            _ => HelloRetryExtension::Unknown(
                match UnknownExtension::read(typ, &mut sub) {
                    Some(v) => v,
                    None => return None,
                },
            ),
        };
        if sub.any_left() {
            return None;
        }
        assert(body@ =~= ext.body());
        Some(ext)
    }
}

/// A HelloRetryRequest (TLS 1.3).
#[derive(Debug, Clone)]
pub struct HelloRetryRequest {
    pub server_version: ProtocolVersion,
    pub extensions: Vec<HelloRetryExtension>,
}

impl Codec for HelloRetryRequest {
    open spec fn encoding(&self) -> Seq<u8> {
        self.server_version.encoding() + enc_vec_u16(self.extensions@)
    }

    fn encode(&self, bytes: &mut Vec<u8>) {
        self.server_version.encode(bytes);
        encode_vec_u16(bytes, &self.extensions);
        assert(bytes@ =~= old(bytes)@ + self.encoding());
    }

    fn read(r: &mut Reader) -> (res: Option<HelloRetryRequest>) {
        let server_version = match ProtocolVersion::read(r) {
            Some(x) => x,
            None => return None,
        };
        let extensions = match read_vec_u16(r) {
            Some(x) => x,
            None => return None,
        };
        let h = HelloRetryRequest { server_version, extensions };
        assert(old(r).rest() =~= h.encoding() + r.rest());
        Some(h)
    }
}

/// A certificate in its ASN.1 DER form.
pub type ASN1Cert = PayloadU24;

/// A TLS 1.2 certificate chain, leaf first.
pub type CertificatePayload = Vec<ASN1Cert>;

/// An extension of a TLS 1.3 certificate entry.
#[derive(Debug, Clone)]
pub enum CertificateExtension {
    Unknown(UnknownExtension),
}

impl CertificateExtension {
    pub open spec fn ext_type(&self) -> ExtensionType {
        match self {
            CertificateExtension::Unknown(u) => u.typ,
        }
    }

    pub fn get_type(&self) -> (r: ExtensionType)
        ensures
            r == self.ext_type(),
    {
        match self {
            CertificateExtension::Unknown(u) => u.typ,
        }
    }
}

impl Codec for CertificateExtension {
    open spec fn encoding(&self) -> Seq<u8> {
        match self {
            CertificateExtension::Unknown(u) => ext_frame(u.typ, u.payload.0@),
        }
    }

    fn encode(&self, bytes: &mut Vec<u8>) {
        match self {
            CertificateExtension::Unknown(u) => encode_ext(u.typ, &u.payload.0, bytes),
        }
    }

    fn read(r: &mut Reader) -> (res: Option<CertificateExtension>) {
        let (typ, mut sub) = match read_ext_header(r) {
            Some(x) => x,
            None => return None,
        };
        match UnknownExtension::read(typ, &mut sub) {
            Some(u) => Some(CertificateExtension::Unknown(u)),
            None => None,
        }
    }
}

/// One certificate of a TLS 1.3 chain, with its extensions.
#[derive(Debug, Clone)]
pub struct CertificateEntry {
    pub cert: ASN1Cert,
    pub exts: Vec<CertificateExtension>,
}

impl Codec for CertificateEntry {
    open spec fn encoding(&self) -> Seq<u8> {
        self.cert.encoding() + enc_vec_u16(self.exts@)
    }

    fn encode(&self, bytes: &mut Vec<u8>) {
        self.cert.encode(bytes);
        encode_vec_u16(bytes, &self.exts);
        assert(bytes@ =~= old(bytes)@ + self.encoding());
    }

    fn read(r: &mut Reader) -> (res: Option<CertificateEntry>) {
        let cert = match PayloadU24::read(r) {
            Some(x) => x,
            None => return None,
        };
        let exts = match read_vec_u16(r) {
            Some(x) => x,
            None => return None,
        };
        let e = CertificateEntry { cert, exts };
        assert(old(r).rest() =~= e.encoding() + r.rest());
        Some(e)
    }
}

/// A TLS 1.3 Certificate message.
#[derive(Debug, Clone)]
pub struct CertificatePayloadTLS13 {
    pub request_context: PayloadU8,
    pub list: Vec<CertificateEntry>,
}

impl Codec for CertificatePayloadTLS13 {
    open spec fn encoding(&self) -> Seq<u8> {
        self.request_context.encoding() + enc_vec_u24(self.list@)
    }

    fn encode(&self, bytes: &mut Vec<u8>) {
        self.request_context.encode(bytes);
        encode_vec_u24(bytes, &self.list);
        assert(bytes@ =~= old(bytes)@ + self.encoding());
    }

    fn read(r: &mut Reader) -> (res: Option<CertificatePayloadTLS13>) {
        let request_context = match PayloadU8::read(r) {
            Some(x) => x,
            None => return None,
        };
        let list = match read_vec_u24(r) {
            Some(x) => x,
            None => return None,
        };
        let c = CertificatePayloadTLS13 { request_context, list };
        assert(old(r).rest() =~= c.encoding() + r.rest());
        Some(c)
    }
}

impl CertificatePayloadTLS13 {
    /// An empty chain with an empty request context.
    pub fn new() -> (r: CertificatePayloadTLS13)
        ensures
            r.request_context.0@.len() == 0,
            r.list@.len() == 0,
    {
        CertificatePayloadTLS13 { request_context: PayloadU8::empty(), list: Vec::new() }
    }

    /// The chain's certificates, in order, without their extensions.
    pub fn convert(&self) -> (r: CertificatePayload)
        ensures
            r@.len() == self.list@.len(),
            forall|i: int| 0 <= i < r@.len() ==> r@[i].0@ == self.list@[i].cert.0@,
    {
        let mut ret: Vec<ASN1Cert> = Vec::new();
        let mut i: usize = 0;
        while i < self.list.len()
            invariant
                0 <= i <= self.list@.len(),
                ret@.len() == i,
                forall|j: int| 0 <= j < i ==> ret@[j].0@ == self.list@[j].cert.0@,
            decreases self.list@.len() - i,
        {
            ret.push(PayloadU24::new(copy_bytes(&self.list[i].cert.0)));
            i = i + 1;
        }
        ret
    }
}

/// How a cipher suite agrees on keys.
#[derive(Debug, Clone, Copy, PartialEq, Eq, Structural)]
pub enum KeyExchangeAlgorithm {
    BulkOnly,
    DH,
    DHE,
    RSA,
    ECDH,
    ECDHE,
}

/// Named-curve parameters: the only kind this library accepts.
#[derive(Debug, Clone, Copy)]
pub struct ECParameters {
    pub curve_type: ECCurveType,
    pub named_group: NamedGroup,
}

impl Codec for ECParameters {
    open spec fn encoding(&self) -> Seq<u8> {
        self.curve_type.encoding() + self.named_group.encoding()
    }

    fn encode(&self, bytes: &mut Vec<u8>) {
        self.curve_type.encode(bytes);
        self.named_group.encode(bytes);
        assert(bytes@ =~= old(bytes)@ + self.encoding());
    }

    fn read(r: &mut Reader) -> (res: Option<ECParameters>) {
        let ct = match ECCurveType::read(r) {
            Some(x) => x,
            None => return None,
        };
        if ct != ECCurveType::NamedCurve {
            return None;
        }
        let grp = match NamedGroup::read(r) {
            Some(x) => x,
            None => return None,
        };
        let e = ECParameters { curve_type: ct, named_group: grp };
        assert(old(r).rest() =~= e.encoding() + r.rest());
        Some(e)
    }
}

/// A signature together with the scheme that made it.
#[derive(Debug, Clone)]
pub struct DigitallySignedStruct {
    pub scheme: SignatureScheme,
    pub sig: PayloadU16,
}

impl DigitallySignedStruct {
    pub fn new(scheme: SignatureScheme, sig: Vec<u8>) -> (r: DigitallySignedStruct)
        ensures
            r.scheme == scheme,
            r.sig.0@ == sig@,
    {
        DigitallySignedStruct { scheme, sig: PayloadU16::new(sig) }
    }
}

impl Codec for DigitallySignedStruct {
    open spec fn encoding(&self) -> Seq<u8> {
        self.scheme.encoding() + self.sig.encoding()
    }

    fn encode(&self, bytes: &mut Vec<u8>) {
        self.scheme.encode(bytes);
        self.sig.encode(bytes);
        assert(bytes@ =~= old(bytes)@ + self.encoding());
    }

    fn read(r: &mut Reader) -> (res: Option<DigitallySignedStruct>) {
        let scheme = match SignatureScheme::read(r) {
            Some(x) => x,
            None => return None,
        };
        let sig = match PayloadU16::read(r) {
            Some(x) => x,
            None => return None,
        };
        let d = DigitallySignedStruct { scheme, sig };
        assert(old(r).rest() =~= d.encoding() + r.rest());
        Some(d)
    }
}

/// The client's ECDHE public value.
#[derive(Debug, Clone)]
pub struct ClientECDHParams {
    pub public: PayloadU8,
}

impl Codec for ClientECDHParams {
    open spec fn encoding(&self) -> Seq<u8> {
        self.public.encoding()
    }

    fn encode(&self, bytes: &mut Vec<u8>) {
        self.public.encode(bytes);
    }

    fn read(r: &mut Reader) -> (res: Option<ClientECDHParams>) {
        match PayloadU8::read(r) {
            Some(pb) => Some(ClientECDHParams { public: pb }),
            None => None,
        }
    }
}

/// The server's ECDHE group and public value.
#[derive(Debug, Clone)]
pub struct ServerECDHParams {
    pub curve_params: ECParameters,
    pub public: PayloadU8,
}

impl ServerECDHParams {
    pub fn new(named_group: &NamedGroup, pubkey: &Vec<u8>) -> (r: ServerECDHParams)
        ensures
            r.curve_params.curve_type == ECCurveType::NamedCurve,
            r.curve_params.named_group == *named_group,
            r.public.0@ == pubkey@,
    {
        ServerECDHParams {
            curve_params: ECParameters {
                curve_type: ECCurveType::NamedCurve,
                named_group: *named_group,
            },
            public: PayloadU8::new(copy_bytes(pubkey)),
        }
    }
}

impl Codec for ServerECDHParams {
    open spec fn encoding(&self) -> Seq<u8> {
        self.curve_params.encoding() + self.public.encoding()
    }

    fn encode(&self, bytes: &mut Vec<u8>) {
        self.curve_params.encode(bytes);
        self.public.encode(bytes);
        assert(bytes@ =~= old(bytes)@ + self.encoding());
    }

    fn read(r: &mut Reader) -> (res: Option<ServerECDHParams>) {
        let cp = match ECParameters::read(r) {
            Some(x) => x,
            None => return None,
        };
        let pb = match PayloadU8::read(r) {
            Some(x) => x,
            None => return None,
        };
        let e = ServerECDHParams { curve_params: cp, public: pb };
        assert(old(r).rest() =~= e.encoding() + r.rest());
        Some(e)
    }
}

/// An ECDHE ServerKeyExchange: parameters and the server's signature over them.
#[derive(Debug, Clone)]
pub struct ECDHEServerKeyExchange {
    pub params: ServerECDHParams,
    pub dss: DigitallySignedStruct,
}

impl Codec for ECDHEServerKeyExchange {
    open spec fn encoding(&self) -> Seq<u8> {
        self.params.encoding() + self.dss.encoding()
    }

    fn encode(&self, bytes: &mut Vec<u8>) {
        self.params.encode(bytes);
        self.dss.encode(bytes);
        assert(bytes@ =~= old(bytes)@ + self.encoding());
    }

    fn read(r: &mut Reader) -> (res: Option<ECDHEServerKeyExchange>) {
        let params = match ServerECDHParams::read(r) {
            Some(x) => x,
            None => return None,
        };
        let dss = match DigitallySignedStruct::read(r) {
            Some(x) => x,
            None => return None,
        };
        let e = ECDHEServerKeyExchange { params, dss };
        assert(old(r).rest() =~= e.encoding() + r.rest());
        Some(e)
    }
}

/// A ServerKeyExchange: read as opaque bytes, decoded once the key exchange
/// algorithm is known.
#[derive(Debug, Clone)]
pub enum ServerKeyExchangePayload {
    ECDHE(ECDHEServerKeyExchange),
    Unknown(Payload),
}

impl Codec for ServerKeyExchangePayload {
    open spec fn encoding(&self) -> Seq<u8> {
        match self {
            ServerKeyExchangePayload::ECDHE(x) => x.encoding(),
            ServerKeyExchangePayload::Unknown(x) => x.0@,
        }
    }

    fn encode(&self, bytes: &mut Vec<u8>) {
        match self {
            ServerKeyExchangePayload::ECDHE(x) => x.encode(bytes),
            ServerKeyExchangePayload::Unknown(x) => x.encode(bytes),
        }
    }

    fn read(r: &mut Reader) -> (res: Option<ServerKeyExchangePayload>) {
        match Payload::read(r) {
            Some(x) => Some(ServerKeyExchangePayload::Unknown(x)),
            None => None,
        }
    }
}

impl ServerKeyExchangePayload {
    /// Decodes opaque bytes as the structure of `kxa`. Only ECDHE is known;
    /// the bytes must hold the structure exactly.
    pub fn unwrap_given_kxa(&self, kxa: &KeyExchangeAlgorithm) -> (r: Option<
        ServerKeyExchangePayload,
    >)
        ensures
            r matches Some(v) ==> (v matches ServerKeyExchangePayload::ECDHE(_)) && *kxa
                == KeyExchangeAlgorithm::ECDHE && (self matches ServerKeyExchangePayload::Unknown(
                _,
            )) && v.encoding() == self.encoding(),
            (self matches ServerKeyExchangePayload::ECDHE(_)) ==> r is None,
            *kxa != KeyExchangeAlgorithm::ECDHE ==> r is None,
    {
        match self {
            ServerKeyExchangePayload::Unknown(unk) => {
                let mut rd = Reader::init(unk.0.as_slice());
                match kxa {
                    KeyExchangeAlgorithm::ECDHE => {
                        let x = match ECDHEServerKeyExchange::read(&mut rd) {
                            Some(x) => x,
                            None => return None,
                        };
                        if rd.any_left() {
                            return None;
                        }
                        assert(unk.0@ =~= x.encoding() + rd.rest());
                        Some(ServerKeyExchangePayload::ECDHE(x))
                    },
                    _ => None,
                }
            },
            _ => None,
        }
    }

    /// Replaces `bytes` with the wire form of the signed parameters (nothing
    /// when the payload is not decoded).
    pub fn encode_params(&self, bytes: &mut Vec<u8>)
        ensures
            match self {
                ServerKeyExchangePayload::ECDHE(x) => final(bytes)@ == x.params.encoding(),
                ServerKeyExchangePayload::Unknown(_) => final(bytes)@.len() == 0,
            },
    {
        bytes.clear();
        match self {
            ServerKeyExchangePayload::ECDHE(x) => {
                x.params.encode(bytes);
                assert(bytes@ =~= x.params.encoding());
            },
            _ => {},
        }
    }

    pub fn get_sig(&self) -> (r: Option<DigitallySignedStruct>)
        ensures
            match self {
                ServerKeyExchangePayload::ECDHE(x) => r matches Some(d) && d.scheme == x.dss.scheme
                    && d.sig.0@ == x.dss.sig.0@,
                ServerKeyExchangePayload::Unknown(_) => r is None,
            },
    {
        match self {
            ServerKeyExchangePayload::ECDHE(x) => Some(
                DigitallySignedStruct::new(x.dss.scheme, copy_bytes(&x.dss.sig.0)),
            ),
            _ => None,
        }
    }
}

/// A distinguished name of a certificate authority.
pub type DistinguishedName = PayloadU16;

/// A CertificateRequest (TLS 1.2).
#[derive(Debug, Clone)]
pub struct CertificateRequestPayload {
    pub certtypes: Vec<ClientCertificateType>,
    pub sigschemes: Vec<SignatureScheme>,
    pub canames: Vec<DistinguishedName>,
}

impl Codec for CertificateRequestPayload {
    open spec fn encoding(&self) -> Seq<u8> {
        enc_vec_u8(self.certtypes@) + enc_vec_u16(self.sigschemes@) + enc_vec_u16(self.canames@)
    }

    fn encode(&self, bytes: &mut Vec<u8>) {
        encode_vec_u8(bytes, &self.certtypes);
        encode_vec_u16(bytes, &self.sigschemes);
        encode_vec_u16(bytes, &self.canames);
        assert(bytes@ =~= old(bytes)@ + self.encoding());
    }

    fn read(r: &mut Reader) -> (res: Option<CertificateRequestPayload>) {
        let certtypes = match read_vec_u8(r) {
            Some(x) => x,
            None => return None,
        };
        let sigschemes = match read_vec_u16(r) {
            Some(x) => x,
            None => return None,
        };
        let canames = match read_vec_u16(r) {
            Some(x) => x,
            None => return None,
        };
        let c = CertificateRequestPayload { certtypes, sigschemes, canames };
        assert(old(r).rest() =~= c.encoding() + r.rest());
        Some(c)
    }
}

/// A TLS 1.2 NewSessionTicket.
#[derive(Debug, Clone)]
pub struct NewSessionTicketPayload {
    pub lifetime_hint: u32,
    pub ticket: PayloadU16,
}

impl NewSessionTicketPayload {
    pub fn new(lifetime_hint: u32, ticket: Vec<u8>) -> (r: NewSessionTicketPayload)
        ensures
            r.lifetime_hint == lifetime_hint,
            r.ticket.0@ == ticket@,
    {
        NewSessionTicketPayload { lifetime_hint, ticket: PayloadU16::new(ticket) }
    }
}

impl Codec for NewSessionTicketPayload {
    open spec fn encoding(&self) -> Seq<u8> {
        be32(self.lifetime_hint) + self.ticket.encoding()
    }

    fn encode(&self, bytes: &mut Vec<u8>) {
        encode_u32(self.lifetime_hint, bytes);
        self.ticket.encode(bytes);
        assert(bytes@ =~= old(bytes)@ + self.encoding());
    }

    fn read(r: &mut Reader) -> (res: Option<NewSessionTicketPayload>) {
        let rest0 = Ghost(r.rest());
        let lifetime = match r.read_u32() {
            Some(x) => x,
            None => return None,
        };
        let ticket = match PayloadU16::read(r) {
            Some(x) => x,
            None => return None,
        };
        let t = NewSessionTicketPayload { lifetime_hint: lifetime, ticket };
        proof {
            lemma_be32_of_value(rest0@);
            assert(rest0@ =~= rest0@.take(4) + rest0@.skip(4));
        }
        assert(old(r).rest() =~= t.encoding() + r.rest());
        Some(t)
    }
}

/// An extension of a TLS 1.3 NewSessionTicket.
#[derive(Debug, Clone)]
pub enum NewSessionTicketExtension {
    Unknown(UnknownExtension),
}

impl NewSessionTicketExtension {
    pub open spec fn ext_type(&self) -> ExtensionType {
        match self {
            NewSessionTicketExtension::Unknown(u) => u.typ,
        }
    }

    pub fn get_type(&self) -> (r: ExtensionType)
        ensures
            r == self.ext_type(),
    {
        match self {
            NewSessionTicketExtension::Unknown(u) => u.typ,
        }
    }
}

impl Codec for NewSessionTicketExtension {
    open spec fn encoding(&self) -> Seq<u8> {
        match self {
            NewSessionTicketExtension::Unknown(u) => ext_frame(u.typ, u.payload.0@),
        }
    }

    fn encode(&self, bytes: &mut Vec<u8>) {
        match self {
            NewSessionTicketExtension::Unknown(u) => encode_ext(u.typ, &u.payload.0, bytes),
        }
    }

    fn read(r: &mut Reader) -> (res: Option<NewSessionTicketExtension>) {
        let (typ, mut sub) = match read_ext_header(r) {
            Some(x) => x,
            None => return None,
        };
        match UnknownExtension::read(typ, &mut sub) {
            Some(u) => Some(NewSessionTicketExtension::Unknown(u)),
            None => None,
        }
    }
}

/// A TLS 1.3 NewSessionTicket.
#[derive(Debug, Clone)]
pub struct NewSessionTicketPayloadTLS13 {
    pub lifetime: u32,
    pub age_add: u32,
    pub ticket: PayloadU16,
    pub exts: Vec<NewSessionTicketExtension>,
}

impl Codec for NewSessionTicketPayloadTLS13 {
    open spec fn encoding(&self) -> Seq<u8> {
        be32(self.lifetime) + be32(self.age_add) + self.ticket.encoding() + enc_vec_u16(self.exts@)
    }

    fn encode(&self, bytes: &mut Vec<u8>) {
        encode_u32(self.lifetime, bytes);
        encode_u32(self.age_add, bytes);
        self.ticket.encode(bytes);
        encode_vec_u16(bytes, &self.exts);
        assert(bytes@ =~= old(bytes)@ + self.encoding());
    }

    fn read(r: &mut Reader) -> (res: Option<NewSessionTicketPayloadTLS13>) {
        let rest0 = Ghost(r.rest());
        let lifetime = match r.read_u32() {
            Some(x) => x,
            None => return None,
        };
        let rest1 = Ghost(r.rest());
        let age_add = match r.read_u32() {
            Some(x) => x,
            None => return None,
        };
        let ticket = match PayloadU16::read(r) {
            Some(x) => x,
            None => return None,
        };
        let exts = match read_vec_u16(r) {
            Some(x) => x,
            None => return None,
        };
        let t = NewSessionTicketPayloadTLS13 { lifetime, age_add, ticket, exts };
        proof {
            lemma_be32_of_value(rest0@);
            lemma_be32_of_value(rest1@);
            assert(rest0@ =~= rest0@.take(4) + rest0@.skip(4));
            assert(rest1@ =~= rest1@.take(4) + rest1@.skip(4));
        }
        assert(old(r).rest() =~= t.encoding() + r.rest());
        Some(t)
    }
}

/// The body of a handshake message, by type.
#[derive(Debug, Clone)]
pub enum HandshakePayload {
    HelloRequest,
    ClientHello(ClientHelloPayload),
    ServerHello(ServerHelloPayload),
    HelloRetryRequest(HelloRetryRequest),
    Certificate(CertificatePayload),
    CertificateTLS13(CertificatePayloadTLS13),
    ServerKeyExchange(ServerKeyExchangePayload),
    CertificateRequest(CertificateRequestPayload),
    CertificateVerify(DigitallySignedStruct),
    ServerHelloDone,
    ClientKeyExchange(Payload),
    NewSessionTicket(NewSessionTicketPayload),
    NewSessionTicketTLS13(NewSessionTicketPayloadTLS13),
    EncryptedExtensions(Vec<ServerExtension>),
    KeyUpdate(KeyUpdateRequest),
    Finished(Payload),
    Unknown(Payload),
}

impl HandshakePayload {
    pub open spec fn encoding(&self) -> Seq<u8> {
        match self {
            HandshakePayload::HelloRequest => Seq::empty(),
            HandshakePayload::ClientHello(x) => x.encoding(),
            HandshakePayload::ServerHello(x) => x.encoding(),
            HandshakePayload::HelloRetryRequest(x) => x.encoding(),
            HandshakePayload::Certificate(x) => enc_vec_u24(x@),
            HandshakePayload::CertificateTLS13(x) => x.encoding(),
            HandshakePayload::ServerKeyExchange(x) => x.encoding(),
            HandshakePayload::CertificateRequest(x) => x.encoding(),
            HandshakePayload::CertificateVerify(x) => x.encoding(),
            HandshakePayload::ServerHelloDone => Seq::empty(),
            HandshakePayload::ClientKeyExchange(x) => x.0@,
            HandshakePayload::NewSessionTicket(x) => x.encoding(),
            HandshakePayload::NewSessionTicketTLS13(x) => x.encoding(),
            HandshakePayload::EncryptedExtensions(x) => enc_vec_u16(x@),
            HandshakePayload::KeyUpdate(x) => x.encoding(),
            HandshakePayload::Finished(x) => x.0@,
            HandshakePayload::Unknown(x) => x.0@,
        }
    }

    /// Whether `body` is a wire form of this payload: its encoding, or, for a
    /// hello without extensions, that followed by an empty extension block.
    pub open spec fn parses_from(&self, body: Seq<u8>) -> bool {
        body == self.encoding() || match self {
            HandshakePayload::ClientHello(x) => x.extensions@.len() == 0 && body == x.encoding()
                + be16(0),
            HandshakePayload::ServerHello(x) => x.extensions@.len() == 0 && body == x.encoding()
                + be16(0),
            _ => false,
        }
    }

    pub fn encode(&self, bytes: &mut Vec<u8>)
        ensures
            final(bytes)@ == old(bytes)@ + self.encoding(),
    {
        match self {
            HandshakePayload::HelloRequest => {},
            HandshakePayload::ClientHello(x) => x.encode(bytes),
            HandshakePayload::ServerHello(x) => x.encode(bytes),
            HandshakePayload::HelloRetryRequest(x) => x.encode(bytes),
            HandshakePayload::Certificate(x) => encode_vec_u24(bytes, x),
            HandshakePayload::CertificateTLS13(x) => x.encode(bytes),
            HandshakePayload::ServerKeyExchange(x) => x.encode(bytes),
            HandshakePayload::CertificateRequest(x) => x.encode(bytes),
            HandshakePayload::CertificateVerify(x) => x.encode(bytes),
            HandshakePayload::ServerHelloDone => {},
            HandshakePayload::ClientKeyExchange(x) => x.encode(bytes),
            HandshakePayload::NewSessionTicket(x) => x.encode(bytes),
            HandshakePayload::NewSessionTicketTLS13(x) => x.encode(bytes),
            HandshakePayload::EncryptedExtensions(x) => encode_vec_u16(bytes, x),
            HandshakePayload::KeyUpdate(x) => x.encode(bytes),
            HandshakePayload::Finished(x) => x.encode(bytes),
            HandshakePayload::Unknown(x) => x.encode(bytes),
        }
        assert(bytes@ =~= old(bytes)@ + self.encoding());
    }
}

/// Whether a payload is of the kind its type calls for; Certificate and
/// NewSessionTicket by the negotiated version.
pub open spec fn payload_fits(typ: HandshakeType, p: HandshakePayload, vers: ProtocolVersion) -> bool {
    match typ {
        HandshakeType::HelloRequest => p is HelloRequest || p is Unknown,
        HandshakeType::ClientHello => p is ClientHello,
        HandshakeType::ServerHello => p is ServerHello,
        HandshakeType::HelloRetryRequest => p is HelloRetryRequest,
        HandshakeType::Certificate => if spec_is_tls13(vers) {
            p is CertificateTLS13
        } else {
            p is Certificate
        },
        HandshakeType::ServerKeyExchange => p is ServerKeyExchange,
        HandshakeType::CertificateRequest => p is CertificateRequest,
        HandshakeType::CertificateVerify => p is CertificateVerify,
        HandshakeType::ServerHelloDone => p is ServerHelloDone || p is Unknown,
        HandshakeType::ClientKeyExchange => p is ClientKeyExchange,
        HandshakeType::NewSessionTicket => if spec_is_tls13(vers) {
            p is NewSessionTicketTLS13
        } else {
            p is NewSessionTicket
        },
        HandshakeType::EncryptedExtensions => p is EncryptedExtensions,
        HandshakeType::KeyUpdate => p is KeyUpdate,
        HandshakeType::Finished => p is Finished,
        HandshakeType::Unknown(_) => p is Unknown,
    }
}

/// The body length a handshake message at the start of `s` announces.
pub open spec fn msg_len(s: Seq<u8>) -> int {
    be24_value(s.skip(1)) as int
}

/// Whether `s` starts with a whole handshake message.
pub open spec fn msg_fits(s: Seq<u8>) -> bool {
    s.len() >= 4 && s.len() >= 4 + msg_len(s)
}

/// The body of the handshake message at the start of `s`.
pub open spec fn msg_body(s: Seq<u8>) -> Seq<u8> {
    s.subrange(4, 4 + msg_len(s))
}

/// A message's wire form starts with a whole message: its own type and body.
pub proof fn lemma_message_frame(m: HandshakeMessagePayload, tail: Seq<u8>)
    requires
        m.typ.wf(),
        m.payload.encoding().len() < 0x100_0000,
    ensures
        ({
            let s = m.encoding() + tail;
            &&& msg_fits(s)
            &&& HandshakeType::from_value(s[0]) == m.typ
            &&& msg_body(s) == m.payload.encoding()
            &&& s.skip(4 + msg_len(s)) == tail
        }),
{
    let body = m.payload.encoding();
    let n = body.len() as u32;
    let s = m.encoding() + tail;
    assert(m.typ.encoding() == seq![m.typ.value()]);
    assert(s =~= seq![m.typ.value()] + (be24(n) + (body + tail)));
    assert(s[0] == m.typ.value());
    crate::codec::lemma_be24_round_trip(n, body + tail);
    assert(s.skip(1) =~= be24(n) + (body + tail));
    assert(msg_len(s) == body.len());
    assert(msg_body(s) =~= body);
    assert(s.skip(4 + msg_len(s)) =~= tail);
}

/// A Finished, ClientKeyExchange or message of unknown type reads back as
/// itself: same type, same variant, same bytes (by `read_version`'s exact
/// clauses, which `lemma_message_frame` makes apply).
pub proof fn lemma_opaque_message_round_trip(m: HandshakeMessagePayload, tail: Seq<u8>)
    requires
        m.typ.wf(),
        m.payload.encoding().len() < 0x100_0000,
        m.payload is Finished || m.payload is ClientKeyExchange || m.payload is Unknown,
    ensures
        msg_fits(m.encoding() + tail),
        HandshakeType::from_value((m.encoding() + tail)[0]) == m.typ,
        msg_body(m.encoding() + tail) == match m.payload {
            HandshakePayload::Finished(p) => p.0@,
            HandshakePayload::ClientKeyExchange(p) => p.0@,
            HandshakePayload::Unknown(p) => p.0@,
            _ => Seq::empty(),
        },
{
    lemma_message_frame(m, tail);
}

/// A handshake message: its type, then its body behind a three-byte length.
#[derive(Debug, Clone)]
pub struct HandshakeMessagePayload {
    pub typ: HandshakeType,
    pub payload: HandshakePayload,
}

impl HandshakeMessagePayload {
    pub open spec fn encoding(&self) -> Seq<u8> {
        self.typ.encoding() + be24(self.payload.encoding().len() as u32) + self.payload.encoding()
    }

    pub fn encode(&self, bytes: &mut Vec<u8>)
        ensures
            final(bytes)@ == old(bytes)@ + self.encoding(),
    {
        let mut sub: Vec<u8> = Vec::new();
        self.payload.encode(&mut sub);
        assert(sub@ =~= self.payload.encoding());
        self.typ.encode(bytes);
        encode_u24(sub.len() as u32, bytes);
        append_bytes(bytes, sub.as_slice());
        assert(bytes@ =~= old(bytes)@ + self.encoding());
    }

    /// The length of the wire form.
    pub fn len(&self) -> (r: usize)
        ensures
            r == self.encoding().len(),
    {
        let mut buf: Vec<u8> = Vec::new();
        self.encode(&mut buf);
        assert(buf@ =~= self.encoding());
        buf.len()
    }

    /// Reads one handshake message, as a TLS 1.2 connection would.
    pub fn read(r: &mut Reader) -> (res: Option<HandshakeMessagePayload>)
        requires
            old(r).wf(),
        ensures
            final(r).wf(),
            res matches Some(m) ==> exists|body: Seq<u8>|
                #![auto]
                m.payload.parses_from(body) && old(r).rest() == m.typ.encoding() + be24(
                    body.len() as u32,
                ) + body + final(r).rest(),
    {
        HandshakeMessagePayload::read_version(r, ProtocolVersion::TLSv1_2)
    }

    /// Reads one handshake message. The negotiated version `vers` decides how
    /// Certificate and NewSessionTicket are read.
    pub fn read_version(r: &mut Reader, vers: ProtocolVersion) -> (res: Option<
        HandshakeMessagePayload,
    >)
        requires
            old(r).wf(),
        ensures
            final(r).wf(),
            res matches Some(m) ==> exists|body: Seq<u8>|
                #![auto]
                m.payload.parses_from(body) && old(r).rest() == m.typ.encoding() + be24(
                    body.len() as u32,
                ) + body + final(r).rest(),
            res matches Some(m) ==> (m.typ == HandshakeType::Certificate ==> (spec_is_tls13(vers)
                <==> m.payload matches HandshakePayload::CertificateTLS13(_))),
            res matches Some(m) ==> (m.typ == HandshakeType::NewSessionTicket ==> (spec_is_tls13(
                vers,
            ) <==> m.payload matches HandshakePayload::NewSessionTicketTLS13(_))),
            res matches Some(m) ==> payload_fits(m.typ, m.payload, vers),
            msg_fits(old(r).rest()) ==> ({
                let t = HandshakeType::from_value(old(r).rest()[0]);
                let body = msg_body(old(r).rest());
                let after = old(r).rest().skip(4 + msg_len(old(r).rest()));
                &&& t == HandshakeType::Finished ==> (res matches Some(m) && m.typ == t && (
                m.payload matches HandshakePayload::Finished(p) && p.0@ == body) && final(r).rest()
                    == after)
                &&& t == HandshakeType::ClientKeyExchange ==> (res matches Some(m) && m.typ == t && (
                m.payload matches HandshakePayload::ClientKeyExchange(p) && p.0@ == body) && final(r).rest() == after)
                &&& t is Unknown ==> (res matches Some(m) && m.typ == t && (
                m.payload matches HandshakePayload::Unknown(p) && p.0@ == body) && final(r).rest()
                    == after)
                &&& (t == HandshakeType::ServerHelloDone && body.len() == 0) ==> (res matches Some(m) && m.typ == t && m.payload is ServerHelloDone && final(r).rest() == after)
                &&& (t == HandshakeType::HelloRequest && body.len() == 0) ==> (res matches Some(m)
                    && m.typ == t && m.payload is HelloRequest && final(r).rest() == after)
            }),
    {
        let typ = match HandshakeType::read(r) {
            Some(t) => t,
            None => return None,
        };
        let mid = Ghost(r.rest());
        proof {
            if mid@.len() >= 3 {
                crate::codec::lemma_be24_of_value(mid@);
            }
        }
        let len = match r.read_u24() {
            Some(l) => l,
            None => return None,
        };
        let mut sub = match r.sub(len as usize) {
            Some(s) => s,
            None => return None,
        };
        let body = Ghost(sub.rest());
        let payload = match typ {
            HandshakeType::HelloRequest if !sub.any_left() => HandshakePayload::HelloRequest,
            HandshakeType::ClientHello => HandshakePayload::ClientHello(
                match ClientHelloPayload::read(&mut sub) {
                    Some(x) => x,
                    None => return None,
                },
            ),
            HandshakeType::ServerHello => HandshakePayload::ServerHello(
                match ServerHelloPayload::read(&mut sub) {
                    Some(x) => x,
                    None => return None,
                },
            ),
            HandshakeType::HelloRetryRequest => HandshakePayload::HelloRetryRequest(
                match HelloRetryRequest::read(&mut sub) {
                    Some(x) => x,
                    None => return None,
                },
            ),
            HandshakeType::Certificate if is_tls13(vers) => HandshakePayload::CertificateTLS13(
                match CertificatePayloadTLS13::read(&mut sub) {
                    Some(x) => x,
                    None => return None,
                },
            ),
            HandshakeType::Certificate => HandshakePayload::Certificate(
                match read_vec_u24(&mut sub) {
                    Some(x) => x,
                    None => return None,
                },
            ),
            HandshakeType::ServerKeyExchange => HandshakePayload::ServerKeyExchange(
                match ServerKeyExchangePayload::read(&mut sub) {
                    Some(x) => x,
                    None => return None,
                },
            ),
            HandshakeType::ServerHelloDone if !sub.any_left() => HandshakePayload::ServerHelloDone,
            HandshakeType::ClientKeyExchange => HandshakePayload::ClientKeyExchange(
                match Payload::read(&mut sub) {
                    Some(x) => x,
                    None => return None,
                },
            ),
            HandshakeType::CertificateRequest => HandshakePayload::CertificateRequest(
                match CertificateRequestPayload::read(&mut sub) {
                    Some(x) => x,
                    None => return None,
                },
            ),
            HandshakeType::CertificateVerify => HandshakePayload::CertificateVerify(
                match DigitallySignedStruct::read(&mut sub) {
                    Some(x) => x,
                    None => return None,
                },
            ),
            HandshakeType::NewSessionTicket if is_tls13(vers) => HandshakePayload::NewSessionTicketTLS13(
                match NewSessionTicketPayloadTLS13::read(&mut sub) {
                    Some(x) => x,
                    None => return None,
                },
            ),
            HandshakeType::NewSessionTicket => HandshakePayload::NewSessionTicket(
                match NewSessionTicketPayload::read(&mut sub) {
                    Some(x) => x,
                    None => return None,
                },
            ),
            HandshakeType::EncryptedExtensions => HandshakePayload::EncryptedExtensions(
                match read_vec_u16(&mut sub) {
                    Some(x) => x,
                    None => return None,
                },
            ),
            HandshakeType::KeyUpdate => HandshakePayload::KeyUpdate(
                match KeyUpdateRequest::read(&mut sub) {
                    Some(x) => x,
                    None => return None,
                },
            ),
            HandshakeType::Finished => HandshakePayload::Finished(
                match Payload::read(&mut sub) {
                    Some(x) => x,
                    None => return None,
                },
            ),
            _ => HandshakePayload::Unknown(
                match Payload::read(&mut sub) {
                    Some(x) => x,
                    None => return None,
                },
            ),
        };
        if sub.any_left() {
            return None;
        }
        let m = HandshakeMessagePayload { typ, payload };
        assert(sub.rest() =~= Seq::<u8>::empty());
        assert(m.payload.parses_from(body@));
        assert(old(r).rest() =~= m.typ.encoding() + be24(body@.len() as u32) + body@ + r.rest());
        Some(m)
    }
}

/// Decoding the wire form of a session id, a random or a code point gives the
/// value back (what the exact `read` contracts then return).
#[verifier::rlimit(80)]
pub proof fn lemma_leaf_round_trip(
    id: SessionID,
    rnd: Random,
    v: ProtocolVersion,
    cs: CipherSuite,
    t: ExtensionType,
    g: NamedGroup,
    tail: Seq<u8>,
)
    requires
        id.wf(),
        v.wf(),
        cs.wf(),
        t.wf(),
        g.wf(),
    ensures
        ({
            let s = id.encoding() + tail;
            s.len() >= 1 && s[0] <= 32 && s.len() >= 1 + s[0] && s.subrange(1, 1 + s[0]) == id@
        }),
        ({
            let s = rnd.encoding() + tail;
            s.len() >= 32 && be32_value(s) == rnd.gmt_unix_time && s.subrange(4, 32) == rnd.opaque@
        }),
        ProtocolVersion::from_value(be16_value(v.encoding() + tail)) == v,
        CipherSuite::from_value(be16_value(cs.encoding() + tail)) == cs,
        ExtensionType::from_value(be16_value(t.encoding() + tail)) == t,
        NamedGroup::from_value(be16_value(g.encoding() + tail)) == g,
{
    let s = id.encoding() + tail;
    assert(s.subrange(1, 1 + s[0]) =~= id@);
    let r = rnd.encoding() + tail;
    lemma_be32_round_trip(rnd.gmt_unix_time, rnd.opaque@ + tail);
    assert(r =~= be32(rnd.gmt_unix_time) + (rnd.opaque@ + tail));
    assert(r.subrange(4, 32) =~= rnd.opaque@);
    crate::codec::lemma_be16_round_trip(v.value(), tail);
    crate::codec::lemma_be16_round_trip(cs.value(), tail);
    crate::codec::lemma_be16_round_trip(t.value(), tail);
    crate::codec::lemma_be16_round_trip(g.value(), tail);
}

} // verus!
