//! The code points of the TLS protocol.
//!
//! Each enumeration names the values this library knows and carries any other
//! value in its `Unknown` variant, so every value read from the wire has a form.
//! A value is canonical (`wf`) when it is held by its named variant where one
//! exists; values made by `from_u8` / `from_u16` are always canonical.

use vstd::prelude::*;
use crate::codec::{Codec, Reader, be16, be16_value, encode_u16, lemma_be16_of_value};

verus! {

/// A TLS protocol version as it appears on the wire.
#[allow(non_camel_case_types)]
#[derive(Clone, Copy, Debug, PartialEq, Eq, Structural)]
pub enum ProtocolVersion {
    SSLv2,
    SSLv3,
    TLSv1_0,
    TLSv1_1,
    TLSv1_2,
    TLSv1_3,
    Unknown(u16),
}

impl ProtocolVersion {
    /// The code point of this value.
    pub open spec fn value(self) -> u16 {
        match self {
            ProtocolVersion::SSLv2 => 0x200,
            ProtocolVersion::SSLv3 => 0x300,
            ProtocolVersion::TLSv1_0 => 0x301,
            ProtocolVersion::TLSv1_1 => 0x302,
            ProtocolVersion::TLSv1_2 => 0x303,
            ProtocolVersion::TLSv1_3 => 0x304,
            ProtocolVersion::Unknown(x) => x,
        }
    }

    /// The canonical value with code point `x`.
    pub open spec fn from_value(x: u16) -> ProtocolVersion {
        if x == 0x200 {
            ProtocolVersion::SSLv2
        } else if x == 0x300 {
            ProtocolVersion::SSLv3
        } else if x == 0x301 {
            ProtocolVersion::TLSv1_0
        } else if x == 0x302 {
            ProtocolVersion::TLSv1_1
        } else if x == 0x303 {
            ProtocolVersion::TLSv1_2
        } else if x == 0x304 {
            ProtocolVersion::TLSv1_3
        } else {
            ProtocolVersion::Unknown(x)
        }
    }

    /// A value is canonical when no named variant has its code point in `Unknown`.
    pub open spec fn wf(self) -> bool {
        ProtocolVersion::from_value(self.value()) == self
    }

    pub fn get_u16(&self) -> (r: u16)
        ensures
            r == self.value(),
    {
        match *self {
            ProtocolVersion::SSLv2 => 0x200,
            ProtocolVersion::SSLv3 => 0x300,
            ProtocolVersion::TLSv1_0 => 0x301,
            ProtocolVersion::TLSv1_1 => 0x302,
            ProtocolVersion::TLSv1_2 => 0x303,
            ProtocolVersion::TLSv1_3 => 0x304,
            ProtocolVersion::Unknown(x) => x,
        }
    }

    pub fn from_u16(x: u16) -> (r: ProtocolVersion)
        ensures
            r == ProtocolVersion::from_value(x),
            r.value() == x,
            r.wf(),
    {
        match x {
            0x200 => ProtocolVersion::SSLv2,
            0x300 => ProtocolVersion::SSLv3,
            0x301 => ProtocolVersion::TLSv1_0,
            0x302 => ProtocolVersion::TLSv1_1,
            0x303 => ProtocolVersion::TLSv1_2,
            0x304 => ProtocolVersion::TLSv1_3,
            _ => ProtocolVersion::Unknown(x),
        }
    }

}

impl Codec for ProtocolVersion {
    open spec fn encoding(&self) -> Seq<u8> {
        be16(self.value())
    }

    fn encode(&self, bytes: &mut Vec<u8>) {
        encode_u16(self.get_u16(), bytes);
    }

    fn read(r: &mut Reader) -> (res: Option<ProtocolVersion>)
        ensures
            old(r).rest().len() >= 2 ==> res == Some(ProtocolVersion::from_value(be16_value(old(r).rest()))),
    {
        proof {
            if old(r).rest().len() >= 2 {
                lemma_be16_of_value(old(r).rest());
            }
        }
        match r.read_u16() {
            Some(x) => Some(ProtocolVersion::from_u16(x)),
            None => None,
        }
    }
}

/// The type byte of a handshake message.
#[allow(non_camel_case_types)]
#[derive(Clone, Copy, Debug, PartialEq, Eq, Structural)]
pub enum HandshakeType {
    HelloRequest,
    ClientHello,
    ServerHello,
    NewSessionTicket,
    HelloRetryRequest,
    EncryptedExtensions,
    Certificate,
    ServerKeyExchange,
    CertificateRequest,
    ServerHelloDone,
    CertificateVerify,
    ClientKeyExchange,
    Finished,
    KeyUpdate,
    Unknown(u8),
}

impl HandshakeType {
    /// The code point of this value.
    pub open spec fn value(self) -> u8 {
        match self {
            HandshakeType::HelloRequest => 0x0,
            HandshakeType::ClientHello => 0x1,
            HandshakeType::ServerHello => 0x2,
            HandshakeType::NewSessionTicket => 0x4,
            HandshakeType::HelloRetryRequest => 0x6,
            HandshakeType::EncryptedExtensions => 0x8,
            HandshakeType::Certificate => 0xb,
            HandshakeType::ServerKeyExchange => 0xc,
            HandshakeType::CertificateRequest => 0xd,
            HandshakeType::ServerHelloDone => 0xe,
            HandshakeType::CertificateVerify => 0xf,
            HandshakeType::ClientKeyExchange => 0x10,
            HandshakeType::Finished => 0x14,
            HandshakeType::KeyUpdate => 0x18,
            HandshakeType::Unknown(x) => x,
        }
    }

    /// The canonical value with code point `x`.
    pub open spec fn from_value(x: u8) -> HandshakeType {
        if x == 0x0 {
            HandshakeType::HelloRequest
        } else if x == 0x1 {
            HandshakeType::ClientHello
        } else if x == 0x2 {
            HandshakeType::ServerHello
        } else if x == 0x4 {
            HandshakeType::NewSessionTicket
        } else if x == 0x6 {
            HandshakeType::HelloRetryRequest
        } else if x == 0x8 {
            HandshakeType::EncryptedExtensions
        } else if x == 0xb {
            HandshakeType::Certificate
        } else if x == 0xc {
            HandshakeType::ServerKeyExchange
        } else if x == 0xd {
            HandshakeType::CertificateRequest
        } else if x == 0xe {
            HandshakeType::ServerHelloDone
        } else if x == 0xf {
            HandshakeType::CertificateVerify
        } else if x == 0x10 {
            HandshakeType::ClientKeyExchange
        } else if x == 0x14 {
            HandshakeType::Finished
        } else if x == 0x18 {
            HandshakeType::KeyUpdate
        } else {
            HandshakeType::Unknown(x)
        }
    }

    /// A value is canonical when no named variant has its code point in `Unknown`.
    pub open spec fn wf(self) -> bool {
        HandshakeType::from_value(self.value()) == self
    }

    pub fn get_u8(&self) -> (r: u8)
        ensures
            r == self.value(),
    {
        match *self {
            HandshakeType::HelloRequest => 0x0,
            HandshakeType::ClientHello => 0x1,
            HandshakeType::ServerHello => 0x2,
            HandshakeType::NewSessionTicket => 0x4,
            HandshakeType::HelloRetryRequest => 0x6,
            HandshakeType::EncryptedExtensions => 0x8,
            HandshakeType::Certificate => 0xb,
            HandshakeType::ServerKeyExchange => 0xc,
            HandshakeType::CertificateRequest => 0xd,
            HandshakeType::ServerHelloDone => 0xe,
            HandshakeType::CertificateVerify => 0xf,
            HandshakeType::ClientKeyExchange => 0x10,
            HandshakeType::Finished => 0x14,
            HandshakeType::KeyUpdate => 0x18,
            HandshakeType::Unknown(x) => x,
        }
    }

    pub fn from_u8(x: u8) -> (r: HandshakeType)
        ensures
            r == HandshakeType::from_value(x),
            r.value() == x,
            r.wf(),
    {
        match x {
            0x0 => HandshakeType::HelloRequest,
            0x1 => HandshakeType::ClientHello,
            0x2 => HandshakeType::ServerHello,
            0x4 => HandshakeType::NewSessionTicket,
            0x6 => HandshakeType::HelloRetryRequest,
            0x8 => HandshakeType::EncryptedExtensions,
            0xb => HandshakeType::Certificate,
            0xc => HandshakeType::ServerKeyExchange,
            0xd => HandshakeType::CertificateRequest,
            0xe => HandshakeType::ServerHelloDone,
            0xf => HandshakeType::CertificateVerify,
            0x10 => HandshakeType::ClientKeyExchange,
            0x14 => HandshakeType::Finished,
            0x18 => HandshakeType::KeyUpdate,
            _ => HandshakeType::Unknown(x),
        }
    }

}

impl Codec for HandshakeType {
    open spec fn encoding(&self) -> Seq<u8> {
        seq![self.value()]
    }

    fn encode(&self, bytes: &mut Vec<u8>) {
        bytes.push(self.get_u8());
        assert(final(bytes)@ =~= old(bytes)@ + self.encoding());
    }

    fn read(r: &mut Reader) -> (res: Option<HandshakeType>)
        ensures
            old(r).rest().len() >= 1 ==> res == Some(HandshakeType::from_value(old(r).rest()[0])),
    {
        match r.read_u8() {
            Some(x) => {
                assert(old(r).rest() =~= seq![x] + r.rest());
                Some(HandshakeType::from_u8(x))
            }
            None => None,
        }
    }
}

/// The content type of a record.
#[allow(non_camel_case_types)]
#[derive(Clone, Copy, Debug, PartialEq, Eq, Structural)]
pub enum ContentType {
    ChangeCipherSpec,
    Alert,
    Handshake,
    ApplicationData,
    Heartbeat,
    Unknown(u8),
}

impl ContentType {
    /// The code point of this value.
    pub open spec fn value(self) -> u8 {
        match self {
            ContentType::ChangeCipherSpec => 0x14,
            ContentType::Alert => 0x15,
            ContentType::Handshake => 0x16,
            ContentType::ApplicationData => 0x17,
            ContentType::Heartbeat => 0x18,
            ContentType::Unknown(x) => x,
        }
    }

    /// The canonical value with code point `x`.
    pub open spec fn from_value(x: u8) -> ContentType {
        if x == 0x14 {
            ContentType::ChangeCipherSpec
        } else if x == 0x15 {
            ContentType::Alert
        } else if x == 0x16 {
            ContentType::Handshake
        } else if x == 0x17 {
            ContentType::ApplicationData
        } else if x == 0x18 {
            ContentType::Heartbeat
        } else {
            ContentType::Unknown(x)
        }
    }

    /// A value is canonical when no named variant has its code point in `Unknown`.
    pub open spec fn wf(self) -> bool {
        ContentType::from_value(self.value()) == self
    }

    pub fn get_u8(&self) -> (r: u8)
        ensures
            r == self.value(),
    {
        match *self {
            ContentType::ChangeCipherSpec => 0x14,
            ContentType::Alert => 0x15,
            ContentType::Handshake => 0x16,
            ContentType::ApplicationData => 0x17,
            ContentType::Heartbeat => 0x18,
            ContentType::Unknown(x) => x,
        }
    }

    pub fn from_u8(x: u8) -> (r: ContentType)
        ensures
            r == ContentType::from_value(x),
            r.value() == x,
            r.wf(),
    {
        match x {
            0x14 => ContentType::ChangeCipherSpec,
            0x15 => ContentType::Alert,
            0x16 => ContentType::Handshake,
            0x17 => ContentType::ApplicationData,
            0x18 => ContentType::Heartbeat,
            _ => ContentType::Unknown(x),
        }
    }

}

impl Codec for ContentType {
    open spec fn encoding(&self) -> Seq<u8> {
        seq![self.value()]
    }

    fn encode(&self, bytes: &mut Vec<u8>) {
        bytes.push(self.get_u8());
        assert(final(bytes)@ =~= old(bytes)@ + self.encoding());
    }

    fn read(r: &mut Reader) -> (res: Option<ContentType>)
        ensures
            old(r).rest().len() >= 1 ==> res == Some(ContentType::from_value(old(r).rest()[0])),
    {
        match r.read_u8() {
            Some(x) => {
                assert(old(r).rest() =~= seq![x] + r.rest());
                Some(ContentType::from_u8(x))
            }
            None => None,
        }
    }
}

/// A compression method.
#[allow(non_camel_case_types)]
#[derive(Clone, Copy, Debug, PartialEq, Eq, Structural)]
pub enum Compression {
    Null,
    Deflate,
    LSZ,
    Unknown(u8),
}

impl Compression {
    /// The code point of this value.
    pub open spec fn value(self) -> u8 {
        match self {
            Compression::Null => 0x0,
            Compression::Deflate => 0x1,
            Compression::LSZ => 0x40,
            Compression::Unknown(x) => x,
        }
    }

    /// The canonical value with code point `x`.
    pub open spec fn from_value(x: u8) -> Compression {
        if x == 0x0 {
            Compression::Null
        } else if x == 0x1 {
            Compression::Deflate
        } else if x == 0x40 {
            Compression::LSZ
        } else {
            Compression::Unknown(x)
        }
    }

    /// A value is canonical when no named variant has its code point in `Unknown`.
    pub open spec fn wf(self) -> bool {
        Compression::from_value(self.value()) == self
    }

    pub fn get_u8(&self) -> (r: u8)
        ensures
            r == self.value(),
    {
        match *self {
            Compression::Null => 0x0,
            Compression::Deflate => 0x1,
            Compression::LSZ => 0x40,
            Compression::Unknown(x) => x,
        }
    }

    pub fn from_u8(x: u8) -> (r: Compression)
        ensures
            r == Compression::from_value(x),
            r.value() == x,
            r.wf(),
    {
        match x {
            0x0 => Compression::Null,
            0x1 => Compression::Deflate,
            0x40 => Compression::LSZ,
            _ => Compression::Unknown(x),
        }
    }

}

impl Codec for Compression {
    open spec fn encoding(&self) -> Seq<u8> {
        seq![self.value()]
    }

    fn encode(&self, bytes: &mut Vec<u8>) {
        bytes.push(self.get_u8());
        assert(final(bytes)@ =~= old(bytes)@ + self.encoding());
    }

    fn read(r: &mut Reader) -> (res: Option<Compression>)
        ensures
            old(r).rest().len() >= 1 ==> res == Some(Compression::from_value(old(r).rest()[0])),
    {
        match r.read_u8() {
            Some(x) => {
                assert(old(r).rest() =~= seq![x] + r.rest());
                Some(Compression::from_u8(x))
            }
            None => None,
        }
    }
}

/// The type of a hello extension.
#[allow(non_camel_case_types)]
#[derive(Clone, Copy, Debug, PartialEq, Eq, Structural)]
pub enum ExtensionType {
    ServerName,
    MaxFragmentLength,
    ClientCertificateUrl,
    TrustedCAKeys,
    TruncatedHMAC,
    StatusRequest,
    UserMapping,
    ClientAuthz,
    ServerAuthz,
    CertificateType,
    EllipticCurves,
    ECPointFormats,
    SRP,
    SignatureAlgorithms,
    UseSRTP,
    Heartbeat,
    ALProtocolNegotiation,
    Padding,
    ExtendedMasterSecret,
    SessionTicket,
    KeyShare,
    PreSharedKey,
    EarlyData,
    SupportedVersions,
    Cookie,
    NextProtocolNegotiation,
    ChannelId,
    RenegotiationInfo,
    Unknown(u16),
}

impl ExtensionType {
    /// The code point of this value.
    pub open spec fn value(self) -> u16 {
        match self {
            ExtensionType::ServerName => 0x0,
            ExtensionType::MaxFragmentLength => 0x1,
            ExtensionType::ClientCertificateUrl => 0x2,
            ExtensionType::TrustedCAKeys => 0x3,
            ExtensionType::TruncatedHMAC => 0x4,
            ExtensionType::StatusRequest => 0x5,
            ExtensionType::UserMapping => 0x6,
            ExtensionType::ClientAuthz => 0x7,
            ExtensionType::ServerAuthz => 0x8,
            ExtensionType::CertificateType => 0x9,
            ExtensionType::EllipticCurves => 0xa,
            ExtensionType::ECPointFormats => 0xb,
            ExtensionType::SRP => 0xc,
            ExtensionType::SignatureAlgorithms => 0xd,
            ExtensionType::UseSRTP => 0xe,
            ExtensionType::Heartbeat => 0xf,
            ExtensionType::ALProtocolNegotiation => 0x10,
            ExtensionType::Padding => 0x15,
            ExtensionType::ExtendedMasterSecret => 0x17,
            ExtensionType::SessionTicket => 0x23,
            ExtensionType::KeyShare => 0x28,
            ExtensionType::PreSharedKey => 0x29,
            ExtensionType::EarlyData => 0x2a,
            ExtensionType::SupportedVersions => 0x2b,
            ExtensionType::Cookie => 0x2c,
            ExtensionType::NextProtocolNegotiation => 0x3374,
            ExtensionType::ChannelId => 0x7550,
            ExtensionType::RenegotiationInfo => 0xff01,
            ExtensionType::Unknown(x) => x,
        }
    }

    /// The canonical value with code point `x`.
    pub open spec fn from_value(x: u16) -> ExtensionType {
        if x == 0x0 {
            ExtensionType::ServerName
        } else if x == 0x1 {
            ExtensionType::MaxFragmentLength
        } else if x == 0x2 {
            ExtensionType::ClientCertificateUrl
        } else if x == 0x3 {
            ExtensionType::TrustedCAKeys
        } else if x == 0x4 {
            ExtensionType::TruncatedHMAC
        } else if x == 0x5 {
            ExtensionType::StatusRequest
        } else if x == 0x6 {
            ExtensionType::UserMapping
        } else if x == 0x7 {
            ExtensionType::ClientAuthz
        } else if x == 0x8 {
            ExtensionType::ServerAuthz
        } else if x == 0x9 {
            ExtensionType::CertificateType
        } else if x == 0xa {
            ExtensionType::EllipticCurves
        } else if x == 0xb {
            ExtensionType::ECPointFormats
        } else if x == 0xc {
            ExtensionType::SRP
        } else if x == 0xd {
            ExtensionType::SignatureAlgorithms
        } else if x == 0xe {
            ExtensionType::UseSRTP
        } else if x == 0xf {
            ExtensionType::Heartbeat
        } else if x == 0x10 {
            ExtensionType::ALProtocolNegotiation
        } else if x == 0x15 {
            ExtensionType::Padding
        } else if x == 0x17 {
            ExtensionType::ExtendedMasterSecret
        } else if x == 0x23 {
            ExtensionType::SessionTicket
        } else if x == 0x28 {
            ExtensionType::KeyShare
        } else if x == 0x29 {
            ExtensionType::PreSharedKey
        } else if x == 0x2a {
            ExtensionType::EarlyData
        } else if x == 0x2b {
            ExtensionType::SupportedVersions
        } else if x == 0x2c {
            ExtensionType::Cookie
        } else if x == 0x3374 {
            ExtensionType::NextProtocolNegotiation
        } else if x == 0x7550 {
            ExtensionType::ChannelId
        } else if x == 0xff01 {
            ExtensionType::RenegotiationInfo
        } else {
            ExtensionType::Unknown(x)
        }
    }

    /// A value is canonical when no named variant has its code point in `Unknown`.
    pub open spec fn wf(self) -> bool {
        ExtensionType::from_value(self.value()) == self
    }

    pub fn get_u16(&self) -> (r: u16)
        ensures
            r == self.value(),
    {
        match *self {
            ExtensionType::ServerName => 0x0,
            ExtensionType::MaxFragmentLength => 0x1,
            ExtensionType::ClientCertificateUrl => 0x2,
            ExtensionType::TrustedCAKeys => 0x3,
            ExtensionType::TruncatedHMAC => 0x4,
            ExtensionType::StatusRequest => 0x5,
            ExtensionType::UserMapping => 0x6,
            ExtensionType::ClientAuthz => 0x7,
            ExtensionType::ServerAuthz => 0x8,
            ExtensionType::CertificateType => 0x9,
            ExtensionType::EllipticCurves => 0xa,
            ExtensionType::ECPointFormats => 0xb,
            ExtensionType::SRP => 0xc,
            ExtensionType::SignatureAlgorithms => 0xd,
            ExtensionType::UseSRTP => 0xe,
            ExtensionType::Heartbeat => 0xf,
            ExtensionType::ALProtocolNegotiation => 0x10,
            ExtensionType::Padding => 0x15,
            ExtensionType::ExtendedMasterSecret => 0x17,
            ExtensionType::SessionTicket => 0x23,
            ExtensionType::KeyShare => 0x28,
            ExtensionType::PreSharedKey => 0x29,
            ExtensionType::EarlyData => 0x2a,
            ExtensionType::SupportedVersions => 0x2b,
            ExtensionType::Cookie => 0x2c,
            ExtensionType::NextProtocolNegotiation => 0x3374,
            ExtensionType::ChannelId => 0x7550,
            ExtensionType::RenegotiationInfo => 0xff01,
            ExtensionType::Unknown(x) => x,
        }
    }

    pub fn from_u16(x: u16) -> (r: ExtensionType)
        ensures
            r == ExtensionType::from_value(x),
            r.value() == x,
            r.wf(),
    {
        match x {
            0x0 => ExtensionType::ServerName,
            0x1 => ExtensionType::MaxFragmentLength,
            0x2 => ExtensionType::ClientCertificateUrl,
            0x3 => ExtensionType::TrustedCAKeys,
            0x4 => ExtensionType::TruncatedHMAC,
            0x5 => ExtensionType::StatusRequest,
            0x6 => ExtensionType::UserMapping,
            0x7 => ExtensionType::ClientAuthz,
            0x8 => ExtensionType::ServerAuthz,
            0x9 => ExtensionType::CertificateType,
            0xa => ExtensionType::EllipticCurves,
            0xb => ExtensionType::ECPointFormats,
            0xc => ExtensionType::SRP,
            0xd => ExtensionType::SignatureAlgorithms,
            0xe => ExtensionType::UseSRTP,
            0xf => ExtensionType::Heartbeat,
            0x10 => ExtensionType::ALProtocolNegotiation,
            0x15 => ExtensionType::Padding,
            0x17 => ExtensionType::ExtendedMasterSecret,
            0x23 => ExtensionType::SessionTicket,
            0x28 => ExtensionType::KeyShare,
            0x29 => ExtensionType::PreSharedKey,
            0x2a => ExtensionType::EarlyData,
            0x2b => ExtensionType::SupportedVersions,
            0x2c => ExtensionType::Cookie,
            0x3374 => ExtensionType::NextProtocolNegotiation,
            0x7550 => ExtensionType::ChannelId,
            0xff01 => ExtensionType::RenegotiationInfo,
            _ => ExtensionType::Unknown(x),
        }
    }

}

impl Codec for ExtensionType {
    open spec fn encoding(&self) -> Seq<u8> {
        be16(self.value())
    }

    fn encode(&self, bytes: &mut Vec<u8>) {
        encode_u16(self.get_u16(), bytes);
    }

    fn read(r: &mut Reader) -> (res: Option<ExtensionType>)
        ensures
            old(r).rest().len() >= 2 ==> res == Some(ExtensionType::from_value(be16_value(old(r).rest()))),
    {
        proof {
            if old(r).rest().len() >= 2 {
                lemma_be16_of_value(old(r).rest());
            }
        }
        match r.read_u16() {
            Some(x) => Some(ExtensionType::from_u16(x)),
            None => None,
        }
    }
}

/// A hash algorithm code.
#[allow(non_camel_case_types)]
#[derive(Clone, Copy, Debug, PartialEq, Eq, Structural)]
pub enum HashAlgorithm {
    NONE,
    MD5,
    SHA1,
    SHA224,
    SHA256,
    SHA384,
    SHA512,
    Unknown(u8),
}

impl HashAlgorithm {
    /// The code point of this value.
    pub open spec fn value(self) -> u8 {
        match self {
            HashAlgorithm::NONE => 0x0,
            HashAlgorithm::MD5 => 0x1,
            HashAlgorithm::SHA1 => 0x2,
            HashAlgorithm::SHA224 => 0x3,
            HashAlgorithm::SHA256 => 0x4,
            HashAlgorithm::SHA384 => 0x5,
            HashAlgorithm::SHA512 => 0x6,
            HashAlgorithm::Unknown(x) => x,
        }
    }

    /// The canonical value with code point `x`.
    pub open spec fn from_value(x: u8) -> HashAlgorithm {
        if x == 0x0 {
            HashAlgorithm::NONE
        } else if x == 0x1 {
            HashAlgorithm::MD5
        } else if x == 0x2 {
            HashAlgorithm::SHA1
        } else if x == 0x3 {
            HashAlgorithm::SHA224
        } else if x == 0x4 {
            HashAlgorithm::SHA256
        } else if x == 0x5 {
            HashAlgorithm::SHA384
        } else if x == 0x6 {
            HashAlgorithm::SHA512
        } else {
            HashAlgorithm::Unknown(x)
        }
    }

    /// A value is canonical when no named variant has its code point in `Unknown`.
    pub open spec fn wf(self) -> bool {
        HashAlgorithm::from_value(self.value()) == self
    }

    pub fn get_u8(&self) -> (r: u8)
        ensures
            r == self.value(),
    {
        match *self {
            HashAlgorithm::NONE => 0x0,
            HashAlgorithm::MD5 => 0x1,
            HashAlgorithm::SHA1 => 0x2,
            HashAlgorithm::SHA224 => 0x3,
            HashAlgorithm::SHA256 => 0x4,
            HashAlgorithm::SHA384 => 0x5,
            HashAlgorithm::SHA512 => 0x6,
            HashAlgorithm::Unknown(x) => x,
        }
    }

    pub fn from_u8(x: u8) -> (r: HashAlgorithm)
        ensures
            r == HashAlgorithm::from_value(x),
            r.value() == x,
            r.wf(),
    {
        match x {
            0x0 => HashAlgorithm::NONE,
            0x1 => HashAlgorithm::MD5,
            0x2 => HashAlgorithm::SHA1,
            0x3 => HashAlgorithm::SHA224,
            0x4 => HashAlgorithm::SHA256,
            0x5 => HashAlgorithm::SHA384,
            0x6 => HashAlgorithm::SHA512,
            _ => HashAlgorithm::Unknown(x),
        }
    }

}

impl Codec for HashAlgorithm {
    open spec fn encoding(&self) -> Seq<u8> {
        seq![self.value()]
    }

    fn encode(&self, bytes: &mut Vec<u8>) {
        bytes.push(self.get_u8());
        assert(final(bytes)@ =~= old(bytes)@ + self.encoding());
    }

    fn read(r: &mut Reader) -> (res: Option<HashAlgorithm>)
        ensures
            old(r).rest().len() >= 1 ==> res == Some(HashAlgorithm::from_value(old(r).rest()[0])),
    {
        match r.read_u8() {
            Some(x) => {
                assert(old(r).rest() =~= seq![x] + r.rest());
                Some(HashAlgorithm::from_u8(x))
            }
            None => None,
        }
    }
}

/// A signature algorithm code.
#[allow(non_camel_case_types)]
#[derive(Clone, Copy, Debug, PartialEq, Eq, Structural)]
pub enum SignatureAlgorithm {
    Anonymous,
    RSA,
    DSA,
    ECDSA,
    Unknown(u8),
}

impl SignatureAlgorithm {
    /// The code point of this value.
    pub open spec fn value(self) -> u8 {
        match self {
            SignatureAlgorithm::Anonymous => 0x0,
            SignatureAlgorithm::RSA => 0x1,
            SignatureAlgorithm::DSA => 0x2,
            SignatureAlgorithm::ECDSA => 0x3,
            SignatureAlgorithm::Unknown(x) => x,
        }
    }

    /// The canonical value with code point `x`.
    pub open spec fn from_value(x: u8) -> SignatureAlgorithm {
        if x == 0x0 {
            SignatureAlgorithm::Anonymous
        } else if x == 0x1 {
            SignatureAlgorithm::RSA
        } else if x == 0x2 {
            SignatureAlgorithm::DSA
        } else if x == 0x3 {
            SignatureAlgorithm::ECDSA
        } else {
            SignatureAlgorithm::Unknown(x)
        }
    }

    /// A value is canonical when no named variant has its code point in `Unknown`.
    pub open spec fn wf(self) -> bool {
        SignatureAlgorithm::from_value(self.value()) == self
    }

    pub fn get_u8(&self) -> (r: u8)
        ensures
            r == self.value(),
    {
        match *self {
            SignatureAlgorithm::Anonymous => 0x0,
            SignatureAlgorithm::RSA => 0x1,
            SignatureAlgorithm::DSA => 0x2,
            SignatureAlgorithm::ECDSA => 0x3,
            SignatureAlgorithm::Unknown(x) => x,
        }
    }

    pub fn from_u8(x: u8) -> (r: SignatureAlgorithm)
        ensures
            r == SignatureAlgorithm::from_value(x),
            r.value() == x,
            r.wf(),
    {
        match x {
            0x0 => SignatureAlgorithm::Anonymous,
            0x1 => SignatureAlgorithm::RSA,
            0x2 => SignatureAlgorithm::DSA,
            0x3 => SignatureAlgorithm::ECDSA,
            _ => SignatureAlgorithm::Unknown(x),
        }
    }

}

impl Codec for SignatureAlgorithm {
    open spec fn encoding(&self) -> Seq<u8> {
        seq![self.value()]
    }

    fn encode(&self, bytes: &mut Vec<u8>) {
        bytes.push(self.get_u8());
        assert(final(bytes)@ =~= old(bytes)@ + self.encoding());
    }

    fn read(r: &mut Reader) -> (res: Option<SignatureAlgorithm>)
        ensures
            old(r).rest().len() >= 1 ==> res == Some(SignatureAlgorithm::from_value(old(r).rest()[0])),
    {
        match r.read_u8() {
            Some(x) => {
                assert(old(r).rest() =~= seq![x] + r.rest());
                Some(SignatureAlgorithm::from_u8(x))
            }
            None => None,
        }
    }
}

/// A signature scheme: a signature algorithm together with its hash.
#[allow(non_camel_case_types)]
#[derive(Clone, Copy, Debug, PartialEq, Eq, Structural)]
pub enum SignatureScheme {
    RSA_PKCS1_SHA1,
    ECDSA_SHA1_Legacy,
    RSA_PKCS1_SHA256,
    ECDSA_NISTP256_SHA256,
    RSA_PKCS1_SHA384,
    ECDSA_NISTP384_SHA384,
    RSA_PKCS1_SHA512,
    ECDSA_NISTP521_SHA512,
    RSA_PSS_SHA256,
    RSA_PSS_SHA384,
    RSA_PSS_SHA512,
    ED25519,
    ED448,
    Unknown(u16),
}

impl SignatureScheme {
    /// The code point of this value.
    pub open spec fn value(self) -> u16 {
        match self {
            SignatureScheme::RSA_PKCS1_SHA1 => 0x201,
            SignatureScheme::ECDSA_SHA1_Legacy => 0x203,
            SignatureScheme::RSA_PKCS1_SHA256 => 0x401,
            SignatureScheme::ECDSA_NISTP256_SHA256 => 0x403,
            SignatureScheme::RSA_PKCS1_SHA384 => 0x501,
            SignatureScheme::ECDSA_NISTP384_SHA384 => 0x503,
            SignatureScheme::RSA_PKCS1_SHA512 => 0x601,
            SignatureScheme::ECDSA_NISTP521_SHA512 => 0x603,
            SignatureScheme::RSA_PSS_SHA256 => 0x804,
            SignatureScheme::RSA_PSS_SHA384 => 0x805,
            SignatureScheme::RSA_PSS_SHA512 => 0x806,
            SignatureScheme::ED25519 => 0x807,
            SignatureScheme::ED448 => 0x808,
            SignatureScheme::Unknown(x) => x,
        }
    }

    /// The canonical value with code point `x`.
    pub open spec fn from_value(x: u16) -> SignatureScheme {
        if x == 0x201 {
            SignatureScheme::RSA_PKCS1_SHA1
        } else if x == 0x203 {
            SignatureScheme::ECDSA_SHA1_Legacy
        } else if x == 0x401 {
            SignatureScheme::RSA_PKCS1_SHA256
        } else if x == 0x403 {
            SignatureScheme::ECDSA_NISTP256_SHA256
        } else if x == 0x501 {
            SignatureScheme::RSA_PKCS1_SHA384
        } else if x == 0x503 {
            SignatureScheme::ECDSA_NISTP384_SHA384
        } else if x == 0x601 {
            SignatureScheme::RSA_PKCS1_SHA512
        } else if x == 0x603 {
            SignatureScheme::ECDSA_NISTP521_SHA512
        } else if x == 0x804 {
            SignatureScheme::RSA_PSS_SHA256
        } else if x == 0x805 {
            SignatureScheme::RSA_PSS_SHA384
        } else if x == 0x806 {
            SignatureScheme::RSA_PSS_SHA512
        } else if x == 0x807 {
            SignatureScheme::ED25519
        } else if x == 0x808 {
            SignatureScheme::ED448
        } else {
            SignatureScheme::Unknown(x)
        }
    }

    /// A value is canonical when no named variant has its code point in `Unknown`.
    pub open spec fn wf(self) -> bool {
        SignatureScheme::from_value(self.value()) == self
    }

    pub fn get_u16(&self) -> (r: u16)
        ensures
            r == self.value(),
    {
        match *self {
            SignatureScheme::RSA_PKCS1_SHA1 => 0x201,
            SignatureScheme::ECDSA_SHA1_Legacy => 0x203,
            SignatureScheme::RSA_PKCS1_SHA256 => 0x401,
            SignatureScheme::ECDSA_NISTP256_SHA256 => 0x403,
            SignatureScheme::RSA_PKCS1_SHA384 => 0x501,
            SignatureScheme::ECDSA_NISTP384_SHA384 => 0x503,
            SignatureScheme::RSA_PKCS1_SHA512 => 0x601,
            SignatureScheme::ECDSA_NISTP521_SHA512 => 0x603,
            SignatureScheme::RSA_PSS_SHA256 => 0x804,
            SignatureScheme::RSA_PSS_SHA384 => 0x805,
            SignatureScheme::RSA_PSS_SHA512 => 0x806,
            SignatureScheme::ED25519 => 0x807,
            SignatureScheme::ED448 => 0x808,
            SignatureScheme::Unknown(x) => x,
        }
    }

    pub fn from_u16(x: u16) -> (r: SignatureScheme)
        ensures
            r == SignatureScheme::from_value(x),
            r.value() == x,
            r.wf(),
    {
        match x {
            0x201 => SignatureScheme::RSA_PKCS1_SHA1,
            0x203 => SignatureScheme::ECDSA_SHA1_Legacy,
            0x401 => SignatureScheme::RSA_PKCS1_SHA256,
            0x403 => SignatureScheme::ECDSA_NISTP256_SHA256,
            0x501 => SignatureScheme::RSA_PKCS1_SHA384,
            0x503 => SignatureScheme::ECDSA_NISTP384_SHA384,
            0x601 => SignatureScheme::RSA_PKCS1_SHA512,
            0x603 => SignatureScheme::ECDSA_NISTP521_SHA512,
            0x804 => SignatureScheme::RSA_PSS_SHA256,
            0x805 => SignatureScheme::RSA_PSS_SHA384,
            0x806 => SignatureScheme::RSA_PSS_SHA512,
            0x807 => SignatureScheme::ED25519,
            0x808 => SignatureScheme::ED448,
            _ => SignatureScheme::Unknown(x),
        }
    }

}

impl Codec for SignatureScheme {
    open spec fn encoding(&self) -> Seq<u8> {
        be16(self.value())
    }

    fn encode(&self, bytes: &mut Vec<u8>) {
        encode_u16(self.get_u16(), bytes);
    }

    fn read(r: &mut Reader) -> (res: Option<SignatureScheme>)
        ensures
            old(r).rest().len() >= 2 ==> res == Some(SignatureScheme::from_value(be16_value(old(r).rest()))),
    {
        proof {
            if old(r).rest().len() >= 2 {
                lemma_be16_of_value(old(r).rest());
            }
        }
        match r.read_u16() {
            Some(x) => Some(SignatureScheme::from_u16(x)),
            None => None,
        }
    }
}

/// A named group for key exchange.
#[allow(non_camel_case_types)]
#[derive(Clone, Copy, Debug, PartialEq, Eq, Structural)]
pub enum NamedGroup {
    secp256r1,
    secp384r1,
    secp521r1,
    X25519,
    X448,
    Unknown(u16),
}

impl NamedGroup {
    /// The code point of this value.
    pub open spec fn value(self) -> u16 {
        match self {
            NamedGroup::secp256r1 => 0x17,
            NamedGroup::secp384r1 => 0x18,
            NamedGroup::secp521r1 => 0x19,
            NamedGroup::X25519 => 0x1d,
            NamedGroup::X448 => 0x1e,
            NamedGroup::Unknown(x) => x,
        }
    }

    /// The canonical value with code point `x`.
    pub open spec fn from_value(x: u16) -> NamedGroup {
        if x == 0x17 {
            NamedGroup::secp256r1
        } else if x == 0x18 {
            NamedGroup::secp384r1
        } else if x == 0x19 {
            NamedGroup::secp521r1
        } else if x == 0x1d {
            NamedGroup::X25519
        } else if x == 0x1e {
            NamedGroup::X448
        } else {
            NamedGroup::Unknown(x)
        }
    }

    /// A value is canonical when no named variant has its code point in `Unknown`.
    pub open spec fn wf(self) -> bool {
        NamedGroup::from_value(self.value()) == self
    }

    pub fn get_u16(&self) -> (r: u16)
        ensures
            r == self.value(),
    {
        match *self {
            NamedGroup::secp256r1 => 0x17,
            NamedGroup::secp384r1 => 0x18,
            NamedGroup::secp521r1 => 0x19,
            NamedGroup::X25519 => 0x1d,
            NamedGroup::X448 => 0x1e,
            NamedGroup::Unknown(x) => x,
        }
    }

    pub fn from_u16(x: u16) -> (r: NamedGroup)
        ensures
            r == NamedGroup::from_value(x),
            r.value() == x,
            r.wf(),
    {
        match x {
            0x17 => NamedGroup::secp256r1,
            0x18 => NamedGroup::secp384r1,
            0x19 => NamedGroup::secp521r1,
            0x1d => NamedGroup::X25519,
            0x1e => NamedGroup::X448,
            _ => NamedGroup::Unknown(x),
        }
    }

}

impl Codec for NamedGroup {
    open spec fn encoding(&self) -> Seq<u8> {
        be16(self.value())
    }

    fn encode(&self, bytes: &mut Vec<u8>) {
        encode_u16(self.get_u16(), bytes);
    }

    fn read(r: &mut Reader) -> (res: Option<NamedGroup>)
        ensures
            old(r).rest().len() >= 2 ==> res == Some(NamedGroup::from_value(be16_value(old(r).rest()))),
    {
        proof {
            if old(r).rest().len() >= 2 {
                lemma_be16_of_value(old(r).rest());
            }
        }
        match r.read_u16() {
            Some(x) => Some(NamedGroup::from_u16(x)),
            None => None,
        }
    }
}

/// An elliptic curve point format.
#[allow(non_camel_case_types)]
#[derive(Clone, Copy, Debug, PartialEq, Eq, Structural)]
pub enum ECPointFormat {
    Uncompressed,
    ANSIX962CompressedPrime,
    ANSIX962CompressedChar2,
    Unknown(u8),
}

impl ECPointFormat {
    /// The code point of this value.
    pub open spec fn value(self) -> u8 {
        match self {
            ECPointFormat::Uncompressed => 0x0,
            ECPointFormat::ANSIX962CompressedPrime => 0x1,
            ECPointFormat::ANSIX962CompressedChar2 => 0x2,
            ECPointFormat::Unknown(x) => x,
        }
    }

    /// The canonical value with code point `x`.
    pub open spec fn from_value(x: u8) -> ECPointFormat {
        if x == 0x0 {
            ECPointFormat::Uncompressed
        } else if x == 0x1 {
            ECPointFormat::ANSIX962CompressedPrime
        } else if x == 0x2 {
            ECPointFormat::ANSIX962CompressedChar2
        } else {
            ECPointFormat::Unknown(x)
        }
    }

    /// A value is canonical when no named variant has its code point in `Unknown`.
    pub open spec fn wf(self) -> bool {
        ECPointFormat::from_value(self.value()) == self
    }

    pub fn get_u8(&self) -> (r: u8)
        ensures
            r == self.value(),
    {
        match *self {
            ECPointFormat::Uncompressed => 0x0,
            ECPointFormat::ANSIX962CompressedPrime => 0x1,
            ECPointFormat::ANSIX962CompressedChar2 => 0x2,
            ECPointFormat::Unknown(x) => x,
        }
    }

    pub fn from_u8(x: u8) -> (r: ECPointFormat)
        ensures
            r == ECPointFormat::from_value(x),
            r.value() == x,
            r.wf(),
    {
        match x {
            0x0 => ECPointFormat::Uncompressed,
            0x1 => ECPointFormat::ANSIX962CompressedPrime,
            0x2 => ECPointFormat::ANSIX962CompressedChar2,
            _ => ECPointFormat::Unknown(x),
        }
    }

}

impl Codec for ECPointFormat {
    open spec fn encoding(&self) -> Seq<u8> {
        seq![self.value()]
    }

    fn encode(&self, bytes: &mut Vec<u8>) {
        bytes.push(self.get_u8());
        assert(final(bytes)@ =~= old(bytes)@ + self.encoding());
    }

    fn read(r: &mut Reader) -> (res: Option<ECPointFormat>)
        ensures
            old(r).rest().len() >= 1 ==> res == Some(ECPointFormat::from_value(old(r).rest()[0])),
    {
        match r.read_u8() {
            Some(x) => {
                assert(old(r).rest() =~= seq![x] + r.rest());
                Some(ECPointFormat::from_u8(x))
            }
            None => None,
        }
    }
}

/// How elliptic curve parameters are conveyed.
#[allow(non_camel_case_types)]
#[derive(Clone, Copy, Debug, PartialEq, Eq, Structural)]
pub enum ECCurveType {
    ExplicitPrime,
    ExplicitChar2,
    NamedCurve,
    Unknown(u8),
}

impl ECCurveType {
    /// The code point of this value.
    pub open spec fn value(self) -> u8 {
        match self {
            ECCurveType::ExplicitPrime => 0x1,
            ECCurveType::ExplicitChar2 => 0x2,
            ECCurveType::NamedCurve => 0x3,
            ECCurveType::Unknown(x) => x,
        }
    }

    /// The canonical value with code point `x`.
    pub open spec fn from_value(x: u8) -> ECCurveType {
        if x == 0x1 {
            ECCurveType::ExplicitPrime
        } else if x == 0x2 {
            ECCurveType::ExplicitChar2
        } else if x == 0x3 {
            ECCurveType::NamedCurve
        } else {
            ECCurveType::Unknown(x)
        }
    }

    /// A value is canonical when no named variant has its code point in `Unknown`.
    pub open spec fn wf(self) -> bool {
        ECCurveType::from_value(self.value()) == self
    }

    pub fn get_u8(&self) -> (r: u8)
        ensures
            r == self.value(),
    {
        match *self {
            ECCurveType::ExplicitPrime => 0x1,
            ECCurveType::ExplicitChar2 => 0x2,
            ECCurveType::NamedCurve => 0x3,
            ECCurveType::Unknown(x) => x,
        }
    }

    pub fn from_u8(x: u8) -> (r: ECCurveType)
        ensures
            r == ECCurveType::from_value(x),
            r.value() == x,
            r.wf(),
    {
        match x {
            0x1 => ECCurveType::ExplicitPrime,
            0x2 => ECCurveType::ExplicitChar2,
            0x3 => ECCurveType::NamedCurve,
            _ => ECCurveType::Unknown(x),
        }
    }

}

impl Codec for ECCurveType {
    open spec fn encoding(&self) -> Seq<u8> {
        seq![self.value()]
    }

    fn encode(&self, bytes: &mut Vec<u8>) {
        bytes.push(self.get_u8());
        assert(final(bytes)@ =~= old(bytes)@ + self.encoding());
    }

    fn read(r: &mut Reader) -> (res: Option<ECCurveType>)
        ensures
            old(r).rest().len() >= 1 ==> res == Some(ECCurveType::from_value(old(r).rest()[0])),
    {
        match r.read_u8() {
            Some(x) => {
                assert(old(r).rest() =~= seq![x] + r.rest());
                Some(ECCurveType::from_u8(x))
            }
            None => None,
        }
    }
}

/// A certificate type that a server asks the client for.
#[allow(non_camel_case_types)]
#[derive(Clone, Copy, Debug, PartialEq, Eq, Structural)]
pub enum ClientCertificateType {
    RSASign,
    DSSSign,
    RSAFixedDH,
    DSSFixedDH,
    RSAEphemeralDH,
    DSSEphemeralDH,
    FortezzaDMS,
    ECDSASign,
    RSAFixedECDH,
    ECDSAFixedECDH,
    Unknown(u8),
}

impl ClientCertificateType {
    /// The code point of this value.
    pub open spec fn value(self) -> u8 {
        match self {
            ClientCertificateType::RSASign => 0x1,
            ClientCertificateType::DSSSign => 0x2,
            ClientCertificateType::RSAFixedDH => 0x3,
            ClientCertificateType::DSSFixedDH => 0x4,
            ClientCertificateType::RSAEphemeralDH => 0x5,
            ClientCertificateType::DSSEphemeralDH => 0x6,
            ClientCertificateType::FortezzaDMS => 0x14,
            ClientCertificateType::ECDSASign => 0x40,
            ClientCertificateType::RSAFixedECDH => 0x41,
            ClientCertificateType::ECDSAFixedECDH => 0x42,
            ClientCertificateType::Unknown(x) => x,
        }
    }

    /// The canonical value with code point `x`.
    pub open spec fn from_value(x: u8) -> ClientCertificateType {
        if x == 0x1 {
            ClientCertificateType::RSASign
        } else if x == 0x2 {
            ClientCertificateType::DSSSign
        } else if x == 0x3 {
            ClientCertificateType::RSAFixedDH
        } else if x == 0x4 {
            ClientCertificateType::DSSFixedDH
        } else if x == 0x5 {
            ClientCertificateType::RSAEphemeralDH
        } else if x == 0x6 {
            ClientCertificateType::DSSEphemeralDH
        } else if x == 0x14 {
            ClientCertificateType::FortezzaDMS
        } else if x == 0x40 {
            ClientCertificateType::ECDSASign
        } else if x == 0x41 {
            ClientCertificateType::RSAFixedECDH
        } else if x == 0x42 {
            ClientCertificateType::ECDSAFixedECDH
        } else {
            ClientCertificateType::Unknown(x)
        }
    }

    /// A value is canonical when no named variant has its code point in `Unknown`.
    pub open spec fn wf(self) -> bool {
        ClientCertificateType::from_value(self.value()) == self
    }

    pub fn get_u8(&self) -> (r: u8)
        ensures
            r == self.value(),
    {
        match *self {
            ClientCertificateType::RSASign => 0x1,
            ClientCertificateType::DSSSign => 0x2,
            ClientCertificateType::RSAFixedDH => 0x3,
            ClientCertificateType::DSSFixedDH => 0x4,
            ClientCertificateType::RSAEphemeralDH => 0x5,
            ClientCertificateType::DSSEphemeralDH => 0x6,
            ClientCertificateType::FortezzaDMS => 0x14,
            ClientCertificateType::ECDSASign => 0x40,
            ClientCertificateType::RSAFixedECDH => 0x41,
            ClientCertificateType::ECDSAFixedECDH => 0x42,
            ClientCertificateType::Unknown(x) => x,
        }
    }

    pub fn from_u8(x: u8) -> (r: ClientCertificateType)
        ensures
            r == ClientCertificateType::from_value(x),
            r.value() == x,
            r.wf(),
    {
        match x {
            0x1 => ClientCertificateType::RSASign,
            0x2 => ClientCertificateType::DSSSign,
            0x3 => ClientCertificateType::RSAFixedDH,
            0x4 => ClientCertificateType::DSSFixedDH,
            0x5 => ClientCertificateType::RSAEphemeralDH,
            0x6 => ClientCertificateType::DSSEphemeralDH,
            0x14 => ClientCertificateType::FortezzaDMS,
            0x40 => ClientCertificateType::ECDSASign,
            0x41 => ClientCertificateType::RSAFixedECDH,
            0x42 => ClientCertificateType::ECDSAFixedECDH,
            _ => ClientCertificateType::Unknown(x),
        }
    }

}

impl Codec for ClientCertificateType {
    open spec fn encoding(&self) -> Seq<u8> {
        seq![self.value()]
    }

    fn encode(&self, bytes: &mut Vec<u8>) {
        bytes.push(self.get_u8());
        assert(final(bytes)@ =~= old(bytes)@ + self.encoding());
    }

    fn read(r: &mut Reader) -> (res: Option<ClientCertificateType>)
        ensures
            old(r).rest().len() >= 1 ==> res == Some(ClientCertificateType::from_value(old(r).rest()[0])),
    {
        match r.read_u8() {
            Some(x) => {
                assert(old(r).rest() =~= seq![x] + r.rest());
                Some(ClientCertificateType::from_u8(x))
            }
            None => None,
        }
    }
}

/// A heartbeat mode.
#[allow(non_camel_case_types)]
#[derive(Clone, Copy, Debug, PartialEq, Eq, Structural)]
pub enum HeartbeatMode {
    PeerAllowedToSend,
    PeerNotAllowedToSend,
    Unknown(u8),
}

impl HeartbeatMode {
    /// The code point of this value.
    pub open spec fn value(self) -> u8 {
        match self {
            HeartbeatMode::PeerAllowedToSend => 0x1,
            HeartbeatMode::PeerNotAllowedToSend => 0x2,
            HeartbeatMode::Unknown(x) => x,
        }
    }

    /// The canonical value with code point `x`.
    pub open spec fn from_value(x: u8) -> HeartbeatMode {
        if x == 0x1 {
            HeartbeatMode::PeerAllowedToSend
        } else if x == 0x2 {
            HeartbeatMode::PeerNotAllowedToSend
        } else {
            HeartbeatMode::Unknown(x)
        }
    }

    /// A value is canonical when no named variant has its code point in `Unknown`.
    pub open spec fn wf(self) -> bool {
        HeartbeatMode::from_value(self.value()) == self
    }

    pub fn get_u8(&self) -> (r: u8)
        ensures
            r == self.value(),
    {
        match *self {
            HeartbeatMode::PeerAllowedToSend => 0x1,
            HeartbeatMode::PeerNotAllowedToSend => 0x2,
            HeartbeatMode::Unknown(x) => x,
        }
    }

    pub fn from_u8(x: u8) -> (r: HeartbeatMode)
        ensures
            r == HeartbeatMode::from_value(x),
            r.value() == x,
            r.wf(),
    {
        match x {
            0x1 => HeartbeatMode::PeerAllowedToSend,
            0x2 => HeartbeatMode::PeerNotAllowedToSend,
            _ => HeartbeatMode::Unknown(x),
        }
    }

}

impl Codec for HeartbeatMode {
    open spec fn encoding(&self) -> Seq<u8> {
        seq![self.value()]
    }

    fn encode(&self, bytes: &mut Vec<u8>) {
        bytes.push(self.get_u8());
        assert(final(bytes)@ =~= old(bytes)@ + self.encoding());
    }

    fn read(r: &mut Reader) -> (res: Option<HeartbeatMode>)
        ensures
            old(r).rest().len() >= 1 ==> res == Some(HeartbeatMode::from_value(old(r).rest()[0])),
    {
        match r.read_u8() {
            Some(x) => {
                assert(old(r).rest() =~= seq![x] + r.rest());
                Some(HeartbeatMode::from_u8(x))
            }
            None => None,
        }
    }
}

/// The type of a server name.
#[allow(non_camel_case_types)]
#[derive(Clone, Copy, Debug, PartialEq, Eq, Structural)]
pub enum ServerNameType {
    HostName,
    Unknown(u8),
}

impl ServerNameType {
    /// The code point of this value.
    pub open spec fn value(self) -> u8 {
        match self {
            ServerNameType::HostName => 0x0,
            ServerNameType::Unknown(x) => x,
        }
    }

    /// The canonical value with code point `x`.
    pub open spec fn from_value(x: u8) -> ServerNameType {
        if x == 0x0 {
            ServerNameType::HostName
        } else {
            ServerNameType::Unknown(x)
        }
    }

    /// A value is canonical when no named variant has its code point in `Unknown`.
    pub open spec fn wf(self) -> bool {
        ServerNameType::from_value(self.value()) == self
    }

    pub fn get_u8(&self) -> (r: u8)
        ensures
            r == self.value(),
    {
        match *self {
            ServerNameType::HostName => 0x0,
            ServerNameType::Unknown(x) => x,
        }
    }

    pub fn from_u8(x: u8) -> (r: ServerNameType)
        ensures
            r == ServerNameType::from_value(x),
            r.value() == x,
            r.wf(),
    {
        match x {
            0x0 => ServerNameType::HostName,
            _ => ServerNameType::Unknown(x),
        }
    }

}

impl Codec for ServerNameType {
    open spec fn encoding(&self) -> Seq<u8> {
        seq![self.value()]
    }

    fn encode(&self, bytes: &mut Vec<u8>) {
        bytes.push(self.get_u8());
        assert(final(bytes)@ =~= old(bytes)@ + self.encoding());
    }

    fn read(r: &mut Reader) -> (res: Option<ServerNameType>)
        ensures
            old(r).rest().len() >= 1 ==> res == Some(ServerNameType::from_value(old(r).rest()[0])),
    {
        match r.read_u8() {
            Some(x) => {
                assert(old(r).rest() =~= seq![x] + r.rest());
                Some(ServerNameType::from_u8(x))
            }
            None => None,
        }
    }
}

/// Whether a key update is requested of the peer.
#[allow(non_camel_case_types)]
#[derive(Clone, Copy, Debug, PartialEq, Eq, Structural)]
pub enum KeyUpdateRequest {
    UpdateNotRequested,
    UpdateRequested,
    Unknown(u8),
}

impl KeyUpdateRequest {
    /// The code point of this value.
    pub open spec fn value(self) -> u8 {
        match self {
            KeyUpdateRequest::UpdateNotRequested => 0x0,
            KeyUpdateRequest::UpdateRequested => 0x1,
            KeyUpdateRequest::Unknown(x) => x,
        }
    }

    /// The canonical value with code point `x`.
    pub open spec fn from_value(x: u8) -> KeyUpdateRequest {
        if x == 0x0 {
            KeyUpdateRequest::UpdateNotRequested
        } else if x == 0x1 {
            KeyUpdateRequest::UpdateRequested
        } else {
            KeyUpdateRequest::Unknown(x)
        }
    }

    /// A value is canonical when no named variant has its code point in `Unknown`.
    pub open spec fn wf(self) -> bool {
        KeyUpdateRequest::from_value(self.value()) == self
    }

    pub fn get_u8(&self) -> (r: u8)
        ensures
            r == self.value(),
    {
        match *self {
            KeyUpdateRequest::UpdateNotRequested => 0x0,
            KeyUpdateRequest::UpdateRequested => 0x1,
            KeyUpdateRequest::Unknown(x) => x,
        }
    }

    pub fn from_u8(x: u8) -> (r: KeyUpdateRequest)
        ensures
            r == KeyUpdateRequest::from_value(x),
            r.value() == x,
            r.wf(),
    {
        match x {
            0x0 => KeyUpdateRequest::UpdateNotRequested,
            0x1 => KeyUpdateRequest::UpdateRequested,
            _ => KeyUpdateRequest::Unknown(x),
        }
    }

}

impl Codec for KeyUpdateRequest {
    open spec fn encoding(&self) -> Seq<u8> {
        seq![self.value()]
    }

    fn encode(&self, bytes: &mut Vec<u8>) {
        bytes.push(self.get_u8());
        assert(final(bytes)@ =~= old(bytes)@ + self.encoding());
    }

    fn read(r: &mut Reader) -> (res: Option<KeyUpdateRequest>)
        ensures
            old(r).rest().len() >= 1 ==> res == Some(KeyUpdateRequest::from_value(old(r).rest()[0])),
    {
        match r.read_u8() {
            Some(x) => {
                assert(old(r).rest() =~= seq![x] + r.rest());
                Some(KeyUpdateRequest::from_u8(x))
            }
            None => None,
        }
    }
}

/// The description carried by an alert.
#[allow(non_camel_case_types)]
#[derive(Clone, Copy, Debug, PartialEq, Eq, Structural)]
pub enum AlertDescription {
    CloseNotify,
    UnexpectedMessage,
    BadRecordMac,
    DecryptionFailed,
    RecordOverflow,
    DecompressionFailure,
    HandshakeFailure,
    NoCertificate,
    BadCertificate,
    UnsupportedCertificate,
    CertificateRevoked,
    CertificateExpired,
    CertificateUnknown,
    IllegalParameter,
    UnknownCA,
    AccessDenied,
    DecodeError,
    DecryptError,
    ExportRestriction,
    ProtocolVersion,
    InsufficientSecurity,
    InternalError,
    InappropriateFallback,
    UserCanceled,
    NoRenegotiation,
    MissingExtension,
    UnsupportedExtension,
    CertificateUnobtainable,
    UnrecognisedName,
    BadCertificateStatusResponse,
    BadCertificateHashValue,
    UnknownPSKIdentity,
    CertificateRequired,
    Unknown(u8),
}

impl AlertDescription {
    /// The code point of this value.
    pub open spec fn value(self) -> u8 {
        match self {
            AlertDescription::CloseNotify => 0x0,
            AlertDescription::UnexpectedMessage => 0xa,
            AlertDescription::BadRecordMac => 0x14,
            AlertDescription::DecryptionFailed => 0x15,
            AlertDescription::RecordOverflow => 0x16,
            AlertDescription::DecompressionFailure => 0x1e,
            AlertDescription::HandshakeFailure => 0x28,
            AlertDescription::NoCertificate => 0x29,
            AlertDescription::BadCertificate => 0x2a,
            AlertDescription::UnsupportedCertificate => 0x2b,
            AlertDescription::CertificateRevoked => 0x2c,
            AlertDescription::CertificateExpired => 0x2d,
            AlertDescription::CertificateUnknown => 0x2e,
            AlertDescription::IllegalParameter => 0x2f,
            AlertDescription::UnknownCA => 0x30,
            AlertDescription::AccessDenied => 0x31,
            AlertDescription::DecodeError => 0x32,
            AlertDescription::DecryptError => 0x33,
            AlertDescription::ExportRestriction => 0x3c,
            AlertDescription::ProtocolVersion => 0x46,
            AlertDescription::InsufficientSecurity => 0x47,
            AlertDescription::InternalError => 0x50,
            AlertDescription::InappropriateFallback => 0x56,
            AlertDescription::UserCanceled => 0x5a,
            AlertDescription::NoRenegotiation => 0x64,
            AlertDescription::MissingExtension => 0x6d,
            AlertDescription::UnsupportedExtension => 0x6e,
            AlertDescription::CertificateUnobtainable => 0x6f,
            AlertDescription::UnrecognisedName => 0x70,
            AlertDescription::BadCertificateStatusResponse => 0x71,
            AlertDescription::BadCertificateHashValue => 0x72,
            AlertDescription::UnknownPSKIdentity => 0x73,
            AlertDescription::CertificateRequired => 0x74,
            AlertDescription::Unknown(x) => x,
        }
    }

    /// The canonical value with code point `x`.
    pub open spec fn from_value(x: u8) -> AlertDescription {
        if x == 0x0 {
            AlertDescription::CloseNotify
        } else if x == 0xa {
            AlertDescription::UnexpectedMessage
        } else if x == 0x14 {
            AlertDescription::BadRecordMac
        } else if x == 0x15 {
            AlertDescription::DecryptionFailed
        } else if x == 0x16 {
            AlertDescription::RecordOverflow
        } else if x == 0x1e {
            AlertDescription::DecompressionFailure
        } else if x == 0x28 {
            AlertDescription::HandshakeFailure
        } else if x == 0x29 {
            AlertDescription::NoCertificate
        } else if x == 0x2a {
            AlertDescription::BadCertificate
        } else if x == 0x2b {
            AlertDescription::UnsupportedCertificate
        } else if x == 0x2c {
            AlertDescription::CertificateRevoked
        } else if x == 0x2d {
            AlertDescription::CertificateExpired
        } else if x == 0x2e {
            AlertDescription::CertificateUnknown
        } else if x == 0x2f {
            AlertDescription::IllegalParameter
        } else if x == 0x30 {
            AlertDescription::UnknownCA
        } else if x == 0x31 {
            AlertDescription::AccessDenied
        } else if x == 0x32 {
            AlertDescription::DecodeError
        } else if x == 0x33 {
            AlertDescription::DecryptError
        } else if x == 0x3c {
            AlertDescription::ExportRestriction
        } else if x == 0x46 {
            AlertDescription::ProtocolVersion
        } else if x == 0x47 {
            AlertDescription::InsufficientSecurity
        } else if x == 0x50 {
            AlertDescription::InternalError
        } else if x == 0x56 {
            AlertDescription::InappropriateFallback
        } else if x == 0x5a {
            AlertDescription::UserCanceled
        } else if x == 0x64 {
            AlertDescription::NoRenegotiation
        } else if x == 0x6d {
            AlertDescription::MissingExtension
        } else if x == 0x6e {
            AlertDescription::UnsupportedExtension
        } else if x == 0x6f {
            AlertDescription::CertificateUnobtainable
        } else if x == 0x70 {
            AlertDescription::UnrecognisedName
        } else if x == 0x71 {
            AlertDescription::BadCertificateStatusResponse
        } else if x == 0x72 {
            AlertDescription::BadCertificateHashValue
        } else if x == 0x73 {
            AlertDescription::UnknownPSKIdentity
        } else if x == 0x74 {
            AlertDescription::CertificateRequired
        } else {
            AlertDescription::Unknown(x)
        }
    }

    /// A value is canonical when no named variant has its code point in `Unknown`.
    pub open spec fn wf(self) -> bool {
        AlertDescription::from_value(self.value()) == self
    }

    pub fn get_u8(&self) -> (r: u8)
        ensures
            r == self.value(),
    {
        match *self {
            AlertDescription::CloseNotify => 0x0,
            AlertDescription::UnexpectedMessage => 0xa,
            AlertDescription::BadRecordMac => 0x14,
            AlertDescription::DecryptionFailed => 0x15,
            AlertDescription::RecordOverflow => 0x16,
            AlertDescription::DecompressionFailure => 0x1e,
            AlertDescription::HandshakeFailure => 0x28,
            AlertDescription::NoCertificate => 0x29,
            AlertDescription::BadCertificate => 0x2a,
            AlertDescription::UnsupportedCertificate => 0x2b,
            AlertDescription::CertificateRevoked => 0x2c,
            AlertDescription::CertificateExpired => 0x2d,
            AlertDescription::CertificateUnknown => 0x2e,
            AlertDescription::IllegalParameter => 0x2f,
            AlertDescription::UnknownCA => 0x30,
            AlertDescription::AccessDenied => 0x31,
            AlertDescription::DecodeError => 0x32,
            AlertDescription::DecryptError => 0x33,
            AlertDescription::ExportRestriction => 0x3c,
            AlertDescription::ProtocolVersion => 0x46,
            AlertDescription::InsufficientSecurity => 0x47,
            AlertDescription::InternalError => 0x50,
            AlertDescription::InappropriateFallback => 0x56,
            AlertDescription::UserCanceled => 0x5a,
            AlertDescription::NoRenegotiation => 0x64,
            AlertDescription::MissingExtension => 0x6d,
            AlertDescription::UnsupportedExtension => 0x6e,
            AlertDescription::CertificateUnobtainable => 0x6f,
            AlertDescription::UnrecognisedName => 0x70,
            AlertDescription::BadCertificateStatusResponse => 0x71,
            AlertDescription::BadCertificateHashValue => 0x72,
            AlertDescription::UnknownPSKIdentity => 0x73,
            AlertDescription::CertificateRequired => 0x74,
            AlertDescription::Unknown(x) => x,
        }
    }

    pub fn from_u8(x: u8) -> (r: AlertDescription)
        ensures
            r == AlertDescription::from_value(x),
            r.value() == x,
            r.wf(),
    {
        match x {
            0x0 => AlertDescription::CloseNotify,
            0xa => AlertDescription::UnexpectedMessage,
            0x14 => AlertDescription::BadRecordMac,
            0x15 => AlertDescription::DecryptionFailed,
            0x16 => AlertDescription::RecordOverflow,
            0x1e => AlertDescription::DecompressionFailure,
            0x28 => AlertDescription::HandshakeFailure,
            0x29 => AlertDescription::NoCertificate,
            0x2a => AlertDescription::BadCertificate,
            0x2b => AlertDescription::UnsupportedCertificate,
            0x2c => AlertDescription::CertificateRevoked,
            0x2d => AlertDescription::CertificateExpired,
            0x2e => AlertDescription::CertificateUnknown,
            0x2f => AlertDescription::IllegalParameter,
            0x30 => AlertDescription::UnknownCA,
            0x31 => AlertDescription::AccessDenied,
            0x32 => AlertDescription::DecodeError,
            0x33 => AlertDescription::DecryptError,
            0x3c => AlertDescription::ExportRestriction,
            0x46 => AlertDescription::ProtocolVersion,
            0x47 => AlertDescription::InsufficientSecurity,
            0x50 => AlertDescription::InternalError,
            0x56 => AlertDescription::InappropriateFallback,
            0x5a => AlertDescription::UserCanceled,
            0x64 => AlertDescription::NoRenegotiation,
            0x6d => AlertDescription::MissingExtension,
            0x6e => AlertDescription::UnsupportedExtension,
            0x6f => AlertDescription::CertificateUnobtainable,
            0x70 => AlertDescription::UnrecognisedName,
            0x71 => AlertDescription::BadCertificateStatusResponse,
            0x72 => AlertDescription::BadCertificateHashValue,
            0x73 => AlertDescription::UnknownPSKIdentity,
            0x74 => AlertDescription::CertificateRequired,
            _ => AlertDescription::Unknown(x),
        }
    }

}

impl Codec for AlertDescription {
    open spec fn encoding(&self) -> Seq<u8> {
        seq![self.value()]
    }

    fn encode(&self, bytes: &mut Vec<u8>) {
        bytes.push(self.get_u8());
        assert(final(bytes)@ =~= old(bytes)@ + self.encoding());
    }

    fn read(r: &mut Reader) -> (res: Option<AlertDescription>)
        ensures
            old(r).rest().len() >= 1 ==> res == Some(AlertDescription::from_value(old(r).rest()[0])),
    {
        match r.read_u8() {
            Some(x) => {
                assert(old(r).rest() =~= seq![x] + r.rest());
                Some(AlertDescription::from_u8(x))
            }
            None => None,
        }
    }
}

/// A cipher suite code.
#[allow(non_camel_case_types)]
#[derive(Clone, Copy, Debug, PartialEq, Eq, Structural)]
pub enum CipherSuite {
    TLS_EMPTY_RENEGOTIATION_INFO_SCSV,
    TLS13_AES_128_GCM_SHA256,
    TLS13_AES_256_GCM_SHA384,
    TLS13_CHACHA20_POLY1305_SHA256,
    TLS_ECDHE_ECDSA_WITH_AES_128_GCM_SHA256,
    TLS_ECDHE_ECDSA_WITH_AES_256_GCM_SHA384,
    TLS_ECDHE_RSA_WITH_AES_128_GCM_SHA256,
    TLS_ECDHE_RSA_WITH_AES_256_GCM_SHA384,
    TLS_ECDHE_RSA_WITH_CHACHA20_POLY1305_SHA256,
    TLS_ECDHE_ECDSA_WITH_CHACHA20_POLY1305_SHA256,
    Unknown(u16),
}

impl CipherSuite {
    /// The code point of this value.
    pub open spec fn value(self) -> u16 {
        match self {
            CipherSuite::TLS_EMPTY_RENEGOTIATION_INFO_SCSV => 0xff,
            CipherSuite::TLS13_AES_128_GCM_SHA256 => 0x1301,
            CipherSuite::TLS13_AES_256_GCM_SHA384 => 0x1302,
            CipherSuite::TLS13_CHACHA20_POLY1305_SHA256 => 0x1303,
            CipherSuite::TLS_ECDHE_ECDSA_WITH_AES_128_GCM_SHA256 => 0xc02b,
            CipherSuite::TLS_ECDHE_ECDSA_WITH_AES_256_GCM_SHA384 => 0xc02c,
            CipherSuite::TLS_ECDHE_RSA_WITH_AES_128_GCM_SHA256 => 0xc02f,
            CipherSuite::TLS_ECDHE_RSA_WITH_AES_256_GCM_SHA384 => 0xc030,
            CipherSuite::TLS_ECDHE_RSA_WITH_CHACHA20_POLY1305_SHA256 => 0xcca8,
            CipherSuite::TLS_ECDHE_ECDSA_WITH_CHACHA20_POLY1305_SHA256 => 0xcca9,
            CipherSuite::Unknown(x) => x,
        }
    }

    /// The canonical value with code point `x`.
    pub open spec fn from_value(x: u16) -> CipherSuite {
        if x == 0xff {
            CipherSuite::TLS_EMPTY_RENEGOTIATION_INFO_SCSV
        } else if x == 0x1301 {
            CipherSuite::TLS13_AES_128_GCM_SHA256
        } else if x == 0x1302 {
            CipherSuite::TLS13_AES_256_GCM_SHA384
        } else if x == 0x1303 {
            CipherSuite::TLS13_CHACHA20_POLY1305_SHA256
        } else if x == 0xc02b {
            CipherSuite::TLS_ECDHE_ECDSA_WITH_AES_128_GCM_SHA256
        } else if x == 0xc02c {
            CipherSuite::TLS_ECDHE_ECDSA_WITH_AES_256_GCM_SHA384
        } else if x == 0xc02f {
            CipherSuite::TLS_ECDHE_RSA_WITH_AES_128_GCM_SHA256
        } else if x == 0xc030 {
            CipherSuite::TLS_ECDHE_RSA_WITH_AES_256_GCM_SHA384
        } else if x == 0xcca8 {
            CipherSuite::TLS_ECDHE_RSA_WITH_CHACHA20_POLY1305_SHA256
        } else if x == 0xcca9 {
            CipherSuite::TLS_ECDHE_ECDSA_WITH_CHACHA20_POLY1305_SHA256
        } else {
            CipherSuite::Unknown(x)
        }
    }

    /// A value is canonical when no named variant has its code point in `Unknown`.
    pub open spec fn wf(self) -> bool {
        CipherSuite::from_value(self.value()) == self
    }

    pub fn get_u16(&self) -> (r: u16)
        ensures
            r == self.value(),
    {
        match *self {
            CipherSuite::TLS_EMPTY_RENEGOTIATION_INFO_SCSV => 0xff,
            CipherSuite::TLS13_AES_128_GCM_SHA256 => 0x1301,
            CipherSuite::TLS13_AES_256_GCM_SHA384 => 0x1302,
            CipherSuite::TLS13_CHACHA20_POLY1305_SHA256 => 0x1303,
            CipherSuite::TLS_ECDHE_ECDSA_WITH_AES_128_GCM_SHA256 => 0xc02b,
            CipherSuite::TLS_ECDHE_ECDSA_WITH_AES_256_GCM_SHA384 => 0xc02c,
            CipherSuite::TLS_ECDHE_RSA_WITH_AES_128_GCM_SHA256 => 0xc02f,
            CipherSuite::TLS_ECDHE_RSA_WITH_AES_256_GCM_SHA384 => 0xc030,
            CipherSuite::TLS_ECDHE_RSA_WITH_CHACHA20_POLY1305_SHA256 => 0xcca8,
            CipherSuite::TLS_ECDHE_ECDSA_WITH_CHACHA20_POLY1305_SHA256 => 0xcca9,
            CipherSuite::Unknown(x) => x,
        }
    }

    pub fn from_u16(x: u16) -> (r: CipherSuite)
        ensures
            r == CipherSuite::from_value(x),
            r.value() == x,
            r.wf(),
    {
        match x {
            0xff => CipherSuite::TLS_EMPTY_RENEGOTIATION_INFO_SCSV,
            0x1301 => CipherSuite::TLS13_AES_128_GCM_SHA256,
            0x1302 => CipherSuite::TLS13_AES_256_GCM_SHA384,
            0x1303 => CipherSuite::TLS13_CHACHA20_POLY1305_SHA256,
            0xc02b => CipherSuite::TLS_ECDHE_ECDSA_WITH_AES_128_GCM_SHA256,
            0xc02c => CipherSuite::TLS_ECDHE_ECDSA_WITH_AES_256_GCM_SHA384,
            0xc02f => CipherSuite::TLS_ECDHE_RSA_WITH_AES_128_GCM_SHA256,
            0xc030 => CipherSuite::TLS_ECDHE_RSA_WITH_AES_256_GCM_SHA384,
            0xcca8 => CipherSuite::TLS_ECDHE_RSA_WITH_CHACHA20_POLY1305_SHA256,
            0xcca9 => CipherSuite::TLS_ECDHE_ECDSA_WITH_CHACHA20_POLY1305_SHA256,
            _ => CipherSuite::Unknown(x),
        }
    }

}

impl Codec for CipherSuite {
    open spec fn encoding(&self) -> Seq<u8> {
        be16(self.value())
    }

    fn encode(&self, bytes: &mut Vec<u8>) {
        encode_u16(self.get_u16(), bytes);
    }

    fn read(r: &mut Reader) -> (res: Option<CipherSuite>)
        ensures
            old(r).rest().len() >= 2 ==> res == Some(CipherSuite::from_value(be16_value(old(r).rest()))),
    {
        proof {
            if old(r).rest().len() >= 2 {
                lemma_be16_of_value(old(r).rest());
            }
        }
        match r.read_u16() {
            Some(x) => Some(CipherSuite::from_u16(x)),
            None => None,
        }
    }
}

} // verus!
