//! Why a handshake stops, and which alert goes to the peer when it does.

use vstd::prelude::*;
use crate::enums::{AlertDescription, ContentType, HandshakeType};

verus! {

/// Ways in which a peer broke the protocol.
#[derive(Debug, Clone, Copy, PartialEq, Eq, Structural)]
pub enum Misbehaviour {
    NonNullCompression,
    DuplicateExtensions,
    UnsolicitedExtension,
    NonOfferedAlpnProtocol,
    NonOfferedCipherSuite,
    ResumptionVariedCipherSuite,
    MissingKeyShare,
    WrongKeyShareGroup,
    KeyExchangeFailed,
    WrongSignatureAlgorithm,
    EmptyAlpnProtocol,
}

/// Ways in which a peer has nothing in common with us.
#[derive(Debug, Clone, Copy, PartialEq, Eq, Structural)]
pub enum Incompatibility {
    NoSupportedVersion,
    ClientTooOld,
    NoNullCompression,
    NoCipherSuiteInCommon,
    NoGroupsDescribed,
    NoSignatureSchemesDescribed,
    NoKeySharesSent,
    NoGroupInCommon,
    NoPointFormatsDescribed,
    NoUncompressedPoints,
    NoSignatureSchemeInCommon,
    NoPointFormatInCommon,
    UndecodableKeyExchange,
}

/// Failures of our own side.
#[derive(Debug, Clone, Copy, PartialEq, Eq, Structural)]
pub enum Internal {
    NoCertificateResolved,
    SigningFailed,
    NoSignatureSchemeInCommon,
}

/// Why a session stopped.
#[derive(Debug, Clone, PartialEq, Eq)]
pub enum TLSError {
    /// The current state does not accept a message of this content type.
    InappropriateMessage { expect_types: Vec<ContentType>, got_type: ContentType },
    /// The current state does not accept a handshake message of this type.
    InappropriateHandshakeMessage { expect_types: Vec<HandshakeType>, got_type: HandshakeType },
    PeerIncompatibleError(Incompatibility),
    PeerMisbehavedError(Misbehaviour),
    AlertReceived(AlertDescription),
    DecryptError,
    General(Internal),
}

/// A fatal end of the handshake: the error, and the alert owed to the peer.
#[derive(Debug, Clone)]
pub struct Rejection {
    pub alert: Option<AlertDescription>,
    pub error: TLSError,
}

pub open spec fn spec_reject(alert: Option<AlertDescription>, error: TLSError) -> Rejection {
    Rejection { alert, error }
}

pub fn reject(alert: Option<AlertDescription>, error: TLSError) -> (r: Rejection)
    ensures
        r == spec_reject(alert, error),
{
    Rejection { alert, error }
}

pub open spec fn misbehaved(alert: Option<AlertDescription>, why: Misbehaviour) -> Rejection {
    spec_reject(alert, TLSError::PeerMisbehavedError(why))
}

pub open spec fn incompatible(alert: Option<AlertDescription>, why: Incompatibility) -> Rejection {
    spec_reject(alert, TLSError::PeerIncompatibleError(why))
}

pub fn misbehaved_by(alert: Option<AlertDescription>, why: Misbehaviour) -> (r: Rejection)
    ensures
        r == misbehaved(alert, why),
{
    Rejection { alert, error: TLSError::PeerMisbehavedError(why) }
}

pub fn incompatible_by(alert: Option<AlertDescription>, why: Incompatibility) -> (r: Rejection)
    ensures
        r == incompatible(alert, why),
{
    Rejection { alert, error: TLSError::PeerIncompatibleError(why) }
}

/// The error when a ChangeCipherSpec comes where a handshake message was due.
pub open spec fn is_ccs_interleaved(e: TLSError) -> bool {
    e matches TLSError::InappropriateMessage { expect_types, got_type } && expect_types@ == seq![
        ContentType::Handshake,
    ] && got_type == ContentType::ChangeCipherSpec
}

pub fn ccs_interleaved() -> (e: TLSError)
    ensures
        is_ccs_interleaved(e),
{
    let mut expect_types: Vec<ContentType> = Vec::new();
    expect_types.push(ContentType::Handshake);
    assert(expect_types@ =~= seq![ContentType::Handshake]);
    let e = TLSError::InappropriateMessage {
        expect_types,
        got_type: ContentType::ChangeCipherSpec,
    };
    e
}

} // verus!
