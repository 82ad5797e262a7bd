//! Which messages each handshake state accepts.

use vstd::prelude::*;
use crate::client_hs::ClientState;
use crate::enums::{ContentType, HandshakeType};
use crate::error::TLSError;
use crate::server_hs::ServerState;

verus! {

/// The content types a state accepts and, for handshake records, the
/// handshake types (none listed: any).
pub struct Expectation {
    pub content_types: Vec<ContentType>,
    pub handshake_types: Vec<HandshakeType>,
}

pub open spec fn spec_client_expect(s: ClientState) -> (Seq<ContentType>, Seq<HandshakeType>) {
    match s {
        ClientState::ExpectServerHello => (seq![ContentType::Handshake], seq![HandshakeType::ServerHello]),
        ClientState::ExpectEncryptedExtensions => (seq![ContentType::Handshake], seq![HandshakeType::EncryptedExtensions]),
        ClientState::ExpectCertificate => (seq![ContentType::Handshake], seq![HandshakeType::Certificate]),
        ClientState::ExpectCertificateVerify => (seq![ContentType::Handshake], seq![HandshakeType::CertificateVerify]),
        ClientState::ExpectServerKX => (seq![ContentType::Handshake], seq![HandshakeType::ServerKeyExchange]),
        ClientState::ExpectServerHelloDoneOrCertRequest => (seq![ContentType::Handshake], seq![HandshakeType::CertificateRequest, HandshakeType::ServerHelloDone]),
        ClientState::ExpectServerHelloDone => (seq![ContentType::Handshake], seq![HandshakeType::ServerHelloDone]),
        ClientState::ExpectNewTicket => (seq![ContentType::Handshake], seq![HandshakeType::NewSessionTicket]),
        ClientState::ExpectCCS => (seq![ContentType::ChangeCipherSpec], seq![]),
        ClientState::ExpectFinished => (seq![ContentType::Handshake], seq![HandshakeType::Finished]),
        ClientState::ExpectNewTicketResume => (seq![ContentType::Handshake], seq![HandshakeType::NewSessionTicket]),
        ClientState::ExpectCCSResume => (seq![ContentType::ChangeCipherSpec], seq![]),
        ClientState::ExpectFinishedResume => (seq![ContentType::Handshake], seq![]),
        ClientState::TrafficTLS12 => (seq![ContentType::ApplicationData], seq![]),
        ClientState::TrafficTLS13 => (seq![ContentType::ApplicationData, ContentType::Handshake], seq![HandshakeType::NewSessionTicket]),
    }
}

pub open spec fn spec_server_expect(s: ServerState) -> (Seq<ContentType>, Seq<HandshakeType>) {
    match s {
        ServerState::ExpectClientHello => (seq![ContentType::Handshake], seq![HandshakeType::ClientHello]),
        ServerState::ExpectCertificate => (seq![ContentType::Handshake], seq![HandshakeType::Certificate]),
        ServerState::ExpectClientKX => (seq![ContentType::Handshake], seq![HandshakeType::ClientKeyExchange]),
        ServerState::ExpectCertificateVerify => (seq![ContentType::Handshake], seq![HandshakeType::CertificateVerify]),
        ServerState::ExpectCCS => (seq![ContentType::ChangeCipherSpec], seq![]),
        ServerState::ExpectFinished => (seq![ContentType::Handshake], seq![HandshakeType::Finished]),
        ServerState::ExpectFinishedTLS13 => (seq![ContentType::Handshake], seq![HandshakeType::Finished]),
        ServerState::Traffic => (seq![ContentType::ApplicationData], seq![]),
    }
}

fn expectation(c: &[ContentType], h: &[HandshakeType]) -> (r: Expectation)
    ensures
        r.content_types@ == c@,
        r.handshake_types@ == h@,
{
    let mut content_types: Vec<ContentType> = Vec::new();
    let mut i: usize = 0;
    while i < c.len()
        invariant
            0 <= i <= c@.len(),
            content_types@ == c@.take(i as int),
        decreases c@.len() - i,
    {
        content_types.push(c[i]);
        i = i + 1;
        assert(content_types@ =~= c@.take(i as int));
    }
    let mut handshake_types: Vec<HandshakeType> = Vec::new();
    let mut j: usize = 0;
    while j < h.len()
        invariant
            0 <= j <= h@.len(),
            handshake_types@ == h@.take(j as int),
        decreases h@.len() - j,
    {
        handshake_types.push(h[j]);
        j = j + 1;
        assert(handshake_types@ =~= h@.take(j as int));
    }
    assert(c@.take(i as int) =~= c@);
    assert(h@.take(j as int) =~= h@);
    Expectation { content_types, handshake_types }
}

/// What the client accepts in state `s`.
pub fn client_expect(s: ClientState) -> (r: Expectation)
    ensures
        (r.content_types@, r.handshake_types@) == spec_client_expect(s),
{
    let hs = ContentType::Handshake;
    let ccs = ContentType::ChangeCipherSpec;
    let r = match s {
        ClientState::ExpectServerHello => expectation(&[hs], &[HandshakeType::ServerHello]),
        ClientState::ExpectEncryptedExtensions => expectation(&[hs], &[HandshakeType::EncryptedExtensions]),
        ClientState::ExpectCertificate => expectation(&[hs], &[HandshakeType::Certificate]),
        ClientState::ExpectCertificateVerify => expectation(&[hs], &[HandshakeType::CertificateVerify]),
        ClientState::ExpectServerKX => expectation(&[hs], &[HandshakeType::ServerKeyExchange]),
        ClientState::ExpectServerHelloDoneOrCertRequest => expectation(&[hs], &[HandshakeType::CertificateRequest, HandshakeType::ServerHelloDone]),
        ClientState::ExpectServerHelloDone => expectation(&[hs], &[HandshakeType::ServerHelloDone]),
        ClientState::ExpectNewTicket => expectation(&[hs], &[HandshakeType::NewSessionTicket]),
        ClientState::ExpectCCS => expectation(&[ccs], &[]),
        ClientState::ExpectFinished => expectation(&[hs], &[HandshakeType::Finished]),
        ClientState::ExpectNewTicketResume => expectation(&[hs], &[HandshakeType::NewSessionTicket]),
        ClientState::ExpectCCSResume => expectation(&[ccs], &[]),
        ClientState::ExpectFinishedResume => expectation(&[hs], &[]),
        ClientState::TrafficTLS12 => expectation(&[ContentType::ApplicationData], &[]),
        ClientState::TrafficTLS13 => expectation(&[ContentType::ApplicationData, hs], &[HandshakeType::NewSessionTicket]),
    };
    assert((r.content_types@, r.handshake_types@) =~= spec_client_expect(s));
    r
}

/// What the server accepts in state `s`.
pub fn server_expect(s: ServerState) -> (r: Expectation)
    ensures
        (r.content_types@, r.handshake_types@) == spec_server_expect(s),
{
    let hs = ContentType::Handshake;
    let r = match s {
        ServerState::ExpectClientHello => expectation(&[hs], &[HandshakeType::ClientHello]),
        ServerState::ExpectCertificate => expectation(&[hs], &[HandshakeType::Certificate]),
        ServerState::ExpectClientKX => expectation(&[hs], &[HandshakeType::ClientKeyExchange]),
        ServerState::ExpectCertificateVerify => expectation(&[hs], &[HandshakeType::CertificateVerify]),
        ServerState::ExpectCCS => expectation(&[ContentType::ChangeCipherSpec], &[]),
        ServerState::ExpectFinished => expectation(&[hs], &[HandshakeType::Finished]),
        ServerState::ExpectFinishedTLS13 => expectation(&[hs], &[HandshakeType::Finished]),
        ServerState::Traffic => expectation(&[ContentType::ApplicationData], &[]),
    };
    assert((r.content_types@, r.handshake_types@) =~= spec_server_expect(s));
    r
}

fn copy_types<T: Copy>(v: &Vec<T>) -> (r: Vec<T>)
    ensures
        r@ == v@,
{
    let mut r: Vec<T> = Vec::new();
    let mut i: usize = 0;
    while i < v.len()
        invariant
            0 <= i <= v@.len(),
            r@ == v@.take(i as int),
        decreases v@.len() - i,
    {
        r.push(v[i]);
        i = i + 1;
        assert(r@ =~= v@.take(i as int));
    }
    assert(v@.take(i as int) =~= v@);
    r
}

/// Whether a message is one `e` accepts: its content type is listed, and a
/// handshake message's type is listed when any are.
pub open spec fn accepts(e: (Seq<ContentType>, Seq<HandshakeType>), ct: ContentType, ht: Option<HandshakeType>) -> bool {
    e.0.contains(ct) && (ct == ContentType::Handshake && e.1.len() > 0 ==> (ht matches Some(t) && e.1.contains(t)))
}

impl Expectation {
    /// Checks a message of content type `ct` (and handshake type `ht`, for a
    /// handshake message) against this expectation.
    pub fn check_message(&self, ct: ContentType, ht: Option<HandshakeType>) -> (r: Result<(), TLSError>)
        ensures
            r is Ok <==> accepts((self.content_types@, self.handshake_types@), ct, ht),
            !self.content_types@.contains(ct) ==> (r matches Err(TLSError::InappropriateMessage { expect_types, got_type })
                && expect_types@ == self.content_types@ && got_type == ct),
    {
        let mut found = false;
        let mut i: usize = 0;
        while i < self.content_types.len()
            invariant
                0 <= i <= self.content_types@.len(),
                found <==> exists|j: int| 0 <= j < i && self.content_types@[j] == ct,
            decreases self.content_types@.len() - i,
        {
            if self.content_types[i] == ct {
                found = true;
            }
            i = i + 1;
        }
        if !found {
            return Err(TLSError::InappropriateMessage { expect_types: copy_types(&self.content_types), got_type: ct });
        }
        if ct == ContentType::Handshake && self.handshake_types.len() > 0 {
            let t = match ht {
                Some(t) => t,
                None => return Err(TLSError::InappropriateHandshakeMessage { expect_types: copy_types(&self.handshake_types), got_type: HandshakeType::Unknown(0xff) }),
            };
            let mut ok = false;
            let mut j: usize = 0;
            while j < self.handshake_types.len()
                invariant
                    0 <= j <= self.handshake_types@.len(),
                    ok <==> exists|k: int| 0 <= k < j && self.handshake_types@[k] == t,
                decreases self.handshake_types@.len() - j,
            {
                if self.handshake_types[j] == t {
                    ok = true;
                }
                j = j + 1;
            }
            if !ok {
                return Err(TLSError::InappropriateHandshakeMessage { expect_types: copy_types(&self.handshake_types), got_type: t });
            }
        }
        Ok(())
    }
}

} // verus!
