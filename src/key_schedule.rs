//! The TLS 1.3 key schedule: HKDF-Extract over the stage inputs, and
//! HKDF-Expand-Label for traffic secrets and Finished keys.

use vstd::prelude::*;
use crate::codec::{append_bytes, be16, encode_u16};
use crate::crypto::{
    get_hash_len, hash_len, hkdf_expand, hkdf_expand_of, hmac_of, hmac_sign, max_input,
    supported_hash,
};
use crate::enums::HashAlgorithm;

verus! {

/// The bytes of "tls13 ".
pub open spec fn label_prefix() -> Seq<u8> {
    seq![116, 108, 115, 49, 51, 32]
}

/// The bytes of "c hs traffic".
pub open spec fn label_c_hs() -> Seq<u8> {
    seq![99, 32, 104, 115, 32, 116, 114, 97, 102, 102, 105, 99]
}

/// The bytes of "s hs traffic".
pub open spec fn label_s_hs() -> Seq<u8> {
    seq![115, 32, 104, 115, 32, 116, 114, 97, 102, 102, 105, 99]
}

/// The bytes of "c ap traffic".
pub open spec fn label_c_ap() -> Seq<u8> {
    seq![99, 32, 97, 112, 32, 116, 114, 97, 102, 102, 105, 99]
}

/// The bytes of "s ap traffic".
pub open spec fn label_s_ap() -> Seq<u8> {
    seq![115, 32, 97, 112, 32, 116, 114, 97, 102, 102, 105, 99]
}

/// The bytes of "finished".
pub open spec fn label_finished() -> Seq<u8> {
    seq![102, 105, 110, 105, 115, 104, 101, 100]
}

fn make_label_prefix() -> (r: Vec<u8>)
    ensures
        r@ == label_prefix(),
{
    let r: Vec<u8> = vec![116, 108, 115, 49, 51, 32];
    assert(r@ =~= label_prefix());
    r
}

fn make_label_c_hs() -> (r: Vec<u8>)
    ensures
        r@ == label_c_hs(),
{
    let r: Vec<u8> = vec![99, 32, 104, 115, 32, 116, 114, 97, 102, 102, 105, 99];
    assert(r@ =~= label_c_hs());
    r
}

fn make_label_s_hs() -> (r: Vec<u8>)
    ensures
        r@ == label_s_hs(),
{
    let r: Vec<u8> = vec![115, 32, 104, 115, 32, 116, 114, 97, 102, 102, 105, 99];
    assert(r@ =~= label_s_hs());
    r
}

fn make_label_c_ap() -> (r: Vec<u8>)
    ensures
        r@ == label_c_ap(),
{
    let r: Vec<u8> = vec![99, 32, 97, 112, 32, 116, 114, 97, 102, 102, 105, 99];
    assert(r@ =~= label_c_ap());
    r
}

fn make_label_s_ap() -> (r: Vec<u8>)
    ensures
        r@ == label_s_ap(),
{
    let r: Vec<u8> = vec![115, 32, 97, 112, 32, 116, 114, 97, 102, 102, 105, 99];
    assert(r@ =~= label_s_ap());
    r
}

fn make_label_finished() -> (r: Vec<u8>)
    ensures
        r@ == label_finished(),
{
    let r: Vec<u8> = vec![102, 105, 110, 105, 115, 104, 101, 100];
    assert(r@ =~= label_finished());
    r
}

/// The secrets the schedule derives.
#[derive(Debug, Clone, Copy, PartialEq, Eq, Structural)]
pub enum SecretKind {
    ClientHandshakeTrafficSecret,
    ServerHandshakeTrafficSecret,
    ClientApplicationTrafficSecret,
    ServerApplicationTrafficSecret,
}

pub open spec fn kind_label(kind: SecretKind) -> Seq<u8> {
    match kind {
        SecretKind::ClientHandshakeTrafficSecret => label_c_hs(),
        SecretKind::ServerHandshakeTrafficSecret => label_s_hs(),
        SecretKind::ClientApplicationTrafficSecret => label_c_ap(),
        SecretKind::ServerApplicationTrafficSecret => label_s_ap(),
    }
}

fn make_kind_label(kind: SecretKind) -> (r: Vec<u8>)
    ensures
        r@ == kind_label(kind),
{
    match kind {
        SecretKind::ClientHandshakeTrafficSecret => make_label_c_hs(),
        SecretKind::ServerHandshakeTrafficSecret => make_label_s_hs(),
        SecretKind::ClientApplicationTrafficSecret => make_label_c_ap(),
        SecretKind::ServerApplicationTrafficSecret => make_label_s_ap(),
    }
}

/// The HkdfLabel structure: the output length, then "tls13 " + label and the
/// context, each behind a one-byte length.
pub open spec fn hkdf_label(len: u16, label: Seq<u8>, context: Seq<u8>) -> Seq<u8> {
    be16(len) + seq![(label_prefix() + label).len() as u8] + label_prefix() + label + seq![
        context.len() as u8,
    ] + context
}

/// HKDF-Expand-Label(secret, label, context) to the hash's length.
pub open spec fn spec_expand_label(
    h: HashAlgorithm,
    secret: Seq<u8>,
    label: Seq<u8>,
    context: Seq<u8>,
) -> Seq<u8> {
    hkdf_expand_of(h, secret, hkdf_label(hash_len(h) as u16, label, context))
}

/// The Finished verify_data for a traffic secret and a transcript hash.
pub open spec fn spec_finished_mac(h: HashAlgorithm, traffic: Seq<u8>, hs_hash: Seq<u8>) -> Seq<u8> {
    hmac_of(h, spec_expand_label(h, traffic, label_finished(), Seq::empty()), hs_hash)
}

/// HKDF-Expand-Label(secret, label, context) to the hash's length.
pub fn hkdf_expand_label(h: HashAlgorithm, secret: &[u8], label: &[u8], context: &[u8]) -> (r: Vec<
    u8,
>)
    requires
        supported_hash(h),
        secret@.len() <= max_input(),
        label@.len() <= 249,
        context@.len() <= 255,
    ensures
        r@ == spec_expand_label(h, secret@, label@, context@),
        r@.len() == hash_len(h),
{
    let len = get_hash_len(h);
    let prefix = make_label_prefix();
    let mut info: Vec<u8> = Vec::new();
    encode_u16(len as u16, &mut info);
    info.push((prefix.len() + label.len()) as u8);
    append_bytes(&mut info, prefix.as_slice());
    append_bytes(&mut info, label);
    info.push(context.len() as u8);
    append_bytes(&mut info, context);
    assert(info@ =~= hkdf_label(hash_len(h) as u16, label@, context@));
    hkdf_expand(h, secret, info.as_slice())
}

/// What a key schedule holds: its hash, the current stage secret and the
/// current traffic secrets.
pub struct KeyScheduleView {
    pub hash: HashAlgorithm,
    pub current: Seq<u8>,
    pub client_traffic: Seq<u8>,
    pub server_traffic: Seq<u8>,
}

/// The TLS 1.3 key schedule.
pub struct KeySchedule {
    hash: HashAlgorithm,
    current: Vec<u8>,
    current_client_traffic_secret: Vec<u8>,
    current_server_traffic_secret: Vec<u8>,
}

impl KeySchedule {
    #[verifier::type_invariant]
    spec fn inv(&self) -> bool {
        &&& self.current@.len() <= max_input()
        &&& self.current_client_traffic_secret@.len() <= max_input()
        &&& self.current_server_traffic_secret@.len() <= max_input()
    }
}

impl View for KeySchedule {
    type V = KeyScheduleView;

    closed spec fn view(&self) -> KeyScheduleView {
        KeyScheduleView {
            hash: self.hash,
            current: self.current@,
            client_traffic: self.current_client_traffic_secret@,
            server_traffic: self.current_server_traffic_secret@,
        }
    }
}

/// A hash's length of zero bytes.
pub open spec fn zeroes(h: HashAlgorithm) -> Seq<u8> {
    Seq::new(hash_len(h), |i: int| 0u8)
}

fn make_zeroes(h: HashAlgorithm) -> (r: Vec<u8>)
    requires
        supported_hash(h),
    ensures
        r@ == zeroes(h),
{
    let n = get_hash_len(h);
    let mut r: Vec<u8> = Vec::new();
    let mut i: usize = 0;
    while i < n
        invariant
            0 <= i <= n,
            n == hash_len(h),
            r@ == Seq::new(i as nat, |j: int| 0u8),
        decreases n - i,
    {
        r.push(0u8);
        i = i + 1;
        assert(r@ =~= Seq::new(i as nat, |j: int| 0u8));
    }
    r
}

impl KeySchedule {
    /// A schedule whose stage secret is all zero, before any input.
    pub fn new(hash: HashAlgorithm) -> (r: KeySchedule)
        requires
            supported_hash(hash),
        ensures
            r@.hash == hash,
            r@.current == zeroes(hash),
            r@.client_traffic.len() == 0,
            r@.server_traffic.len() == 0,
    {
        KeySchedule {
            hash,
            current: make_zeroes(hash),
            current_client_traffic_secret: Vec::new(),
            current_server_traffic_secret: Vec::new(),
        }
    }

    /// Moves to the next stage with input `secret`: the stage secret becomes
    /// HKDF-Extract(current, secret).
    pub fn input_secret(&mut self, secret: &[u8])
        requires
            supported_hash(old(self)@.hash),
            secret@.len() <= max_input(),
        ensures
            final(self)@ == (KeyScheduleView {
                current: hmac_of(old(self)@.hash, old(self)@.current, secret@),
                ..old(self)@
            }),
    {
        proof {
            use_type_invariant(&*self);
        }
        self.current = hmac_sign(self.hash, self.current.as_slice(), secret);
    }

    /// Moves to the next stage with no input: a hash's length of zeroes.
    pub fn input_empty(&mut self)
        requires
            supported_hash(old(self)@.hash),
        ensures
            final(self)@ == (KeyScheduleView {
                current: hmac_of(old(self)@.hash, old(self)@.current, zeroes(old(self)@.hash)),
                ..old(self)@
            }),
    {
        let z = make_zeroes(self.hash);
        self.input_secret(z.as_slice());
    }

    /// The secret of `kind` for the transcript hash `hs_hash`.
    pub fn derive(&self, kind: SecretKind, hs_hash: &[u8]) -> (r: Vec<u8>)
        requires
            supported_hash(self@.hash),
            hs_hash@.len() <= 255,
        ensures
            r@ == spec_expand_label(self@.hash, self@.current, kind_label(kind), hs_hash@),
            r@.len() == hash_len(self@.hash),
    {
        let label = make_kind_label(kind);
        proof {
            use_type_invariant(self);
        }
        hkdf_expand_label(self.hash, self.current.as_slice(), label.as_slice(), hs_hash)
    }

    /// Records the traffic secrets now in use.
    pub fn set_traffic_secrets(&mut self, client: Vec<u8>, server: Vec<u8>)
        requires
            client@.len() <= max_input(),
            server@.len() <= max_input(),
        ensures
            final(self)@ == (KeyScheduleView {
                client_traffic: client@,
                server_traffic: server@,
                ..old(self)@
            }),
    {
        proof {
            use_type_invariant(&*self);
        }
        self.current_client_traffic_secret = client;
        self.current_server_traffic_secret = server;
    }

    /// The Finished verify_data of the client (for `ClientHandshakeTrafficSecret`)
    /// or of the server (otherwise), under the current traffic secret.
    pub fn sign_verify_data(&self, kind: SecretKind, hs_hash: &[u8]) -> (r: Vec<u8>)
        requires
            supported_hash(self@.hash),
            hs_hash@.len() <= max_input(),
        ensures
            r@ == spec_finished_mac(
                self@.hash,
                if kind == SecretKind::ClientHandshakeTrafficSecret {
                    self@.client_traffic
                } else {
                    self@.server_traffic
                },
                hs_hash@,
            ),
    {
        proof {
            use_type_invariant(self);
        }
        let traffic = if kind == SecretKind::ClientHandshakeTrafficSecret {
            &self.current_client_traffic_secret
        } else {
            &self.current_server_traffic_secret
        };
        let label = make_label_finished();
        let empty: Vec<u8> = Vec::new();
        let key = hkdf_expand_label(self.hash, traffic.as_slice(), label.as_slice(), empty.as_slice());
        assert(empty@ =~= Seq::<u8>::empty());
        hmac_sign(self.hash, key.as_slice(), hs_hash)
    }
}

/// The key schedule of the TLS 1.3 handshake stage: the early stage with no
/// input, the handshake stage with the premaster secret `pms`, and both
/// handshake traffic secrets over the transcript hash `hs_hash`.
pub open spec fn spec_handshake_schedule(
    ks: KeyScheduleView,
    h: HashAlgorithm,
    pms: Seq<u8>,
    hs_hash: Seq<u8>,
) -> bool {
    &&& ks.hash == h
    &&& ks.current == hmac_of(h, hmac_of(h, zeroes(h), zeroes(h)), pms)
    &&& ks.client_traffic == spec_expand_label(h, ks.current, kind_label(SecretKind::ClientHandshakeTrafficSecret), hs_hash)
    &&& ks.server_traffic == spec_expand_label(h, ks.current, kind_label(SecretKind::ServerHandshakeTrafficSecret), hs_hash)
}

/// The handshake-stage schedule of an ECDHE premaster secret (at most 48 bytes).
pub open spec fn from_ecdhe_premaster(ks: KeyScheduleView, h: HashAlgorithm, hs_hash: Seq<u8>) -> bool {
    exists|pms: Seq<u8>| pms.len() <= 48 && #[trigger] spec_handshake_schedule(ks, h, pms, hs_hash)
}

/// Starts the TLS 1.3 key schedule from the premaster secret `pms` and the
/// transcript hash up to ServerHello.
pub fn start_handshake_schedule(h: HashAlgorithm, pms: &[u8], hs_hash: &[u8]) -> (r: KeySchedule)
    requires
        supported_hash(h),
        pms@.len() <= max_input(),
        hs_hash@.len() <= 255,
    ensures
        spec_handshake_schedule(r@, h, pms@, hs_hash@),
{
    let mut key_schedule = KeySchedule::new(h);
    key_schedule.input_empty();
    key_schedule.input_secret(pms);
    let client = key_schedule.derive(SecretKind::ClientHandshakeTrafficSecret, hs_hash);
    let server = key_schedule.derive(SecretKind::ServerHandshakeTrafficSecret, hs_hash);
    key_schedule.set_traffic_secrets(client, server);
    key_schedule
}

} // verus!
