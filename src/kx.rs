//! Ephemeral ECDHE over X25519, P-256 and P-384, by ring.

use vstd::prelude::*;
use crate::codec::{Codec, Reader};
use crate::enums::NamedGroup;
use crate::handshake::{ClientECDHParams, KeyExchangeAlgorithm, ServerECDHParams};
use crate::suites::SupportedCipherSuite;

verus! {

#[verifier::external_type_specification]
#[verifier::external_body]
pub struct ExEphemeralPrivateKey(ring::agreement::EphemeralPrivateKey);

/// The groups for which this library can make keys.
pub open spec fn spec_kx_group(g: NamedGroup) -> bool {
    g == NamedGroup::X25519 || g == NamedGroup::secp256r1 || g == NamedGroup::secp384r1
}

/// Whether this library can make keys in `group`.
pub fn supports_kx_group(group: NamedGroup) -> (r: bool)
    ensures
        r == spec_kx_group(group),
{
    group == NamedGroup::X25519 || group == NamedGroup::secp256r1 || group == NamedGroup::secp384r1
}

/// A copy of `s`.
pub fn bytes_to_vec(s: &[u8]) -> (r: Vec<u8>)
    ensures
        r@ == s@,
{
    let mut r: Vec<u8> = Vec::new();
    crate::codec::append_bytes(&mut r, s);
    r
}

/// Relies on ring::agreement::EphemeralPrivateKey::generate (with ring's
/// SystemRandom) and compute_public_key: a fresh key of the group and its
/// public half, or None if either fails.
#[verifier::external_body]
fn generate_key(group: NamedGroup) -> (r: Option<(ring::agreement::EphemeralPrivateKey, Vec<u8>)>)
    requires
        spec_kx_group(group),
{
    let alg = match group {
        NamedGroup::X25519 => &ring::agreement::X25519,
        NamedGroup::secp256r1 => &ring::agreement::ECDH_P256,
        _ => &ring::agreement::ECDH_P384,
    };
    let rng = ring::rand::SystemRandom::new();
    let key = ring::agreement::EphemeralPrivateKey::generate(alg, &rng).ok()?;
    let public = key.compute_public_key().ok()?;
    Some((key, public.as_ref().to_vec()))
}

/// Relies on ring::agreement::agree_ephemeral: the shared secret of `key` and
/// the peer's public value in the same group, or None if ring rejects that
/// value. ring hands the secret over as a slice of the curve's
/// elem_scalar_seed_len: 32 bytes for X25519 and P-256, 48 for P-384.
#[verifier::external_body]
fn agree(group: NamedGroup, key: ring::agreement::EphemeralPrivateKey, peer: &[u8]) -> (r: Option<
    Vec<u8>,
>)
    requires
        spec_kx_group(group),
    ensures
        r matches Some(v) ==> v@.len() == (if group == NamedGroup::secp384r1 {
            48int
        } else {
            32int
        }),
{
    let alg = match group {
        NamedGroup::X25519 => &ring::agreement::X25519,
        NamedGroup::secp256r1 => &ring::agreement::ECDH_P256,
        _ => &ring::agreement::ECDH_P384,
    };
    let peer_key = ring::agreement::UnparsedPublicKey::new(alg, peer);
    ring::agreement::agree_ephemeral(key, &peer_key, |s| bytes_to_vec(s)).ok()
}

/// Whether `b` begins with the ECDHE parameters of a group this library supports.
pub open spec fn kx_params_usable(b: Seq<u8>) -> bool {
    exists|p: ServerECDHParams|
        #![auto]
        b.take(p.encoding().len() as int) == p.encoding() && spec_kx_group(p.curve_params.named_group)
}

/// The result of a key exchange: our public value and the agreed secret.
pub struct KeyExchangeResult {
    pub pubkey: Vec<u8>,
    pub premaster_secret: Vec<u8>,
}

/// An ephemeral key exchange under way: the group, our private key and our
/// public value.
pub struct KeyExchange {
    pub group: NamedGroup,
    pub privkey: ring::agreement::EphemeralPrivateKey,
    pub pubkey: Vec<u8>,
}

impl KeyExchange {
    /// Whether a key exchange in `group` can be started.
    pub fn named_group_supported(group: NamedGroup) -> (r: bool)
        ensures
            r == spec_kx_group(group),
    {
        supports_kx_group(group)
    }

    /// Makes a fresh key in `named_group`; None for a group this library does
    /// not support, or if making the key failed.
    pub fn start_ecdhe(named_group: NamedGroup) -> (r: Option<KeyExchange>)
        ensures
            r matches Some(k) ==> k.group == named_group,
            !spec_kx_group(named_group) ==> r is None,
    {
        if !supports_kx_group(named_group) {
            return None;
        }
        match generate_key(named_group) {
            Some((privkey, pubkey)) => Some(KeyExchange { group: named_group, privkey, pubkey }),
            None => None,
        }
    }

    /// Completes the exchange with the peer's public value `peer`.
    pub fn complete(self, peer: &[u8]) -> (r: Option<KeyExchangeResult>)
        ensures
            r matches Some(x) ==> x.pubkey@ == self.pubkey@ && x.premaster_secret@.len() <= 48,
            !spec_kx_group(self.group) ==> r is None,
    {
        if !supports_kx_group(self.group) {
            return None;
        }
        match agree(self.group, self.privkey, peer) {
            Some(secret) => Some(KeyExchangeResult { pubkey: self.pubkey, premaster_secret: secret }),
            None => None,
        }
    }

    /// As a client: reads the server's ECDHE parameters from `kx_params`, makes
    /// a key in their group and completes the exchange with their public value.
    pub fn client_ecdhe(kx_params: &[u8]) -> (r: Option<KeyExchangeResult>)
        ensures
            r matches Some(x) ==> x.premaster_secret@.len() <= 48,
            r is Some ==> exists|p: ServerECDHParams|
                #![auto]
                kx_params@.take(p.encoding().len() as int) == p.encoding() && spec_kx_group(
                    p.curve_params.named_group,
                ),
    {
        let mut rd = Reader::init(kx_params);
        let ecdh_params = match ServerECDHParams::read(&mut rd) {
            Some(p) => p,
            None => return None,
        };
        assert(kx_params@.take(ecdh_params.encoding().len() as int) =~= ecdh_params.encoding());
        let kx = match KeyExchange::start_ecdhe(ecdh_params.curve_params.named_group) {
            Some(k) => k,
            None => return None,
        };
        kx.complete(ecdh_params.public.0.as_slice())
    }

    /// As a server: reads the client's public value from `kx_params` and
    /// completes the exchange with it.
    pub fn server_complete(self, kx_params: &[u8]) -> (r: Option<KeyExchangeResult>)
        ensures
            r matches Some(x) ==> x.pubkey@ == self.pubkey@ && x.premaster_secret@.len() <= 48,
            r is Some ==> exists|p: ClientECDHParams|
                #![auto]
                kx_params@.take(p.encoding().len() as int) == p.encoding(),
    {
        let mut rd = Reader::init(kx_params);
        let ecdh_params = match ClientECDHParams::read(&mut rd) {
            Some(p) => p,
            None => return None,
        };
        assert(kx_params@.take(ecdh_params.encoding().len() as int) =~= ecdh_params.encoding());
        self.complete(ecdh_params.public.0.as_slice())
    }
}

impl SupportedCipherSuite {
    /// The client's side of this suite's key exchange, given the server's
    /// parameters. None unless the suite uses ECDHE.
    pub fn do_client_kx(&self, kx_params: &[u8]) -> (r: Option<KeyExchangeResult>)
        ensures
            r matches Some(x) ==> x.premaster_secret@.len() <= 48,
            r is Some ==> kx_params_usable(kx_params@),
            self.kx != KeyExchangeAlgorithm::ECDHE ==> r is None,
    {
        match self.kx {
            KeyExchangeAlgorithm::ECDHE => KeyExchange::client_ecdhe(kx_params),
            _ => None,
        }
    }

    /// Starts the server's side of this suite's key exchange in `named_group`.
    /// None unless the suite uses ECDHE.
    pub fn start_server_kx(&self, named_group: NamedGroup) -> (r: Option<KeyExchange>)
        ensures
            r matches Some(k) ==> k.group == named_group,
            self.kx != KeyExchangeAlgorithm::ECDHE ==> r is None,
            !spec_kx_group(named_group) ==> r is None,
    {
        match self.kx {
            KeyExchangeAlgorithm::ECDHE => KeyExchange::start_ecdhe(named_group),
            _ => None,
        }
    }
}

} // verus!
