//! The primitives this library takes from ring: digests, HMAC, HKDF-Expand,
//! slice comparison and randomness. Their results are named, not
//! spelled out.

use vstd::prelude::*;
use crate::enums::HashAlgorithm;
use ring::rand::SecureRandom;

verus! {

/// The hashes the key schedules and the transcript use.
pub open spec fn supported_hash(h: HashAlgorithm) -> bool {
    h == HashAlgorithm::SHA256 || h == HashAlgorithm::SHA384 || h == HashAlgorithm::SHA512
}

/// The output length of a supported hash.
pub open spec fn hash_len(h: HashAlgorithm) -> nat {
    match h {
        HashAlgorithm::SHA256 => 32,
        HashAlgorithm::SHA384 => 48,
        HashAlgorithm::SHA512 => 64,
        _ => 0,
    }
}

pub fn get_hash_len(h: HashAlgorithm) -> (r: usize)
    requires
        supported_hash(h),
    ensures
        r == hash_len(h),
{
    match h {
        HashAlgorithm::SHA256 => 32,
        HashAlgorithm::SHA384 => 48,
        _ => 64,
    }
}

/// A bound on what ring can digest: it refuses inputs of 2^61 bytes or more
/// (their length in bits does not fit 64 bits). Wrappers take less than this.
pub open spec fn ring_input_bound() -> nat {
    0x1000_0000_0000_0000
}

/// The bound on byte strings this library's key schedules and transcript take.
pub open spec fn max_input() -> nat {
    0x100_0000_0000
}

/// The digest of `data` under `h`.
pub uninterp spec fn digest_of(h: HashAlgorithm, data: Seq<u8>) -> Seq<u8>;

/// HMAC of `data` under `key`, with hash `h`.
pub uninterp spec fn hmac_of(h: HashAlgorithm, key: Seq<u8>, data: Seq<u8>) -> Seq<u8>;

/// HKDF-Expand of the pseudorandom key `prk` with `info`, to the hash's length.
pub uninterp spec fn hkdf_expand_of(h: HashAlgorithm, prk: Seq<u8>, info: Seq<u8>) -> Seq<u8>;

/// Relies on ring::digest::digest: the digest of `data`, of the hash's output
/// length. ring panics on inputs whose length in bits overflows 64 bits;
/// those are excluded.
#[verifier::external_body]
pub(crate) fn digest(h: HashAlgorithm, data: &[u8]) -> (r: Vec<u8>)
    requires
        supported_hash(h),
        data@.len() < ring_input_bound(),
    ensures
        r@ == digest_of(h, data@),
        r@.len() == hash_len(h),
{
    let alg = match h {
        HashAlgorithm::SHA256 => &ring::digest::SHA256,
        HashAlgorithm::SHA384 => &ring::digest::SHA384,
        _ => &ring::digest::SHA512,
    };
    ring::digest::digest(alg, data).as_ref().to_vec()
}

/// Relies on ring::hmac::Key::new and ring::hmac::sign: the HMAC tag of
/// `data` under `key`, of the hash's output length. ring panics on inputs
/// whose length in bits overflows 64 bits; those are excluded.
#[verifier::external_body]
pub(crate) fn hmac_sign(h: HashAlgorithm, key: &[u8], data: &[u8]) -> (r: Vec<u8>)
    requires
        supported_hash(h),
        key@.len() < ring_input_bound(),
        data@.len() < ring_input_bound(),
    ensures
        r@ == hmac_of(h, key@, data@),
        r@.len() == hash_len(h),
{
    let alg = match h {
        HashAlgorithm::SHA256 => ring::hmac::HMAC_SHA256,
        HashAlgorithm::SHA384 => ring::hmac::HMAC_SHA384,
        _ => ring::hmac::HMAC_SHA512,
    };
    ring::hmac::sign(&ring::hmac::Key::new(alg, key), data).as_ref().to_vec()
}

/// Relies on ring::hkdf::Prk::new_less_safe, Prk::expand and Okm::fill:
/// HKDF-Expand of `prk` with `info` to the hash's output length, which ring
/// accepts for every hash.
#[verifier::external_body]
pub(crate) fn hkdf_expand(h: HashAlgorithm, prk: &[u8], info: &[u8]) -> (r: Vec<u8>)
    requires
        supported_hash(h),
        prk@.len() < ring_input_bound(),
        info@.len() < ring_input_bound(),
    ensures
        r@ == hkdf_expand_of(h, prk@, info@),
        r@.len() == hash_len(h),
{
    let alg = match h {
        HashAlgorithm::SHA256 => ring::hkdf::HKDF_SHA256,
        HashAlgorithm::SHA384 => ring::hkdf::HKDF_SHA384,
        _ => ring::hkdf::HKDF_SHA512,
    };
    let prk = ring::hkdf::Prk::new_less_safe(alg, prk);
    let info = [info];
    let mut out = vec![0u8; alg.hmac_algorithm().digest_algorithm().output_len()];
    prk.expand(&info, alg).unwrap().fill(&mut out).unwrap();
    out
}

/// Relies on ring::constant_time::verify_slices_are_equal (deprecated in
/// ring 0.17, which makes no timing promise for it): Ok exactly when the
/// slices are equal.
#[verifier::external_body]
pub(crate) fn ct_equal(a: &[u8], b: &[u8]) -> (r: bool)
    ensures
        r == (a@ == b@),
{
    #[allow(deprecated)]
    ring::constant_time::verify_slices_are_equal(a, b).is_ok()
}

/// Relies on ring::rand::SystemRandom's fill: `n` random bytes, or None if
/// the system's generator failed.
#[verifier::external_body]
pub(crate) fn random_bytes(n: usize) -> (r: Option<Vec<u8>>)
    ensures
        r matches Some(v) ==> v@.len() == n,
{
    let mut out = vec![0u8; n];
    ring::rand::SystemRandom::new().fill(&mut out).ok()?;
    Some(out)
}

/// `n` fresh random bytes, or None if the system's generator failed.
pub fn fill_random(n: usize) -> (r: Option<Vec<u8>>)
    ensures
        r matches Some(v) ==> v@.len() == n,
{
    random_bytes(n)
}

/// Whether two byte strings are equal, compared by ring's `verify_slices_are_equal`.
pub fn verify_slices_are_equal(a: &[u8], b: &[u8]) -> (r: bool)
    ensures
        r == (a@ == b@),
{
    ct_equal(a, b)
}

} // verus!
