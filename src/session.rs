//! The TLS 1.2 key schedule: the PRF, the master secret, the key block and
//! the Finished verify_data.

use vstd::prelude::*;
use crate::base::copy_bytes;
use crate::codec::append_bytes;
use crate::crypto::{get_hash_len, hash_len, hmac_of, hmac_sign, max_input, supported_hash};
use crate::enums::HashAlgorithm;

verus! {

/// The label "master secret".
pub open spec fn label_master_secret() -> Seq<u8> {
    seq![109, 97, 115, 116, 101, 114, 32, 115, 101, 99, 114, 101, 116]
}

/// The label "key expansion".
pub open spec fn label_key_expansion() -> Seq<u8> {
    seq![107, 101, 121, 32, 101, 120, 112, 97, 110, 115, 105, 111, 110]
}

/// The label "client finished".
pub open spec fn label_client_finished() -> Seq<u8> {
    seq![99, 108, 105, 101, 110, 116, 32, 102, 105, 110, 105, 115, 104, 101, 100]
}

/// The label "server finished".
pub open spec fn label_server_finished() -> Seq<u8> {
    seq![115, 101, 114, 118, 101, 114, 32, 102, 105, 110, 105, 115, 104, 101, 100]
}

fn make_label_master_secret() -> (r: Vec<u8>)
    ensures
        r@ == label_master_secret(),
{
    let r: Vec<u8> = vec![109, 97, 115, 116, 101, 114, 32, 115, 101, 99, 114, 101, 116];
    assert(r@ =~= label_master_secret());
    r
}

fn make_label_key_expansion() -> (r: Vec<u8>)
    ensures
        r@ == label_key_expansion(),
{
    let r: Vec<u8> = vec![107, 101, 121, 32, 101, 120, 112, 97, 110, 115, 105, 111, 110];
    assert(r@ =~= label_key_expansion());
    r
}

fn make_label_client_finished() -> (r: Vec<u8>)
    ensures
        r@ == label_client_finished(),
{
    let r: Vec<u8> = vec![99, 108, 105, 101, 110, 116, 32, 102, 105, 110, 105, 115, 104, 101, 100];
    assert(r@ =~= label_client_finished());
    r
}

fn make_label_server_finished() -> (r: Vec<u8>)
    ensures
        r@ == label_server_finished(),
{
    let r: Vec<u8> = vec![115, 101, 114, 118, 101, 114, 32, 102, 105, 110, 105, 115, 104, 101, 100];
    assert(r@ =~= label_server_finished());
    r
}

/// A(i) of the P_hash construction: A(0) is the seed, A(i) = HMAC(secret, A(i-1)).
pub open spec fn a_chain(h: HashAlgorithm, secret: Seq<u8>, seed: Seq<u8>, i: nat) -> Seq<u8>
    decreases i,
{
    if i == 0 {
        seed
    } else {
        hmac_of(h, secret, a_chain(h, secret, seed, (i - 1) as nat))
    }
}

/// The first `n` blocks of P_hash: HMAC(secret, A(1) + seed) + ... + HMAC(secret, A(n) + seed).
pub open spec fn p_blocks(h: HashAlgorithm, secret: Seq<u8>, seed: Seq<u8>, n: nat) -> Seq<u8>
    decreases n,
{
    if n == 0 {
        Seq::empty()
    } else {
        p_blocks(h, secret, seed, (n - 1) as nat) + hmac_of(
            h,
            secret,
            a_chain(h, secret, seed, n) + seed,
        )
    }
}

/// How many blocks of `block` bytes cover `rem` bytes.
pub open spec fn blocks_for(rem: int, block: int) -> nat
    decreases (if rem <= 0 { 0 } else { rem }),
{
    if rem <= 0 || block <= 0 {
        0
    } else {
        1 + blocks_for(rem - block, block)
    }
}

/// P_hash(secret, seed), cut to `len` bytes.
pub open spec fn spec_p_hash(h: HashAlgorithm, secret: Seq<u8>, seed: Seq<u8>, len: nat) -> Seq<
    u8,
> {
    p_blocks(h, secret, seed, blocks_for(len as int, hash_len(h) as int)).take(len as int)
}

/// PRF(secret, label, seed) of TLS 1.2, cut to `len` bytes.
pub open spec fn spec_prf(
    h: HashAlgorithm,
    secret: Seq<u8>,
    label: Seq<u8>,
    seed: Seq<u8>,
    len: nat,
) -> Seq<u8> {
    spec_p_hash(h, secret, label + seed, len)
}

fn p_hash(h: HashAlgorithm, secret: &[u8], seed: &[u8], len: usize) -> (r: Vec<u8>)
    requires
        supported_hash(h),
        len <= 0x1_0000,
        secret@.len() <= max_input(),
        seed@.len() <= max_input(),
    ensures
        r@ == spec_p_hash(h, secret@, seed@, len as nat),
        r@.len() == len,
{
    let hlen = get_hash_len(h);
    let mut out: Vec<u8> = Vec::new();
    let mut a = copy_bytes(&crate::kx::bytes_to_vec(seed));
    let ghost mut i: nat = 0;
    while out.len() < len
        invariant
            supported_hash(h),
            hlen == hash_len(h),
            len <= 0x1_0000,
            out@.len() < len + hlen,
            out@ == p_blocks(h, secret@, seed@, i),
            a@ == a_chain(h, secret@, seed@, i),
            a@.len() <= max_input(),
            secret@.len() <= max_input(),
            seed@.len() <= max_input(),
            i + blocks_for(len - out@.len(), hlen as int) == blocks_for(len as int, hlen as int),
        decreases len + hlen - out@.len(),
    {
        a = hmac_sign(h, secret, a.as_slice());
        let mut input = copy_bytes(&a);
        append_bytes(&mut input, seed);
        let block = hmac_sign(h, secret, input.as_slice());
        proof {
            assert(blocks_for(len - out@.len(), hlen as int) == 1 + blocks_for(
                len - out@.len() - hlen,
                hlen as int,
            ));
            i = i + 1;
        }
        append_bytes(&mut out, block.as_slice());
    }
    proof {
        assert(blocks_for(len - out@.len(), hlen as int) == 0);
    }
    out.truncate(len);
    out
}

/// PRF(secret, label, seed) of TLS 1.2, cut to `len` bytes.
pub fn prf(h: HashAlgorithm, secret: &[u8], label: &[u8], seed: &[u8], len: usize) -> (r: Vec<u8>)
    requires
        supported_hash(h),
        len <= 0x1_0000,
        secret@.len() <= max_input(),
        label@.len() + seed@.len() <= max_input(),
    ensures
        r@ == spec_prf(h, secret@, label@, seed@, len as nat),
        r@.len() == len,
{
    let mut full_seed = crate::kx::bytes_to_vec(label);
    append_bytes(&mut full_seed, seed);
    assert(full_seed@ == label@ + seed@);
    p_hash(h, secret, full_seed.as_slice(), len)
}

/// The client and server hello randoms.
#[derive(Debug, Clone, Copy)]
pub struct SessionRandoms {
    pub client: [u8; 32],
    pub server: [u8; 32],
}

impl SessionRandoms {
    /// Randoms not yet known: all zero.
    pub fn empty() -> (r: SessionRandoms)
        ensures
            r.client@.len() == 32,
            r.server@.len() == 32,
    {
        SessionRandoms { client: [0u8; 32], server: [0u8; 32] }
    }
}

fn concat(a: &[u8], b: &[u8]) -> (r: Vec<u8>)
    ensures
        r@ == a@ + b@,
{
    let mut r = crate::kx::bytes_to_vec(a);
    append_bytes(&mut r, b);
    r
}

/// The TLS 1.2 master secret made from a premaster secret.
pub open spec fn spec_master_secret(
    h: HashAlgorithm,
    randoms: SessionRandoms,
    pms: Seq<u8>,
) -> Seq<u8> {
    spec_prf(h, pms, label_master_secret(), randoms.client@ + randoms.server@, 48)
}

/// The verify_data of a Finished, from the master secret and the transcript hash.
pub open spec fn spec_verify_data(
    h: HashAlgorithm,
    master: Seq<u8>,
    label: Seq<u8>,
    handshake_hash: Seq<u8>,
) -> Seq<u8> {
    spec_prf(h, master, label, handshake_hash, 12)
}

/// The TLS 1.2 secrets of a session: the randoms, the PRF's hash and the
/// master secret, which does not change once made.
pub struct SessionSecrets {
    randoms: SessionRandoms,
    hash: HashAlgorithm,
    master_secret: Vec<u8>,
}

/// What a `SessionSecrets` holds.
pub struct SecretsView {
    pub randoms: SessionRandoms,
    pub hash: HashAlgorithm,
    pub master_secret: Seq<u8>,
}

impl SessionSecrets {
    #[verifier::type_invariant]
    spec fn inv(&self) -> bool {
        self.master_secret@.len() <= max_input()
    }
}

impl View for SessionSecrets {
    type V = SecretsView;

    closed spec fn view(&self) -> SecretsView {
        SecretsView { randoms: self.randoms, hash: self.hash, master_secret: self.master_secret@ }
    }
}

impl SessionSecrets {
    /// Makes the master secret of a new session from the premaster secret.
    pub fn new(randoms: &SessionRandoms, hash: HashAlgorithm, pms: &[u8]) -> (r: SessionSecrets)
        requires
            supported_hash(hash),
            pms@.len() <= max_input(),
        ensures
            r@.randoms == *randoms,
            r@.hash == hash,
            r@.master_secret == spec_master_secret(hash, *randoms, pms@),
            r@.master_secret.len() == 48,
    {
        let seed = concat(
            vstd::array::array_as_slice(&randoms.client),
            vstd::array::array_as_slice(&randoms.server),
        );
        let label = make_label_master_secret();
        let master_secret = prf(hash, pms, label.as_slice(), seed.as_slice(), 48);
        SessionSecrets { randoms: *randoms, hash, master_secret }
    }

    /// Takes the master secret of a resumed session as it was stored.
    pub fn new_resume(randoms: &SessionRandoms, hash: HashAlgorithm, resumed_master: &[u8]) -> (r:
        SessionSecrets)
        requires
            resumed_master@.len() <= max_input(),
        ensures
            r@.randoms == *randoms,
            r@.hash == hash,
            r@.master_secret == resumed_master@,
    {
        SessionSecrets {
            randoms: *randoms,
            hash,
            master_secret: crate::kx::bytes_to_vec(resumed_master),
        }
    }

    pub fn get_master_secret(&self) -> (r: Vec<u8>)
        ensures
            r@ == self@.master_secret,
            r@.len() <= max_input(),
    {
        proof {
            use_type_invariant(self);
        }
        copy_bytes(&self.master_secret)
    }

    /// The key block: PRF(master, "key expansion", server random + client random).
    pub fn make_key_block(&self, len: usize) -> (r: Vec<u8>)
        requires
            supported_hash(self@.hash),
            len <= 0x1_0000,
        ensures
            r@ == spec_prf(
                self@.hash,
                self@.master_secret,
                label_key_expansion(),
                self@.randoms.server@ + self@.randoms.client@,
                len as nat,
            ),
            r@.len() == len,
    {
        let seed = concat(
            vstd::array::array_as_slice(&self.randoms.server),
            vstd::array::array_as_slice(&self.randoms.client),
        );
        let label = make_label_key_expansion();
        proof {
            use_type_invariant(self);
        }
        prf(self.hash, self.master_secret.as_slice(), label.as_slice(), seed.as_slice(), len)
    }

    /// The client's Finished verify_data over `handshake_hash`.
    pub fn client_verify_data(&self, handshake_hash: &[u8]) -> (r: Vec<u8>)
        requires
            supported_hash(self@.hash),
            handshake_hash@.len() <= 0x1_0000,
        ensures
            r@ == spec_verify_data(self@.hash, self@.master_secret, label_client_finished(), handshake_hash@),
            r@.len() == 12,
    {
        let label = make_label_client_finished();
        proof {
            use_type_invariant(self);
        }
        prf(self.hash, self.master_secret.as_slice(), label.as_slice(), handshake_hash, 12)
    }

    /// The server's Finished verify_data over `handshake_hash`.
    pub fn server_verify_data(&self, handshake_hash: &[u8]) -> (r: Vec<u8>)
        requires
            supported_hash(self@.hash),
            handshake_hash@.len() <= 0x1_0000,
        ensures
            r@ == spec_verify_data(self@.hash, self@.master_secret, label_server_finished(), handshake_hash@),
            r@.len() == 12,
    {
        let label = make_label_server_finished();
        proof {
            use_type_invariant(self);
        }
        prf(self.hash, self.master_secret.as_slice(), label.as_slice(), handshake_hash, 12)
    }
}

/// Two peers that make their secrets from the same premaster secret, randoms
/// and hash compute the same client and server verify_data over the same
/// transcript hash, so each one's Finished checks out at the other.
pub proof fn lemma_verify_data_symmetry(
    client: SecretsView,
    server: SecretsView,
    pms: Seq<u8>,
    handshake_hash: Seq<u8>,
)
    requires
        client.hash == server.hash,
        client.randoms == server.randoms,
        client.master_secret == spec_master_secret(client.hash, client.randoms, pms),
        server.master_secret == spec_master_secret(server.hash, server.randoms, pms),
    ensures
        spec_verify_data(client.hash, client.master_secret, label_client_finished(), handshake_hash)
            == spec_verify_data(server.hash, server.master_secret, label_client_finished(), handshake_hash),
        spec_verify_data(client.hash, client.master_secret, label_server_finished(), handshake_hash)
            == spec_verify_data(server.hash, server.master_secret, label_server_finished(), handshake_hash),
{
}

/// The parts of a TLS 1.2 key block, in the order they are cut from it.
pub struct KeyBlock {
    pub client_write_key: Vec<u8>,
    pub server_write_key: Vec<u8>,
    pub client_write_iv: Vec<u8>,
    pub server_write_iv: Vec<u8>,
    pub explicit_nonce: Vec<u8>,
}

fn cut(block: &[u8], start: usize, len: usize) -> (r: Vec<u8>)
    requires
        start + len <= block@.len(),
    ensures
        r@ == block@.subrange(start as int, start + len),
{
    // The slice's length, a usize, bounds the offsets below.
    let _block_len = block.len();
    crate::kx::bytes_to_vec(vstd::slice::slice_subrange(block, start, start + len))
}

/// Cuts a key block into the client and server write keys, the client and
/// server fixed IVs, and the explicit nonce seed, with the suite's lengths.
pub fn split_key_block(suite: &crate::suites::SupportedCipherSuite, block: &[u8]) -> (r: KeyBlock)
    requires
        block@.len() == suite.spec_key_block_len(),
    ensures
        ({
            let k = suite.enc_key_len as int;
            let iv = suite.fixed_iv_len as int;
            let n = suite.explicit_nonce_len as int;
            &&& r.client_write_key@ == block@.subrange(0, k)
            &&& r.server_write_key@ == block@.subrange(k, 2 * k)
            &&& r.client_write_iv@ == block@.subrange(2 * k, 2 * k + iv)
            &&& r.server_write_iv@ == block@.subrange(2 * k + iv, 2 * k + 2 * iv)
            &&& r.explicit_nonce@ == block@.subrange(2 * k + 2 * iv, 2 * k + 2 * iv + n)
        }),
{
    let k = suite.enc_key_len;
    let iv = suite.fixed_iv_len;
    let n = suite.explicit_nonce_len;
    // The slice's length, a usize, bounds the offsets below.
    let _block_len = block.len();
    KeyBlock {
        client_write_key: cut(block, 0, k),
        server_write_key: cut(block, k, k),
        client_write_iv: cut(block, 2 * k, iv),
        server_write_iv: cut(block, 2 * k + iv, iv),
        explicit_nonce: cut(block, 2 * k + 2 * iv, n),
    }
}

} // verus!
