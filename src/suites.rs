//! The cipher suites this library supports, and how one is chosen.

use vstd::prelude::*;
use crate::enums::{CipherSuite, HashAlgorithm, NamedGroup, SignatureAlgorithm, SignatureScheme};
use crate::handshake::KeyExchangeAlgorithm;

verus! {

/// The bulk AEAD of a suite.
#[allow(non_camel_case_types)]
#[derive(Debug, Clone, Copy, PartialEq, Eq, Structural)]
pub enum BulkAlgorithm {
    AES_128_GCM,
    AES_256_GCM,
    CHACHA20_POLY1305,
}

/// A supported cipher suite and its parameters. Two suites are equal when
/// their codes are.
#[derive(Debug, Clone, Copy)]
pub struct SupportedCipherSuite {
    /// The TLS code of this suite.
    pub suite: CipherSuite,
    pub kx: KeyExchangeAlgorithm,
    pub bulk: BulkAlgorithm,
    pub hash: HashAlgorithm,
    pub sign: SignatureAlgorithm,
    pub enc_key_len: usize,
    pub fixed_iv_len: usize,
    /// Extends the key block with an initial explicit nonce, for GCM.
    pub explicit_nonce_len: usize,
}

impl PartialEq for SupportedCipherSuite {
    fn eq(&self, other: &SupportedCipherSuite) -> (r: bool) {
        self.suite == other.suite
    }
}

impl vstd::std_specs::cmp::PartialEqSpecImpl for SupportedCipherSuite {
    open spec fn obeys_eq_spec() -> bool {
        true
    }

    open spec fn eq_spec(&self, other: &SupportedCipherSuite) -> bool {
        self.suite == other.suite
    }
}

pub open spec fn mk_suite(
    suite: CipherSuite,
    kx: KeyExchangeAlgorithm,
    sign: SignatureAlgorithm,
    bulk: BulkAlgorithm,
    hash: HashAlgorithm,
    enc_key_len: usize,
    fixed_iv_len: usize,
    explicit_nonce_len: usize,
) -> SupportedCipherSuite {
    SupportedCipherSuite {
        suite,
        kx,
        bulk,
        hash,
        sign,
        enc_key_len,
        fixed_iv_len,
        explicit_nonce_len,
    }
}

/// Every supported suite, TLS 1.3 suites first.
pub open spec fn spec_all_ciphersuites() -> Seq<SupportedCipherSuite> {
    seq![
        mk_suite(CipherSuite::TLS13_CHACHA20_POLY1305_SHA256, KeyExchangeAlgorithm::BulkOnly, SignatureAlgorithm::Anonymous, BulkAlgorithm::CHACHA20_POLY1305, HashAlgorithm::SHA256, 32, 12, 0),
        mk_suite(CipherSuite::TLS13_AES_256_GCM_SHA384, KeyExchangeAlgorithm::BulkOnly, SignatureAlgorithm::Anonymous, BulkAlgorithm::AES_256_GCM, HashAlgorithm::SHA384, 32, 12, 0),
        mk_suite(CipherSuite::TLS13_AES_128_GCM_SHA256, KeyExchangeAlgorithm::BulkOnly, SignatureAlgorithm::Anonymous, BulkAlgorithm::AES_128_GCM, HashAlgorithm::SHA256, 16, 12, 0),
        mk_suite(CipherSuite::TLS_ECDHE_ECDSA_WITH_CHACHA20_POLY1305_SHA256, KeyExchangeAlgorithm::ECDHE, SignatureAlgorithm::ECDSA, BulkAlgorithm::CHACHA20_POLY1305, HashAlgorithm::SHA256, 32, 12, 0),
        mk_suite(CipherSuite::TLS_ECDHE_RSA_WITH_CHACHA20_POLY1305_SHA256, KeyExchangeAlgorithm::ECDHE, SignatureAlgorithm::RSA, BulkAlgorithm::CHACHA20_POLY1305, HashAlgorithm::SHA256, 32, 12, 0),
        mk_suite(CipherSuite::TLS_ECDHE_ECDSA_WITH_AES_256_GCM_SHA384, KeyExchangeAlgorithm::ECDHE, SignatureAlgorithm::ECDSA, BulkAlgorithm::AES_256_GCM, HashAlgorithm::SHA384, 32, 4, 8),
        mk_suite(CipherSuite::TLS_ECDHE_ECDSA_WITH_AES_128_GCM_SHA256, KeyExchangeAlgorithm::ECDHE, SignatureAlgorithm::ECDSA, BulkAlgorithm::AES_128_GCM, HashAlgorithm::SHA256, 16, 4, 8),
        mk_suite(CipherSuite::TLS_ECDHE_RSA_WITH_AES_256_GCM_SHA384, KeyExchangeAlgorithm::ECDHE, SignatureAlgorithm::RSA, BulkAlgorithm::AES_256_GCM, HashAlgorithm::SHA384, 32, 4, 8),
        mk_suite(CipherSuite::TLS_ECDHE_RSA_WITH_AES_128_GCM_SHA256, KeyExchangeAlgorithm::ECDHE, SignatureAlgorithm::RSA, BulkAlgorithm::AES_128_GCM, HashAlgorithm::SHA256, 16, 4, 8),
    ]
}

/// Every supported suite, TLS 1.3 suites first.
pub fn all_ciphersuites() -> (r: Vec<SupportedCipherSuite>)
    ensures
        r@ == spec_all_ciphersuites(),
{
    let r = vec![
        SupportedCipherSuite { suite: CipherSuite::TLS13_CHACHA20_POLY1305_SHA256, kx: KeyExchangeAlgorithm::BulkOnly, sign: SignatureAlgorithm::Anonymous, bulk: BulkAlgorithm::CHACHA20_POLY1305, hash: HashAlgorithm::SHA256, enc_key_len: 32, fixed_iv_len: 12, explicit_nonce_len: 0 },
        SupportedCipherSuite { suite: CipherSuite::TLS13_AES_256_GCM_SHA384, kx: KeyExchangeAlgorithm::BulkOnly, sign: SignatureAlgorithm::Anonymous, bulk: BulkAlgorithm::AES_256_GCM, hash: HashAlgorithm::SHA384, enc_key_len: 32, fixed_iv_len: 12, explicit_nonce_len: 0 },
        SupportedCipherSuite { suite: CipherSuite::TLS13_AES_128_GCM_SHA256, kx: KeyExchangeAlgorithm::BulkOnly, sign: SignatureAlgorithm::Anonymous, bulk: BulkAlgorithm::AES_128_GCM, hash: HashAlgorithm::SHA256, enc_key_len: 16, fixed_iv_len: 12, explicit_nonce_len: 0 },
        SupportedCipherSuite { suite: CipherSuite::TLS_ECDHE_ECDSA_WITH_CHACHA20_POLY1305_SHA256, kx: KeyExchangeAlgorithm::ECDHE, sign: SignatureAlgorithm::ECDSA, bulk: BulkAlgorithm::CHACHA20_POLY1305, hash: HashAlgorithm::SHA256, enc_key_len: 32, fixed_iv_len: 12, explicit_nonce_len: 0 },
        SupportedCipherSuite { suite: CipherSuite::TLS_ECDHE_RSA_WITH_CHACHA20_POLY1305_SHA256, kx: KeyExchangeAlgorithm::ECDHE, sign: SignatureAlgorithm::RSA, bulk: BulkAlgorithm::CHACHA20_POLY1305, hash: HashAlgorithm::SHA256, enc_key_len: 32, fixed_iv_len: 12, explicit_nonce_len: 0 },
        SupportedCipherSuite { suite: CipherSuite::TLS_ECDHE_ECDSA_WITH_AES_256_GCM_SHA384, kx: KeyExchangeAlgorithm::ECDHE, sign: SignatureAlgorithm::ECDSA, bulk: BulkAlgorithm::AES_256_GCM, hash: HashAlgorithm::SHA384, enc_key_len: 32, fixed_iv_len: 4, explicit_nonce_len: 8 },
        SupportedCipherSuite { suite: CipherSuite::TLS_ECDHE_ECDSA_WITH_AES_128_GCM_SHA256, kx: KeyExchangeAlgorithm::ECDHE, sign: SignatureAlgorithm::ECDSA, bulk: BulkAlgorithm::AES_128_GCM, hash: HashAlgorithm::SHA256, enc_key_len: 16, fixed_iv_len: 4, explicit_nonce_len: 8 },
        SupportedCipherSuite { suite: CipherSuite::TLS_ECDHE_RSA_WITH_AES_256_GCM_SHA384, kx: KeyExchangeAlgorithm::ECDHE, sign: SignatureAlgorithm::RSA, bulk: BulkAlgorithm::AES_256_GCM, hash: HashAlgorithm::SHA384, enc_key_len: 32, fixed_iv_len: 4, explicit_nonce_len: 8 },
        SupportedCipherSuite { suite: CipherSuite::TLS_ECDHE_RSA_WITH_AES_128_GCM_SHA256, kx: KeyExchangeAlgorithm::ECDHE, sign: SignatureAlgorithm::RSA, bulk: BulkAlgorithm::AES_128_GCM, hash: HashAlgorithm::SHA256, enc_key_len: 16, fixed_iv_len: 4, explicit_nonce_len: 8 },
    ];
    assert(r@ =~= spec_all_ciphersuites());
    r
}

/// The first suite of `server` whose code is `cs`.
pub open spec fn first_with_code(server: Seq<SupportedCipherSuite>, cs: CipherSuite) -> Option<
    SupportedCipherSuite,
>
    decreases server.len(),
{
    if server.len() == 0 {
        None
    } else if server[0].suite == cs {
        Some(server[0])
    } else {
        first_with_code(server.skip(1), cs)
    }
}

/// The client's most preferred suite that the server supports.
pub open spec fn spec_choose_preferring_client(
    client: Seq<CipherSuite>,
    server: Seq<SupportedCipherSuite>,
) -> Option<SupportedCipherSuite>
    decreases client.len(),
{
    if client.len() == 0 {
        None
    } else {
        match first_with_code(server, client[0]) {
            Some(s) => Some(s),
            None => spec_choose_preferring_client(client.skip(1), server),
        }
    }
}

/// The server's most preferred suite that the client offered.
pub open spec fn spec_choose_preferring_server(
    client: Seq<CipherSuite>,
    server: Seq<SupportedCipherSuite>,
) -> Option<SupportedCipherSuite>
    decreases server.len(),
{
    if server.len() == 0 {
        None
    } else if client.contains(server[0].suite) {
        Some(server[0])
    } else {
        spec_choose_preferring_server(client, server.skip(1))
    }
}

fn find_with_code(server: &[SupportedCipherSuite], cs: CipherSuite) -> (r: Option<
    SupportedCipherSuite,
>)
    ensures
        r == first_with_code(server@, cs),
{
    let mut i: usize = 0;
    assert(server@.skip(0) =~= server@);
    while i < server.len()
        invariant
            0 <= i <= server@.len(),
            first_with_code(server@, cs) == first_with_code(server@.skip(i as int), cs),
        decreases server@.len() - i,
    {
        assert(server@.skip(i as int)[0] == server@[i as int]);
        if server[i].suite == cs {
            return Some(server[i]);
        }
        assert(server@.skip(i as int).skip(1) =~= server@.skip(i + 1));
        i = i + 1;
    }
    None
}

fn contains_code(client: &[CipherSuite], cs: CipherSuite) -> (r: bool)
    ensures
        r == client@.contains(cs),
{
    let mut i: usize = 0;
    while i < client.len()
        invariant
            0 <= i <= client@.len(),
            forall|j: int| 0 <= j < i ==> client@[j] != cs,
        decreases client@.len() - i,
    {
        if client[i] == cs {
            return true;
        }
        i = i + 1;
    }
    false
}

/// Picks the first suite in the client's order that the server permits.
pub fn choose_ciphersuite_preferring_client(
    client_suites: &[CipherSuite],
    server_suites: &[SupportedCipherSuite],
) -> (r: Option<SupportedCipherSuite>)
    ensures
        r == spec_choose_preferring_client(client_suites@, server_suites@),
{
    let mut i: usize = 0;
    assert(client_suites@.skip(0) =~= client_suites@);
    while i < client_suites.len()
        invariant
            0 <= i <= client_suites@.len(),
            spec_choose_preferring_client(client_suites@, server_suites@)
                == spec_choose_preferring_client(client_suites@.skip(i as int), server_suites@),
        decreases client_suites@.len() - i,
    {
        assert(client_suites@.skip(i as int)[0] == client_suites@[i as int]);
        if let Some(selected) = find_with_code(server_suites, client_suites[i]) {
            return Some(selected);
        }
        assert(client_suites@.skip(i as int).skip(1) =~= client_suites@.skip(i + 1));
        i = i + 1;
    }
    None
}

/// Picks the first suite in the server's order that the client offered.
pub fn choose_ciphersuite_preferring_server(
    client_suites: &[CipherSuite],
    server_suites: &[SupportedCipherSuite],
) -> (r: Option<SupportedCipherSuite>)
    ensures
        r == spec_choose_preferring_server(client_suites@, server_suites@),
{
    let mut i: usize = 0;
    assert(server_suites@.skip(0) =~= server_suites@);
    while i < server_suites.len()
        invariant
            0 <= i <= server_suites@.len(),
            spec_choose_preferring_server(client_suites@, server_suites@)
                == spec_choose_preferring_server(client_suites@, server_suites@.skip(i as int)),
        decreases server_suites@.len() - i,
    {
        assert(server_suites@.skip(i as int)[0] == server_suites@[i as int]);
        if contains_code(client_suites, server_suites[i].suite) {
            return Some(server_suites[i]);
        }
        assert(server_suites@.skip(i as int).skip(1) =~= server_suites@.skip(i + 1));
        i = i + 1;
    }
    None
}

/// Whether `suite` can be used with a certificate whose key signs with `sigalg`.
pub open spec fn usable_with(suite: SupportedCipherSuite, sigalg: SignatureAlgorithm) -> bool {
    suite.sign == SignatureAlgorithm::Anonymous || suite.sign == sigalg
}

/// The suites of `all`, in order, that are usable with `sigalg`.
pub open spec fn spec_reduce_given_sigalg(
    all: Seq<SupportedCipherSuite>,
    sigalg: SignatureAlgorithm,
) -> Seq<SupportedCipherSuite>
    decreases all.len(),
{
    if all.len() == 0 {
        Seq::empty()
    } else {
        let r = spec_reduce_given_sigalg(all.drop_last(), sigalg);
        if usable_with(all.last(), sigalg) {
            r.push(all.last())
        } else {
            r
        }
    }
}

/// The suites of `all`, in order, without those incompatible with `sigalg`.
pub fn reduce_given_sigalg(all: &[SupportedCipherSuite], sigalg: &SignatureAlgorithm) -> (r: Vec<
    SupportedCipherSuite,
>)
    ensures
        r@ == spec_reduce_given_sigalg(all@, *sigalg),
{
    let mut r: Vec<SupportedCipherSuite> = Vec::new();
    let mut i: usize = 0;
    while i < all.len()
        invariant
            0 <= i <= all@.len(),
            r@ == spec_reduce_given_sigalg(all@.take(i as int), *sigalg),
        decreases all@.len() - i,
    {
        assert(all@.take(i + 1).drop_last() =~= all@.take(i as int));
        if all[i].sign == SignatureAlgorithm::Anonymous || all[i].sign == *sigalg {
            r.push(all[i]);
        }
        i = i + 1;
    }
    assert(all@.take(i as int) =~= all@);
    r
}

/// The signature algorithm of a scheme; `Unknown(0)` for one this library
/// does not decompose.
pub open spec fn scheme_sign(s: SignatureScheme) -> SignatureAlgorithm {
    match s {
        SignatureScheme::RSA_PKCS1_SHA1 | SignatureScheme::RSA_PKCS1_SHA256
        | SignatureScheme::RSA_PKCS1_SHA384 | SignatureScheme::RSA_PKCS1_SHA512
        | SignatureScheme::RSA_PSS_SHA256 | SignatureScheme::RSA_PSS_SHA384
        | SignatureScheme::RSA_PSS_SHA512 => SignatureAlgorithm::RSA,
        SignatureScheme::ECDSA_NISTP256_SHA256 | SignatureScheme::ECDSA_NISTP384_SHA384
        | SignatureScheme::ECDSA_NISTP521_SHA512 => SignatureAlgorithm::ECDSA,
        _ => SignatureAlgorithm::Unknown(0),
    }
}

/// The hash of a scheme; `NONE` for one this library does not decompose.
pub open spec fn scheme_hash(s: SignatureScheme) -> HashAlgorithm {
    match s {
        SignatureScheme::RSA_PKCS1_SHA1 => HashAlgorithm::SHA1,
        SignatureScheme::RSA_PKCS1_SHA256 | SignatureScheme::RSA_PSS_SHA256
        | SignatureScheme::ECDSA_NISTP256_SHA256 => HashAlgorithm::SHA256,
        SignatureScheme::RSA_PKCS1_SHA384 | SignatureScheme::RSA_PSS_SHA384
        | SignatureScheme::ECDSA_NISTP384_SHA384 => HashAlgorithm::SHA384,
        SignatureScheme::RSA_PKCS1_SHA512 | SignatureScheme::RSA_PSS_SHA512
        | SignatureScheme::ECDSA_NISTP521_SHA512 => HashAlgorithm::SHA512,
        _ => HashAlgorithm::NONE,
    }
}

/// The TLS 1.2 scheme of a signature algorithm and a hash, where there is one.
pub open spec fn scheme_make(alg: SignatureAlgorithm, hash: HashAlgorithm) -> Option<
    SignatureScheme,
> {
    match (alg, hash) {
        (SignatureAlgorithm::RSA, HashAlgorithm::SHA1) => Some(SignatureScheme::RSA_PKCS1_SHA1),
        (SignatureAlgorithm::RSA, HashAlgorithm::SHA256) => Some(SignatureScheme::RSA_PKCS1_SHA256),
        (SignatureAlgorithm::RSA, HashAlgorithm::SHA384) => Some(SignatureScheme::RSA_PKCS1_SHA384),
        (SignatureAlgorithm::RSA, HashAlgorithm::SHA512) => Some(SignatureScheme::RSA_PKCS1_SHA512),
        (SignatureAlgorithm::ECDSA, HashAlgorithm::SHA256) => Some(
            SignatureScheme::ECDSA_NISTP256_SHA256,
        ),
        (SignatureAlgorithm::ECDSA, HashAlgorithm::SHA384) => Some(
            SignatureScheme::ECDSA_NISTP384_SHA384,
        ),
        (SignatureAlgorithm::ECDSA, HashAlgorithm::SHA512) => Some(
            SignatureScheme::ECDSA_NISTP521_SHA512,
        ),
        _ => None,
    }
}

/// Takes a signature scheme apart into its algorithm and hash, and puts one together.
pub trait DecomposedSignatureScheme: Sized {
    spec fn spec_sign(&self) -> SignatureAlgorithm;

    spec fn spec_hash(&self) -> HashAlgorithm;

    spec fn spec_make(alg: SignatureAlgorithm, hash: HashAlgorithm) -> Option<Self>;

    fn sign(&self) -> (r: SignatureAlgorithm)
        ensures
            r == self.spec_sign(),
    ;

    fn hash(&self) -> (r: HashAlgorithm)
        ensures
            r == self.spec_hash(),
    ;

    fn make(alg: SignatureAlgorithm, hash: HashAlgorithm) -> (r: Self)
        requires
            Self::spec_make(alg, hash) is Some,
        ensures
            Self::spec_make(alg, hash) == Some(r),
    ;
}

impl DecomposedSignatureScheme for SignatureScheme {
    open spec fn spec_sign(&self) -> SignatureAlgorithm {
        scheme_sign(*self)
    }

    open spec fn spec_hash(&self) -> HashAlgorithm {
        scheme_hash(*self)
    }

    open spec fn spec_make(alg: SignatureAlgorithm, hash: HashAlgorithm) -> Option<
        SignatureScheme,
    > {
        scheme_make(alg, hash)
    }

    fn sign(&self) -> (r: SignatureAlgorithm) {
        match *self {
            SignatureScheme::RSA_PKCS1_SHA1 => SignatureAlgorithm::RSA,
            SignatureScheme::RSA_PKCS1_SHA256 => SignatureAlgorithm::RSA,
            SignatureScheme::RSA_PKCS1_SHA384 => SignatureAlgorithm::RSA,
            SignatureScheme::RSA_PKCS1_SHA512 => SignatureAlgorithm::RSA,
            SignatureScheme::RSA_PSS_SHA256 => SignatureAlgorithm::RSA,
            SignatureScheme::RSA_PSS_SHA384 => SignatureAlgorithm::RSA,
            SignatureScheme::RSA_PSS_SHA512 => SignatureAlgorithm::RSA,
            SignatureScheme::ECDSA_NISTP256_SHA256 => SignatureAlgorithm::ECDSA,
            SignatureScheme::ECDSA_NISTP384_SHA384 => SignatureAlgorithm::ECDSA,
            SignatureScheme::ECDSA_NISTP521_SHA512 => SignatureAlgorithm::ECDSA,
            _ => SignatureAlgorithm::Unknown(0),
        }
    }

    fn hash(&self) -> (r: HashAlgorithm) {
        match *self {
            SignatureScheme::RSA_PKCS1_SHA1 => HashAlgorithm::SHA1,
            SignatureScheme::RSA_PKCS1_SHA256 => HashAlgorithm::SHA256,
            SignatureScheme::RSA_PKCS1_SHA384 => HashAlgorithm::SHA384,
            SignatureScheme::RSA_PKCS1_SHA512 => HashAlgorithm::SHA512,
            SignatureScheme::RSA_PSS_SHA256 => HashAlgorithm::SHA256,
            SignatureScheme::RSA_PSS_SHA384 => HashAlgorithm::SHA384,
            SignatureScheme::RSA_PSS_SHA512 => HashAlgorithm::SHA512,
            SignatureScheme::ECDSA_NISTP256_SHA256 => HashAlgorithm::SHA256,
            SignatureScheme::ECDSA_NISTP384_SHA384 => HashAlgorithm::SHA384,
            SignatureScheme::ECDSA_NISTP521_SHA512 => HashAlgorithm::SHA512,
            _ => HashAlgorithm::NONE,
        }
    }

    fn make(alg: SignatureAlgorithm, hash: HashAlgorithm) -> (r: SignatureScheme) {
        match (alg, hash) {
            (SignatureAlgorithm::RSA, HashAlgorithm::SHA1) => SignatureScheme::RSA_PKCS1_SHA1,
            (SignatureAlgorithm::RSA, HashAlgorithm::SHA256) => SignatureScheme::RSA_PKCS1_SHA256,
            (SignatureAlgorithm::RSA, HashAlgorithm::SHA384) => SignatureScheme::RSA_PKCS1_SHA384,
            (SignatureAlgorithm::RSA, HashAlgorithm::SHA512) => SignatureScheme::RSA_PKCS1_SHA512,
            (SignatureAlgorithm::ECDSA, HashAlgorithm::SHA256) => SignatureScheme::ECDSA_NISTP256_SHA256,
            (SignatureAlgorithm::ECDSA, HashAlgorithm::SHA384) => SignatureScheme::ECDSA_NISTP384_SHA384,
            _ => SignatureScheme::ECDSA_NISTP521_SHA512,
        }
    }
}

/// The first of `ours` that `theirs` also holds.
pub open spec fn first_in_both<T>(ours: Seq<T>, theirs: Seq<T>) -> Option<T>
    decreases ours.len(),
{
    if ours.len() == 0 {
        None
    } else if theirs.contains(ours[0]) {
        Some(ours[0])
    } else {
        first_in_both(ours.skip(1), theirs)
    }
}

fn contains_scheme(s: &[SignatureScheme], x: SignatureScheme) -> (r: bool)
    ensures
        r == s@.contains(x),
{
    let mut i: usize = 0;
    while i < s.len()
        invariant
            0 <= i <= s@.len(),
            forall|j: int| 0 <= j < i ==> s@[j] != x,
        decreases s@.len() - i,
    {
        if s[i] == x {
            return true;
        }
        i = i + 1;
    }
    false
}

/// The first of `ours` that `theirs` also holds.
pub fn first_scheme_in_both(ours: &[SignatureScheme], theirs: &[SignatureScheme]) -> (r: Option<
    SignatureScheme,
>)
    ensures
        r == first_in_both(ours@, theirs@),
{
    let mut i: usize = 0;
    assert(ours@.skip(0) =~= ours@);
    while i < ours.len()
        invariant
            0 <= i <= ours@.len(),
            first_in_both(ours@, theirs@) == first_in_both(ours@.skip(i as int), theirs@),
        decreases ours@.len() - i,
    {
        assert(ours@.skip(i as int)[0] == ours@[i as int]);
        if contains_scheme(theirs, ours[i]) {
            return Some(ours[i]);
        }
        assert(ours@.skip(i as int).skip(1) =~= ours@.skip(i + 1));
        i = i + 1;
    }
    None
}

/// The first of `ours` that `theirs` also holds.
pub fn first_group_in_both(ours: &[NamedGroup], theirs: &[NamedGroup]) -> (r: Option<NamedGroup>)
    ensures
        r == first_in_both(ours@, theirs@),
{
    let mut i: usize = 0;
    assert(ours@.skip(0) =~= ours@);
    while i < ours.len()
        invariant
            0 <= i <= ours@.len(),
            first_in_both(ours@, theirs@) == first_in_both(ours@.skip(i as int), theirs@),
        decreases ours@.len() - i,
    {
        assert(ours@.skip(i as int)[0] == ours@[i as int]);
        let mut found = false;
        let mut j: usize = 0;
        while j < theirs.len()
            invariant
                0 <= i < ours@.len(),
                0 <= j <= theirs@.len(),
                !found ==> forall|k: int| 0 <= k < j ==> theirs@[k] != ours@[i as int],
                found ==> theirs@.contains(ours@[i as int]),
            decreases theirs@.len() - j,
        {
            if theirs[j] == ours[i] {
                found = true;
            }
            j = j + 1;
        }
        if found {
            return Some(ours[i]);
        }
        assert(ours@.skip(i as int).skip(1) =~= ours@.skip(i + 1));
        i = i + 1;
    }
    None
}

/// The schemes this suite prefers for its own signatures, best first: its own
/// hash, then SHA-512, SHA-384 and SHA-256.
pub open spec fn sig_preference(s: SupportedCipherSuite) -> Seq<SignatureScheme> {
    seq![
        scheme_make(s.sign, s.hash).unwrap(),
        scheme_make(s.sign, HashAlgorithm::SHA512).unwrap(),
        scheme_make(s.sign, HashAlgorithm::SHA384).unwrap(),
        scheme_make(s.sign, HashAlgorithm::SHA256).unwrap(),
    ]
}

impl SupportedCipherSuite {
    /// The length of the TLS 1.2 key block.
    pub open spec fn spec_key_block_len(&self) -> int {
        (self.enc_key_len + self.fixed_iv_len) * 2 + self.explicit_nonce_len
    }

    pub fn key_block_len(&self) -> (r: usize)
        requires
            self.spec_key_block_len() <= usize::MAX,
        ensures
            r == self.spec_key_block_len(),
    {
        (self.enc_key_len + self.fixed_iv_len) * 2 + self.explicit_nonce_len
    }

    /// Whether this suite signs in a way `resolve_sig_scheme` can name.
    pub open spec fn signs_with_hash(&self) -> bool {
        (self.sign == SignatureAlgorithm::RSA || self.sign == SignatureAlgorithm::ECDSA)
            && scheme_make(self.sign, self.hash) is Some
    }

    /// The scheme to sign with: the first of `sig_preference` that the peer
    /// offered. None when there is none, or the suite does not sign.
    pub fn resolve_sig_scheme(&self, offered: &[SignatureScheme]) -> (r: Option<SignatureScheme>)
        ensures
            self.signs_with_hash() ==> r == first_in_both(sig_preference(*self), offered@),
            !self.signs_with_hash() ==> r is None,
    {
        if !(self.sign == SignatureAlgorithm::RSA || self.sign == SignatureAlgorithm::ECDSA) {
            return None;
        }
        if self.sign == SignatureAlgorithm::ECDSA && self.hash == HashAlgorithm::SHA1 {
            return None;
        }
        if !(self.hash == HashAlgorithm::SHA1 || self.hash == HashAlgorithm::SHA256
            || self.hash == HashAlgorithm::SHA384 || self.hash == HashAlgorithm::SHA512) {
            return None;
        }
        let our_preference = vec![
            SignatureScheme::make(self.sign, self.hash),
            SignatureScheme::make(self.sign, HashAlgorithm::SHA512),
            SignatureScheme::make(self.sign, HashAlgorithm::SHA384),
            SignatureScheme::make(self.sign, HashAlgorithm::SHA256),
        ];
        assert(our_preference@ =~= sig_preference(*self));
        first_scheme_in_both(our_preference.as_slice(), offered)
    }
}

/// Groups offered and preferred, best first.
pub open spec fn spec_supported_groups() -> Seq<NamedGroup> {
    seq![NamedGroup::X25519, NamedGroup::secp384r1, NamedGroup::secp256r1]
}

/// Preferring the client, the client's first choice wins whatever the
/// server's order; preferring the server, the server's first choice wins.
pub proof fn lemma_suite_preference(a: SupportedCipherSuite, b: SupportedCipherSuite)
    requires
        a.suite != b.suite,
    ensures
        spec_choose_preferring_client(seq![a.suite, b.suite], seq![a, b]) == Some(a),
        spec_choose_preferring_client(seq![a.suite, b.suite], seq![b, a]) == Some(a),
        spec_choose_preferring_server(seq![a.suite, b.suite], seq![b, a]) == Some(b),
        spec_choose_preferring_server(seq![a.suite, b.suite], seq![a, b]) == Some(a),
{
    let c = seq![a.suite, b.suite];
    assert(c.contains(a.suite) && c[0] == a.suite);
    assert(c.contains(b.suite) && c[1] == b.suite);
    assert(seq![b, a].skip(1) =~= seq![a]);
    assert(seq![a].skip(1) =~= Seq::<SupportedCipherSuite>::empty());
    assert(first_with_code(seq![a], a.suite) == Some(a));
    assert(first_with_code(seq![b, a], a.suite) == Some(a));
    assert(first_with_code(seq![a, b], a.suite) == Some(a));
}

impl SupportedCipherSuite {
    /// The supported suite with code `cs`, if there is one.
    pub fn lookup(cs: CipherSuite) -> (r: Option<SupportedCipherSuite>)
        ensures
            r == first_with_code(spec_all_ciphersuites(), cs),
    {
        let all = all_ciphersuites();
        find_with_code(all.as_slice(), cs)
    }
}

} // verus!
