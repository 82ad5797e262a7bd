//! The groups, point formats and signature schemes this library offers.

use vstd::prelude::*;
use crate::base::PayloadU8;
use crate::enums::{ECPointFormat, NamedGroup, SignatureScheme};
use crate::handshake::{ProtocolNameList, check_utf8, is_utf8};
use crate::suites::spec_supported_groups;

verus! {

/// Signature schemes accepted from peers, strongest first.
pub open spec fn spec_supported_verify() -> Seq<SignatureScheme> {
    seq![
        SignatureScheme::ED25519,
        SignatureScheme::ECDSA_NISTP384_SHA384,
        SignatureScheme::ECDSA_NISTP256_SHA256,
        SignatureScheme::RSA_PSS_SHA512,
        SignatureScheme::RSA_PSS_SHA384,
        SignatureScheme::RSA_PSS_SHA256,
        SignatureScheme::RSA_PKCS1_SHA512,
        SignatureScheme::RSA_PKCS1_SHA384,
        SignatureScheme::RSA_PKCS1_SHA256,
        SignatureScheme::RSA_PKCS1_SHA1,
    ]
}

pub fn supported_groups() -> (r: Vec<NamedGroup>)
    ensures
        r@ == spec_supported_groups(),
{
    let r = vec![NamedGroup::X25519, NamedGroup::secp384r1, NamedGroup::secp256r1];
    assert(r@ =~= spec_supported_groups());
    r
}

pub fn supported_point_formats() -> (r: Vec<ECPointFormat>)
    ensures
        r@ == seq![ECPointFormat::Uncompressed],
{
    let r = vec![ECPointFormat::Uncompressed];
    assert(r@ =~= seq![ECPointFormat::Uncompressed]);
    r
}

pub fn supported_verify() -> (r: Vec<SignatureScheme>)
    ensures
        r@ == spec_supported_verify(),
{
    let r = vec![
        SignatureScheme::ED25519,
        SignatureScheme::ECDSA_NISTP384_SHA384,
        SignatureScheme::ECDSA_NISTP256_SHA256,
        SignatureScheme::RSA_PSS_SHA512,
        SignatureScheme::RSA_PSS_SHA384,
        SignatureScheme::RSA_PSS_SHA256,
        SignatureScheme::RSA_PKCS1_SHA512,
        SignatureScheme::RSA_PKCS1_SHA384,
        SignatureScheme::RSA_PKCS1_SHA256,
        SignatureScheme::RSA_PKCS1_SHA1,
    ];
    assert(r@ =~= spec_supported_verify());
    r
}

/// The point formats this library supports.
pub trait SupportedPointFormats: Sized + View {
    spec fn spec_supported() -> Self::V;

    fn supported() -> (r: Self)
        ensures
            r@ == Self::spec_supported(),
    ;
}

impl SupportedPointFormats for Vec<ECPointFormat> {
    open spec fn spec_supported() -> Seq<ECPointFormat> {
        seq![ECPointFormat::Uncompressed]
    }

    fn supported() -> (r: Vec<ECPointFormat>) {
        supported_point_formats()
    }
}

/// The groups this library supports, best first.
pub trait SupportedGroups: Sized + View {
    spec fn spec_supported() -> Self::V;

    fn supported() -> (r: Self)
        ensures
            r@ == Self::spec_supported(),
    ;
}

impl SupportedGroups for Vec<NamedGroup> {
    open spec fn spec_supported() -> Seq<NamedGroup> {
        spec_supported_groups()
    }

    fn supported() -> (r: Vec<NamedGroup>) {
        supported_groups()
    }
}

/// The signature schemes TLS 1.2 mandates, and those this library verifies.
pub trait SupportedMandatedSignatureSchemes: Sized + View {
    spec fn spec_mandated() -> Self::V;

    spec fn spec_supported_verify() -> Self::V;

    fn mandated() -> (r: Self)
        ensures
            r@ == Self::spec_mandated(),
    ;

    fn supported_verify() -> (r: Self)
        ensures
            r@ == Self::spec_supported_verify(),
    ;
}

impl SupportedMandatedSignatureSchemes for Vec<SignatureScheme> {
    open spec fn spec_mandated() -> Seq<SignatureScheme> {
        seq![SignatureScheme::RSA_PKCS1_SHA1]
    }

    open spec fn spec_supported_verify() -> Seq<SignatureScheme> {
        spec_supported_verify()
    }

    fn mandated() -> (r: Vec<SignatureScheme>) {
        let r = vec![SignatureScheme::RSA_PKCS1_SHA1];
        assert(r@ =~= seq![SignatureScheme::RSA_PKCS1_SHA1]);
        r
    }

    fn supported_verify() -> (r: Vec<SignatureScheme>) {
        supported_verify()
    }
}

/// The names of a protocol list that are well-formed UTF-8, in order.
pub open spec fn utf8_names(l: Seq<PayloadU8>) -> Seq<Seq<u8>>
    decreases l.len(),
{
    if l.len() == 0 {
        Seq::empty()
    } else {
        let r = utf8_names(l.drop_last());
        if is_utf8(l.last().0@) {
            r.push(l.last().0@)
        } else {
            r
        }
    }
}

/// Converts between a protocol name list and the names it holds.
pub trait ConvertProtocolNameList: Sized + View {
    spec fn names_of(v: Self::V) -> Seq<Seq<u8>>;

    spec fn utf8_names_of(v: Self::V) -> Seq<Seq<u8>>;

    fn from_strings(names: &[Vec<u8>]) -> (r: Self)
        ensures
            Self::names_of(r@) == names@.map_values(|n: Vec<u8>| n@),
    ;

    /// The names that are well-formed UTF-8, in order.
    fn to_strings(&self) -> (r: Vec<Vec<u8>>)
        ensures
            r@.map_values(|n: Vec<u8>| n@) == Self::utf8_names_of(self@),
    ;

    /// The one name of a one-name list, when it is well-formed UTF-8.
    fn to_single_string(&self) -> (r: Option<Vec<u8>>)
        ensures
            Self::names_of(self@).len() == 1 && is_utf8(Self::names_of(self@)[0]) ==> (r matches Some(n)
                && n@ == Self::names_of(self@)[0]),
            !(Self::names_of(self@).len() == 1 && is_utf8(Self::names_of(self@)[0])) ==> r is None,
    ;
}

impl ConvertProtocolNameList for ProtocolNameList {
    open spec fn names_of(v: Seq<PayloadU8>) -> Seq<Seq<u8>> {
        v.map_values(|p: PayloadU8| p.0@)
    }

    open spec fn utf8_names_of(v: Seq<PayloadU8>) -> Seq<Seq<u8>> {
        utf8_names(v)
    }

    fn from_strings(names: &[Vec<u8>]) -> (r: ProtocolNameList) {
        let mut ret: Vec<PayloadU8> = Vec::new();
        let mut i: usize = 0;
        while i < names.len()
            invariant
                0 <= i <= names@.len(),
                ret@.len() == i,
                forall|j: int| 0 <= j < i ==> #[trigger] ret@[j].0@ == names@[j]@,
            decreases names@.len() - i,
        {
            ret.push(PayloadU8::new(crate::base::copy_bytes(&names[i])));
            i = i + 1;
        }
        assert(ret@.map_values(|p: PayloadU8| p.0@) =~= names@.map_values(|n: Vec<u8>| n@));
        ret
    }

    fn to_strings(&self) -> (r: Vec<Vec<u8>>) {
        let mut ret: Vec<Vec<u8>> = Vec::new();
        let mut i: usize = 0;
        while i < self.len()
            invariant
                0 <= i <= self@.len(),
                ret@.map_values(|n: Vec<u8>| n@) == utf8_names(self@.take(i as int)),
            decreases self@.len() - i,
        {
            assert(self@.take(i + 1).drop_last() =~= self@.take(i as int));
            if check_utf8(self[i].0.as_slice()) {
                ret.push(crate::base::copy_bytes(&self[i].0));
            }
            i = i + 1;
            assert(ret@.map_values(|n: Vec<u8>| n@) =~= utf8_names(self@.take(i as int)));
        }
        assert(self@.take(i as int) =~= self@);
        ret
    }

    fn to_single_string(&self) -> (r: Option<Vec<u8>>) {
        if self.len() == 1 && check_utf8(self[0].0.as_slice()) {
            Some(crate::base::copy_bytes(&self[0].0))
        } else {
            None
        }
    }
}

} // verus!
