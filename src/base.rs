//! Opaque byte strings, bare or behind a length of one, two or three bytes.

use vstd::prelude::*;
use crate::codec::{
    Codec, Reader, append_bytes, be16, be16_value, be24, be24_value, encode_u16, encode_u24,
    lemma_be16_of_value, lemma_be16_round_trip, lemma_be24_of_value, lemma_be24_round_trip,
};
use vstd::slice::slice_to_vec;

verus! {

/// Bytes that run to the end of their enclosing structure.
#[derive(Debug, Clone)]
pub struct Payload(pub Vec<u8>);

/// Bytes behind a one-byte length.
#[derive(Debug, Clone)]
pub struct PayloadU8(pub Vec<u8>);

/// Bytes behind a two-byte length.
#[derive(Debug, Clone)]
pub struct PayloadU16(pub Vec<u8>);

/// Bytes behind a three-byte length.
#[derive(Debug, Clone)]
pub struct PayloadU24(pub Vec<u8>);

/// A copy of `v` that Verus knows to hold the same bytes.
pub fn copy_bytes(v: &Vec<u8>) -> (r: Vec<u8>)
    ensures
        r@ == v@,
{
    slice_to_vec(v.as_slice())
}

impl Payload {
    pub fn new(bytes: Vec<u8>) -> (r: Payload)
        ensures
            r.0@ == bytes@,
    {
        Payload(bytes)
    }

    pub fn empty() -> (r: Payload)
        ensures
            r.0@.len() == 0,
    {
        Payload(Vec::new())
    }
}

impl PayloadU8 {
    pub fn new(bytes: Vec<u8>) -> (r: PayloadU8)
        ensures
            r.0@ == bytes@,
    {
        PayloadU8(bytes)
    }

    pub fn empty() -> (r: PayloadU8)
        ensures
            r.0@.len() == 0,
    {
        PayloadU8(Vec::new())
    }
}

impl PayloadU16 {
    pub fn new(bytes: Vec<u8>) -> (r: PayloadU16)
        ensures
            r.0@ == bytes@,
    {
        PayloadU16(bytes)
    }
}

impl PayloadU24 {
    pub fn new(bytes: Vec<u8>) -> (r: PayloadU24)
        ensures
            r.0@ == bytes@,
    {
        PayloadU24(bytes)
    }
}

impl Codec for Payload {
    open spec fn encoding(&self) -> Seq<u8> {
        self.0@
    }

    fn encode(&self, bytes: &mut Vec<u8>) {
        append_bytes(bytes, self.0.as_slice());
    }

    fn read(r: &mut Reader) -> (res: Option<Payload>)
        ensures
            res matches Some(p) && p.0@ == old(r).rest() && final(r).rest().len() == 0,
    {
        let n = r.left();
        match r.take(n) {
            Some(s) => {
                assert(old(r).rest() =~= s@ + r.rest());
                assert(r.rest().len() == 0);
                Some(Payload(slice_to_vec(s)))
            },
            None => None,
        }
    }
}

impl Codec for PayloadU8 {
    open spec fn encoding(&self) -> Seq<u8> {
        seq![self.0@.len() as u8] + self.0@
    }

    fn encode(&self, bytes: &mut Vec<u8>) {
        bytes.push(self.0.len() as u8);
        append_bytes(bytes, self.0.as_slice());
        assert(bytes@ =~= old(bytes)@ + self.encoding());
    }

    fn read(r: &mut Reader) -> (res: Option<PayloadU8>)
        ensures
            old(r).rest().len() >= 1 && old(r).rest().len() >= 1 + old(r).rest()[0] ==> (res matches Some(
                p,
            ) && p.0@ == old(r).rest().subrange(1, 1 + old(r).rest()[0])),
    {
        let len = match r.read_u8() {
            Some(x) => x,
            None => return None,
        };
        match r.take(len as usize) {
            Some(s) => {
                let p = PayloadU8(slice_to_vec(s));
                assert(old(r).rest() =~= p.encoding() + r.rest());
                assert(p.0@ =~= old(r).rest().subrange(1, 1 + len));
                Some(p)
            },
            None => None,
        }
    }
}

impl Codec for PayloadU16 {
    open spec fn encoding(&self) -> Seq<u8> {
        be16(self.0@.len() as u16) + self.0@
    }

    fn encode(&self, bytes: &mut Vec<u8>) {
        encode_u16(self.0.len() as u16, bytes);
        append_bytes(bytes, self.0.as_slice());
        assert(bytes@ =~= old(bytes)@ + self.encoding());
    }

    fn read(r: &mut Reader) -> (res: Option<PayloadU16>)
        ensures
            old(r).rest().len() >= 2 && old(r).rest().len() >= 2 + be16_value(old(r).rest()) ==> (
            res matches Some(p) && p.0@ == old(r).rest().subrange(
                2,
                2 + be16_value(old(r).rest()),
            )),
    {
        proof {
            if old(r).rest().len() >= 2 {
                lemma_be16_of_value(old(r).rest());
            }
        }
        let len = match r.read_u16() {
            Some(x) => x,
            None => return None,
        };
        match r.take(len as usize) {
            Some(s) => {
                let p = PayloadU16(slice_to_vec(s));
                assert(old(r).rest() =~= p.encoding() + r.rest());
                assert(p.0@ =~= old(r).rest().subrange(2, 2 + len));
                Some(p)
            },
            None => None,
        }
    }
}

impl Codec for PayloadU24 {
    open spec fn encoding(&self) -> Seq<u8> {
        be24(self.0@.len() as u32) + self.0@
    }

    fn encode(&self, bytes: &mut Vec<u8>) {
        encode_u24(self.0.len() as u32, bytes);
        append_bytes(bytes, self.0.as_slice());
        assert(bytes@ =~= old(bytes)@ + self.encoding());
    }

    fn read(r: &mut Reader) -> (res: Option<PayloadU24>)
        ensures
            old(r).rest().len() >= 3 && old(r).rest().len() >= 3 + be24_value(old(r).rest()) ==> (
            res matches Some(p) && p.0@ == old(r).rest().subrange(
                3,
                3 + be24_value(old(r).rest()),
            )),
    {
        proof {
            if old(r).rest().len() >= 3 {
                lemma_be24_of_value(old(r).rest());
            }
        }
        let len = match r.read_u24() {
            Some(x) => x,
            None => return None,
        };
        match r.take(len as usize) {
            Some(s) => {
                let p = PayloadU24(slice_to_vec(s));
                assert(old(r).rest() =~= p.encoding() + r.rest());
                assert(p.0@ =~= old(r).rest().subrange(3, 3 + len));
                Some(p)
            },
            None => None,
        }
    }
}

/// Decoding the wire form of a payload that fits its length gives the payload
/// back: its length prefix reads as its length, and its bytes follow.
pub proof fn lemma_payload_round_trip(p8: PayloadU8, p16: PayloadU16, p24: PayloadU24, tail: Seq<u8>)
    requires
        p8.0@.len() < 0x100,
        p16.0@.len() < 0x1_0000,
        p24.0@.len() < 0x100_0000,
    ensures
        ({
            let s = p8.encoding() + tail;
            s.len() >= 1 + s[0] && s.subrange(1, 1 + s[0]) == p8.0@
        }),
        ({
            let s = p16.encoding() + tail;
            s.len() >= 2 + be16_value(s) && s.subrange(2, 2 + be16_value(s)) == p16.0@
        }),
        ({
            let s = p24.encoding() + tail;
            s.len() >= 3 + be24_value(s) && s.subrange(3, 3 + be24_value(s)) == p24.0@
        }),
{
    let s8 = p8.encoding() + tail;
    assert(s8[0] == p8.0@.len());
    assert(s8.subrange(1, 1 + s8[0]) =~= p8.0@);
    let s16 = p16.encoding() + tail;
    lemma_be16_round_trip(p16.0@.len() as u16, p16.0@ + tail);
    assert(s16 =~= be16(p16.0@.len() as u16) + (p16.0@ + tail));
    assert(s16.subrange(2, 2 + be16_value(s16)) =~= p16.0@);
    let s24 = p24.encoding() + tail;
    lemma_be24_round_trip(p24.0@.len() as u32, p24.0@ + tail);
    assert(s24 =~= be24(p24.0@.len() as u32) + (p24.0@ + tail));
    assert(s24.subrange(3, 3 + be24_value(s24)) =~= p24.0@);
}

} // verus!
