//! Big-endian integers and a cursor over received bytes.

use vstd::prelude::*;
use vstd::slice::slice_subrange;

verus! {

/// Two bytes, most significant first.
pub open spec fn be16(v: u16) -> Seq<u8> {
    seq![(v / 256) as u8, (v % 256) as u8]
}

/// Three bytes, most significant first, of a value below 2^24.
pub open spec fn be24(v: u32) -> Seq<u8> {
    seq![(v / 65536) as u8, ((v / 256) % 256) as u8, (v % 256) as u8]
}

/// Four bytes, most significant first.
pub open spec fn be32(v: u32) -> Seq<u8> {
    seq![(v / 16777216) as u8, ((v / 65536) % 256) as u8, ((v / 256) % 256) as u8, (v % 256) as u8]
}

/// The value of the first two bytes of `s`, read big-endian.
pub open spec fn be16_value(s: Seq<u8>) -> u16 {
    (s[0] as int * 256 + s[1] as int) as u16
}

/// The value of the first three bytes of `s`, read big-endian.
pub open spec fn be24_value(s: Seq<u8>) -> u32 {
    (s[0] as int * 65536 + s[1] as int * 256 + s[2] as int) as u32
}

/// The value of the first four bytes of `s`, read big-endian.
pub open spec fn be32_value(s: Seq<u8>) -> u32 {
    (s[0] as int * 16777216 + s[1] as int * 65536 + s[2] as int * 256 + s[3] as int) as u32
}

pub proof fn lemma_be16_round_trip(v: u16, tail: Seq<u8>)
    ensures
        be16_value(be16(v) + tail) == v,
        (be16(v) + tail).skip(2) == tail,
{
    assert((be16(v) + tail).skip(2) =~= tail);
}

pub proof fn lemma_be24_round_trip(v: u32, tail: Seq<u8>)
    requires
        v < 0x100_0000,
    ensures
        be24_value(be24(v) + tail) == v,
        (be24(v) + tail).skip(3) == tail,
{
    let s = be24(v) + tail;
    assert(s[0] == (v / 65536) as u8);
    assert(s[1] == ((v / 256) % 256) as u8);
    assert(s[2] == (v % 256) as u8);
    assert((v / 65536) as int * 65536 + ((v / 256) % 256) as int * 256 + (v % 256) as int == v)
        by (nonlinear_arith)
        requires
            v < 0x100_0000,
    ;
    assert(s.skip(3) =~= tail);
}

pub proof fn lemma_be32_round_trip(v: u32, tail: Seq<u8>)
    ensures
        be32_value(be32(v) + tail) == v,
        (be32(v) + tail).skip(4) == tail,
{
    let s = be32(v) + tail;
    assert(s[0] == (v / 16777216) as u8);
    assert(s[1] == ((v / 65536) % 256) as u8);
    assert(s[2] == ((v / 256) % 256) as u8);
    assert(s[3] == (v % 256) as u8);
    assert((v / 16777216) as int * 16777216 + ((v / 65536) % 256) as int * 65536 + ((v / 256)
        % 256) as int * 256 + (v % 256) as int == v) by (nonlinear_arith);
    assert(s.skip(4) =~= tail);
}

pub fn encode_u8(v: u8, bytes: &mut Vec<u8>)
    ensures
        final(bytes)@ == old(bytes)@.push(v),
{
    bytes.push(v);
}

pub fn encode_u16(v: u16, bytes: &mut Vec<u8>)
    ensures
        final(bytes)@ == old(bytes)@ + be16(v),
{
    bytes.push((v / 256) as u8);
    bytes.push((v % 256) as u8);
    assert(bytes@ =~= old(bytes)@ + be16(v));
}

pub fn encode_u24(v: u32, bytes: &mut Vec<u8>)
    ensures
        final(bytes)@ == old(bytes)@ + be24(v),
{
    bytes.push((v / 65536) as u8);
    bytes.push(((v / 256) % 256) as u8);
    bytes.push((v % 256) as u8);
    assert(bytes@ =~= old(bytes)@ + be24(v));
}

pub fn encode_u32(v: u32, bytes: &mut Vec<u8>)
    ensures
        final(bytes)@ == old(bytes)@ + be32(v),
{
    bytes.push((v / 16777216) as u8);
    bytes.push(((v / 65536) % 256) as u8);
    bytes.push(((v / 256) % 256) as u8);
    bytes.push((v % 256) as u8);
    assert(bytes@ =~= old(bytes)@ + be32(v));
}

/// Appends `src` to `bytes`.
pub fn append_bytes(bytes: &mut Vec<u8>, src: &[u8])
    ensures
        final(bytes)@ == old(bytes)@ + src@,
{
    let mut i: usize = 0;
    while i < src.len()
        invariant
            0 <= i <= src@.len(),
            bytes@ == old(bytes)@ + src@.take(i as int),
        decreases src@.len() - i,
    {
        bytes.push(src[i]);
        i = i + 1;
        assert(bytes@ =~= old(bytes)@ + src@.take(i as int));
    }
    assert(src@.take(i as int) =~= src@);
}

/// A cursor over a byte slice: what has not been read yet is `rest()`.
pub struct Reader<'a> {
    pub buf: &'a [u8],
    pub offs: usize,
}

impl<'a> Reader<'a> {
    pub open spec fn wf(&self) -> bool {
        self.offs <= self.buf@.len()
    }

    /// The bytes not read yet.
    pub open spec fn rest(&self) -> Seq<u8> {
        self.buf@.subrange(self.offs as int, self.buf@.len() as int)
    }

    pub fn init(bytes: &'a [u8]) -> (r: Reader<'a>)
        ensures
            r.wf(),
            r.rest() == bytes@,
    {
        let r = Reader { buf: bytes, offs: 0 };
        assert(r.rest() =~= bytes@);
        r
    }

    pub fn left(&self) -> (n: usize)
        requires
            self.wf(),
        ensures
            n == self.rest().len(),
    {
        self.buf.len() - self.offs
    }

    pub fn any_left(&self) -> (b: bool)
        requires
            self.wf(),
        ensures
            b == (self.rest().len() > 0),
    {
        self.offs < self.buf.len()
    }

    /// Takes the next `len` bytes, if there are that many.
    pub fn take(&mut self, len: usize) -> (r: Option<&'a [u8]>)
        requires
            old(self).wf(),
        ensures
            final(self).wf(),
            len <= old(self).rest().len() ==> (r matches Some(s) && s@ == old(self).rest().take(len as int) && final(self).rest() == old(self).rest().skip(len as int)),
            len > old(self).rest().len() ==> r is None && final(self).rest() == old(self).rest(),
    {
        if len > self.buf.len() - self.offs {
            return None;
        }
        let start = self.offs;
        self.offs = self.offs + len;
        let s = slice_subrange(self.buf, start, start + len);
        assert(s@ =~= old(self).rest().take(len as int));
        assert(self.rest() =~= old(self).rest().skip(len as int));
        Some(s)
    }

    /// A reader over the next `len` bytes, which this reader then skips.
    pub fn sub(&mut self, len: usize) -> (r: Option<Reader<'a>>)
        requires
            old(self).wf(),
        ensures
            final(self).wf(),
            len <= old(self).rest().len() ==> (r matches Some(s) && s.wf() && s.rest() == old(self).rest().take(len as int) && final(self).rest() == old(self).rest().skip(len as int)),
            len > old(self).rest().len() ==> r is None && final(self).rest() == old(self).rest(),
    {
        match self.take(len) {
            Some(s) => Some(Reader::init(s)),
            None => None,
        }
    }

    pub fn read_u8(&mut self) -> (r: Option<u8>)
        requires
            old(self).wf(),
        ensures
            final(self).wf(),
            old(self).rest().len() >= 1 ==> r == Some(old(self).rest()[0]) && final(self).rest()
                == old(self).rest().skip(1),
            old(self).rest().len() < 1 ==> r is None && final(self).rest() == old(self).rest(),
    {
        match self.take(1) {
            Some(s) => Some(s[0]),
            None => None,
        }
    }

    pub fn read_u16(&mut self) -> (r: Option<u16>)
        requires
            old(self).wf(),
        ensures
            final(self).wf(),
            old(self).rest().len() >= 2 ==> r == Some(be16_value(old(self).rest())) && final(self).rest() == old(self).rest().skip(2),
            old(self).rest().len() < 2 ==> r is None && final(self).rest() == old(self).rest(),
    {
        match self.take(2) {
            Some(s) => Some(s[0] as u16 * 256 + s[1] as u16),
            None => None,
        }
    }

    pub fn read_u24(&mut self) -> (r: Option<u32>)
        requires
            old(self).wf(),
        ensures
            final(self).wf(),
            old(self).rest().len() >= 3 ==> r == Some(be24_value(old(self).rest())) && final(self).rest() == old(self).rest().skip(3),
            old(self).rest().len() < 3 ==> r is None && final(self).rest() == old(self).rest(),
    {
        match self.take(3) {
            Some(s) => Some(s[0] as u32 * 65536 + s[1] as u32 * 256 + s[2] as u32),
            None => None,
        }
    }

    pub fn read_u32(&mut self) -> (r: Option<u32>)
        requires
            old(self).wf(),
        ensures
            final(self).wf(),
            old(self).rest().len() >= 4 ==> r == Some(be32_value(old(self).rest())) && final(self).rest() == old(self).rest().skip(4),
            old(self).rest().len() < 4 ==> r is None && final(self).rest() == old(self).rest(),
    {
        match self.take(4) {
            Some(s) => Some(
                s[0] as u32 * 16777216 + s[1] as u32 * 65536 + s[2] as u32 * 256 + s[3] as u32,
            ),
            None => None,
        }
    }
}


/// A value with a wire form. `read` gives back only values whose encoding is
/// exactly the bytes it consumed.
pub trait Codec: Sized {
    /// The wire form of the value.
    spec fn encoding(&self) -> Seq<u8>;

    fn encode(&self, bytes: &mut Vec<u8>)
        ensures
            final(bytes)@ == old(bytes)@ + self.encoding(),
    ;

    fn read(r: &mut Reader) -> (res: Option<Self>)
        requires
            old(r).wf(),
        ensures
            final(r).wf(),
            res matches Some(v) ==> old(r).rest() == v.encoding() + final(r).rest(),
    ;
}

/// The items' wire forms, one after the other.
pub open spec fn enc_seq<T: Codec>(s: Seq<T>) -> Seq<u8>
    decreases s.len(),
{
    if s.len() == 0 {
        Seq::empty()
    } else {
        enc_seq(s.drop_last()) + s.last().encoding()
    }
}

/// A list behind a one-byte length of its encoding.
pub open spec fn enc_vec_u8<T: Codec>(s: Seq<T>) -> Seq<u8> {
    seq![enc_seq(s).len() as u8] + enc_seq(s)
}

/// A list behind a two-byte length of its encoding.
pub open spec fn enc_vec_u16<T: Codec>(s: Seq<T>) -> Seq<u8> {
    be16(enc_seq(s).len() as u16) + enc_seq(s)
}

/// A list behind a three-byte length of its encoding.
pub open spec fn enc_vec_u24<T: Codec>(s: Seq<T>) -> Seq<u8> {
    be24(enc_seq(s).len() as u32) + enc_seq(s)
}

pub proof fn lemma_enc_seq_push<T: Codec>(s: Seq<T>, x: T)
    ensures
        enc_seq(s.push(x)) == enc_seq(s) + x.encoding(),
{
    assert(s.push(x).drop_last() =~= s);
}

pub proof fn lemma_be16_of_value(s: Seq<u8>)
    requires
        s.len() >= 2,
    ensures
        s == be16(be16_value(s)) + s.skip(2),
{
    let a = s[0];
    let b = s[1];
    let v = be16_value(s);
    assert(v as int == a as int * 256 + b as int);
    assert((v / 256) as u8 == a && (v % 256) as u8 == b) by (nonlinear_arith)
        requires
            v as int == a as int * 256 + b as int,
            0 <= a < 256,
            0 <= b < 256,
    ;
    assert(s =~= be16(v) + s.skip(2));
}

pub proof fn lemma_be24_of_value(s: Seq<u8>)
    requires
        s.len() >= 3,
    ensures
        s == be24(be24_value(s)) + s.skip(3),
        be24_value(s) < 0x100_0000,
{
    let a = s[0];
    let b = s[1];
    let c = s[2];
    let v = be24_value(s);
    assert(v as int == a as int * 65536 + b as int * 256 + c as int);
    assert((v / 65536) as u8 == a && ((v / 256) % 256) as u8 == b && (v % 256) as u8 == c
        && v < 0x100_0000) by (nonlinear_arith)
        requires
            v as int == a as int * 65536 + b as int * 256 + c as int,
            0 <= a < 256,
            0 <= b < 256,
            0 <= c < 256,
    ;
    assert(s =~= be24(v) + s.skip(3));
}

/// Encodes the items, each by its own `encode`, into a fresh buffer.
pub fn encode_items<T: Codec>(items: &Vec<T>) -> (sub: Vec<u8>)
    ensures
        sub@ == enc_seq(items@),
{
    let mut sub: Vec<u8> = Vec::new();
    let mut i: usize = 0;
    while i < items.len()
        invariant
            0 <= i <= items@.len(),
            sub@ == enc_seq(items@.take(i as int)),
        decreases items@.len() - i,
    {
        items[i].encode(&mut sub);
        proof {
            lemma_enc_seq_push(items@.take(i as int), items@[i as int]);
            assert(items@.take(i as int).push(items@[i as int]) =~= items@.take(i + 1));
        }
        i = i + 1;
    }
    assert(items@.take(i as int) =~= items@);
    sub
}

pub fn encode_vec_u8<T: Codec>(bytes: &mut Vec<u8>, items: &Vec<T>)
    ensures
        final(bytes)@ == old(bytes)@ + enc_vec_u8(items@),
{
    let sub = encode_items(items);
    encode_u8(sub.len() as u8, bytes);
    append_bytes(bytes, sub.as_slice());
    assert(bytes@ =~= old(bytes)@ + enc_vec_u8(items@));
}

pub fn encode_vec_u16<T: Codec>(bytes: &mut Vec<u8>, items: &Vec<T>)
    ensures
        final(bytes)@ == old(bytes)@ + enc_vec_u16(items@),
{
    let sub = encode_items(items);
    encode_u16(sub.len() as u16, bytes);
    append_bytes(bytes, sub.as_slice());
    assert(bytes@ =~= old(bytes)@ + enc_vec_u16(items@));
}

pub fn encode_vec_u24<T: Codec>(bytes: &mut Vec<u8>, items: &Vec<T>)
    ensures
        final(bytes)@ == old(bytes)@ + enc_vec_u24(items@),
{
    let sub = encode_items(items);
    encode_u24(sub.len() as u32, bytes);
    append_bytes(bytes, sub.as_slice());
    assert(bytes@ =~= old(bytes)@ + enc_vec_u24(items@));
}

/// Reads items until `sub` is used up; fails if one does not parse.
pub fn read_items<T: Codec>(sub: &mut Reader) -> (res: Option<Vec<T>>)
    requires
        old(sub).wf(),
    ensures
        final(sub).wf(),
        res matches Some(v) ==> old(sub).rest() == enc_seq(v@) && final(sub).rest().len() == 0,
{
    let mut ret: Vec<T> = Vec::new();
    assert(old(sub).rest() =~= enc_seq(ret@) + sub.rest());
    while sub.any_left()
        invariant
            sub.wf(),
            old(sub).rest() == enc_seq(ret@) + sub.rest(),
        decreases sub.rest().len(),
    {
        let before = sub.left();
        let item = match T::read(sub) {
            Some(x) => x,
            None => return None,
        };
        if sub.left() >= before {
            return None;
        }
        proof {
            lemma_enc_seq_push(ret@, item);
        }
        ret.push(item);
        assert(old(sub).rest() =~= enc_seq(ret@) + sub.rest());
    }
    assert(old(sub).rest() =~= enc_seq(ret@));
    Some(ret)
}

pub fn read_vec_u8<T: Codec>(r: &mut Reader) -> (res: Option<Vec<T>>)
    requires
        old(r).wf(),
    ensures
        final(r).wf(),
        res matches Some(v) ==> old(r).rest() == enc_vec_u8(v@) + final(r).rest(),
{
    let len = match r.read_u8() {
        Some(x) => x,
        None => return None,
    };
    let mut sub = match r.sub(len as usize) {
        Some(s) => s,
        None => return None,
    };
    let items = match read_items(&mut sub) {
        Some(v) => v,
        None => return None,
    };
    assert(old(r).rest() =~= enc_vec_u8(items@) + r.rest());
    Some(items)
}

pub fn read_vec_u16<T: Codec>(r: &mut Reader) -> (res: Option<Vec<T>>)
    requires
        old(r).wf(),
    ensures
        final(r).wf(),
        res matches Some(v) ==> old(r).rest() == enc_vec_u16(v@) + final(r).rest(),
{
    proof {
        if old(r).rest().len() >= 2 {
            lemma_be16_of_value(old(r).rest());
        }
    }
    let len = match r.read_u16() {
        Some(x) => x,
        None => return None,
    };
    let mut sub = match r.sub(len as usize) {
        Some(s) => s,
        None => return None,
    };
    let items = match read_items(&mut sub) {
        Some(v) => v,
        None => return None,
    };
    assert(old(r).rest() =~= enc_vec_u16(items@) + r.rest());
    Some(items)
}

pub fn read_vec_u24<T: Codec>(r: &mut Reader) -> (res: Option<Vec<T>>)
    requires
        old(r).wf(),
    ensures
        final(r).wf(),
        res matches Some(v) ==> old(r).rest() == enc_vec_u24(v@) + final(r).rest(),
{
    proof {
        if old(r).rest().len() >= 3 {
            lemma_be24_of_value(old(r).rest());
        }
    }
    let len = match r.read_u24() {
        Some(x) => x,
        None => return None,
    };
    let mut sub = match r.sub(len as usize) {
        Some(s) => s,
        None => return None,
    };
    let items = match read_items(&mut sub) {
        Some(v) => v,
        None => return None,
    };
    assert(old(r).rest() =~= enc_vec_u24(items@) + r.rest());
    Some(items)
}

} // verus!
