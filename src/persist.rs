//! Wire forms of what is stored for resumption: the client's cache key and
//! value, and the server's value (kept in its cache, or sealed in a ticket).

use vstd::prelude::*;
use crate::base::{PayloadU16, PayloadU8};
use crate::client_hs::ClientSessionValue;
use crate::codec::{Codec, Reader, enc_vec_u24, encode_vec_u24, read_vec_u24};
use crate::enums::CipherSuite;
use crate::handshake::SessionID;
use crate::server_hs::ServerSessionValue;

verus! {

/// The bytes "session", which begin every client cache key.
pub open spec fn key_prefix() -> Seq<u8> {
    seq![115, 101, 115, 115, 105, 111, 110]
}

/// The client's cache key for a server name.
pub open spec fn spec_client_session_key(dns_name: Seq<u8>) -> Seq<u8> {
    key_prefix() + seq![dns_name.len() as u8] + dns_name
}

/// The client's cache key for `dns_name`.
pub fn client_session_key(dns_name: &[u8]) -> (r: Vec<u8>)
    requires
        dns_name@.len() < 256,
    ensures
        r@ == spec_client_session_key(dns_name@),
{
    let mut r: Vec<u8> = vec![115, 101, 115, 115, 105, 111, 110];
    r.push(dns_name.len() as u8);
    crate::codec::append_bytes(&mut r, dns_name);
    assert(r@ =~= spec_client_session_key(dns_name@));
    r
}

impl Codec for ClientSessionValue {
    open spec fn encoding(&self) -> Seq<u8> {
        self.cipher_suite.encoding() + self.session_id.encoding() + self.ticket.encoding()
            + self.master_secret.encoding()
    }

    fn encode(&self, bytes: &mut Vec<u8>) {
        self.cipher_suite.encode(bytes);
        self.session_id.encode(bytes);
        self.ticket.encode(bytes);
        self.master_secret.encode(bytes);
        assert(bytes@ =~= old(bytes)@ + self.encoding());
    }

    fn read(r: &mut Reader) -> (res: Option<ClientSessionValue>) {
        let cipher_suite = match CipherSuite::read(r) {
            Some(x) => x,
            None => return None,
        };
        let session_id = match SessionID::read(r) {
            Some(x) => x,
            None => return None,
        };
        let ticket = match PayloadU16::read(r) {
            Some(x) => x,
            None => return None,
        };
        let master_secret = match PayloadU8::read(r) {
            Some(x) => x,
            None => return None,
        };
        let v = ClientSessionValue { cipher_suite, session_id, ticket, master_secret };
        assert(old(r).rest() =~= v.encoding() + r.rest());
        Some(v)
    }
}

impl Codec for ServerSessionValue {
    open spec fn encoding(&self) -> Seq<u8> {
        self.cipher_suite.encoding() + self.master_secret.encoding() + match self.client_cert_chain {
            Some(c) => seq![1u8] + enc_vec_u24(c@),
            None => seq![0u8],
        }
    }

    fn encode(&self, bytes: &mut Vec<u8>) {
        self.cipher_suite.encode(bytes);
        self.master_secret.encode(bytes);
        match &self.client_cert_chain {
            Some(c) => {
                bytes.push(1u8);
                encode_vec_u24(bytes, c);
            },
            None => bytes.push(0u8),
        }
        assert(bytes@ =~= old(bytes)@ + self.encoding());
    }

    fn read(r: &mut Reader) -> (res: Option<ServerSessionValue>) {
        let cipher_suite = match CipherSuite::read(r) {
            Some(x) => x,
            None => return None,
        };
        let master_secret = match PayloadU8::read(r) {
            Some(x) => x,
            None => return None,
        };
        let mid = Ghost(r.rest());
        let flag = match r.read_u8() {
            Some(x) => x,
            None => return None,
        };
        let client_cert_chain = if flag == 1 {
            match read_vec_u24(r) {
                Some(c) => Some(c),
                None => return None,
            }
        } else if flag == 0 {
            None
        } else {
            return None;
        };
        let v = ServerSessionValue { cipher_suite, master_secret, client_cert_chain };
        assert(mid@ =~= seq![flag] + mid@.skip(1));
        assert(old(r).rest() =~= v.encoding() + r.rest());
        Some(v)
    }
}

/// Reads a value that fills `bytes` exactly.
pub fn read_bytes<T: Codec>(bytes: &[u8]) -> (r: Option<T>)
    ensures
        r matches Some(v) ==> v.encoding() == bytes@,
{
    let mut rd = Reader::init(bytes);
    let v = match T::read(&mut rd) {
        Some(v) => v,
        None => return None,
    };
    if rd.any_left() {
        return None;
    }
    assert(bytes@ =~= v.encoding() + rd.rest());
    Some(v)
}

/// The wire form of `v`.
pub fn get_encoding<T: Codec>(v: &T) -> (r: Vec<u8>)
    ensures
        r@ == v.encoding(),
{
    let mut r: Vec<u8> = Vec::new();
    v.encode(&mut r);
    assert(r@ =~= v.encoding());
    r
}

} // verus!
