//! Which directions of a connection are protected, and with which keys.
//!
//! TLS 1.2 turns protection on one direction at a time, at each side's
//! ChangeCipherSpec. TLS 1.3 replaces both directions' keys at once, after
//! ServerHello and again after the Finished messages; the keys replaced are
//! wiped.

use vstd::prelude::*;

verus! {

/// The write (our) and read (peer) keys in force; empty while in clear.
pub struct RecordGuard {
    write_key: Vec<u8>,
    read_key: Vec<u8>,
    we_encrypting: bool,
    peer_encrypting: bool,
    /// How many times the keys were replaced.
    generation: u64,
}

pub struct RecordGuardView {
    pub write_key: Seq<u8>,
    pub read_key: Seq<u8>,
    pub we_encrypting: bool,
    pub peer_encrypting: bool,
    pub generation: u64,
}

impl View for RecordGuard {
    type V = RecordGuardView;

    closed spec fn view(&self) -> RecordGuardView {
        RecordGuardView {
            write_key: self.write_key@,
            read_key: self.read_key@,
            we_encrypting: self.we_encrypting,
            peer_encrypting: self.peer_encrypting,
            generation: self.generation,
        }
    }
}

/// Overwrites `key` with zeroes.
fn wipe(key: &mut Vec<u8>)
    ensures
        final(key)@.len() == old(key)@.len(),
        forall|i: int| 0 <= i < final(key)@.len() ==> final(key)@[i] == 0,
{
    let mut i: usize = 0;
    while i < key.len()
        invariant
            0 <= i <= key@.len(),
            key@.len() == old(key)@.len(),
            forall|j: int| 0 <= j < i ==> key@[j] == 0,
        decreases key@.len() - i,
    {
        key.set(i, 0);
        i = i + 1;
    }
}

impl RecordGuard {
    /// Both directions in clear.
    pub fn new() -> (r: RecordGuard)
        ensures
            !r@.we_encrypting,
            !r@.peer_encrypting,
            r@.generation == 0,
    {
        RecordGuard {
            write_key: Vec::new(),
            read_key: Vec::new(),
            we_encrypting: false,
            peer_encrypting: false,
            generation: 0,
        }
    }

    /// TLS 1.2: the keys from the key block, not yet in force in either direction.
    pub fn prepare_tls12(&mut self, write_key: Vec<u8>, read_key: Vec<u8>)
        requires
            old(self)@.generation < u64::MAX,
        ensures
            final(self)@.write_key == write_key@,
            final(self)@.read_key == read_key@,
            final(self)@.we_encrypting == old(self)@.we_encrypting,
            final(self)@.peer_encrypting == old(self)@.peer_encrypting,
            final(self)@.generation == old(self)@.generation + 1,
    {
        self.write_key = write_key;
        self.read_key = read_key;
        self.generation = self.generation + 1;
    }

    /// TLS 1.2: after sending our ChangeCipherSpec, what we send is protected.
    pub fn we_now_encrypting(&mut self)
        ensures
            final(self)@ == (RecordGuardView { we_encrypting: true, ..old(self)@ }),
    {
        self.we_encrypting = true;
    }

    /// TLS 1.2: after the peer's ChangeCipherSpec, what it sends is protected.
    pub fn peer_now_encrypting(&mut self)
        ensures
            final(self)@ == (RecordGuardView { peer_encrypting: true, ..old(self)@ }),
    {
        self.peer_encrypting = true;
    }

    /// TLS 1.3: both directions move to new keys at once; the old keys are wiped.
    pub fn set_message_cipher(&mut self, write_key: Vec<u8>, read_key: Vec<u8>)
        requires
            old(self)@.generation < u64::MAX,
        ensures
            final(self)@ == (RecordGuardView {
                write_key: write_key@,
                read_key: read_key@,
                we_encrypting: true,
                peer_encrypting: true,
                generation: (old(self)@.generation + 1) as u64,
            }),
    {
        wipe(&mut self.write_key);
        wipe(&mut self.read_key);
        self.write_key = write_key;
        self.read_key = read_key;
        self.we_encrypting = true;
        self.peer_encrypting = true;
        self.generation = self.generation + 1;
    }

    pub fn is_we_encrypting(&self) -> (r: bool)
        ensures
            r == self@.we_encrypting,
    {
        self.we_encrypting
    }

    pub fn is_peer_encrypting(&self) -> (r: bool)
        ensures
            r == self@.peer_encrypting,
    {
        self.peer_encrypting
    }
}

} // verus!
