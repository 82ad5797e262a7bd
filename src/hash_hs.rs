//! The handshake transcript: every handshake message in the order sent or
//! received, hashed once the suite (and so the hash) is known, and kept raw
//! for as long as client authentication may need to sign it.

use vstd::prelude::*;
use crate::base::copy_bytes;
use crate::codec::append_bytes;
use crate::crypto::{digest, digest_of, hash_len, max_input, supported_hash};
use crate::enums::HashAlgorithm;
use crate::handshake::HandshakeMessagePayload;

verus! {

/// What a transcript holds: the hash (once started), every byte fed to it,
/// the raw buffer, and whether client authentication may still want that buffer.
pub struct TranscriptView {
    pub alg: Option<HashAlgorithm>,
    pub transcript: Seq<u8>,
    pub buffer: Seq<u8>,
    pub client_auth_enabled: bool,
}

/// The view after feeding `data`: the raw buffer grows while the hash is not
/// started, or while client authentication may need it. A transcript holds
/// at most `max_input()` bytes (2^40); what would pass that is not taken, and
/// the Finished messages then disagree.
pub open spec fn spec_add(v: TranscriptView, data: Seq<u8>) -> TranscriptView {
    if v.transcript.len() + data.len() > max_input() {
        v
    } else {
        TranscriptView {
        transcript: v.transcript + data,
        buffer: if v.alg is None || v.client_auth_enabled {
            v.buffer + data
        } else {
            v.buffer
        },
        ..v
    }
    }
}

/// The view after starting the hash `alg`.
pub open spec fn spec_start(v: TranscriptView, alg: HashAlgorithm) -> TranscriptView {
    TranscriptView {
        alg: Some(alg),
        buffer: if v.client_auth_enabled {
            v.buffer
        } else {
            Seq::empty()
        },
        ..v
    }
}

/// The current hash of a started transcript.
pub open spec fn spec_current_hash(v: TranscriptView) -> Seq<u8> {
    digest_of(v.alg.unwrap(), v.transcript)
}

/// The messages, one after the other.
pub open spec fn concat_all(msgs: Seq<Seq<u8>>) -> Seq<u8>
    decreases msgs.len(),
{
    if msgs.len() == 0 {
        Seq::empty()
    } else {
        msgs[0] + concat_all(msgs.skip(1))
    }
}

/// Feeds the messages in order.
pub open spec fn feed(v: TranscriptView, msgs: Seq<Seq<u8>>) -> TranscriptView
    decreases msgs.len(),
{
    if msgs.len() == 0 {
        v
    } else {
        feed(spec_add(v, msgs[0]), msgs.skip(1))
    }
}

/// Feeds the messages in order, starting the hash `alg` before message `k`
/// (after all of them if `k` is past the end).
pub open spec fn run(v: TranscriptView, msgs: Seq<Seq<u8>>, k: nat, alg: HashAlgorithm) -> TranscriptView
    decreases msgs.len(),
{
    if k == 0 {
        feed(spec_start(v, alg), msgs)
    } else if msgs.len() == 0 {
        spec_start(v, alg)
    } else {
        run(spec_add(v, msgs[0]), msgs.skip(1), (k - 1) as nat, alg)
    }
}

proof fn lemma_feed(v: TranscriptView, msgs: Seq<Seq<u8>>)
    requires
        v.transcript.len() + concat_all(msgs).len() <= max_input(),
    ensures
        feed(v, msgs).transcript == v.transcript + concat_all(msgs),
        feed(v, msgs).alg == v.alg,
    decreases msgs.len(),
{
    if msgs.len() > 0 {
        lemma_feed(spec_add(v, msgs[0]), msgs.skip(1));
        assert(v.transcript + msgs[0] + concat_all(msgs.skip(1)) =~= v.transcript + concat_all(
            msgs,
        ));
    } else {
        assert(v.transcript + concat_all(msgs) =~= v.transcript);
    }
}

proof fn lemma_run(v: TranscriptView, msgs: Seq<Seq<u8>>, k: nat, alg: HashAlgorithm)
    requires
        v.transcript.len() + concat_all(msgs).len() <= max_input(),
    ensures
        run(v, msgs, k, alg).transcript == v.transcript + concat_all(msgs),
        run(v, msgs, k, alg).alg == Some(alg),
    decreases msgs.len(),
{
    if k == 0 {
        lemma_feed(spec_start(v, alg), msgs);
    } else if msgs.len() == 0 {
        assert(v.transcript + concat_all(msgs) =~= v.transcript);
    } else {
        lemma_run(spec_add(v, msgs[0]), msgs.skip(1), (k - 1) as nat, alg);
        assert(v.transcript + msgs[0] + concat_all(msgs.skip(1)) =~= v.transcript + concat_all(
            msgs,
        ));
    }
}

/// The transcript hash depends on the messages and their order alone: it
/// does not matter when the hash was started (for transcripts within the
/// bound of `spec_add`).
pub proof fn lemma_transcript_determinism(
    v: TranscriptView,
    msgs: Seq<Seq<u8>>,
    k1: nat,
    k2: nat,
    alg: HashAlgorithm,
)
    requires
        v.transcript.len() + concat_all(msgs).len() <= max_input(),
    ensures
        spec_current_hash(run(v, msgs, k1, alg)) == spec_current_hash(run(v, msgs, k2, alg)),
        run(v, msgs, k1, alg).transcript == v.transcript + concat_all(msgs),
{
    lemma_run(v, msgs, k1, alg);
    lemma_run(v, msgs, k2, alg);
}

/// The running transcript of a handshake.
pub struct HandshakeHash {
    alg: Option<HashAlgorithm>,
    transcript: Vec<u8>,
    buffer: Vec<u8>,
    client_auth_enabled: bool,
}

impl HandshakeHash {
    #[verifier::type_invariant]
    spec fn inv(&self) -> bool {
        self.transcript@.len() <= max_input()
    }
}

impl View for HandshakeHash {
    type V = TranscriptView;

    closed spec fn view(&self) -> TranscriptView {
        TranscriptView {
            alg: self.alg,
            transcript: self.transcript@,
            buffer: self.buffer@,
            client_auth_enabled: self.client_auth_enabled,
        }
    }
}

impl HandshakeHash {
    pub fn new() -> (r: HandshakeHash)
        ensures
            r@.alg is None,
            r@.transcript.len() == 0,
            r@.buffer.len() == 0,
            r@.client_auth_enabled,
    {
        HandshakeHash {
            alg: None,
            transcript: Vec::new(),
            buffer: Vec::new(),
            client_auth_enabled: true,
        }
    }

    /// Starts hashing with `alg`: once, when the suite is chosen. What was fed
    /// before is hashed too.
    pub fn start_hash(&mut self, alg: HashAlgorithm)
        requires
            old(self)@.alg is None,
        ensures
            final(self)@ == spec_start(old(self)@, alg),
    {
        proof {
            use_type_invariant(&*self);
        }
        self.alg = Some(alg);
        if !self.client_auth_enabled {
            self.buffer = Vec::new();
        }
        assert(self@ == spec_start(old(self)@, alg));
    }

    /// Feeds raw handshake bytes.
    pub fn update_raw(&mut self, data: &[u8])
        ensures
            final(self)@ == spec_add(old(self)@, data@),
    {
        proof {
            use_type_invariant(&*self);
        }
        if data.len() as u64 > 0x100_0000_0000u64 - self.transcript.len() as u64 {
            return;
        }
        let mut transcript = copy_bytes(&self.transcript);
        append_bytes(&mut transcript, data);
        self.transcript = transcript;
        if self.alg.is_none() || self.client_auth_enabled {
            let mut buffer = copy_bytes(&self.buffer);
            append_bytes(&mut buffer, data);
            self.buffer = buffer;
        }
        assert(self@ == spec_add(old(self)@, data@));
    }

    /// Feeds a handshake message in its wire form.
    pub fn add_message(&mut self, m: &HandshakeMessagePayload)
        ensures
            final(self)@ == spec_add(old(self)@, m.encoding()),
    {
        let mut buf: Vec<u8> = Vec::new();
        m.encode(&mut buf);
        assert(buf@ =~= m.encoding());
        self.update_raw(buf.as_slice());
    }

    /// Client authentication is decided against: the raw buffer goes.
    pub fn abandon_client_auth(&mut self)
        ensures
            final(self)@.client_auth_enabled == false,
            final(self)@.buffer.len() == 0,
            final(self)@.alg == old(self)@.alg,
            final(self)@.transcript == old(self)@.transcript,
    {
        proof {
            use_type_invariant(&*self);
        }
        self.client_auth_enabled = false;
        self.buffer = Vec::new();
    }

    /// Hands out the raw buffer, which is emptied.
    pub fn take_handshake_buf(&mut self) -> (r: Vec<u8>)
        ensures
            r@ == old(self)@.buffer,
            final(self)@.buffer.len() == 0,
            final(self)@.alg == old(self)@.alg,
            final(self)@.transcript == old(self)@.transcript,
            final(self)@.client_auth_enabled == old(self)@.client_auth_enabled,
    {
        proof {
            use_type_invariant(&*self);
        }
        let out = copy_bytes(&self.buffer);
        self.buffer = Vec::new();
        out
    }

    /// The hash of everything fed so far.
    pub fn get_current_hash(&self) -> (r: Vec<u8>)
        requires
            self@.alg matches Some(a) && supported_hash(a),
        ensures
            r@ == spec_current_hash(self@),
            r@.len() == hash_len(self@.alg.unwrap()),
    {
        let alg = match self.alg {
            Some(a) => a,
            None => HashAlgorithm::SHA256,
        };
        proof {
            use_type_invariant(self);
        }
        digest(alg, self.transcript.as_slice())
    }
}

/// Starts the hash of a transcript that holds what came before the suite was
/// chosen, and joins `m` to it: the hash is then of the earlier bytes and
/// `m`'s wire form, in that order.
pub fn start_and_add(transcript: &mut HandshakeHash, alg: HashAlgorithm, m: &HandshakeMessagePayload)
    requires
        old(transcript)@.alg is None,
    ensures
        final(transcript)@ == spec_add(spec_start(old(transcript)@, alg), m.encoding()),
        final(transcript)@.alg == Some(alg),
        old(transcript)@.transcript.len() + m.encoding().len() <= max_input() ==> final(transcript)@.transcript == old(transcript)@.transcript + m.encoding(),
        old(transcript)@.transcript.len() + m.encoding().len() <= max_input()
            ==> spec_current_hash(final(transcript)@) == digest_of(
            alg,
            old(transcript)@.transcript + m.encoding(),
        ),
{
    transcript.start_hash(alg);
    transcript.add_message(m);
}

} // verus!
