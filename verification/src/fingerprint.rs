//! Keyed, domain-separated HMAC-SHA256 fingerprints.
//!
//! Every fingerprint hashes a framed message: a fixed scheme prefix, the
//! little-endian length of the domain name, the domain name, and then the
//! payload.  Because the domain's length precedes it, two different
//! domains can never frame to the same message (see `lemma_framing_injective`).

use vstd::prelude::*;
use crate::encoding::{base64_url_encode, base64_url_no_pad, le64, le64_bytes};

verus! {

/// HMAC-SHA256 of `message` under `key`, as `hmac::Hmac<sha2::Sha256>` computes it.
pub uninterp spec fn hmac_sha256(key: Seq<u8>, message: Seq<u8>) -> Seq<u8>;

/// Computes HMAC-SHA256 with the `hmac` crate's `Hmac<Sha256>`: `new_from_slice`,
/// one `update` with the whole message, then `finalize`.
///
/// The contract claims the result is the named HMAC of the key and message and
/// that a SHA-256 tag is 32 bytes.  It also claims `Some`: `new_from_slice` of
/// `Hmac` accepts keys of every length (the `hmac` 0.12 source always returns
/// `Ok`), so the error arm is never taken.
#[verifier::external_body]
fn hmac_sha256_tag(key: &[u8], message: &[u8]) -> (tag: Option<Vec<u8>>)
    ensures
        tag is Some,
        tag.unwrap()@ == hmac_sha256(key@, message@),
        tag.unwrap()@.len() == 32,
{
    let mut mac = <hmac::Hmac<sha2::Sha256> as hmac::Mac>::new_from_slice(key).ok()?;
    hmac::Mac::update(&mut mac, message);
    Some(hmac::Mac::finalize(mac).into_bytes().to_vec())
}

/// The scheme prefix `codex-cache-diagnostics-v1\0` that starts every framed message.
pub open spec fn scheme_prefix() -> Seq<u8> {
    seq![
        99u8, 111, 100, 101, 120, 45, 99, 97, 99, 104, 101, 45, 100, 105, 97, 103, 110, 111, 115,
        116, 105, 99, 115, 45, 118, 49, 0,
    ]
}

/// The framing that precedes a payload hashed under `domain`.
pub open spec fn domain_frame(domain: Seq<u8>) -> Seq<u8> {
    scheme_prefix() + le64(domain.len() as u64) + domain
}

/// The whole message hashed for `payload` under `domain`.
pub open spec fn framed(domain: Seq<u8>, payload: Seq<u8>) -> Seq<u8> {
    domain_frame(domain) + payload
}

/// The 32-byte digest of `payload` under `domain` and `key`.
pub open spec fn digest_of(key: Seq<u8>, domain: Seq<u8>, payload: Seq<u8>) -> Seq<u8> {
    hmac_sha256(key, framed(domain, payload))
}

/// The encoded digest that a fingerprint of `payload` carries.
pub open spec fn hmac_text(key: Seq<u8>, domain: Seq<u8>, payload: Seq<u8>) -> Seq<char> {
    base64_url_no_pad(digest_of(key, domain, payload))
}

/// A keyed digest plus the length of the fingerprinted payload.
pub struct Fingerprint {
    pub hmac: String,
    pub bytes: usize,
}

impl Fingerprint {
    /// This fingerprint describes `payload` hashed under `domain` with `key`.
    /// The digest is HMAC-SHA256's 32 bytes, so its text has 43 characters.
    pub open spec fn describes(self, key: Seq<u8>, domain: Seq<u8>, payload: Seq<u8>) -> bool {
        &&& self.hmac@ == hmac_text(key, domain, payload)
        &&& digest_of(key, domain, payload).len() == 32
        &&& self.hmac@.len() == 43
        &&& self.bytes == payload.len()
    }

    /// A copy with the same digest text and length.
    pub fn duplicate(&self) -> (copy: Fingerprint)
        ensures
            copy.hmac@ == self.hmac@,
            copy.bytes == self.bytes,
    {
        Fingerprint { hmac: self.hmac.clone(), bytes: self.bytes }
    }
}

/// A finished fingerprint together with its raw digest.
pub struct FinishedFingerprint {
    pub fingerprint: Fingerprint,
    pub digest: Vec<u8>,
}

impl FinishedFingerprint {
    pub open spec fn describes(self, key: Seq<u8>, domain: Seq<u8>, payload: Seq<u8>) -> bool {
        &&& self.fingerprint.describes(key, domain, payload)
        &&& self.digest@ == digest_of(key, domain, payload)
        &&& self.digest@.len() == 32
    }
}

/// Appends `src` to `dst`.
pub fn append_bytes(dst: &mut Vec<u8>, src: &[u8])
    ensures
        final(dst)@ == old(dst)@ + src@,
{
    let ghost start = dst@;
    let mut i: usize = 0;
    while i < src.len()
        invariant
            i <= src@.len(),
            dst@ == start + src@.take(i as int),
        decreases src@.len() - i,
    {
        dst.push(src[i]);
        i = i + 1;
        assert(src@.take(i as int) == src@.take(i - 1) + seq![src@[i - 1]]);
    }
    assert(src@.take(src@.len() as int) == src@);
}

/// The installation key, held to fingerprint values under named domains.
pub struct Fingerprinter {
    key: Vec<u8>,
}

impl Fingerprinter {
    /// The key that every fingerprint of this fingerprinter is computed with.
    pub closed spec fn key(&self) -> Seq<u8> {
        self.key@
    }

    /// Holds `key` for keyed fingerprints.
    pub fn new(key: &[u8]) -> (fingerprinter: Fingerprinter)
        ensures
            fingerprinter.key() == key@,
    {
        let mut stored: Vec<u8> = Vec::new();
        append_bytes(&mut stored, key);
        Fingerprinter { key: stored }
    }

    /// Starts a stream whose payload is hashed under `domain`.
    pub fn stream(&self, domain: &[u8]) -> (stream: FingerprintStream<'_>)
        ensures
            stream.wf(),
            stream.key() == self.key(),
            stream.domain() == domain@,
            stream.absorbed() == Seq::<u8>::empty(),
    {
        let mut message: Vec<u8> = vec![
            99u8, 111, 100, 101, 120, 45, 99, 97, 99, 104, 101, 45, 100, 105, 97, 103, 110, 111,
            115, 116, 105, 99, 115, 45, 118, 49, 0,
        ];
        assert(message@ == scheme_prefix());
        let length = le64_bytes(domain.len() as u64);
        append_bytes(&mut message, length.as_slice());
        append_bytes(&mut message, domain);
        let frame_len = message.len();
        assert(message@ == domain_frame(domain@));
        assert(message@.take(frame_len as int) == message@);
        FingerprintStream { fingerprinter: self, message, frame_len, domain: Ghost(domain@) }
    }

    /// Fingerprints `bytes` under `domain`.
    pub fn fingerprint_bytes(&self, domain: &[u8], bytes: &[u8]) -> (fingerprint: Fingerprint)
        ensures
            fingerprint.describes(self.key(), domain@, bytes@),
    {
        let mut stream = self.stream(domain);
        stream.absorb(bytes);
        let finished = stream.finish();
        finished.fingerprint
    }

    /// Fingerprints `bytes` under `domain` and keeps the raw digest.
    pub fn fingerprint_digest(&self, domain: &[u8], bytes: &[u8]) -> (finished: FinishedFingerprint)
        ensures
            finished.describes(self.key(), domain@, bytes@),
    {
        let mut stream = self.stream(domain);
        stream.absorb(bytes);
        stream.finish()
    }
}

/// An incremental fingerprint: the framed message absorbed so far.
pub struct FingerprintStream<'a> {
    fingerprinter: &'a Fingerprinter,
    message: Vec<u8>,
    frame_len: usize,
    domain: Ghost<Seq<u8>>,
}

impl<'a> FingerprintStream<'a> {
    pub closed spec fn key(&self) -> Seq<u8> {
        self.fingerprinter.key()
    }

    pub closed spec fn domain(&self) -> Seq<u8> {
        self.domain@
    }

    /// The payload absorbed since the stream started.
    pub closed spec fn absorbed(&self) -> Seq<u8> {
        self.message@.skip(self.frame_len as int)
    }

    pub closed spec fn wf(&self) -> bool {
        &&& self.frame_len == domain_frame(self.domain@).len()
        &&& self.message@.take(self.frame_len as int) == domain_frame(self.domain@)
        &&& self.frame_len <= self.message@.len()
    }

    /// Appends `bytes` to the payload.
    pub fn absorb(&mut self, bytes: &[u8])
        requires
            old(self).wf(),
        ensures
            final(self).wf(),
            final(self).key() == old(self).key(),
            final(self).domain() == old(self).domain(),
            final(self).absorbed() == old(self).absorbed() + bytes@,
    {
        let ghost before = self.message@;
        append_bytes(&mut self.message, bytes);
        assert(self.message@.take(self.frame_len as int) == before.take(self.frame_len as int));
        assert(self.message@.skip(self.frame_len as int) == before.skip(self.frame_len as int)
            + bytes@);
    }

    /// Appends one omitted list entry: its index, its payload length and its digest.
    pub fn absorb_entry(&mut self, index: usize, finished: &FinishedFingerprint)
        requires
            old(self).wf(),
        ensures
            final(self).wf(),
            final(self).key() == old(self).key(),
            final(self).domain() == old(self).domain(),
            final(self).absorbed() == old(self).absorbed() + entry_bytes(
                index as int,
                finished.fingerprint.bytes as int,
                finished.digest@,
            ),
    {
        let index_bytes = le64_bytes(index as u64);
        self.absorb(index_bytes.as_slice());
        let length_bytes = le64_bytes(finished.fingerprint.bytes as u64);
        self.absorb(length_bytes.as_slice());
        self.absorb(finished.digest.as_slice());
        proof {
            assert(entry_bytes(index as int, finished.fingerprint.bytes as int, finished.digest@)
                == index_bytes@ + length_bytes@ + finished.digest@);
        }
    }

    /// Completes the fingerprint of the absorbed payload.
    pub fn finish(self) -> (finished: FinishedFingerprint)
        requires
            self.wf(),
        ensures
            finished.describes(self.key(), self.domain(), self.absorbed()),
    {
        let ghost msg = self.message@;
        assert(msg == domain_frame(self.domain@) + self.absorbed()) by {
            assert(msg == msg.take(self.frame_len as int) + msg.skip(self.frame_len as int));
        }
        let tag = hmac_sha256_tag(self.fingerprint_key_slice(), self.message.as_slice());
        let digest = match tag {
            Some(t) => t,
            None => Vec::new(),
        };
        let hmac = base64_url_encode(digest.as_slice());
        proof {
            crate::encoding::lemma_base64_url_no_pad_len(digest@);
        }
        let bytes = self.message.len() - self.frame_len;
        FinishedFingerprint { fingerprint: Fingerprint { hmac, bytes }, digest }
    }

    fn fingerprint_key_slice(&self) -> (key: &[u8])
        ensures
            key@ == self.key(),
    {
        self.fingerprinter.key.as_slice()
    }
}

/// One omitted list entry: little-endian index, little-endian length, digest.
pub open spec fn entry_bytes(index: int, length: int, digest: Seq<u8>) -> Seq<u8> {
    le64(index as u64) + le64(length as u64) + digest
}

/// A fingerprint is determined by the key, the domain and the payload: two
/// fingerprints of the same payload under the same domain and key carry the
/// same digest text and length, whichever run or installation made them.
pub proof fn lemma_fingerprints_are_stable(
    first: Fingerprint,
    second: Fingerprint,
    key: Seq<u8>,
    domain: Seq<u8>,
    payload: Seq<u8>,
)
    requires
        first.describes(key, domain, payload),
        second.describes(key, domain, payload),
    ensures
        first.hmac@ == second.hmac@,
        first.bytes == second.bytes,
{
}

/// Framing never lets two domains, or two payloads, share a hashed message.
pub proof fn lemma_framing_injective(d1: Seq<u8>, p1: Seq<u8>, d2: Seq<u8>, p2: Seq<u8>)
    requires
        d1.len() <= u64::MAX,
        d2.len() <= u64::MAX,
        framed(d1, p1) == framed(d2, p2),
    ensures
        d1 == d2,
        p1 == p2,
{
    let m = framed(d1, p1);
    vstd::bytes::lemma_auto_spec_u64_to_from_le_bytes();
    assert(m.subrange(27, 35) == le64(d1.len() as u64));
    assert(framed(d2, p2).subrange(27, 35) == le64(d2.len() as u64));
    assert(d1.len() == d2.len());
    assert(d1 == m.subrange(35, 35 + d1.len() as int));
    assert(d2 == framed(d2, p2).subrange(35, 35 + d2.len() as int));
    assert(p1 == m.skip(35 + d1.len() as int));
    assert(p2 == framed(d2, p2).skip(35 + d2.len() as int));
}

} // verus!
