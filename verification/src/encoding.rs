//! Byte encodings used by fingerprints: little-endian integers and the
//! URL-safe, unpadded Base64 alphabet.

use vstd::prelude::*;
use vstd::bytes::spec_u64_to_le_bytes;
use base64::Engine;

verus! {

/// The URL-safe Base64 alphabet (RFC 4648, section 5).
pub open spec fn base64_url_char(v: int) -> char {
    if v < 26 {
        ('A' as int + v) as char
    } else if v < 52 {
        ('a' as int + (v - 26)) as char
    } else if v < 62 {
        ('0' as int + (v - 52)) as char
    } else if v == 62 {
        '-'
    } else {
        '_'
    }
}

/// URL-safe Base64 without padding: every three bytes become four characters,
/// and a trailing one or two bytes become two or three characters.
pub open spec fn base64_url_no_pad(s: Seq<u8>) -> Seq<char>
    decreases s.len(),
{
    let b0 = s[0] as int;
    let b1 = s[1] as int;
    let b2 = s[2] as int;
    if s.len() == 0 {
        Seq::empty()
    } else if s.len() == 1 {
        seq![base64_url_char(b0 / 4), base64_url_char((b0 % 4) * 16)]
    } else if s.len() == 2 {
        seq![
            base64_url_char(b0 / 4),
            base64_url_char((b0 % 4) * 16 + b1 / 16),
            base64_url_char((b1 % 16) * 4),
        ]
    } else {
        seq![
            base64_url_char(b0 / 4),
            base64_url_char((b0 % 4) * 16 + b1 / 16),
            base64_url_char((b1 % 16) * 4 + b2 / 64),
            base64_url_char(b2 % 64),
        ] + base64_url_no_pad(s.skip(3))
    }
}

/// The length of unpadded Base64: four characters per three bytes, and two
/// or three for a trailing one or two bytes.
pub open spec fn base64_no_pad_len(n: nat) -> nat {
    if n % 3 == 0 {
        4 * (n / 3)
    } else {
        4 * (n / 3) + n % 3 + 1
    }
}

pub proof fn lemma_base64_url_no_pad_len(s: Seq<u8>)
    ensures
        base64_url_no_pad(s).len() == base64_no_pad_len(s.len()),
    decreases s.len(),
{
    if s.len() >= 3 {
        lemma_base64_url_no_pad_len(s.skip(3));
        assert(s.skip(3).len() == s.len() - 3);
        assert(base64_no_pad_len(s.len()) == base64_no_pad_len((s.len() - 3) as nat) + 4) by (nonlinear_arith)
            requires
                s.len() >= 3,
        {
        }
    }
}

/// Encodes bytes with `base64::engine::general_purpose::URL_SAFE_NO_PAD`.
///
/// The contract claims that the engine's `encode` returns the RFC 4648
/// URL-safe alphabet without padding; the engine panics only when the encoded
/// length overflows `usize`, which `requires` rules out.
#[verifier::external_body]
pub(crate) fn base64_url_encode(bytes: &[u8]) -> (encoded: String)
    requires
        bytes@.len() <= usize::MAX / 4 * 3,
    ensures
        encoded@ == base64_url_no_pad(bytes@),
{
    base64::engine::general_purpose::URL_SAFE_NO_PAD.encode(bytes)
}

/// Eight little-endian bytes of a `u64`.
pub open spec fn le64(n: u64) -> Seq<u8> {
    spec_u64_to_le_bytes(n)
}

/// Little-endian encoding of a `u64`, as `u64::to_le_bytes` gives it.
pub fn le64_bytes(n: u64) -> (bytes: Vec<u8>)
    ensures
        bytes@ == le64(n),
        bytes@.len() == 8,
{
    proof {
        vstd::bytes::lemma_auto_spec_u64_to_from_le_bytes();
    }
    vstd::bytes::u64_to_le_bytes(n)
}

} // verus!
