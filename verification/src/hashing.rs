//! The digest primitive every proof in the engine is built on, and its
//! hexadecimal text form.

use vstd::prelude::*;
use crate::encode::{bytes_to_hex, hex_of_bytes, is_hex_seq, lemma_hex_of_bytes_hex};

verus! {

/// The 32-byte SHA-256 digest of a character string.
pub uninterp spec fn sha256_of(s: Seq<char>) -> Seq<u8>;

/// Relies on sha2's `Sha256::digest`: the SHA-256 digest of the input bytes,
/// 32 bytes long, a function of the input alone.
#[verifier::external_body]
pub(crate) fn sha256_bytes(s: &str) -> (r: Vec<u8>)
    ensures
        r@ == sha256_of(s@),
        r@.len() == 32,
{
    <sha2::Sha256 as sha2::Digest>::digest(s.as_bytes()).as_slice().to_vec()
}

/// The digest as a 32-byte sequence; the branch only pins the length, which
/// the digest function always meets.
pub open spec fn digest32(s: Seq<char>) -> Seq<u8> {
    if sha256_of(s).len() == 32 {
        sha256_of(s)
    } else {
        Seq::new(32, |i: int| 0u8)
    }
}

/// The lowercase hexadecimal text of the SHA-256 digest of a string.
pub open spec fn sha256_hex_of(s: Seq<char>) -> Seq<char> {
    hex_of_bytes(digest32(s))
}

/// Every digest text is 64 lowercase hexadecimal (hence ASCII) characters.
pub proof fn lemma_sha256_hex_wf(s: Seq<char>)
    ensures
        sha256_hex_of(s).len() == 64,
        is_hex_seq(sha256_hex_of(s)),
        vstd::utf8::is_ascii_chars(sha256_hex_of(s)),
{
    lemma_hex_of_bytes_hex(digest32(s));
}

/// The hexadecimal SHA-256 digest of a string, as every algorithm stamps it
/// into blocks and signatures.
pub fn sha256_hex(s: &str) -> (r: String)
    ensures
        r@ == sha256_hex_of(s@),
        r@.len() == 64,
        is_hex_seq(r@),
{
    let bytes = sha256_bytes(s);
    proof {
        lemma_sha256_hex_wf(s@);
    }
    bytes_to_hex(&bytes)
}

} // verus!
