//! Resume token generation and storage helpers.
//!
//! Tokens are sent to clients only once on successful join. The room stores a
//! SHA-256 hash so internal room snapshots and debug endpoints never expose a
//! reusable reconnect credential.

use vstd::prelude::*;
use vstd::utf8::encode_utf8;
use crate::ids::random_v4_uuid_bits;
use crate::text::{hex_of_bytes, is_lower_hex_char, push_hex, string_from_chars, u128_to_be_bytes, lemma_hex_of_bytes_shape};

verus! {

/// SHA-256 digest of a byte string.
pub uninterp spec fn sha256(bytes: Seq<u8>) -> Seq<u8>;

/// Calls `sha2::Sha256::digest`, which returns the 32-byte SHA-256 digest of
/// `bytes`; the digest itself is named, not spelled out.
#[verifier::external_body]
fn sha256_digest(bytes: &[u8]) -> (digest: Vec<u8>)
    ensures
        digest@ == sha256(bytes@),
        digest@.len() == 32,
{
    <sha2::Sha256 as sha2::Digest>::digest(bytes).to_vec()
}

/// Hashed resume token stored in a room slot: 64 lowercase hex characters.
pub type ResumeTokenHash = String;

/// The stored form of a token whose UTF-8 bytes are `token_bytes`.
pub open spec fn token_hash_of(token_bytes: Seq<u8>) -> Seq<char> {
    hex_of_bytes(sha256(token_bytes))
}

/// Hashes a token supplied by a reconnecting client.
pub fn hash_resume_token(value: &str) -> (hash: ResumeTokenHash)
    ensures
        hash@ == token_hash_of(encode_utf8(value@)),
        hash@.len() == 64,
{
    let digest = sha256_digest(value.as_bytes());
    let mut out: Vec<char> = Vec::new();
    push_hex(&mut out, digest.as_slice());
    proof {
        lemma_hex_of_bytes_shape(digest@);
    }
    string_from_chars(out)
}

/// Opaque token returned to a client for reconnecting to the same player slot.
#[derive(Debug, PartialEq, Eq)]
pub struct ResumeToken {
    value: String,
}

impl View for ResumeToken {
    type V = Seq<char>;

    closed spec fn view(&self) -> Seq<char> {
        self.value@
    }
}

impl ResumeToken {
    /// Wraps a generated token string.
    pub fn new(value: String) -> (t: Self)
        ensures
            t@ == value@,
    {
        ResumeToken { value }
    }

    /// Returns the token value that should be sent to the client once.
    pub fn expose(&self) -> (s: &str)
        ensures
            s@ == self@,
    {
        self.value.as_str()
    }

    /// Returns a one-way hash suitable for room storage and comparison.
    pub fn hash(&self) -> (h: ResumeTokenHash)
        ensures
            h@ == token_hash_of(encode_utf8(self@)),
            h@.len() == 64,
    {
        hash_resume_token(self.value.as_str())
    }
}

/// Generates opaque resume tokens.
pub trait ResumeTokenGenerator {
    /// Creates a token with enough entropy for live reconnect authorization.
    fn generate(&self) -> ResumeToken;
}

/// UUID-backed generator: two random UUIDs in lowercase hex, 64 characters.
pub struct UuidResumeTokenGenerator;

impl UuidResumeTokenGenerator {
    /// Draws a fresh token: the hex digits of two random version-4 UUIDs.
    pub fn generate_token(&self) -> (t: ResumeToken)
        ensures
            t@.len() == 64,
            forall|i: int| 0 <= i < 64 ==> is_lower_hex_char(#[trigger] t@[i]),
    {
        let first = u128_to_be_bytes(random_v4_uuid_bits());
        let second = u128_to_be_bytes(random_v4_uuid_bits());
        let mut out: Vec<char> = Vec::new();
        push_hex(&mut out, first.as_slice());
        push_hex(&mut out, second.as_slice());
        proof {
            lemma_hex_of_bytes_shape(first@);
            lemma_hex_of_bytes_shape(second@);
            assert forall|i: int| 0 <= i < 64 implies is_lower_hex_char(#[trigger] out@[i]) by {
                if i < 32 {
                    assert(out@[i] == hex_of_bytes(first@)[i]);
                } else {
                    assert(out@[i] == hex_of_bytes(second@)[i - 32]);
                }
            }
        }
        ResumeToken::new(string_from_chars(out))
    }
}

impl ResumeTokenGenerator for UuidResumeTokenGenerator {
    /// A fresh random token: 64 lowercase hex digits.
    fn generate(&self) -> (t: ResumeToken)
        ensures
            t@.len() == 64,
            forall|i: int| 0 <= i < 64 ==> is_lower_hex_char(#[trigger] t@[i]),
    {
        self.generate_token()
    }
}

} // verus!
