//! PKCE (Proof Key for Code Exchange) primitives. Each sign-in flow uses a
//! fresh `(verifier, challenge)` pair and a fresh CSRF state nonce.

use base64::Engine;
use rand::RngCore;
use vstd::prelude::*;

verus! {

/// The challenge that `oauth2::PkceCodeChallenge::from_code_verifier_sha256`
/// derives from a verifier (base64url of its SHA-256 digest).
pub uninterp spec fn pkce_s256_challenge(verifier: Seq<char>) -> Seq<char>;

/// URL-safe base64 without padding of `bytes`, as produced by
/// `base64::engine::general_purpose::URL_SAFE_NO_PAD.encode`.
pub uninterp spec fn base64_url_no_pad(bytes: Seq<u8>) -> Seq<char>;

/// A character of the URL-safe base64 alphabet (`base64::alphabet::URL_SAFE`):
/// ASCII letters and digits, `-` and `_`.
pub open spec fn is_url_safe_b64_char(c: char) -> bool {
    ('A' <= c && c <= 'Z') || ('a' <= c && c <= 'z') || ('0' <= c && c <= '9') || c == '-' || c
        == '_'
}

/// `text` is the URL-safe unpadded base64 of some `n` bytes.
pub open spec fn encodes_some_bytes(text: Seq<char>, n: nat) -> bool {
    exists|bytes: Seq<u8>| bytes.len() == n && #[trigger] base64_url_no_pad(bytes) == text
}

/// A verifier, the challenge derived from it, and the challenge method.
#[derive(Debug, Clone)]
pub struct PkcePair {
    pub verifier: String,
    pub challenge: String,
    pub method: String,
}

/// Calls `oauth2::PkceCodeChallenge::new_random_sha256` and reads back the
/// verifier secret, the challenge and its method. The source draws 32 random
/// bytes and encodes them with base64's `URL_SAFE_NO_PAD` engine as the
/// verifier (43 characters), derives the challenge with
/// `from_code_verifier_sha256` (the same encoding of a 32-byte SHA-256
/// digest, so 43 characters too) and sets the method to "S256". Which bytes
/// were drawn is random and not described.
#[verifier::external_body]
fn oauth2_new_random_sha256() -> (r: (String, String, String))
    ensures
        encodes_some_bytes(r.0@, 32),
        r.0@.len() == 43,
        forall|i: int| 0 <= i < r.0@.len() ==> is_url_safe_b64_char(#[trigger] r.0@[i]),
        r.1@ == pkce_s256_challenge(r.0@),
        r.1@.len() == 43,
        forall|i: int| 0 <= i < r.1@.len() ==> is_url_safe_b64_char(#[trigger] r.1@[i]),
        r.2@ == "S256"@,
{
    let (challenge, verifier) = oauth2::PkceCodeChallenge::new_random_sha256();
    (verifier.secret().to_string(), challenge.as_str().to_string(), challenge.method().to_string())
}

/// Fills 32 bytes from `rand::thread_rng()`. Random: nothing is promised of
/// the contents.
#[verifier::external_body]
fn random_bytes_32() -> (r: [u8; 32]) {
    let mut buf = [0u8; 32];
    rand::thread_rng().fill_bytes(&mut buf);
    buf
}

/// `base64::engine::general_purpose::URL_SAFE_NO_PAD.encode(bytes)`. The
/// result has `ceil(4 n / 3)` characters for `n` input bytes, as the crate's
/// `encoded_len` computes for an unpadded engine, each drawn from the URL-safe
/// alphabet the engine is built with.
#[verifier::external_body]
fn base64_url_no_pad_encode(bytes: &[u8]) -> (r: String)
    requires
        bytes@.len() <= 1_000_000,
    ensures
        r@ == base64_url_no_pad(bytes@),
        r@.len() == (4 * bytes@.len() + 2) / 3,
        forall|i: int| 0 <= i < r@.len() ==> is_url_safe_b64_char(#[trigger] r@[i]),
{
    base64::engine::general_purpose::URL_SAFE_NO_PAD.encode(bytes)
}

/// Generate a fresh RFC 7636 pair using the SHA-256 transformation.
pub fn new_pair() -> (p: PkcePair)
    ensures
        p.challenge@ == pkce_s256_challenge(p.verifier@),
        p.method@ == "S256"@,
        encodes_some_bytes(p.verifier@, 32),
        p.verifier@.len() == 43,
        forall|i: int| 0 <= i < p.verifier@.len() ==> is_url_safe_b64_char(#[trigger] p.verifier@[i]),
        p.challenge@.len() == 43,
        forall|i: int| 0 <= i < p.challenge@.len() ==> is_url_safe_b64_char(#[trigger] p.challenge@[i]),
{
    let (verifier, challenge, method) = oauth2_new_random_sha256();
    PkcePair { verifier, challenge, method }
}

/// A CSRF state nonce for the authorize URL: the URL-safe base64 of 32
/// random bytes (43 characters, letters, digits, `-` and `_`). Which bytes
/// were drawn is up to the random number generator.
pub fn random_state() -> (s: String)
    ensures
        exists|bytes: Seq<u8>| bytes.len() == 32 && #[trigger] base64_url_no_pad(bytes) == s@,
        s@.len() == 43,
        forall|i: int| 0 <= i < s@.len() ==> is_url_safe_b64_char(#[trigger] s@[i]),
{
    let buf = random_bytes_32();
    let s = base64_url_no_pad_encode(buf.as_slice());
    assert(base64_url_no_pad(buf@) == s@);
    s
}

} // verus!
