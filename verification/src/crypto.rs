//! Hashing, encoding and randomness: the calls into `sha2`, `base64`, `rand` and
//! `argon2`, and the verified functions built on them.

use vstd::prelude::*;
use vstd::utf8::encode_utf8;
use vstd::string::StringSliceAdditionalSpecFns;
use argon2::password_hash::SaltString;
use base64::Engine;
use sha2::Digest;
use crate::encoding::{hex_encode, hex_lower};

verus! {

/// The SHA-256 digest of `data`.
pub uninterp spec fn sha256_digest(data: Seq<u8>) -> Seq<u8>;

/// Whether the argon2 PHC string `hash` is a hash of `password` (what
/// `PasswordVerifier::verify_password` accepts).
pub uninterp spec fn password_matches(password: Seq<char>, hash: Seq<char>) -> bool;

/// Whether `hash` parses as a PHC string (`PasswordHash::new` succeeds on it).
pub uninterp spec fn phc_parses(hash: Seq<char>) -> bool;

/// The URL-safe base64 alphabet (`A-Z a-z 0-9 - _`).
pub open spec fn b64_symbol(n: int) -> char {
    if n < 26 {
        (65 + n) as char
    } else if n < 52 {
        (71 + n) as char
    } else if n < 62 {
        (n - 4) as char
    } else if n == 62 {
        '-'
    } else {
        '_'
    }
}

/// URL-safe base64 without padding: every three bytes become four symbols, and a
/// trailing one or two bytes become two or three symbols.
pub open spec fn base64_url_nopad(b: Seq<u8>) -> Seq<char>
    decreases b.len(),
{
    let b0 = if b.len() > 0 { b[0] as int } else { 0 };
    let b1 = if b.len() > 1 { b[1] as int } else { 0 };
    let b2 = if b.len() > 2 { b[2] as int } else { 0 };
    if b.len() == 0 {
        Seq::empty()
    } else if b.len() == 1 {
        seq![b64_symbol(b0 / 4), b64_symbol((b0 % 4) * 16)]
    } else if b.len() == 2 {
        seq![
            b64_symbol(b0 / 4),
            b64_symbol((b0 % 4) * 16 + b1 / 16),
            b64_symbol((b1 % 16) * 4),
        ]
    } else {
        seq![
            b64_symbol(b0 / 4),
            b64_symbol((b0 % 4) * 16 + b1 / 16),
            b64_symbol((b1 % 16) * 4 + b2 / 64),
            b64_symbol(b2 % 64),
        ] + base64_url_nopad(b.skip(3))
    }
}

/// The PKCE S256 challenge of a verifier: base64url (no padding) of the SHA-256
/// of its UTF-8 bytes.
pub open spec fn pkce_challenge(verifier: Seq<char>) -> Seq<char> {
    base64_url_nopad(sha256_digest(encode_utf8(verifier)))
}

/// `sha2::Sha256::digest`: the digest of `data`, 32 bytes long.
#[verifier::external_body]
fn sha256(data: &[u8]) -> (r: Vec<u8>)
    ensures
        r@ == sha256_digest(data@),
        r@.len() == 32,
{
    sha2::Sha256::digest(data).to_vec()
}

/// `base64::engine::general_purpose::URL_SAFE_NO_PAD.encode`: URL-safe base64
/// without padding.
#[verifier::external_body]
fn base64_url_encode(data: &[u8]) -> (r: String)
    ensures
        r@ == base64_url_nopad(data@),
{
    base64::engine::general_purpose::URL_SAFE_NO_PAD.encode(data)
}

/// `rand::random`: `N` bytes from the thread-local random generator. Nothing is
/// stated of their values.
#[verifier::external_body]
fn random_bytes<const N: usize>() -> (r: [u8; N]) {
    rand::random::<[u8; N]>()
}

/// `PasswordHasher::hash_password` with `Argon2::default()`, under the salt
/// `SaltString::encode_b64(salt)`, rendered as its PHC string; an error is carried
/// as its message. The sources show when it succeeds: the salt encodes into the
/// 64-character salt buffer for up to 48 bytes, argon2 takes salts of at least 8
/// bytes and passwords of at most `0xFFFF_FFFF` bytes, and with the default
/// parameters nothing else fails. A hash it produces verifies against the same
/// password (the crate's documented round trip).
#[verifier::external_body]
fn argon2_hash(password: &str, salt: &[u8]) -> (r: Result<String, String>)
    ensures
        8 <= salt@.len() <= 48 && password.spec_bytes().len() <= 0xFFFF_FFFF ==> r is Ok,
        r matches Ok(h) ==> password_matches(password@, h@),
{
    let salt = SaltString::encode_b64(salt).map_err(|e| e.to_string())?;
    argon2::PasswordHasher::hash_password(&argon2::Argon2::default(), password.as_bytes(), &salt)
        .map(|h| h.to_string())
        .map_err(|e| e.to_string())
}

/// `PasswordVerifier::verify_password` with `Argon2::default()` on `hash` parsed
/// by `PasswordHash::new`; a hash that does not parse verifies nothing, and the
/// call does not panic on it.
#[verifier::external_body]
fn argon2_verify(password: &str, hash: &str) -> (r: bool)
    ensures
        r == password_matches(password@, hash@),
        r ==> phc_parses(hash@),
{
    match argon2::PasswordHash::new(hash) {
        Ok(parsed) => argon2::PasswordVerifier::verify_password(
            &argon2::Argon2::default(),
            password.as_bytes(),
            &parsed,
        ).is_ok(),
        Err(_) => false,
    }
}

/// The PKCE S256 challenge of `verifier`.
pub fn pkce_s256(verifier: &str) -> (r: String)
    ensures
        r@ == pkce_challenge(verifier@),
{
    let digest: Vec<u8> = sha256(verifier.as_bytes());
    base64_url_encode(digest.as_slice())
}

/// The lower-case hexadecimal SHA-256 of `value` (how refresh tokens are stored).
pub fn sha256_hex(value: &str) -> (r: String)
    ensures
        r@ == hex_lower(sha256_digest(encode_utf8(value@))),
        r@.len() == 64,
{
    let digest: Vec<u8> = sha256(value.as_bytes());
    let r: String = hex_encode(digest.as_slice());
    proof {
        crate::encoding::hex_length(digest@);
    }
    r
}

/// 32 random bytes as 64 lower-case hexadecimal digits (codes and refresh tokens).
pub fn random_hex() -> (r: String)
    ensures
        exists|b: Seq<u8>| b.len() == 32 && r@ == hex_lower(b),
        r@.len() == 64,
{
    let bytes: [u8; 32] = random_bytes::<32>();
    let r: String = hex_encode(&bytes);
    proof {
        crate::encoding::hex_length(bytes@);
    }
    r
}

/// 32 random bytes in URL-safe base64 without padding (a PKCE verifier).
pub fn random_bytes_for_client() -> (r: (String, Ghost<Seq<u8>>))
    ensures
        r.1@.len() == 32,
        r.0@ == base64_url_nopad(r.1@),
{
    let bytes: [u8; 32] = random_bytes::<32>();
    (base64_url_encode(&bytes), Ghost(bytes@))
}

/// 16 random bytes as 32 lower-case hexadecimal digits (request ids).
pub fn random_hex16() -> (r: String)
    ensures
        exists|b: Seq<u8>| b.len() == 16 && r@ == hex_lower(b),
        r@.len() == 32,
{
    let bytes: [u8; 16] = random_bytes::<16>();
    let r: String = hex_encode(&bytes);
    proof {
        crate::encoding::hex_length(bytes@);
    }
    r
}

/// An argon2 hash of `password` under a fresh random 16-byte salt. It succeeds
/// for every password of at most `0xFFFF_FFFF` bytes, and a hash it returns
/// verifies against `password`.
pub fn hash_password(password: &str) -> (r: Result<String, String>)
    ensures
        password.spec_bytes().len() <= 0xFFFF_FFFF ==> r is Ok,
        r matches Ok(h) ==> password_matches(password@, h@),
{
    let salt_bytes: [u8; 16] = random_bytes::<16>();
    argon2_hash(password, &salt_bytes)
}

/// Whether `password` matches the argon2 PHC string `hash`; a string that does
/// not parse as a PHC hash matches nothing.
pub fn verify_password(password: &str, hash: &str) -> (r: bool)
    ensures
        r == password_matches(password@, hash@),
        !phc_parses(hash@) ==> !r,
{
    argon2_verify(password, hash)
}

} // verus!
