//! Trusted wrappers around the cryptographic crates the engine
//! relies on: Argon2 password hashing, HMAC-signed tokens, base64,
//! and the system's secure randomness. Every call into an outside
//! crate made by the authentication engine goes through one of the
//! wrappers here; everything downstream of them is verified.

use vstd::prelude::*;
use vstd::utf8::{encode_utf8, is_ascii_chars, is_ascii_chars_encode_utf8};
use argon2::{Argon2, PasswordHasher, PasswordVerifier};
use argon2::password_hash::{PasswordHash, SaltString};
use base64::Engine;
use jsonwebtoken::{decode, encode, Algorithm, DecodingKey, EncodingKey, Header, Validation};
use ring::rand::{SecureRandom, SystemRandom};
use serde_json::Value;
use crate::auth::Claims;

verus! {

/// Whether `password` matches the salted PHC hash string `hash`, as
/// decided by Argon2 password verification. A deterministic function
/// of the two strings alone.
pub uninterp spec fn argon2_verifies(password: Seq<char>, hash: Seq<char>) -> bool;

/// Relies on argon2's `PasswordHasher::hash_password` with a fresh
/// random salt: whatever salt was drawn, the returned PHC string
/// verifies against the password that produced it. The salt comes
/// from ring's fallible randomness source, so a failing source is an
/// error, not a panic.
#[verifier::external_body]
pub fn hash_password(password: &str) -> (r: Result<String, ()>)
    ensures
        r matches Ok(h) ==> argon2_verifies(password@, h@),
{
    let mut salt_bytes = [0u8; 16];
    SystemRandom::new().fill(&mut salt_bytes).map_err(|_| ())?;
    let salt = SaltString::encode_b64(&salt_bytes).map_err(|_| ())?;
    match Argon2::default().hash_password(password.as_bytes(), &salt) {
        Ok(h) => Ok(h.to_string()),
        Err(_) => Err(()),
    }
}

/// Relies on argon2's `PasswordVerifier::verify_password`. Fails
/// closed: a hash string that does not parse verifies nothing.
#[verifier::external_body]
pub fn verify_password(password: &str, hash: &str) -> (r: bool)
    ensures
        r == argon2_verifies(password@, hash@),
{
    match PasswordHash::new(hash) {
        Ok(parsed) => Argon2::default().verify_password(password.as_bytes(), &parsed).is_ok(),
        Err(_) => false,
    }
}

/// The payload carried by `token` when it is a well-shaped session
/// token signed (HMAC-SHA256) with `secret`: subject, expiry,
/// issued-at, membership tier, and mfa flag, in that order. `None`
/// when the signature is invalid or the token is not of that shape.
/// A deterministic function of the secret and the token alone.
pub uninterp spec fn jwt_payload(secret: Seq<char>, token: Seq<char>) -> Option<
    (Seq<char>, u64, u64, Seq<char>, bool),
>;

/// Relies on jsonwebtoken's `encode` (HS256): the returned token is
/// signed with `secret` and decodes back to exactly the claims that
/// were passed in. Signing with an HMAC key cannot fail, so the
/// token is always produced.
#[verifier::external_body]
pub fn issue_token(secret: &str, claims: &Claims) -> (r: String)
    ensures
        jwt_payload(secret@, r@) == Some(
            (claims.sub@, claims.exp, claims.iat, claims.membership_tier@, claims.mfa_verified),
        ),
{
    let mut m = serde_json::Map::new();
    m.insert("sub".to_owned(), Value::String(claims.sub.clone()));
    m.insert("exp".to_owned(), Value::from(claims.exp));
    m.insert("iat".to_owned(), Value::from(claims.iat));
    m.insert("membership_tier".to_owned(), Value::String(claims.membership_tier.clone()));
    m.insert("mfa_verified".to_owned(), Value::Bool(claims.mfa_verified));
    encode(&Header::default(), &m, &EncodingKey::from_secret(secret.as_bytes()))
        .expect("HMAC signing does not fail")
}

/// Relies on jsonwebtoken's `decode` (HS256) with expiry checking
/// turned off, so that the result depends on the secret and the token
/// alone; expiry is enforced by the verified caller.
#[verifier::external_body]
pub fn decode_token(secret: &str, token: &str) -> (r: Result<Claims, ()>)
    ensures
        r matches Ok(c) ==> jwt_payload(secret@, token@) == Some(
            (c.sub@, c.exp, c.iat, c.membership_tier@, c.mfa_verified),
        ),
        r is Err ==> jwt_payload(secret@, token@) is None,
{
    let mut v = Validation::new(Algorithm::HS256);
    v.validate_exp = false;
    v.required_spec_claims.clear();
    let d = decode::<Value>(token, &DecodingKey::from_secret(secret.as_bytes()), &v).map_err(|_| ())?;
    let c = d.claims;
    Ok(Claims {
        sub: c.get("sub").and_then(Value::as_str).ok_or(())?.to_owned(),
        exp: c.get("exp").and_then(Value::as_u64).ok_or(())?,
        iat: c.get("iat").and_then(Value::as_u64).ok_or(())?,
        membership_tier: c.get("membership_tier").and_then(Value::as_str).ok_or(())?.to_owned(),
        mfa_verified: c.get("mfa_verified").and_then(Value::as_bool).ok_or(())?,
    })
}

/// The standard padded base64 encoding of `bytes`.
pub uninterp spec fn base64_of(bytes: Seq<u8>) -> Seq<char>;

/// Relies on base64's `STANDARD` engine encode: four output
/// characters for every three input bytes, rounded up.
#[verifier::external_body]
pub fn base64_encode(bytes: &[u8]) -> (r: String)
    ensures
        r@ == base64_of(bytes@),
        r@.len() == 4 * ((bytes@.len() + 2) / 3),
{
    base64::engine::general_purpose::STANDARD.encode(bytes)
}

/// Relies on base64's `STANDARD` engine decode, which accepts exactly
/// the canonical padded encodings and inverts the encode.
#[verifier::external_body]
pub fn base64_decode(s: &str) -> (r: Result<Vec<u8>, ()>)
    ensures
        r matches Ok(d) ==> s@ == base64_of(d@),
        r matches Ok(d) ==> forall|b: Seq<u8>| s@ == base64_of(b) ==> b == d@,
        r is Err ==> forall|b: Seq<u8>| s@ != base64_of(b),
{
    base64::engine::general_purpose::STANDARD.decode(s).map_err(|_| ())
}

/// Relies on ring's `SystemRandom`: fills a buffer of the requested
/// length with cryptographically secure random bytes. Nothing can be
/// promised about the bytes themselves.
#[verifier::external_body]
pub fn secure_random_bytes(n: usize) -> (r: Option<Vec<u8>>)
    ensures
        r matches Some(v) ==> v@.len() == n,
{
    let mut buf = vec![0u8; n];
    match SystemRandom::new().fill(&mut buf) {
        Ok(()) => Some(buf),
        Err(_) => None,
    }
}

/// Relies on `String::from_utf8`: succeeds exactly on valid UTF-8
/// and returns the decoded characters.
#[verifier::external_body]
pub(crate) fn bytes_to_string(v: Vec<u8>) -> (r: Result<String, ()>)
    ensures
        r matches Ok(s) ==> encode_utf8(s@) == v@,
        r is Err ==> forall|cs: Seq<char>| v@ != encode_utf8(cs),
{
    String::from_utf8(v).map_err(|_| ())
}

/// The decimal digit character for a value below ten.
pub open spec fn digit_char(d: u64) -> char {
    ((48 + d) as u8) as char
}

/// The shortest decimal representation of `x`.
pub open spec fn spec_u64_string(x: u64) -> Seq<char>
    decreases x,
{
    if x < 10 {
        seq![digit_char(x)]
    } else {
        spec_u64_string(x / 10).push(digit_char(x % 10))
    }
}

/// The same representation, as ASCII bytes.
pub open spec fn spec_u64_digits(x: u64) -> Seq<u8> {
    spec_u64_string(x).map_values(|c: char| c as u8)
}

/// The decimal representation is ASCII, so its UTF-8 encoding is the
/// digit bytes themselves.
proof fn lemma_u64_string_ascii(x: u64)
    ensures
        is_ascii_chars(spec_u64_string(x)),
        encode_utf8(spec_u64_string(x)) == spec_u64_digits(x),
    decreases x,
{
    if x >= 10 {
        lemma_u64_string_ascii(x / 10);
    }
    assert(is_ascii_chars(spec_u64_string(x)));
    is_ascii_chars_encode_utf8(spec_u64_string(x));
    assert(encode_utf8(spec_u64_string(x)) =~= spec_u64_digits(x));
}

/// The decimal digits of `x`, most significant first.
fn u64_digits(x: u64) -> (r: Vec<u8>)
    ensures
        r@ == spec_u64_digits(x),
    decreases x,
{
    let mut r: Vec<u8> = if x < 10 {
        Vec::new()
    } else {
        u64_digits(x / 10)
    };
    r.push(48 + (x % 10) as u8);
    proof {
        assert(r@ =~= spec_u64_digits(x));
    }
    r
}

/// The shortest decimal representation of `x`, as a string.
pub fn u64_to_string(x: u64) -> (r: String)
    ensures
        r@ == spec_u64_string(x),
{
    let digits = u64_digits(x);
    proof {
        lemma_u64_string_ascii(x);
    }
    match bytes_to_string(digits) {
        Ok(s) => {
            proof {
                vstd::utf8::encode_utf8_decode_utf8(s@);
                vstd::utf8::encode_utf8_decode_utf8(spec_u64_string(x));
            }
            s
        },
        Err(_) => {
            // The digit bytes are the UTF-8 encoding of the decimal
            // string, so decoding them cannot fail.
            proof {
                assert(false);
            }
            String::new()
        },
    }
}

/// A fresh random 256-bit opaque token, base64-encoded; `None` only
/// if the system's randomness source fails.
pub fn generate_secure_token() -> (r: Option<String>)
    ensures
        r matches Some(t) ==> t@.len() == 44 && (exists|b: Seq<u8>|
            b.len() == 32 && t@ == base64_of(b)),
{
    match secure_random_bytes(32) {
        Some(bytes) => {
            let t = base64_encode(bytes.as_slice());
            proof {
                assert(bytes@.len() == 32 && t@ == base64_of(bytes@));
            }
            Some(t)
        },
        None => None,
    }
}

} // verus!
