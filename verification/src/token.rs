//! The credential resolver: token signing and verification, password
//! digests, and the decision that turns a bearer token into a user id.

use hmac::Mac;
use jwt::{SignWithKey, VerifyWithKey};
use sha2::Digest;
use vstd::prelude::*;
use vstd::string::StringSliceAdditionalSpecFns;

use crate::errors::FieldError;
use crate::text::{parse_u32, spec_all_digits, spec_dec, spec_fmt};
use crate::user::User;

verus! {

/// The token text that signing claims `{sub, exp}` with a key produces;
/// a function of the claims and the key alone.
pub uninterp spec fn token_of(sub: Seq<char>, exp: u64, key: Seq<char>) -> Option<Seq<char>>;

/// The claims `(sub, exp)` that verifying a token text against a key
/// yields; a function of the token and the key alone.
pub uninterp spec fn claims_of(token: Seq<char>, key: Seq<char>) -> Option<(Seq<char>, u64)>;

/// The SHA-256 digest of a byte sequence.
pub uninterp spec fn digest_of(bytes: Seq<u8>) -> Seq<u8>;

/// Relies on jwt's `SignWithKey` over an HMAC-SHA256 key built by
/// `hmac::Hmac::new_from_slice`: the token text for claims `{sub, exp}`
/// is a deterministic function of the claims and the key; signing never
/// fails (the HMAC key accepts any length, and the claims object always
/// serializes); and jwt's `VerifyWithKey` on the produced token with the
/// same key recomputes the same signature and re-parses the same claims.
#[verifier::external_body]
fn sign_claims(sub: &String, exp: u64, key: &String) -> (r: Option<String>)
    ensures
        r is Some,
        r is Some <==> token_of(sub@, exp, key@) is Some,
        r matches Some(t) ==> Some(t@) == token_of(sub@, exp, key@),
        r matches Some(t) ==> claims_of(t@, key@) == Some((sub@, exp)),
{
    let k: hmac::Hmac<sha2::Sha256> = match hmac::Hmac::new_from_slice(key.as_bytes()) {
        Ok(k) => k,
        Err(_) => return None,
    };
    let mut claims = serde_json::Map::new();
    claims.insert("sub".to_owned(), serde_json::Value::String(sub.clone()));
    claims.insert("exp".to_owned(), serde_json::Value::from(exp));
    serde_json::Value::Object(claims).sign_with_key(&k).ok()
}

/// Relies on jwt's `VerifyWithKey` over an HMAC-SHA256 key: claims come
/// back only when the token's signature checks out against the key, and
/// the outcome is a deterministic function of the token and the key.
#[verifier::external_body]
fn verify_claims(token: &String, key: &String) -> (r: Option<(String, u64)>)
    ensures
        r is Some <==> claims_of(token@, key@) is Some,
        r matches Some(c) ==> Some((c.0@, c.1)) == claims_of(token@, key@),
{
    let k: hmac::Hmac<sha2::Sha256> = match hmac::Hmac::new_from_slice(key.as_bytes()) {
        Ok(k) => k,
        Err(_) => return None,
    };
    let claims: serde_json::Value = match token.as_str().verify_with_key(&k) {
        Ok(c) => c,
        Err(_) => return None,
    };
    let sub = claims.get("sub")?.as_str()?.to_owned();
    let exp = claims.get("exp")?.as_u64()?;
    Some((sub, exp))
}

/// Relies on sha2::Sha256: a 32-byte digest that is a function of the
/// input bytes alone.
#[verifier::external_body]
fn sha256_bytes(data: &[u8]) -> (r: Vec<u8>)
    ensures
        r@ == digest_of(data@),
        r@.len() == 32,
{
    sha2::Sha256::digest(data).to_vec()
}

/// The stored digest of a password: lower-case hex of its SHA-256.
pub open spec fn spec_hash(password: Seq<u8>) -> Seq<char> {
    crate::text::spec_hex(digest_of(password))
}

/// The stored digest of a password text.
pub open spec fn spec_hash_str(password: Seq<char>) -> Seq<char> {
    spec_hash(vstd::utf8::encode_utf8(password))
}

/// Digests a plaintext password for storage or comparison.
pub fn hash(password: &str) -> (r: String)
    ensures
        r@ == spec_hash(password.spec_bytes()),
{
    let digest = sha256_bytes(password.as_bytes());
    crate::text::hex_encode(&digest)
}

/// Turns a bearer token into the user id it names.  Succeeds exactly when
/// a token is present, its signature verifies, its subject is a numeral
/// that fits a user id, and it has not expired by `now`; every other
/// outcome is `Unauthenticated`.
pub fn resolve_token(raw_token: Option<&String>, key: &String, now: u64) -> (r: Result<
    u32,
    FieldError,
>)
    ensures
        match raw_token {
            None => r == Err::<u32, FieldError>(FieldError::Unauthenticated),
            Some(t) => match claims_of(t@, key@) {
                None => r == Err::<u32, FieldError>(FieldError::Unauthenticated),
                Some(c) => {
                    if c.1 > now && c.0.len() > 0 && spec_all_digits(c.0) && spec_dec(c.0)
                        <= u32::MAX {
                        r matches Ok(uid) && uid as int == spec_dec(c.0)
                    } else {
                        r == Err::<u32, FieldError>(FieldError::Unauthenticated)
                    }
                },
            },
        },
{
    let token = match raw_token {
        Some(t) => t,
        None => {
            return Err(FieldError::Unauthenticated);
        },
    };
    let (sub, exp) = match verify_claims(token, key) {
        Some(c) => c,
        None => {
            return Err(FieldError::Unauthenticated);
        },
    };
    if exp <= now {
        return Err(FieldError::Unauthenticated);
    }
    match parse_u32(sub.as_str()) {
        Some(uid) => Ok(uid),
        None => Err(FieldError::Unauthenticated),
    }
}

/// The store lookup that follows [`resolve_token`]: a missing subject is
/// its own failure, distinct from a bad credential.
pub fn resolve_user(fetched: Option<User>) -> (r: Result<User, FieldError>)
    ensures
        match fetched {
            Some(u) => r matches Ok(v) && v == u,
            None => r matches Err(e) && e matches FieldError::NotFound(f) && f@ == "uid"@,
        },
{
    match fetched {
        Some(u) => Ok(u),
        None => Err(FieldError::NotFound("uid".to_owned())),
    }
}

/// Issues an access token for a user id: subject is the id's numeral,
/// expiry is `now + expire_seconds`.  Issuing always succeeds, and the
/// issued token verifies back to claims that name exactly this user id,
/// so a fresh token resolves to its id until it expires.
pub fn issue_token(uid: u32, now: u64, expire_seconds: u64, key: &String) -> (r: Result<
    (String, u64),
    FieldError,
>)
    requires
        now + expire_seconds <= u64::MAX,
    ensures
        r is Ok,
        r matches Ok(p) ==> {
            let exp = (now + expire_seconds) as u64;
            &&& p.1 == exp
            &&& Some(p.0@) == token_of(spec_fmt(uid as int), exp, key@)
            &&& claims_of(p.0@, key@) == Some((spec_fmt(uid as int), exp))
            &&& (match claims_of(p.0@, key@) {
                Some(c) => c.0.len() > 0 && spec_all_digits(c.0) && spec_dec(c.0) == uid,
                None => false,
            })
        },
{
    let exp = now + expire_seconds;
    let sub = crate::text::format_u64(uid as u64);
    proof {
        crate::text::lemma_fmt_dec_roundtrip(uid as int);
    }
    match sign_claims(&sub, exp, key) {
        Some(t) => Ok((t, exp)),
        None => Err(FieldError::Unauthenticated),
    }
}

} // verus!
