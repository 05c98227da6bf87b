//! Token codec: issues and validates signed, time-bounded session tokens.
//! A token is a three-part, text-safe encoding of a claim set
//! `{sub, exp}` under one fixed symmetric MAC algorithm; there is no
//! per-token algorithm negotiation.

use vstd::prelude::*;

verus! {

/// Number of seconds a freshly issued session token stays valid.
pub const TOKEN_LIFETIME_SECS: u64 = 86400;

/// Why a token failed validation. The distinction is for internal logic
/// only: the admission policy collapses all three to one generic rejection.
#[derive(Clone, Copy, Debug, PartialEq, Eq, Structural)]
pub enum TokenError {
    /// The structure could not be decoded as a token.
    Malformed,
    /// The MAC does not match the signing key.
    BadSignature,
    /// The expiry time is not in the future.
    Expired,
}

/// Decoded claim set of a session token.
pub struct Claims {
    /// The subject the token was issued to.
    pub sub: String,
    /// Expiry, as a Unix timestamp in seconds.
    pub exp: u64,
}

/// The signed token encoding the claim set `{sub, exp}` under `key` with the
/// fixed MAC algorithm. Signing is deterministic: the same subject, expiry
/// and key give the same string on every machine.
pub uninterp spec fn token_of(sub: Seq<char>, exp: u64, key: Seq<char>) -> Seq<char>;

/// How decoding a candidate token fails.
pub enum DecodeFailure {
    /// Not the shape of a signed token.
    Structure,
    /// Shaped like a token, but the MAC does not match.
    Signature,
}

/// Relies on `jsonwebtoken::encode` with `Header::new(Algorithm::HS256)`:
/// the returned string is the canonical signed encoding of `{sub, exp}`
/// under `key`. For the fixed HMAC algorithm signing accepts any key and
/// any claim set, so the error branch is unreachable and aborts as the
/// original expectation did.
#[verifier::external_body]
fn sign_claims(sub: &str, exp: u64, key: &str) -> (token: String)
    ensures
        token@ == token_of(sub@, exp, key@),
{
    let mut claims = serde_json::Map::new();
    claims.insert("sub".to_string(), serde_json::Value::from(sub));
    claims.insert("exp".to_string(), serde_json::Value::from(exp));
    jsonwebtoken::encode(
        &jsonwebtoken::Header::new(jsonwebtoken::Algorithm::HS256),
        &serde_json::Value::Object(claims),
        &jsonwebtoken::EncodingKey::from_secret(key.as_bytes()),
    )
    .expect("Token creation failed")
}

/// Soundness of decoding: a token signed under `key` itself decodes to
/// exactly the claim set it was built from.
pub open spec fn decodes_own_key(
    r: Result<Claims, DecodeFailure>,
    token: Seq<char>,
    key: Seq<char>,
) -> bool {
    forall|s: Seq<char>, e: u64|
        token == #[trigger] token_of(s, e, key) ==> (r matches Ok(c) && c.sub@ == s && c.exp == e)
}

/// Unforgeability of decoding: a token signed under any other key is
/// reported as a signature mismatch.
pub open spec fn rejects_other_keys(
    r: Result<Claims, DecodeFailure>,
    token: Seq<char>,
    key: Seq<char>,
) -> bool {
    forall|s: Seq<char>, e: u64, k: Seq<char>|
        k != key && token == #[trigger] token_of(s, e, k) ==> (r matches Err(f) && f is Signature)
}

/// Relies on `jsonwebtoken::decode` restricted to the fixed algorithm, with
/// its own expiry check turned off so the outcome depends on the token and
/// key alone. A token signed under this key decodes to its claims; one
/// signed under a different key is shaped like a token but carries a MAC of
/// the wrong key, so it is reported as a signature failure — distinct keys
/// are taken to yield distinct MACs, the collision-freedom the scheme is
/// used for.
#[verifier::external_body]
fn decode_signed(token: &str, key: &str) -> (r: Result<Claims, DecodeFailure>)
    ensures
        decodes_own_key(r, token@, key@),
        rejects_other_keys(r, token@, key@),
{
    let mut validation = jsonwebtoken::Validation::new(jsonwebtoken::Algorithm::HS256);
    validation.validate_exp = false;
    validation.validate_aud = false;
    validation.required_spec_claims.clear();
    let dk = jsonwebtoken::DecodingKey::from_secret(key.as_bytes());
    let data = jsonwebtoken::decode::<serde_json::Value>(token, &dk, &validation)
        .map_err(|e| match e.kind() {
            jsonwebtoken::errors::ErrorKind::InvalidSignature => DecodeFailure::Signature,
            _ => DecodeFailure::Structure,
        })?;
    let sub = data.claims.get("sub").and_then(|v| v.as_str()).ok_or(DecodeFailure::Structure)?;
    let exp = data.claims.get("exp").and_then(|v| v.as_u64()).ok_or(DecodeFailure::Structure)?;
    Ok(Claims { sub: sub.to_owned(), exp })
}

/// Issue a session token for `username`, signed with `secret` and expiring
/// one lifetime after `now`. A pure function of its inputs: no hidden state
/// beyond the key.
pub fn create_jwt(username: &str, secret: &str, now: u64) -> (token: String)
    requires
        now + TOKEN_LIFETIME_SECS <= u64::MAX,
    ensures
        token@ == token_of(username@, (now + TOKEN_LIFETIME_SECS) as u64, secret@),
{
    let exp = now + TOKEN_LIFETIME_SECS;
    sign_claims(username, exp, secret)
}

/// Validate a candidate token against `secret` at time `now`: decode the
/// structure, check the MAC, and require the expiry to be in the future.
/// A well-signed token is accepted exactly while `now` is before its expiry
/// and yields its subject; one signed under another key is a signature
/// failure, whatever its claims say.
pub fn validate(token: &str, secret: &str, now: u64) -> (r: Result<String, TokenError>)
    ensures
        forall|s: Seq<char>, e: u64|
            token@ == #[trigger] token_of(s, e, secret@)
                ==> (now < e ==> (r matches Ok(u) && u@ == s))
                    && (e <= now ==> r == Err::<String, TokenError>(TokenError::Expired)),
        forall|s: Seq<char>, e: u64, k: Seq<char>|
            k != secret@ && token@ == #[trigger] token_of(s, e, k)
                ==> r == Err::<String, TokenError>(TokenError::BadSignature),
{
    match decode_signed(token, secret) {
        Ok(claims) => {
            if now < claims.exp {
                Ok(claims.sub)
            } else {
                Err(TokenError::Expired)
            }
        }
        Err(DecodeFailure::Signature) => Err(TokenError::BadSignature),
        Err(DecodeFailure::Structure) => Err(TokenError::Malformed),
    }
}

} // verus!
