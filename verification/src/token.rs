//! The signed, time-bounded token and its wire form.
//!
//! A token is a compact signed string binding a subject (a user identifier)
//! to an expiration instant, produced and checked with a single symmetric
//! secret.  Signing and signature verification are done by the jsonwebtoken
//! library behind the two trusted items below; the expiration check itself
//! is made in verified code, against a caller-supplied clock reading, so
//! that a token is accepted exactly while the current time is before its
//! expiration.

use vstd::prelude::*;

verus! {

/// How long a token stays valid: 24 hours, in seconds.
pub const TOKEN_LIFETIME_SECONDS: u64 = 86400;

/// The decoded payload of a token.
#[derive(Debug)]
pub struct Claims {
    /// The subject: the identifier of the user the token was issued to.
    pub sub: String,
    /// The expiration instant, in seconds since the epoch.
    pub exp: u64,
}

/// The expiration instant of a token issued at `now`.
pub open spec fn token_expiry(now: u64) -> u64
    recommends
        now + TOKEN_LIFETIME_SECONDS <= u64::MAX,
{
    (now + TOKEN_LIFETIME_SECONDS) as u64
}

/// The compact signed string that encodes the claims `{sub, exp}` under the
/// given secret.  Signing is deterministic — an HMAC over a fixed
/// serialization — so the token is a function of the three arguments alone.
pub uninterp spec fn token_of(secret: Seq<char>, sub: Seq<char>, exp: u64) -> Seq<char>;

/// Relies on `jsonwebtoken::encode` with the default HS256 header: it signs
/// a fixed serialization of the claims with an HMAC keyed by `secret`, so
/// the result is determined by `(secret, sub, exp)`.  On the HMAC path the
/// call cannot fail — the fixed header and claims always serialize, and the
/// HMAC itself is infallible — so a token is always returned.
#[verifier::external_body]
pub(crate) fn jwt_encode(secret: &str, sub: &str, exp: u64) -> (r: Option<String>)
    ensures
        r is Some,
        r matches Some(t) ==> t@ == token_of(secret@, sub@, exp),
{
    let mut claims = serde_json::Map::new();
    claims.insert("sub".to_string(), serde_json::Value::String(sub.to_string()));
    claims.insert("exp".to_string(), serde_json::Value::Number(serde_json::Number::from(exp)));
    jsonwebtoken::encode(
        &jsonwebtoken::Header::default(),
        &serde_json::Value::Object(claims),
        &jsonwebtoken::EncodingKey::from_secret(secret.as_bytes()),
    )
        .ok()
}

/// What signature verification under `secret` yields for `token`: the
/// decoded `(sub, exp)` claims, or nothing when the token is refused.  With
/// every time-based check disabled the result is a function of the two
/// arguments alone, so two verifications of one token always agree.
pub uninterp spec fn decode_of(secret: Seq<char>, token: Seq<char>) -> Option<(Seq<char>, u64)>;

/// The claims of a decoding result, as plain values.
pub open spec fn claims_view(r: Option<(String, u64)>) -> Option<(Seq<char>, u64)> {
    match r {
        None => None,
        Some(c) => Some((c.0@, c.1)),
    }
}

/// What decoding under `secret` yields for `token`: a token that encoding
/// produced under the same secret decodes to exactly the claims it was built
/// from.  Of any other input nothing is said, and callers treat every `None`
/// as a verification failure.
pub open spec fn decode_post(secret: Seq<char>, token: Seq<char>, r: Option<(String, u64)>) -> bool {
    forall|sub: Seq<char>, exp: u64|
        token == #[trigger] token_of(secret, sub, exp) ==> (r matches Some(c) && c.0@ == sub
            && c.1 == exp)
}

/// Relies on `jsonwebtoken::decode` with HS256 and every time-based check
/// disabled, so the result is `decode_of(secret, token)`, a function of the
/// two arguments alone.  A token that `jsonwebtoken::encode` produced under
/// the same secret carries a valid signature and the claims it was built
/// from, so decoding it returns exactly those claims; and the empty string
/// never decodes, since it does not even split into the three token parts.
#[verifier::external_body]
pub(crate) fn jwt_decode(secret: &str, token: &str) -> (r: Option<(String, u64)>)
    ensures
        claims_view(r) == decode_of(secret@, token@),
        decode_post(secret@, token@, r),
        token@.len() == 0 ==> r is None,
{
    let mut validation = jsonwebtoken::Validation::new(jsonwebtoken::Algorithm::HS256);
    validation.validate_exp = false;
    validation.required_spec_claims = std::collections::HashSet::new();
    let data = jsonwebtoken::decode::<serde_json::Value>(
        token,
        &jsonwebtoken::DecodingKey::from_secret(secret.as_bytes()),
        &validation,
    ).ok()?;
    let sub = data.claims.get("sub")?.as_str()?.to_string();
    let exp = data.claims.get("exp")?.as_u64()?;
    Some((sub, exp))
}

} // verus!
