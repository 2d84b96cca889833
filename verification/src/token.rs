use vstd::prelude::*;

use std::collections::HashSet;

use jsonwebtoken::errors::ErrorKind;
use jsonwebtoken::{decode, encode, Algorithm, DecodingKey, EncodingKey, Header, Validation};
use serde_json::Value;

use crate::errors::{AuthError, TokenError};
use crate::models::Claims;

verus! {

/// The signed token string that encoding a claim set under a secret yields.
/// Names the result of `jsonwebtoken::encode` with the default (HS256)
/// header: serialization and HMAC signing are deterministic, so the token is
/// a function of the claim fields and the secret alone.
pub uninterp spec fn jwt_token_of(
    sub: Seq<char>,
    username: Seq<char>,
    exp: int,
    iat: int,
    secret: Seq<char>,
) -> Seq<char>;

/// What decoding a token string under a secret yields, before any expiry
/// check: the claim fields `(sub, username, exp, iat)` on success,
/// `Err(true)` when the signature does not verify under the secret, and
/// `Err(false)` when the token does not parse into the expected structure.
/// Names the result of `jsonwebtoken::decode` with expiry validation turned
/// off, which is a deterministic function of the token and the secret.
pub uninterp spec fn jwt_decode_of(
    token: Seq<char>,
    secret: Seq<char>,
) -> Result<(Seq<char>, Seq<char>, int, int), bool>;

/// `t` is the token that encoding `(sub, username, exp, iat)` under `secret`
/// yields, and it decodes back to the same claim fields under `secret`. That
/// a different secret rejects it is a cryptographic property of HMAC, not a
/// fact any contract here states: HMAC derives equal keys from some distinct
/// secrets (a short secret and the same secret zero-padded, for one).
pub open spec fn issued_token(
    t: Seq<char>,
    sub: Seq<char>,
    username: Seq<char>,
    exp: int,
    iat: int,
    secret: Seq<char>,
) -> bool {
    &&& t == jwt_token_of(sub, username, exp, iat, secret)
    &&& jwt_decode_of(t, secret) == Ok::<(Seq<char>, Seq<char>, int, int), bool>(
        (sub, username, exp, iat),
    )
}

/// Relies on `jsonwebtoken::encode` with the default HS256 header and an
/// HMAC secret. The call cannot fail for these inputs: the key family
/// matches the header, an HMAC key accepts a secret of any length, signing
/// is infallible, and a string-keyed JSON object always serializes. The
/// claims serialize to a fixed JSON object and HMAC-SHA256 is deterministic,
/// so the token is a function of the claim fields and the secret, and it
/// decodes under the same secret to the same claims.
#[verifier::external_body]
fn jwt_encode(claims: &Claims, secret: &str) -> (r: Result<String, ()>)
    ensures
        r is Ok,
        r matches Ok(t) ==> t@ == jwt_token_of(
            claims.sub@,
            claims.username@,
            claims.exp as int,
            claims.iat as int,
            secret@,
        ),
        r matches Ok(t) ==> issued_token(
            t@,
            claims.sub@,
            claims.username@,
            claims.exp as int,
            claims.iat as int,
            secret@,
        ),
{
    let mut m = serde_json::Map::new();
    m.insert("sub".to_string(), Value::String(claims.sub.clone()));
    m.insert("username".to_string(), Value::String(claims.username.clone()));
    m.insert("exp".to_string(), Value::from(claims.exp));
    m.insert("iat".to_string(), Value::from(claims.iat));
    let key = EncodingKey::from_secret(secret.as_bytes());
    encode(&Header::default(), &Value::Object(m), &key).map_err(|_| ())
}

/// Relies on `jsonwebtoken::decode` over HS256 with expiry validation turned
/// off: a deterministic parse of the token and check of its signature under
/// the secret. A signature mismatch is reported apart from every other
/// failure. A token whose signature verifies but which carries an `aud`
/// claim, or a header naming another algorithm, is classified as not
/// parsing, exactly as the original validation settings rejected it.
#[verifier::external_body]
fn jwt_decode_raw(token: &str, secret: &str) -> (r: Result<Claims, bool>)
    ensures
        r matches Ok(c) ==> jwt_decode_of(token@, secret@) matches Ok(d) && d == (
            c.sub@,
            c.username@,
            c.exp as int,
            c.iat as int,
        ),
        r matches Err(sig) ==> jwt_decode_of(token@, secret@) matches Err(s) && s == sig,
{
    let mut v = Validation::new(Algorithm::HS256);
    v.validate_exp = false;
    v.required_spec_claims = HashSet::new();
    let data = decode::<Value>(token, &DecodingKey::from_secret(secret.as_bytes()), &v)
        .map_err(|e| matches!(e.kind(), ErrorKind::InvalidSignature))?;
    let c = data.claims;
    let sub = c.get("sub").and_then(Value::as_str).ok_or(false)?;
    let username = c.get("username").and_then(Value::as_str).ok_or(false)?;
    let exp = c.get("exp").and_then(Value::as_i64).ok_or(false)?;
    let iat = c.get("iat").and_then(Value::as_i64).ok_or(false)?;
    Ok(Claims { sub: sub.to_string(), username: username.to_string(), exp, iat })
}

/// The outcome the codec owes for a raw decode result `d` validated at time
/// `now`: a signature mismatch is `InvalidSignature`, an unparsable token is
/// `Malformed`, a decoded claim set is `Expired` when `now >= exp` (strict,
/// no leeway) and is returned unchanged otherwise.
pub open spec fn decode_outcome(
    d: Result<(Seq<char>, Seq<char>, int, int), bool>,
    now: int,
) -> Result<(Seq<char>, Seq<char>, int, int), TokenError> {
    match d {
        Err(sig) => if sig {
            Err(TokenError::InvalidSignature)
        } else {
            Err(TokenError::Malformed)
        },
        Ok(c) => if now >= c.2 {
            Err(TokenError::Expired)
        } else {
            Ok(c)
        },
    }
}

/// Encode `claims` into a signed token under `secret`. Issuance always
/// succeeds: HS256 signing of a JSON claim set under an HMAC secret is
/// infallible. The `Result` shape is kept for the error taxonomy's sake.
pub fn issue(claims: &Claims, secret: &str) -> (r: Result<String, AuthError>)
    ensures
        r is Ok,
        r matches Ok(t) ==> issued_token(
            t@,
            claims.sub@,
            claims.username@,
            claims.exp as int,
            claims.iat as int,
            secret@,
        ),
{
    match jwt_encode(claims, secret) {
        Ok(t) => Ok(t),
        Err(()) => Err(AuthError::TokenIssuanceFailure),
    }
}

/// Decode `token` under `secret` and validate it at time `now`. The result
/// is exactly `decode_outcome` of the raw decode: `InvalidSignature` on a
/// signature mismatch, `Malformed` when the token does not parse, `Expired`
/// when `now >= exp`, and the claim set otherwise.
pub fn decode_and_verify(token: &str, secret: &str, now: i64) -> (r: Result<Claims, TokenError>)
    ensures
        r matches Ok(c) ==> decode_outcome(jwt_decode_of(token@, secret@), now as int) == Ok::<
            (Seq<char>, Seq<char>, int, int),
            TokenError,
        >((c.sub@, c.username@, c.exp as int, c.iat as int)),
        r matches Err(e) ==> decode_outcome(jwt_decode_of(token@, secret@), now as int) == Err::<
            (Seq<char>, Seq<char>, int, int),
            TokenError,
        >(e),
        r matches Ok(c) ==> now < c.exp,
{
    match jwt_decode_raw(token, secret) {
        Err(sig) => if sig {
            Err(TokenError::InvalidSignature)
        } else {
            Err(TokenError::Malformed)
        },
        Ok(c) => if now >= c.exp {
            Err(TokenError::Expired)
        } else {
            Ok(c)
        },
    }
}

/// A decoded claim set is returned unchanged exactly when validation time
/// lies strictly before its expiry.
pub proof fn lemma_decode_outcome_fresh(c: (Seq<char>, Seq<char>, int, int), now: int)
    requires
        now < c.2,
    ensures
        decode_outcome(Ok(c), now) == Ok::<(Seq<char>, Seq<char>, int, int), TokenError>(c),
{
}

/// Validation at or past the expiry of a decoded claim set yields `Expired`,
/// whatever the other claim fields hold.
pub proof fn lemma_decode_outcome_expired(c: (Seq<char>, Seq<char>, int, int), now: int)
    requires
        now >= c.2,
    ensures
        decode_outcome(Ok(c), now) == Err::<(Seq<char>, Seq<char>, int, int), TokenError>(
            TokenError::Expired,
        ),
{
}

/// A raw decode that failed the signature check yields `InvalidSignature`
/// at every validation time; one that failed to parse yields `Malformed` at
/// every validation time. Neither is ever accepted.
pub proof fn lemma_decode_outcome_rejects(sig: bool, now: int)
    ensures
        decode_outcome(Err(sig), now) == Err::<(Seq<char>, Seq<char>, int, int), TokenError>(
            if sig {
                TokenError::InvalidSignature
            } else {
                TokenError::Malformed
            },
        ),
        decode_outcome(Err(sig), now) !is Ok,
{
}

} // verus!
