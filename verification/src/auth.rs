use vstd::prelude::*;

use crate::config::Config;
use crate::errors::{AuthError, TokenError};
use crate::models::{Claims, User};
use crate::token::{decode_and_verify, decode_outcome, issue, issued_token, jwt_decode_of};

verus! {

/// `hash` is a well-formed bcrypt hash string, one that `bcrypt::verify`
/// accepts whatever the password. Names the structural test inside
/// `bcrypt::verify` (shape, version, cost, base64 salt and digest), a
/// deterministic function of the hash alone.
pub uninterp spec fn bcrypt_wf(hash: Seq<char>) -> bool;

/// The comparison `bcrypt::verify` makes on a well-formed hash: the digest
/// recomputed from the password and the salt and cost carried in `hash`
/// equals the digest carried in `hash`. Deterministic in exactly these two
/// arguments.
pub uninterp spec fn bcrypt_matches(password: Seq<char>, hash: Seq<char>) -> bool;

/// The work factor a bcrypt hash string records in its two-digit cost field,
/// the one `bcrypt::verify` reads back to recompute the digest. Deterministic
/// in the hash alone.
pub uninterp spec fn bcrypt_cost_of(hash: Seq<char>) -> u32;

/// Relies on `bcrypt::hash`: a returned hash is a well-formed, 60-character
/// bcrypt string that records the given cost and verifies against the hashed
/// password, and a cost outside the primitive's accepted range [4, 31] is
/// rejected. The salt is drawn from OS randomness, so success is not
/// promised even for an accepted cost.
#[verifier::external_body]
fn bcrypt_hash(password: &str, cost: u32) -> (r: Result<String, ()>)
    ensures
        r matches Ok(h) ==> bcrypt_wf(h@) && bcrypt_matches(password@, h@) && h@.len() == 60
            && bcrypt_cost_of(h@) == cost,
        !(4 <= cost <= 31) ==> r is Err,
{
    bcrypt::hash(password, cost).map_err(|_| ())
}

/// Relies on `bcrypt::verify`: a deterministic recomputation of the hash
/// from the password and the salt and cost carried in `hash`, compared in
/// constant time. It errors exactly when `hash` is not a well-formed bcrypt
/// string, whatever the password; a legitimate mismatch is `Ok(false)`, not
/// an error.
#[verifier::external_body]
fn bcrypt_check(password: &str, hash: &str) -> (r: Result<bool, ()>)
    ensures
        r is Ok <==> bcrypt_wf(hash@),
        r matches Ok(b) ==> b == bcrypt_matches(password@, hash@),
{
    bcrypt::verify(password, hash).map_err(|_| ())
}

/// Relies on `chrono::Utc::now`: the system clock as seconds since the UNIX
/// epoch. Nothing is promised of the value.
#[verifier::external_body]
pub(crate) fn now_unix_seconds() -> i64 {
    chrono::Utc::now().timestamp()
}

/// Credential hashing and token issuance and verification, composed over the
/// process configuration.
#[derive(Clone)]
pub struct AuthService {
    config: Config,
}

impl AuthService {
    /// The configuration this service was built with.
    pub closed spec fn cfg(self) -> Config {
        self.config
    }

    pub fn new(config: Config) -> (r: Self)
        ensures
            r.cfg() == config,
    {
        AuthService { config }
    }

    /// Hash a plaintext password with the configured work factor. A returned
    /// hash is a well-formed 60-character bcrypt string that records the
    /// configured work factor and verifies against `password`; a work factor
    /// outside the primitive's accepted range fails.
    pub fn hash_password(&self, password: &str) -> (r: Result<String, AuthError>)
        ensures
            r matches Ok(h) ==> bcrypt_wf(h@) && bcrypt_matches(password@, h@) && h@.len() == 60
                && bcrypt_cost_of(h@) == self.cfg().bcrypt_cost,
            r matches Err(e) ==> e == AuthError::HashingFailure,
            !(4 <= self.cfg().bcrypt_cost <= 31) ==> r is Err,
    {
        match bcrypt_hash(password, self.config.bcrypt_cost) {
            Ok(h) => Ok(h),
            Err(()) => Err(AuthError::HashingFailure),
        }
    }

    /// Verify a plaintext password against a stored hash. A mismatch returns
    /// `Ok(false)`; the call errors exactly when the hash is malformed,
    /// whatever the password.
    pub fn verify_password(&self, password: &str, hash: &str) -> (r: Result<bool, AuthError>)
        ensures
            r is Ok <==> bcrypt_wf(hash@),
            r matches Ok(b) ==> b == bcrypt_matches(password@, hash@),
            r matches Err(e) ==> e == AuthError::HashingFailure,
    {
        match bcrypt_check(password, hash) {
            Ok(b) => Ok(b),
            Err(()) => Err(AuthError::HashingFailure),
        }
    }

    /// Build the claim set owed for `user` at issuance time `now`: subject is
    /// the account identifier, display is the username, and expiry is the
    /// configured lifetime past `now`.
    pub fn make_claims(&self, user: &User, now: i64) -> (r: Claims)
        requires
            0 < self.cfg().jwt_expiration,
            now + self.cfg().jwt_expiration <= i64::MAX,
        ensures
            r.sub == user.id,
            r.username == user.username,
            r.iat == now,
            r.exp == now + self.cfg().jwt_expiration,
            r.wf(),
    {
        Claims {
            sub: user.id.clone(),
            username: user.username.clone(),
            exp: now + self.config.jwt_expiration,
            iat: now,
        }
    }

    /// Issue a token for `user` with issuance time `now`: the deterministic
    /// core of `generate_token`. Issuance always succeeds.
    pub fn issue_token_at(&self, user: &User, now: i64) -> (r: Result<String, AuthError>)
        requires
            0 < self.cfg().jwt_expiration,
            now + self.cfg().jwt_expiration <= i64::MAX,
        ensures
            r is Ok,
            r matches Ok(t) ==> issued_token(
                t@,
                user.id@,
                user.username@,
                now + self.cfg().jwt_expiration,
                now as int,
                self.cfg().jwt_secret@,
            ),
    {
        let claims = self.make_claims(user, now);
        issue(&claims, self.config.jwt_secret.as_str())
    }

    /// Issue a token for `user` at the current clock time, expiring the
    /// configured lifetime later. Fails with `TokenIssuanceFailure` only when
    /// the configured lifetime is not positive or the expiry would not fit
    /// the timestamp type at the clock's current value.
    pub fn generate_token(&self, user: &User) -> (r: Result<String, AuthError>)
        ensures
            r matches Ok(t) ==> exists|iat: int|
                #[trigger] issued_token(
                    t@,
                    user.id@,
                    user.username@,
                    iat + self.cfg().jwt_expiration,
                    iat,
                    self.cfg().jwt_secret@,
                ) && 0 < self.cfg().jwt_expiration,
            r matches Err(e) ==> e == AuthError::TokenIssuanceFailure,
            self.cfg().jwt_expiration <= 0 ==> r is Err,
    {
        if self.config.jwt_expiration <= 0 {
            return Err(AuthError::TokenIssuanceFailure);
        }
        let now = now_unix_seconds();
        if now > i64::MAX - self.config.jwt_expiration {
            return Err(AuthError::TokenIssuanceFailure);
        }
        let r = self.issue_token_at(user, now);
        proof {
            if r is Ok {
                assert(issued_token(
                    r->Ok_0@,
                    user.id@,
                    user.username@,
                    now + self.cfg().jwt_expiration,
                    now as int,
                    self.cfg().jwt_secret@,
                ));
            }
        }
        r
    }

    /// Decode and validate `token` under the configured secret at time `now`.
    pub fn verify_token_at(&self, token: &str, now: i64) -> (r: Result<Claims, AuthError>)
        ensures
            r matches Ok(c) ==> decode_outcome(
                jwt_decode_of(token@, self.cfg().jwt_secret@),
                now as int,
            ) == Ok::<(Seq<char>, Seq<char>, int, int), TokenError>(
                (c.sub@, c.username@, c.exp as int, c.iat as int),
            ),
            r matches Err(e) ==> e matches AuthError::Unauthorized(te) && decode_outcome(
                jwt_decode_of(token@, self.cfg().jwt_secret@),
                now as int,
            ) == Err::<(Seq<char>, Seq<char>, int, int), TokenError>(te),
            r matches Ok(c) ==> now < c.exp,
    {
        match decode_and_verify(token, self.config.jwt_secret.as_str(), now) {
            Ok(c) => Ok(c),
            Err(te) => Err(AuthError::Unauthorized(te)),
        }
    }

    /// Decode and validate `token` under the configured secret at the current
    /// clock time. On success the claim fields are exactly what the token
    /// decodes to; every failure is an `Unauthorized` kind, and the kind is
    /// `Expired` only for a token whose signature verifies.
    pub fn verify_token(&self, token: &str) -> (r: Result<Claims, AuthError>)
        ensures
            r matches Ok(c) ==> jwt_decode_of(token@, self.cfg().jwt_secret@) == Ok::<
                (Seq<char>, Seq<char>, int, int),
                bool,
            >((c.sub@, c.username@, c.exp as int, c.iat as int)),
            r matches Err(e) ==> {
                ||| e == AuthError::Unauthorized(TokenError::InvalidSignature) && jwt_decode_of(
                    token@,
                    self.cfg().jwt_secret@,
                ) == Err::<(Seq<char>, Seq<char>, int, int), bool>(true)
                ||| e == AuthError::Unauthorized(TokenError::Malformed) && jwt_decode_of(
                    token@,
                    self.cfg().jwt_secret@,
                ) == Err::<(Seq<char>, Seq<char>, int, int), bool>(false)
                ||| e == AuthError::Unauthorized(TokenError::Expired) && jwt_decode_of(
                    token@,
                    self.cfg().jwt_secret@,
                ) is Ok
            },
    {
        let now = now_unix_seconds();
        self.verify_token_at(token, now)
    }

    /// The hash-then-verify round trip: a password always verifies against a
    /// hash freshly derived from it. Only the hashing primitive itself can
    /// fail; a mismatch is impossible.
    pub fn hash_then_verify(&self, password: &str) -> (r: Result<bool, AuthError>)
        ensures
            r matches Ok(b) ==> b,
            r matches Err(e) ==> e == AuthError::HashingFailure,
    {
        let hash = match self.hash_password(password) {
            Ok(h) => h,
            Err(e) => {
                return Err(e);
            },
        };
        self.verify_password(password, hash.as_str())
    }

    /// The issue-then-verify round trip: a token issued for `user` at `now`
    /// and validated at `check_at` under the same service yields exactly the
    /// claims it was issued with while `check_at` lies before the expiry, and
    /// fails with `Expired` from the expiry on. No other outcome can occur.
    pub fn issue_then_verify_at(&self, user: &User, now: i64, check_at: i64) -> (r: Result<
        Claims,
        AuthError,
    >)
        requires
            0 < self.cfg().jwt_expiration,
            now + self.cfg().jwt_expiration <= i64::MAX,
        ensures
            check_at < now + self.cfg().jwt_expiration ==> (r matches Ok(c) && c.sub@ == user.id@
                && c.username@ == user.username@ && c.iat == now && c.exp == now
                + self.cfg().jwt_expiration),
            check_at >= now + self.cfg().jwt_expiration ==> r == Err::<Claims, AuthError>(
                AuthError::Unauthorized(TokenError::Expired),
            ),
    {
        let token = match self.issue_token_at(user, now) {
            Ok(t) => t,
            Err(e) => {
                return Err(e);
            },
        };
        self.verify_token_at(token.as_str(), check_at)
    }

    /// The subject identifier a valid token asserts, for callers that only
    /// need the identity.
    pub fn extract_user_id_from_token(&self, token: &str) -> (r: Result<String, AuthError>)
        ensures
            r matches Ok(sub) ==> jwt_decode_of(token@, self.cfg().jwt_secret@) matches Ok(c)
                && sub@ == c.0,
            r matches Err(e) ==> {
                ||| e == AuthError::Unauthorized(TokenError::InvalidSignature) && jwt_decode_of(
                    token@,
                    self.cfg().jwt_secret@,
                ) == Err::<(Seq<char>, Seq<char>, int, int), bool>(true)
                ||| e == AuthError::Unauthorized(TokenError::Malformed) && jwt_decode_of(
                    token@,
                    self.cfg().jwt_secret@,
                ) == Err::<(Seq<char>, Seq<char>, int, int), bool>(false)
                ||| e == AuthError::Unauthorized(TokenError::Expired) && jwt_decode_of(
                    token@,
                    self.cfg().jwt_secret@,
                ) is Ok
            },
    {
        match self.verify_token(token) {
            Ok(claims) => Ok(claims.sub),
            Err(e) => Err(e),
        }
    }
}

} // verus!
