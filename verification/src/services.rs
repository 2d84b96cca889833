use vstd::prelude::*;

use crate::auth::{bcrypt_cost_of, bcrypt_matches, bcrypt_wf, AuthService};
use crate::errors::{AuthError, ValidationError};
use crate::models::{User, UserResponse};

verus! {

/// Relies on `uuid::Uuid::new_v4` and its hyphenated `Display` form: a fresh
/// random identifier, rendered as 36 characters. Nothing more is promised of
/// the value, since it is drawn from OS randomness. Caveat: the primitive
/// aborts the process if the OS randomness source itself is unavailable, an
/// environment failure no precondition can exclude.
#[verifier::external_body]
fn fresh_account_id() -> (r: String)
    ensures
        r@.len() == 36,
{
    uuid::Uuid::new_v4().to_string()
}

/// What a registration request is owed, given whether the store already
/// holds the username or email: the existence check comes first, then the
/// field checks in order, exactly one error each.
pub open spec fn spec_validate_registration(
    exists: bool,
    username: Seq<char>,
    email: Seq<char>,
    password: Seq<char>,
) -> Result<(), AuthError> {
    if exists {
        Err(AuthError::Conflict)
    } else if username.len() < 3 || username.len() > 50 {
        Err(AuthError::ValidationFailure(ValidationError::UsernameLength))
    } else if password.len() < 6 {
        Err(AuthError::ValidationFailure(ValidationError::PasswordLength))
    } else if !email.contains('@') {
        Err(AuthError::ValidationFailure(ValidationError::EmailFormat))
    } else {
        Ok(())
    }
}

/// Whether `s` holds the character `c`.
fn contains_char(s: &str, c: char) -> (r: bool)
    ensures
        r == s@.contains(c),
{
    let n = s.unicode_len();
    let mut i: usize = 0;
    while i < n
        invariant
            i <= n,
            n == s@.len(),
            forall|j: int| 0 <= j < i ==> s@[j] != c,
        decreases n - i,
    {
        if s.get_char(i) == c {
            return true;
        }
        i += 1;
    }
    false
}

/// Validate a registration request against the store's answer `exists`
/// (whether an account with the username or email is already held):
/// existence first, then username length in [3, 50], password length at
/// least 6, and a minimal structural email check.
pub fn validate_registration(exists: bool, username: &str, email: &str, password: &str) -> (r:
    Result<(), AuthError>)
    ensures
        r == spec_validate_registration(exists, username@, email@, password@),
{
    if exists {
        return Err(AuthError::Conflict);
    }
    let ulen = username.unicode_len();
    if ulen < 3 || ulen > 50 {
        return Err(AuthError::ValidationFailure(ValidationError::UsernameLength));
    }
    if password.unicode_len() < 6 {
        return Err(AuthError::ValidationFailure(ValidationError::PasswordLength));
    }
    if !contains_char(email, '@') {
        return Err(AuthError::ValidationFailure(ValidationError::EmailFormat));
    }
    Ok(())
}

/// The record to persist for a new account: a fresh identifier and the
/// password's one-way hash. The plaintext password is not part of it.
#[derive(Debug)]
pub struct NewAccount {
    pub id: String,
    pub username: String,
    pub email: String,
    pub password_hash: String,
}

/// Decide a registration request: validate it against the store's answer
/// `exists`, hash the password with the configured work factor, and mint a
/// fresh account identifier. On success the record carries the request's
/// username and email unchanged and a hash that verifies against the
/// password; the failures are exactly the validation outcome, or
/// `HashingFailure` from the primitive.
pub fn prepare_registration(
    auth: &AuthService,
    exists: bool,
    username: &str,
    email: &str,
    password: &str,
) -> (r: Result<NewAccount, AuthError>)
    ensures
        r matches Ok(acc) ==> {
            &&& spec_validate_registration(exists, username@, email@, password@) is Ok
            &&& acc.username@ == username@
            &&& acc.email@ == email@
            &&& bcrypt_wf(acc.password_hash@) && bcrypt_matches(password@, acc.password_hash@)
            &&& bcrypt_cost_of(acc.password_hash@) == auth.cfg().bcrypt_cost
            &&& acc.id@.len() == 36
        },
        r matches Err(e) ==> match spec_validate_registration(
            exists,
            username@,
            email@,
            password@,
        ) {
            Err(v) => e == v,
            Ok(()) => e == AuthError::HashingFailure,
        },
{
    if let Err(e) = validate_registration(exists, username, email, password) {
        return Err(e);
    }
    let password_hash = match auth.hash_password(password) {
        Ok(h) => h,
        Err(e) => {
            return Err(e);
        },
    };
    Ok(
        NewAccount {
            id: fresh_account_id(),
            username: String::from_str(username),
            email: String::from_str(email),
            password_hash,
        },
    )
}

/// What a login decision is owed, given the looked-up account (if any) and
/// the password comparison: an unknown username and a wrong password map to
/// one and the same error, so a caller cannot tell the two causes apart.
pub open spec fn spec_login(user: Option<User>, verified: Option<bool>) -> Result<
    User,
    AuthError,
> {
    match user {
        None => Err(AuthError::InvalidCredentials),
        Some(u) => match verified {
            Some(true) => Ok(u),
            Some(false) => Err(AuthError::InvalidCredentials),
            None => Err(AuthError::HashingFailure),
        },
    }
}

/// Unknown-user and wrong-password login failures are one and the same
/// externally observable error, whatever the password comparison would have
/// said for the absent account.
pub proof fn lemma_login_failures_indistinguishable(u: User, verified: Option<bool>)
    ensures
        spec_login(None, verified) == spec_login(Some(u), Some(false)),
        spec_login(None, verified) == Err::<User, AuthError>(AuthError::InvalidCredentials),
{
}

/// Decide a login: `user` is the account the store returned for the
/// username, if any. An absent account and a failed password comparison
/// yield the same `InvalidCredentials`; a malformed stored hash is a
/// `HashingFailure`; otherwise the account is returned for token issuance.
pub fn check_login(auth: &AuthService, user: Option<User>, password: &str) -> (r: Result<
    User,
    AuthError,
>)
    ensures
        match user {
            None => r == spec_login(None, None),
            Some(u) => r == spec_login(
                Some(u),
                if bcrypt_wf(u.password_hash@) {
                    Some(bcrypt_matches(password@, u.password_hash@))
                } else {
                    None
                },
            ),
        },
{
    match user {
        None => Err(AuthError::InvalidCredentials),
        Some(u) => match auth.verify_password(password, u.password_hash.as_str()) {
            Ok(true) => Ok(u),
            Ok(false) => Err(AuthError::InvalidCredentials),
            Err(_) => Err(AuthError::HashingFailure),
        },
    }
}

/// Decide an account lookup by subject identifier: `user` is what the store
/// returned. An absent account is `NotFound`; a held account is returned as
/// its client-facing view, which never includes the password hash.
pub fn lookup_outcome(user: Option<User>) -> (r: Result<UserResponse, AuthError>)
    ensures
        user is None ==> r == Err::<UserResponse, AuthError>(AuthError::NotFound),
        user matches Some(u) ==> (r matches Ok(v) && v.id == u.id && v.username == u.username
            && v.email == u.email && v.created_at == u.created_at && v.updated_at == u.updated_at),
{
    match user {
        None => Err(AuthError::NotFound),
        Some(u) => Ok(u.to_response()),
    }
}

} // verus!
