use vstd::prelude::*;

verus! {

/// The claim set carried inside a signed token: subject identifier, display
/// username, expiry and issued-at as UNIX timestamps in seconds.
#[derive(Clone, Debug)]
pub struct Claims {
    pub sub: String,
    pub username: String,
    pub exp: i64,
    pub iat: i64,
}

impl Claims {
    /// A claim set is well formed when its expiry lies strictly after its
    /// issuance time.
    pub open spec fn wf(self) -> bool {
        self.iat < self.exp
    }
}

/// A stored account record, as the external user store returns it. The
/// timestamps are carried as the store's formatted strings; the core never
/// computes on them.
#[derive(Clone, Debug)]
pub struct User {
    pub id: String,
    pub username: String,
    pub email: String,
    pub password_hash: String,
    pub created_at: String,
    pub updated_at: String,
}

/// The client-facing view of an account: every field of the record except
/// the password hash, which never leaves the core.
#[derive(Clone, Debug)]
pub struct UserResponse {
    pub id: String,
    pub username: String,
    pub email: String,
    pub created_at: String,
    pub updated_at: String,
}

impl User {
    /// The client-facing view of this record.
    pub fn to_response(&self) -> (r: UserResponse)
        ensures
            r.id == self.id,
            r.username == self.username,
            r.email == self.email,
            r.created_at == self.created_at,
            r.updated_at == self.updated_at,
    {
        UserResponse {
            id: self.id.clone(),
            username: self.username.clone(),
            email: self.email.clone(),
            created_at: self.created_at.clone(),
            updated_at: self.updated_at.clone(),
        }
    }
}

/// What a successful registration or login returns: a fresh token and the
/// view of the account it was issued for.
#[derive(Clone, Debug)]
pub struct AuthResponse {
    pub token: String,
    pub user: UserResponse,
}

} // verus!
