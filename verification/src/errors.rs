use vstd::prelude::*;

verus! {

/// Why a bearer token was rejected. The three kinds are distinguished
/// internally even though the HTTP boundary collapses them into one
/// unauthorized response.
#[derive(Clone, Copy, Debug, PartialEq, Eq, Structural)]
pub enum TokenError {
    /// The token does not parse into the expected structure.
    Malformed,
    /// The signature does not verify under the given secret.
    InvalidSignature,
    /// The signature verifies but the token's expiry has passed.
    Expired,
}

/// Which structural check a registration request failed.
#[derive(Clone, Copy, Debug, PartialEq, Eq, Structural)]
pub enum ValidationError {
    /// Username length outside [3, 50].
    UsernameLength,
    /// Password shorter than 6 characters.
    PasswordLength,
    /// Email without an `@`.
    EmailFormat,
}

/// The error kinds of the authentication subsystem.
#[derive(Clone, Copy, Debug, PartialEq, Eq, Structural)]
pub enum AuthError {
    /// Bad input shape or length.
    ValidationFailure(ValidationError),
    /// Duplicate username or email.
    Conflict,
    /// Unknown user or wrong password, deliberately merged.
    InvalidCredentials,
    /// Missing, malformed, invalid or expired token.
    Unauthorized(TokenError),
    /// No such account.
    NotFound,
    /// The hashing primitive rejected the input.
    HashingFailure,
    /// The signing primitive failed.
    TokenIssuanceFailure,
}

impl AuthError {
    /// The client-facing message for this error kind.
    pub open spec fn spec_message(self) -> Seq<char> {
        match self {
            AuthError::ValidationFailure(ValidationError::UsernameLength) => "Username must be between 3 and 50 characters"@,
            AuthError::ValidationFailure(ValidationError::PasswordLength) => "Password must be at least 6 characters"@,
            AuthError::ValidationFailure(ValidationError::EmailFormat) => "Invalid email format"@,
            AuthError::Conflict => "Username or email already exists"@,
            AuthError::InvalidCredentials => "Invalid username or password"@,
            AuthError::Unauthorized(_) => "Invalid or expired token"@,
            AuthError::NotFound => "User not found"@,
            AuthError::HashingFailure => "Failed to hash password"@,
            AuthError::TokenIssuanceFailure => "Failed to generate token"@,
        }
    }

    /// The human-readable message placed in the response envelope.
    pub fn message(&self) -> (r: &'static str)
        ensures
            r@ == self.spec_message(),
    {
        match self {
            AuthError::ValidationFailure(ValidationError::UsernameLength) => "Username must be between 3 and 50 characters",
            AuthError::ValidationFailure(ValidationError::PasswordLength) => "Password must be at least 6 characters",
            AuthError::ValidationFailure(ValidationError::EmailFormat) => "Invalid email format",
            AuthError::Conflict => "Username or email already exists",
            AuthError::InvalidCredentials => "Invalid username or password",
            AuthError::Unauthorized(_) => "Invalid or expired token",
            AuthError::NotFound => "User not found",
            AuthError::HashingFailure => "Failed to hash password",
            AuthError::TokenIssuanceFailure => "Failed to generate token",
        }
    }
}

} // verus!
