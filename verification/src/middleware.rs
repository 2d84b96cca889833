use vstd::prelude::*;

use crate::auth::{now_unix_seconds, AuthService};
use crate::token::{decode_outcome, jwt_decode_of};

verus! {

/// `p` is a prefix of `s`.
pub open spec fn has_prefix(s: Seq<char>, p: Seq<char>) -> bool {
    p.len() <= s.len() && s.subrange(0, p.len() as int) == p
}

/// A request path is protected when it falls under one of the configured
/// protected prefixes; every other path is public.
pub open spec fn is_protected_path(path: Seq<char>) -> bool {
    has_prefix(path, "/api/profile"@) || has_prefix(path, "/api/protected"@)
}

/// A well-formed authorization header: the literal prefix `"Bearer "`,
/// case-sensitive, single space.
pub open spec fn has_bearer_prefix(header: Seq<char>) -> bool {
    has_prefix(header, "Bearer "@)
}

/// The token carried after the `"Bearer "` prefix.
pub open spec fn bearer_token_of(header: Seq<char>) -> Seq<char> {
    header.subrange("Bearer "@.len() as int, header.len() as int)
}

/// The token an authorization header hands over, if the header is present
/// and carries the exact bearer prefix.
pub open spec fn bearer_of(auth_header: Option<&str>) -> Option<Seq<char>> {
    match auth_header {
        Some(h) => if has_bearer_prefix(h@) {
            Some(bearer_token_of(h@))
        } else {
            None
        },
        None => None,
    }
}

/// Whether `p` is a prefix of `s`, by characters.
fn starts_with_chars(s: &str, p: &str) -> (r: bool)
    ensures
        r == has_prefix(s@, p@),
{
    let n = s.unicode_len();
    let m = p.unicode_len();
    if m > n {
        assert(!has_prefix(s@, p@));
        return false;
    }
    let mut i: usize = 0;
    while i < m
        invariant
            i <= m <= n,
            n == s@.len(),
            m == p@.len(),
            forall|j: int| 0 <= j < i ==> s@[j] == p@[j],
        decreases m - i,
    {
        if s.get_char(i) != p.get_char(i) {
            assert(s@.subrange(0, m as int)[i as int] != p@[i as int]);
            return false;
        }
        i += 1;
    }
    assert(s@.subrange(0, m as int) =~= p@);
    true
}

/// Classify a request path: protected paths demand a valid bearer token.
pub fn is_protected(path: &str) -> (r: bool)
    ensures
        r == is_protected_path(path@),
{
    starts_with_chars(path, "/api/profile") || starts_with_chars(path, "/api/protected")
}

/// Extract the token from an authorization header value, demanding the exact
/// `"Bearer "` prefix.
pub fn extract_bearer_token<'a>(header: &'a str) -> (r: Option<&'a str>)
    ensures
        r matches Some(t) ==> has_bearer_prefix(header@) && t@ == bearer_token_of(header@),
        r is None ==> !has_bearer_prefix(header@),
{
    proof {
        reveal_strlit("Bearer ");
    }
    if starts_with_chars(header, "Bearer ") {
        let n = header.unicode_len();
        Some(header.substring_char(7, n))
    } else {
        None
    }
}

/// What the middleware decides for one request: let it continue to the handler,
/// with the authenticated subject attached when the path was protected, or
/// short-circuit with a status code and an error message.
#[derive(Debug)]
pub enum GateOutcome {
    Forward(Option<String>),
    Reject { code: u16, message: String },
}

/// The request gate: intercepts every inbound request and, for protected
/// paths, enforces presence and validity of a bearer token before the
/// wrapped handler may run.
#[derive(Clone)]
pub struct AuthMiddleware {
    auth_service: AuthService,
}

impl AuthMiddleware {
    /// The service whose secret and clock validate the tokens.
    pub closed spec fn auth(self) -> AuthService {
        self.auth_service
    }

    pub fn new(auth_service: AuthService) -> (r: Self)
        ensures
            r.auth() == auth_service,
    {
        AuthMiddleware { auth_service }
    }

    /// The per-request service this middleware wraps handlers with.
    pub fn into_service(self) -> (r: AuthMiddlewareService)
        ensures
            r.auth() == self.auth(),
    {
        AuthMiddlewareService { auth_service: self.auth_service }
    }
}

/// The per-request service bound to one wrapped handler: classifies the path, extracts the
/// bearer token, and validates it, once per request, before the handler runs.
pub struct AuthMiddlewareService {
    auth_service: AuthService,
}

impl AuthMiddlewareService {
    /// The service whose secret and clock validate the tokens.
    pub closed spec fn auth(self) -> AuthService {
        self.auth_service
    }

    pub fn new(auth_service: AuthService) -> (r: Self)
        ensures
            r.auth() == auth_service,
    {
        AuthMiddlewareService { auth_service }
    }

    /// Decide one request at validation time `now`: public paths forward with
    /// no token inspection; a protected path with a missing or malformed
    /// authorization header is rejected with the header message; a protected
    /// path with a bearer token forwards the token's subject exactly when the
    /// token decodes and is fresh, and is rejected with the token message
    /// otherwise. The specific token error is not leaked to the client.
    pub fn call_at(&self, path: &str, auth_header: Option<&str>, now: i64) -> (r: GateOutcome)
        ensures
            !is_protected_path(path@) ==> (r matches GateOutcome::Forward(s) && s is None),
            is_protected_path(path@) ==> match bearer_of(auth_header) {
                None => r matches GateOutcome::Reject { code, message } && code == 401 && message@
                    == "Missing or invalid authorization header"@,
                Some(tok) => match decode_outcome(
                    jwt_decode_of(tok, self.auth().cfg().jwt_secret@),
                    now as int,
                ) {
                    Ok(c) => r matches GateOutcome::Forward(s) && s matches Some(sub) && sub@
                        == c.0,
                    Err(_) => r matches GateOutcome::Reject { code, message } && code == 401
                        && message@ == "Invalid or expired token"@,
                },
            },
    {
        if !is_protected(path) {
            return GateOutcome::Forward(None);
        }
        let token = match auth_header {
            Some(h) => extract_bearer_token(h),
            None => None,
        };
        match token {
            None => GateOutcome::Reject {
                code: 401,
                message: String::from_str("Missing or invalid authorization header"),
            },
            Some(t) => match self.auth_service.verify_token_at(t, now) {
                Ok(claims) => GateOutcome::Forward(Some(claims.sub)),
                Err(_) => GateOutcome::Reject {
                    code: 401,
                    message: String::from_str("Invalid or expired token"),
                },
            },
        }
    }

    /// Decide one request at the current clock time. A request forwarded on a
    /// protected path carries the subject of a token whose signature verified
    /// under the configured secret; a public path is forwarded untouched; a
    /// rejection is always status 401 with one of the two standard messages.
    pub fn call(&self, path: &str, auth_header: Option<&str>) -> (r: GateOutcome)
        ensures
            !is_protected_path(path@) ==> (r matches GateOutcome::Forward(s) && s is None),
            is_protected_path(path@) ==> match bearer_of(auth_header) {
                None => r matches GateOutcome::Reject { code, message } && code == 401 && message@
                    == "Missing or invalid authorization header"@,
                Some(tok) => {
                    &&& r matches GateOutcome::Forward(s) ==> s matches Some(sub)
                        && jwt_decode_of(tok, self.auth().cfg().jwt_secret@) matches Ok(c) && sub@
                        == c.0
                    &&& r matches GateOutcome::Reject { code, message } ==> code == 401
                        && message@ == "Invalid or expired token"@
                    &&& jwt_decode_of(tok, self.auth().cfg().jwt_secret@) is Err ==> r is Reject
                },
            },
    {
        let now = now_unix_seconds();
        self.call_at(path, auth_header, now)
    }
}

} // verus!
