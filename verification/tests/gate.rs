use authkit::auth::AuthService;
use authkit::config::Config;
use authkit::middleware::{AuthMiddleware, AuthMiddlewareService, GateOutcome};
use authkit::models::User;

const MISSING: &str = "Missing or invalid authorization header";
const INVALID: &str = "Invalid or expired token";

fn test_config() -> Config {
    Config {
        database_url: "sqlite::memory:".to_string(),
        jwt_secret: "gate-secret".to_string(),
        jwt_expiration: 3600,
        server_host: "127.0.0.1".to_string(),
        server_port: 8080,
        bcrypt_cost: 4,
    }
}

fn gate() -> AuthMiddlewareService {
    AuthMiddleware::new(AuthService::new(test_config())).into_service()
}

fn test_user() -> User {
    User {
        id: "acct-7".to_string(),
        username: "alice".to_string(),
        email: "a@x.com".to_string(),
        password_hash: String::new(),
        created_at: String::new(),
        updated_at: String::new(),
    }
}

fn assert_reject(outcome: GateOutcome, message: &str) {
    match outcome {
        GateOutcome::Reject { code, message: m } => {
            assert_eq!(code, 401);
            assert_eq!(m, message);
        }
        other => panic!("expected a rejection, got {:?}", other),
    }
}

#[test]
fn public_path_forwards_without_inspection() {
    match gate().call_at("/api/health", None, 0) {
        GateOutcome::Forward(subject) => assert!(subject.is_none()),
        other => panic!("public path was not forwarded: {:?}", other),
    }
    // even a garbage header is ignored on a public path
    match gate().call_at("/api/login", Some("Bearer garbage"), 0) {
        GateOutcome::Forward(subject) => assert!(subject.is_none()),
        other => panic!("public path was not forwarded: {:?}", other),
    }
}

#[test]
fn protected_path_without_header_is_rejected() {
    assert_reject(gate().call_at("/api/profile", None, 0), MISSING);
    assert_reject(gate().call_at("/api/protected/x", None, 0), MISSING);
}

#[test]
fn non_bearer_header_is_rejected_as_missing() {
    assert_reject(gate().call_at("/api/profile", Some("Basic abc"), 0), MISSING);
    assert_reject(gate().call_at("/api/profile", Some("bearer x"), 0), MISSING);
    assert_reject(gate().call_at("/api/profile", Some("Bearer"), 0), MISSING);
}

#[test]
fn garbage_bearer_token_is_rejected_as_invalid() {
    assert_reject(
        gate().call_at("/api/profile", Some("Bearer garbage"), 0),
        INVALID,
    );
}

#[test]
fn valid_token_forwards_with_subject() {
    let auth = AuthService::new(test_config());
    let user = test_user();
    let token = auth.issue_token_at(&user, 1000).unwrap();
    let header = format!("Bearer {}", token);
    match gate().call_at("/api/profile", Some(&header), 1500) {
        GateOutcome::Forward(subject) => assert_eq!(subject.unwrap(), "acct-7"),
        other => panic!("valid token was not forwarded: {:?}", other),
    }
}

#[test]
fn expired_token_is_rejected_as_invalid() {
    let auth = AuthService::new(test_config());
    let user = test_user();
    let token = auth.issue_token_at(&user, 1000).unwrap();
    let header = format!("Bearer {}", token);
    assert_reject(gate().call_at("/api/profile", Some(&header), 4600), INVALID);
}

#[test]
fn short_lifetime_token_expires() {
    // a lifetime of one second: valid at issuance, expired one second later
    let mut config = test_config();
    config.jwt_expiration = 1;
    let auth = AuthService::new(config);
    let user = test_user();
    let token = auth.issue_token_at(&user, 1000).unwrap();
    let header = format!("Bearer {}", token);
    let g = gate();
    match g.call_at("/api/profile", Some(&header), 1000) {
        GateOutcome::Forward(_) => {}
        other => panic!("fresh token was rejected: {:?}", other),
    }
    assert_reject(g.call_at("/api/profile", Some(&header), 1001), INVALID);
}

#[test]
fn token_from_other_secret_is_rejected() {
    let mut other_config = test_config();
    other_config.jwt_secret = "some-other-secret".to_string();
    let other = AuthService::new(other_config);
    let token = other.issue_token_at(&test_user(), 1000).unwrap();
    let header = format!("Bearer {}", token);
    assert_reject(gate().call_at("/api/profile", Some(&header), 1000), INVALID);
}
