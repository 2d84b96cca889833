use authkit::errors::AuthError;
use authkit::models::{AuthResponse, User, UserResponse};
use authkit::response::ApiResponse;

#[test]
fn success_envelope_carries_the_payload() {
    let r = ApiResponse::success("Server is running");
    assert_eq!(r.code, 200);
    assert_eq!(r.message, "Success");
    assert_eq!(r.data, Some("Server is running"));
}

#[test]
fn error_envelope_has_code_500_and_no_payload() {
    let e = AuthError::Conflict;
    let r = ApiResponse::<()>::error(e.message().to_string());
    assert_eq!(r.code, 500);
    assert_eq!(r.message, "Username or email already exists");
    assert!(r.data.is_none());
}

#[test]
fn auth_response_envelope_nests_token_and_view() {
    let user = User {
        id: "acct-1".to_string(),
        username: "alice".to_string(),
        email: "a@x.com".to_string(),
        password_hash: "hash".to_string(),
        created_at: "c".to_string(),
        updated_at: "u".to_string(),
    };
    let view: UserResponse = user.to_response();
    let body = AuthResponse {
        token: "token".to_string(),
        user: view,
    };
    let r = ApiResponse::success(body);
    assert_eq!(r.code, 200);
    let data = r.data.unwrap();
    assert_eq!(data.token, "token");
    assert_eq!(data.user.id, "acct-1");
    assert_eq!(data.user.username, "alice");
}
