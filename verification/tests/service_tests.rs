use todo_auth::errors::{status_code, AuthError};
use todo_auth::service::{AuthService, LoginRequest, RegisterRequest};
use todo_auth::store::UserStore;

fn service(secret: &str) -> AuthService {
    AuthService::new(UserStore::new(), secret.to_string())
}

fn register_req(username: &str, email: &str, password: &str) -> RegisterRequest {
    RegisterRequest {
        username: username.to_string(),
        email: email.to_string(),
        password: password.to_string(),
    }
}

fn login_req(username: &str, password: &str) -> LoginRequest {
    LoginRequest { username: username.to_string(), password: password.to_string() }
}

#[test]
fn register_login_verify_scenario() {
    let mut svc = service("secret-key");
    let now: u64 = 1_000;

    // Register("alice","a@x.com","pw123") succeeds; its token names alice's id.
    let resp1 = svc.register_at(&register_req("alice", "a@x.com", "pw123"), now).unwrap();
    assert_eq!(resp1.user.username, "alice");
    assert_eq!(resp1.user.email, "a@x.com");
    let claims1 = svc.verify_token_at(&resp1.token, now).unwrap();
    assert_eq!(claims1.sub, resp1.user.id);
    assert_eq!(claims1.exp, now + 86_400);

    // A second registration of the same username fails with UserExists.
    let r2 = svc.register_at(&register_req("alice", "other@x.com", "pw456"), now);
    assert!(matches!(r2, Err(AuthError::UserExists)));

    // Login with a wrong password fails with InvalidCredentials.
    let r3 = svc.login_at(&login_req("alice", "wrong"), now);
    assert!(matches!(r3, Err(AuthError::InvalidCredentials)));

    // Login with the right password succeeds and its token names the same id.
    let resp4 = svc.login_at(&login_req("alice", "pw123"), now).unwrap();
    assert_eq!(resp4.user.id, resp1.user.id);
    let claims4 = svc.verify_token_at(&resp4.token, now).unwrap();
    assert_eq!(claims4.sub, resp1.user.id);
}

#[test]
fn register_same_email_fails() {
    let mut svc = service("secret-key");
    svc.register_at(&register_req("alice", "a@x.com", "pw123"), 7).unwrap();
    let r = svc.register_at(&register_req("bob", "a@x.com", "pw456"), 7);
    assert!(matches!(r, Err(AuthError::UserExists)));
}

#[test]
fn register_rejects_empty_fields() {
    let mut svc = service("secret-key");
    let r1 = svc.register_at(&register_req("", "a@x.com", "pw"), 0);
    assert!(matches!(r1, Err(AuthError::InvalidCredentials)));
    let r2 = svc.register_at(&register_req("alice", "", "pw"), 0);
    assert!(matches!(r2, Err(AuthError::InvalidCredentials)));
    let r3 = svc.register_at(&register_req("alice", "a@x.com", ""), 0);
    assert!(matches!(r3, Err(AuthError::InvalidCredentials)));
}

#[test]
fn login_unknown_username_fails_like_wrong_password() {
    let svc = service("secret-key");
    let r = svc.login_at(&login_req("nobody", "pw"), 0);
    assert!(matches!(r, Err(AuthError::InvalidCredentials)));
}

#[test]
fn stored_hash_is_not_the_plaintext() {
    let mut svc = service("secret-key");
    let resp = svc.register_at(&register_req("alice", "a@x.com", "pw123"), 3).unwrap();
    let user = svc.get_user_by_id(&resp.user.id).unwrap().unwrap();
    assert_ne!(user.password_hash, "pw123");
    assert_eq!(user.created_at, 3);
    assert_eq!(user.updated_at, 3);
}

#[test]
fn get_user_by_id_misses_unknown_id() {
    let svc = service("secret-key");
    assert!(svc.get_user_by_id("no-such-id").unwrap().is_none());
}

#[test]
fn token_valid_within_window() {
    let svc = service("secret-key");
    let issued: u64 = 5_000;
    let token = svc.issue_token_at("user-1", issued).unwrap();
    let at_issue = svc.verify_token_at(&token, issued).unwrap();
    assert_eq!(at_issue.sub, "user-1");
    let last_valid = svc.verify_token_at(&token, issued + 86_399).unwrap();
    assert_eq!(last_valid.sub, "user-1");
    assert_eq!(last_valid.exp, issued + 86_400);
}

#[test]
fn token_expired_at_and_after_lifetime() {
    let svc = service("secret-key");
    let issued: u64 = 5_000;
    let token = svc.issue_token_at("user-1", issued).unwrap();
    let at_expiry = svc.verify_token_at(&token, issued + 86_400);
    assert!(matches!(at_expiry, Err(AuthError::InvalidToken)));
    let after = svc.verify_token_at(&token, issued + 1_000_000);
    assert!(matches!(after, Err(AuthError::InvalidToken)));
}

#[test]
fn token_issue_overflow_is_token_error() {
    let svc = service("secret-key");
    let r = svc.issue_token_at("user-1", u64::MAX);
    assert!(matches!(r, Err(AuthError::TokenError)));
}

#[test]
fn token_issue_at_boundary_succeeds() {
    let svc = service("secret-key");
    let issued: u64 = u64::MAX - 86_400;
    let token = svc.issue_token_at("user-1", issued).unwrap();
    let claims = svc.verify_token_at(&token, u64::MAX - 1).unwrap();
    assert_eq!(claims.sub, "user-1");
    assert_eq!(claims.exp, u64::MAX);
}

#[test]
fn verification_is_deterministic() {
    let svc = service("secret-key");
    let r1 = svc.verify_token_at("x.y.z", 5);
    let r2 = svc.verify_token_at("x.y.z", 5);
    assert!(matches!((r1, r2), (Err(a), Err(b)) if a == b));

    let token = svc.issue_token_at("user-1", 100).unwrap();
    let c1 = svc.verify_token_at(&token, 100).unwrap();
    let c2 = svc.verify_token_at(&token, 100).unwrap();
    assert_eq!(c1.sub, c2.sub);
    assert_eq!(c1.exp, c2.exp);
}

#[test]
fn token_with_other_secret_rejected() {
    let issuer = service("secret-key");
    let other = service("another-secret");
    let token = issuer.issue_token_at("user-1", 100).unwrap();
    let r = other.verify_token_at(&token, 100);
    assert!(matches!(r, Err(AuthError::InvalidToken)));
}

#[test]
fn tampered_token_rejected() {
    let svc = service("secret-key");
    let token = svc.issue_token_at("user-1", 100).unwrap();
    let parts: Vec<&str> = token.split('.').collect();
    assert_eq!(parts.len(), 3);
    // Flip a character of the payload, keeping header and signature.
    let mut payload: Vec<u8> = parts[1].bytes().collect();
    payload[0] = if payload[0] == b'A' { b'B' } else { b'A' };
    let tampered =
        format!("{}.{}.{}", parts[0], String::from_utf8(payload).unwrap(), parts[2]);
    assert_ne!(tampered, token);
    let r = svc.verify_token_at(&tampered, 100);
    assert!(matches!(r, Err(AuthError::InvalidToken)));
}

#[test]
fn malformed_token_rejected() {
    let svc = service("secret-key");
    let r = svc.verify_token_at("not-a-token", 0);
    assert!(matches!(r, Err(AuthError::InvalidToken)));
    let r2 = svc.verify_token_at("", 0);
    assert!(matches!(r2, Err(AuthError::InvalidToken)));
}

#[test]
fn generate_and_verify_with_real_clock() {
    let svc = service("secret-key");
    let token = svc.generate_token("user-1").unwrap();
    let claims = svc.verify_token(&token).unwrap();
    assert_eq!(claims.sub, "user-1");
}

#[test]
fn fresh_identifiers_differ() {
    let mut svc = service("secret-key");
    let a = svc.register_at(&register_req("alice", "a@x.com", "pw1"), 0).unwrap();
    let b = svc.register_at(&register_req("bob", "b@x.com", "pw2"), 0).unwrap();
    assert_ne!(a.user.id, b.user.id);
    assert_eq!(a.user.id.len(), 36);
}

#[test]
fn status_codes_match_taxonomy() {
    assert_eq!(status_code(&AuthError::DatabaseError), 500);
    assert_eq!(status_code(&AuthError::UserExists), 409);
    assert_eq!(status_code(&AuthError::InvalidCredentials), 401);
    assert_eq!(status_code(&AuthError::HashError), 500);
    assert_eq!(status_code(&AuthError::TokenError), 401);
    assert_eq!(status_code(&AuthError::InvalidToken), 401);
    assert_eq!(status_code(&AuthError::Unauthorized), 401);
}
