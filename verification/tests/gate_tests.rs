use todo_auth::errors::AuthError;
use todo_auth::gate::bearer_token;
use todo_auth::service::{AuthService, RegisterRequest};
use todo_auth::store::UserStore;

fn service(secret: &str) -> AuthService {
    AuthService::new(UserStore::new(), secret.to_string())
}

#[test]
fn bearer_token_extracts_suffix() {
    assert_eq!(bearer_token("Bearer abc.def.ghi"), Some("abc.def.ghi".to_string()));
    assert_eq!(bearer_token("Bearer "), Some("".to_string()));
}

#[test]
fn bearer_token_rejects_other_shapes() {
    assert_eq!(bearer_token(""), None);
    assert_eq!(bearer_token("Bearer"), None);
    assert_eq!(bearer_token("bearer abc"), None);
    assert_eq!(bearer_token("Token abc"), None);
    assert_eq!(bearer_token("Bear"), None);
}

#[test]
fn gate_rejects_missing_header() {
    let svc = service("secret-key");
    let r = svc.authenticate_at(None, 0);
    assert!(matches!(r, Err(AuthError::Unauthorized)));
}

#[test]
fn gate_rejects_malformed_headers() {
    let svc = service("secret-key");
    for header in ["", "Bearer", "bearer x", "Token x", "Basic dXNlcjpwdw=="] {
        let r = svc.authenticate_at(Some(header), 0);
        assert!(matches!(r, Err(AuthError::Unauthorized)));
    }
}

#[test]
fn gate_rejects_garbage_and_expired_tokens() {
    let svc = service("secret-key");
    let r = svc.authenticate_at(Some("Bearer not-a-token"), 0);
    assert!(matches!(r, Err(AuthError::Unauthorized)));

    let token = svc.issue_token_at("user-1", 100).unwrap();
    let header = format!("Bearer {}", token);
    let r2 = svc.authenticate_at(Some(&header), 100 + 86_400);
    assert!(matches!(r2, Err(AuthError::Unauthorized)));
}

#[test]
fn gate_rejects_token_of_other_secret() {
    let issuer = service("another-secret");
    let svc = service("secret-key");
    let token = issuer.issue_token_at("user-1", 100).unwrap();
    let header = format!("Bearer {}", token);
    let r = svc.authenticate_at(Some(&header), 100);
    assert!(matches!(r, Err(AuthError::Unauthorized)));
}

#[test]
fn gate_accepts_valid_bearer_and_yields_subject() {
    let mut svc = service("secret-key");
    let resp = svc
        .register_at(
            &RegisterRequest {
                username: "alice".to_string(),
                email: "a@x.com".to_string(),
                password: "pw123".to_string(),
            },
            50,
        )
        .unwrap();
    let header = format!("Bearer {}", resp.token);
    let subject = svc.authenticate_at(Some(&header), 50).unwrap();
    assert_eq!(subject, resp.user.id);
}

#[test]
fn gate_with_real_clock() {
    let svc = service("secret-key");
    let token = svc.generate_token("user-1").unwrap();
    let header = format!("Bearer {}", token);
    let subject = svc.authenticate(Some(&header)).unwrap();
    assert_eq!(subject, "user-1");
    let r = svc.authenticate(None);
    assert!(matches!(r, Err(AuthError::Unauthorized)));
}
