use circle_core::auth::{AuthError, AuthService, Claims};
use circle_core::crypto;
use circle_core::security::SecurityService;
use circle_core::user::{CreateUserRequest, LoginRequest};

const NOW: u64 = 1_700_000_000;

fn service_with_secret(secret: &str) -> AuthService {
    AuthService::new(secret.to_string(), 3600, SecurityService::new())
}

fn logged_in_token(svc: &mut AuthService) -> String {
    svc.register_user(
        CreateUserRequest {
            email: "a@example.com".to_string(),
            password: "password123".to_string(),
            membership_tier: Some("premium".to_string()),
        },
        NOW,
    )
    .expect("registration should succeed");
    svc.complete_login(
        LoginRequest {
            email: "a@example.com".to_string(),
            password: "password123".to_string(),
        },
        None,
        None,
        NOW,
    )
    .expect("login should succeed")
    .access_token
}

#[test]
fn test_issued_token_verifies() {
    let mut svc = service_with_secret("secret-one");
    let token = logged_in_token(&mut svc);

    let claims = svc.verify_token(&token, NOW).expect("fresh token should verify");
    assert_eq!(claims.sub, "1");
    assert_eq!(claims.iat, NOW);
    assert_eq!(claims.exp, NOW + 3600);
    assert_eq!(claims.membership_tier, "premium");
    assert!(claims.mfa_verified);

    // still valid just before expiry, invalid from expiry on
    assert!(svc.verify_token(&token, NOW + 3599).is_ok());
    assert!(matches!(
        svc.verify_token(&token, NOW + 3600),
        Err(AuthError::InvalidToken)
    ));
}

#[test]
fn test_expired_token_fails() {
    let svc = service_with_secret("secret-one");
    let claims = Claims {
        sub: "1".to_string(),
        exp: NOW - 1,
        iat: NOW - 10,
        membership_tier: "basic".to_string(),
        mfa_verified: true,
    };
    let token = crypto::issue_token("secret-one", &claims);
    assert!(matches!(svc.verify_token(&token, NOW), Err(AuthError::InvalidToken)));

    // with a future expiry the same claims verify
    let fresh = Claims { exp: NOW + 3600, ..claims };
    let token2 = crypto::issue_token("secret-one", &fresh);
    assert!(svc.verify_token(&token2, NOW).is_ok());
}

#[test]
fn test_tampered_signature_fails() {
    let mut svc = service_with_secret("secret-one");
    let token = logged_in_token(&mut svc);

    let sig_start = token.rfind('.').expect("token has three segments") + 1;
    assert!(sig_start < token.len());
    for pos in sig_start..token.len() {
        let mut bytes = token.clone().into_bytes();
        bytes[pos] = if bytes[pos] == b'A' { b'B' } else { b'A' };
        let tampered = String::from_utf8(bytes).unwrap();
        if tampered == token {
            continue;
        }
        assert!(
            matches!(svc.verify_token(&tampered, NOW), Err(AuthError::InvalidToken)),
            "tampered signature byte at {} must not verify",
            pos
        );
    }
}

#[test]
fn test_wrong_secret_fails() {
    let mut svc = service_with_secret("secret-one");
    let token = logged_in_token(&mut svc);
    let other = service_with_secret("secret-two");
    assert!(matches!(other.verify_token(&token, NOW), Err(AuthError::InvalidToken)));
}

#[test]
fn test_garbage_token_fails() {
    let svc = service_with_secret("secret-one");
    assert!(matches!(svc.verify_token("", NOW), Err(AuthError::InvalidToken)));
    assert!(matches!(
        svc.verify_token("not-a-token", NOW),
        Err(AuthError::InvalidToken)
    ));
    assert!(matches!(
        svc.verify_token("a.b.c", NOW),
        Err(AuthError::InvalidToken)
    ));
}
