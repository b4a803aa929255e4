use circle_core::auth::{AuthError, AuthService};
use circle_core::events::{DataCategory, EventType};
use circle_core::security::SecurityService;
use circle_core::user::{CreateUserRequest, LoginRequest};

const NOW: u64 = 1_700_000_000;

fn service() -> AuthService {
    AuthService::new("test-secret".to_string(), 3600, SecurityService::new())
}

fn register(svc: &mut AuthService, email: &str, password: &str) -> u64 {
    let user = svc
        .register_user(
            CreateUserRequest {
                email: email.to_string(),
                password: password.to_string(),
                membership_tier: None,
            },
            NOW,
        )
        .expect("registration should succeed");
    user.id
}

fn login(svc: &mut AuthService, email: &str, password: &str, now: u64) -> Result<(), AuthError> {
    svc.complete_login(
        LoginRequest { email: email.to_string(), password: password.to_string() },
        None,
        None,
        now,
    )
    .map(|_| ())
}

#[test]
fn test_register_fresh_user() {
    let mut svc = service();
    let id = register(&mut svc, "a@example.com", "password123");
    assert_eq!(id, 1);
    assert_eq!(svc.store.users.len(), 1);
    let u = &svc.store.users[0];
    assert_eq!(u.email, "a@example.com");
    assert_eq!(u.membership_tier, "basic");
    assert_eq!(u.failed_login_attempts, 0);
    assert_eq!(u.account_locked_until, None);
    assert!(!u.mfa_enabled);
    assert!(!u.email_verified);
    assert_eq!(u.email_verification_token.len(), 44);
    assert_eq!(u.password_reset_token, None);
    assert_eq!(u.password_reset_expires, None);
    assert_ne!(u.password_hash, "password123");
    // one audit row, risk 2
    assert_eq!(svc.store.events.len(), 1);
    assert_eq!(svc.store.events[0].event_type, EventType::UserRegistered);
    assert_eq!(svc.store.events[0].risk_level, 2);
    assert_eq!(svc.store.events[0].user_id, Some(1));
    // lookup returns the stored record
    let found = svc.find_user_by_email("a@example.com").unwrap();
    assert_eq!(found.id, 1);
    assert_eq!(found.email, "a@example.com");
}

#[test]
fn test_register_duplicate_email() {
    let mut svc = service();
    register(&mut svc, "a@example.com", "password123");
    let second = svc.register_user(
        CreateUserRequest {
            email: "a@example.com".to_string(),
            password: "otherpassword".to_string(),
            membership_tier: Some("premium".to_string()),
        },
        NOW,
    );
    assert!(matches!(second, Err(AuthError::UserAlreadyExists)));
    assert_eq!(svc.store.users.len(), 1);
}

#[test]
fn test_login_unknown_email() {
    let mut svc = service();
    register(&mut svc, "a@example.com", "password123");
    let r = login(&mut svc, "b@example.com", "password123", NOW);
    assert_eq!(r, Err(AuthError::UserNotFound));
}

#[test]
fn test_login_success_resets_state() {
    let mut svc = service();
    register(&mut svc, "a@example.com", "password123");
    // two failed attempts first
    assert_eq!(
        login(&mut svc, "a@example.com", "wrong-password", NOW),
        Err(AuthError::InvalidCredentials)
    );
    assert_eq!(
        login(&mut svc, "a@example.com", "wrong-password", NOW + 1),
        Err(AuthError::InvalidCredentials)
    );
    assert_eq!(svc.store.users[0].failed_login_attempts, 2);

    let resp = svc
        .complete_login(
            LoginRequest {
                email: "a@example.com".to_string(),
                password: "password123".to_string(),
            },
            Some("203.0.113.7".to_string()),
            Some("test-agent".to_string()),
            NOW + 2,
        )
        .expect("correct password should log in");
    assert_eq!(resp.expires_at, NOW + 2 + 3600);
    assert_eq!(resp.user.email, "a@example.com");
    assert_eq!(resp.refresh_token.len(), 44);

    // counter reset, last login stamped, session persisted
    let u = &svc.store.users[0];
    assert_eq!(u.failed_login_attempts, 0);
    assert_eq!(u.last_login, Some(NOW + 2));
    assert_eq!(svc.store.sessions.len(), 1);
    let s = &svc.store.sessions[0];
    assert_eq!(s.user_id, 1);
    assert_eq!(s.session_token, resp.access_token);
    assert_eq!(s.refresh_token.as_deref(), Some(resp.refresh_token.as_str()));
    assert_eq!(s.expires_at, resp.expires_at);
    assert_eq!(s.ip_address.as_deref(), Some("203.0.113.7"));
    assert!(s.is_active);
    // success event at risk 1
    let last = svc.store.events.last().unwrap();
    assert_eq!(last.event_type, EventType::LoginSuccess);
    assert_eq!(last.risk_level, 1);
}

#[test]
fn test_lockout_threshold() {
    let mut svc = service();
    register(&mut svc, "a@example.com", "password123");

    // two failed attempts leave the account unlocked
    assert_eq!(
        login(&mut svc, "a@example.com", "bad-1", NOW),
        Err(AuthError::InvalidCredentials)
    );
    assert_eq!(
        login(&mut svc, "a@example.com", "bad-2", NOW + 10),
        Err(AuthError::InvalidCredentials)
    );
    assert_eq!(svc.store.users[0].failed_login_attempts, 2);
    assert_eq!(svc.store.users[0].account_locked_until, None);

    // the third sets a lock ending 15 minutes later
    assert_eq!(
        login(&mut svc, "a@example.com", "bad-3", NOW + 20),
        Err(AuthError::InvalidCredentials)
    );
    assert_eq!(svc.store.users[0].failed_login_attempts, 3);
    assert_eq!(svc.store.users[0].account_locked_until, Some(NOW + 20 + 900));

    // inside the window, even the correct password is rejected
    assert_eq!(
        login(&mut svc, "a@example.com", "password123", NOW + 30),
        Err(AuthError::AccountLocked)
    );
    // after the window it works again
    assert!(login(&mut svc, "a@example.com", "password123", NOW + 20 + 900).is_ok());
}

#[test]
fn test_destruction_threshold() {
    let mut svc = service();
    register(&mut svc, "a@example.com", "password123");
    register(&mut svc, "b@example.com", "password456");
    // give the surviving user a session to show deletion is scoped
    assert!(login(&mut svc, "b@example.com", "password456", NOW).is_ok());

    for i in 0..4 {
        assert_eq!(
            login(&mut svc, "a@example.com", "bad", NOW + i),
            Err(AuthError::InvalidCredentials)
        );
    }
    assert_eq!(svc.store.users[0].failed_login_attempts, 4);

    // the fifth consecutive failure destroys the account
    assert_eq!(
        login(&mut svc, "a@example.com", "bad", NOW + 4),
        Err(AuthError::DestructionTriggered)
    );
    assert!(matches!(
        svc.find_user_by_email("a@example.com"),
        Err(AuthError::UserNotFound)
    ));
    // the other account is untouched
    assert!(svc.find_user_by_email("b@example.com").is_ok());
    assert_eq!(svc.store.sessions.len(), 1);
    assert_eq!(svc.store.sessions[0].user_id, 2);
    // no audit rows of the destroyed user survive
    assert!(svc.store.events.iter().all(|e| e.user_id != Some(1)));
    // the write-ahead destruction log remains
    assert_eq!(svc.store.destruction_logs.len(), 1);
    let log = &svc.store.destruction_logs[0];
    assert_eq!(log.user_id, Some(1));
    assert_eq!(log.trigger_type, "failed_login_threshold");
    assert!(log.success);
    assert_eq!(log.execution_time, NOW + 4);
    assert_eq!(
        log.data_types_destroyed,
        vec![DataCategory::UserData, DataCategory::Sessions, DataCategory::Files]
    );
}

#[test]
fn test_counter_reset() {
    let mut svc = service();
    register(&mut svc, "a@example.com", "password123");
    assert_eq!(
        login(&mut svc, "a@example.com", "bad", NOW),
        Err(AuthError::InvalidCredentials)
    );
    assert_eq!(
        login(&mut svc, "a@example.com", "bad", NOW + 1),
        Err(AuthError::InvalidCredentials)
    );
    assert!(login(&mut svc, "a@example.com", "password123", NOW + 2).is_ok());
    assert_eq!(svc.store.users[0].failed_login_attempts, 0);

    // the next failure counts as attempt one, not three
    assert_eq!(
        login(&mut svc, "a@example.com", "bad", NOW + 3),
        Err(AuthError::InvalidCredentials)
    );
    assert_eq!(svc.store.users[0].failed_login_attempts, 1);
    assert_eq!(svc.store.users[0].account_locked_until, None);
}

#[test]
fn test_two_failed_attempts_count_exactly_two() {
    let mut svc = service();
    register(&mut svc, "a@example.com", "password123");
    assert_eq!(svc.increment_failed_attempts(1, None, NOW), Ok(1));
    assert_eq!(svc.increment_failed_attempts(1, None, NOW), Ok(2));
    assert_eq!(svc.store.users[0].failed_login_attempts, 2);
    assert_eq!(svc.store.users[0].account_locked_until, None);
    // the failed attempts were logged at risk 3 with the running count
    let failed: Vec<_> = svc
        .store
        .events
        .iter()
        .filter(|e| e.event_type == EventType::LoginFailed)
        .collect();
    assert_eq!(failed.len(), 2);
    assert_eq!(failed[0].details, Some(1));
    assert_eq!(failed[1].details, Some(2));
    assert!(failed.iter().all(|e| e.risk_level == 3));
}

#[test]
fn test_increment_unknown_user() {
    let mut svc = service();
    register(&mut svc, "a@example.com", "password123");
    assert_eq!(svc.increment_failed_attempts(99, None, NOW), Err(AuthError::UserNotFound));
    assert_eq!(svc.store.users[0].failed_login_attempts, 0);
}

#[test]
fn test_initiate_login() {
    let mut svc = service();
    register(&mut svc, "a@example.com", "password123");

    let step = svc
        .initiate_login("a@example.com", None, NOW)
        .expect("known user should get a login step");
    assert_eq!(step.step, 1);
    assert_eq!(step.session_id.len(), 44);
    assert_eq!(step.expires_at, NOW + 300);
    assert!(!step.requires_mfa);
    assert_eq!(step.message, "Enter your password");

    assert!(matches!(
        svc.initiate_login("nobody@example.com", None, NOW),
        Err(AuthError::UserNotFound)
    ));

    // lock the account, then initiation is refused too
    for i in 0..3 {
        let _ = login(&mut svc, "a@example.com", "bad", NOW + i);
    }
    assert!(matches!(
        svc.initiate_login("a@example.com", None, NOW + 3),
        Err(AuthError::AccountLocked)
    ));
}
