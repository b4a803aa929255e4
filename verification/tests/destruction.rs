use circle_core::auth::AuthService;
use circle_core::security::{SecurityError, SecurityService};
use circle_core::user::CreateUserRequest;

const NOW: u64 = 1_700_000_000;

fn service_with_user() -> AuthService {
    let mut svc = AuthService::new("s".to_string(), 3600, SecurityService::new());
    svc.register_user(
        CreateUserRequest {
            email: "a@example.com".to_string(),
            password: "password123".to_string(),
            membership_tier: None,
        },
        NOW,
    )
    .expect("registration should succeed");
    svc
}

#[test]
fn test_destruction_of_unknown_user_changes_nothing() {
    let mut svc = service_with_user();
    let events_before = svc.store.events.len();
    let r = svc.security_service.trigger_destruction(
        &mut svc.store,
        99,
        "failed_login_threshold".to_string(),
        NOW,
    );
    assert_eq!(r, Err(SecurityError::DestructionFailed));
    // full rollback: no log row, no deletions
    assert_eq!(svc.store.users.len(), 1);
    assert_eq!(svc.store.destruction_logs.len(), 0);
    assert_eq!(svc.store.events.len(), events_before);
}

#[test]
fn test_destruction_erases_subscriptions() {
    let mut svc = service_with_user();
    svc.store.subscriptions.push(circle_core::membership::Subscription {
        id: 1,
        user_id: 1,
        tier: "premium".to_string(),
        created_at: NOW,
    });
    svc.store.subscriptions.push(circle_core::membership::Subscription {
        id: 2,
        user_id: 2,
        tier: "basic".to_string(),
        created_at: NOW,
    });
    let ok = svc.security_service.trigger_destruction(
        &mut svc.store,
        1,
        "failed_login_threshold".to_string(),
        NOW,
    );
    assert_eq!(ok, Ok(()));
    assert_eq!(svc.store.subscriptions.len(), 1);
    assert_eq!(svc.store.subscriptions[0].user_id, 2);
}

#[test]
fn test_destruction_executes_once() {
    let mut svc = service_with_user();
    let ok = svc.security_service.trigger_destruction(
        &mut svc.store,
        1,
        "failed_login_threshold".to_string(),
        NOW,
    );
    assert_eq!(ok, Ok(()));
    assert_eq!(svc.store.users.len(), 0);
    assert_eq!(svc.store.events.len(), 0);
    assert_eq!(svc.store.destruction_logs.len(), 1);

    // a second invocation fails cleanly instead of silently succeeding
    let again = svc.security_service.trigger_destruction(
        &mut svc.store,
        1,
        "failed_login_threshold".to_string(),
        NOW + 1,
    );
    assert_eq!(again, Err(SecurityError::DestructionFailed));
    assert_eq!(svc.store.destruction_logs.len(), 1);
}
