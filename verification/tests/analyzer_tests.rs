use circle_core::analyzer::MockMlClient;
use circle_core::events::EventType;
use circle_core::security::SecurityService;

#[test]
fn test_detect_language() {
    let client = MockMlClient::new();
    assert_eq!(client.detect_language("Hello world").unwrap(), "en");
    assert_eq!(client.detect_language("ma\u{f1}ana por la ma\u{f1}ana").unwrap(), "es");
    assert_eq!(client.detect_language("peut-\u{ea}tre demain").unwrap(), "fr");
    assert_eq!(client.detect_language("eine gro\u{df}e Stra\u{df}e").unwrap(), "de");
    // Spanish markers win over French ones when both occur
    assert_eq!(client.detect_language("\u{e9}\u{f1}").unwrap(), "es");
    assert_eq!(client.detect_language("").unwrap(), "en");
}

#[test]
fn test_extract_topics() {
    let client = MockMlClient::new();
    assert_eq!(
        client.extract_topics("Security and PRIVACY both matter").unwrap(),
        vec!["security".to_string()]
    );
    assert_eq!(
        client.extract_topics("voting on new ai tools").unwrap(),
        vec!["governance".to_string(), "technology".to_string()]
    );
    assert_eq!(
        client
            .extract_topics("Encryption, proposals, machine learning, and friendship")
            .unwrap(),
        vec![
            "security".to_string(),
            "governance".to_string(),
            "technology".to_string(),
            "community".to_string(),
        ]
    );
    assert_eq!(client.extract_topics("nothing relevant").unwrap(), Vec::<String>::new());
}

#[test]
fn test_risk_level_table() {
    let svc = SecurityService::new();
    assert_eq!(svc.calculate_risk_level(EventType::LoginSuccess), 1);
    assert_eq!(svc.calculate_risk_level(EventType::UserRegistered), 2);
    assert_eq!(svc.calculate_risk_level(EventType::LoginFailed), 3);
    assert_eq!(svc.calculate_risk_level(EventType::PasswordReset), 4);
    assert_eq!(svc.calculate_risk_level(EventType::AccountLocked), 5);
    assert_eq!(svc.calculate_risk_level(EventType::MultipleFailedLogins), 6);
    assert_eq!(svc.calculate_risk_level(EventType::SuspiciousActivity), 7);
    assert_eq!(svc.calculate_risk_level(EventType::DestructionTriggered), 10);
    assert_eq!(svc.calculate_risk_level(EventType::Other), 1);
}

#[test]
fn test_str_eq() {
    assert!(circle_core::str_eq("", ""));
    assert!(circle_core::str_eq("caf\u{e9}", "caf\u{e9}"));
    assert!(!circle_core::str_eq("caf\u{e9}", "cafe"));
    assert!(!circle_core::str_eq("abc", "abcd"));
}
