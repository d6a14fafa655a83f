use mermaduckle::governance::{
    content_filter_result, evaluate_policies, GovernanceEngine, Policy, PolicyAction, PolicyContext,
};

#[test]
fn test_rate_limit_allows_within_limit() {
    let mut engine = GovernanceEngine::new();
    let result = engine.check_rate_limit("test_key", 10, 60_000);
    assert!(result.allowed);
    assert_eq!(result.remaining, 9);
}

#[test]
fn test_rate_limit_blocks_over_limit() {
    let mut engine = GovernanceEngine::new();
    for _ in 0..10 {
        engine.check_rate_limit("test_key", 10, 60_000);
    }
    let result = engine.check_rate_limit("test_key", 10, 60_000);
    assert!(!result.allowed);
    assert_eq!(result.remaining, 0);
}

#[test]
fn test_content_filter_clean() {
    let engine = GovernanceEngine::new();
    let result = engine.check_content_filter("This is a perfectly fine message");
    assert!(!result.flagged);
}

#[test]
fn test_content_filter_flagged() {
    let engine = GovernanceEngine::new();
    let result = engine.check_content_filter("This contains spam and abuse");
    assert!(result.flagged);
    assert!(result.reason.unwrap().contains("spam"));
}

#[test]
fn test_evaluate_policies() {
    let policies = vec![Policy {
        id: "p1".into(),
        name: "Test Policy".into(),
        action: PolicyAction::Allow,
    }];
    let context = PolicyContext::new();
    let results = evaluate_policies(&policies, &context);
    assert_eq!(results.len(), 1);
    assert!(results[0].passed);
}

#[test]
fn test_content_length_within() {
    let engine = GovernanceEngine::new();
    assert!(engine.check_content_length("short", 10));
}

#[test]
fn test_content_length_exceeded() {
    let engine = GovernanceEngine::new();
    assert!(!engine.check_content_length("this is a longer message", 10));
}

#[test]
fn rate_limit_counts_down_within_a_window() {
    let mut engine = GovernanceEngine::new();
    let first = engine.check_rate_limit_at("k", 3, 1_000, 5_000);
    let second = engine.check_rate_limit_at("k", 3, 1_000, 5_100);
    let third = engine.check_rate_limit_at("k", 3, 1_000, 5_200);
    let fourth = engine.check_rate_limit_at("k", 3, 1_000, 5_999);
    assert!(first.allowed && second.allowed && third.allowed);
    assert_eq!((first.remaining, second.remaining, third.remaining), (2, 1, 0));
    assert!(!fourth.allowed);
    assert_eq!(fourth.remaining, 0);
}

#[test]
fn rate_limit_window_resets_at_its_end() {
    let mut engine = GovernanceEngine::new();
    for t in 0..5u64 {
        engine.check_rate_limit_at("k", 2, 100, t);
    }
    let refused = engine.check_rate_limit_at("k", 2, 100, 99);
    assert!(!refused.allowed);
    let fresh = engine.check_rate_limit_at("k", 2, 100, 100);
    assert!(fresh.allowed);
    assert_eq!(fresh.remaining, 1);
}

#[test]
fn rate_limit_keys_are_separate() {
    let mut engine = GovernanceEngine::new();
    engine.check_rate_limit_at("a", 1, 1_000, 0);
    let a_again = engine.check_rate_limit_at("a", 1, 1_000, 1);
    let b = engine.check_rate_limit_at("b", 1, 1_000, 1);
    assert!(!a_again.allowed);
    assert!(b.allowed);
    assert_eq!(b.remaining, 0);
}

#[test]
fn content_filter_names_distinct_terms_in_order() {
    let engine = GovernanceEngine::new();
    let result = engine.check_content_filter("VIOLENCE, spam, Hate and more spam");
    assert!(result.flagged);
    assert_eq!(
        result.reason.unwrap(),
        "Contains forbidden terms: hate, spam, violence"
    );
}

#[test]
fn content_filter_needs_whole_words() {
    let engine = GovernanceEngine::new();
    let result = engine.check_content_filter("spammer abusers hateful");
    assert!(!result.flagged);
    assert!(result.reason.is_none());
}

#[test]
fn filter_verdict_from_found_terms() {
    let found = vec!["Abuse".to_string(), "abuse".to_string(), "SPAM".to_string()];
    let r = content_filter_result(&found);
    assert!(r.flagged);
    assert_eq!(r.reason.unwrap(), "Contains forbidden terms: abuse, spam");
    let none = content_filter_result(&Vec::new());
    assert!(!none.flagged);
}

#[test]
fn content_length_counts_bytes() {
    let engine = GovernanceEngine::new();
    assert!(engine.check_content_length("héllo", 6));
    assert!(!engine.check_content_length("héllo", 5));
    assert!(engine.check_content_length("", 0));
}

#[test]
fn policies_keep_their_actions() {
    let policies = vec![
        Policy { id: "a".into(), name: "A".into(), action: PolicyAction::Deny },
        Policy { id: "b".into(), name: "B".into(), action: PolicyAction::Flag },
    ];
    let mut context = PolicyContext::new();
    context.insert("user".into(), "\"u1\"".into());
    let results = evaluate_policies(&policies, &context);
    assert_eq!(results.len(), 2);
    assert_eq!(results[0].policy_id, "a");
    assert_eq!(results[0].action, PolicyAction::Deny);
    assert_eq!(results[1].policy_id, "b");
    assert_eq!(results[1].action, PolicyAction::Flag);
    assert!(results.iter().all(|r| r.passed));
}
