use birch_core::engine::PolicyEngine;
use birch_core::evaluator::{time_in_range, PolicyEvaluator};
use birch_core::glob::{glob_to_regex, matches_pattern};
use birch_core::policy::{
    MaintenanceWindow, Policy, PolicyAction, PolicyError, PolicyEvaluationContext,
    PolicyEvaluationResult, PolicyRules, PolicyScope, RotationLimits,
};

const HOUR_MS: i64 = 3_600_000;

fn no_rules() -> PolicyRules {
    PolicyRules {
        rotation_limits: None,
        maintenance_windows: None,
        preview_first: None,
        require_approval: None,
        auto_redeploy: None,
        allowed_environments: None,
    }
}

fn policy(name: &str, rules: PolicyRules) -> Policy {
    Policy {
        id: 7,
        workspace_id: 1,
        name: name.to_string(),
        description: None,
        priority: 0,
        enabled: true,
        scope: PolicyScope::Workspace,
        provider_pattern: None,
        secret_pattern: None,
        rules,
        created_at: 0,
        updated_at: 0,
    }
}

fn context(count: i32) -> PolicyEvaluationContext {
    PolicyEvaluationContext {
        workspace_id: 1,
        provider: "vercel".to_string(),
        secret_name: "prod-db".to_string(),
        environment: Some("production".to_string()),
        current_rotation_count: count,
    }
}

fn limits(soft: Option<i32>, hard: Option<i32>) -> PolicyRules {
    PolicyRules {
        rotation_limits: Some(RotationLimits { soft_limit: soft, hard_limit: hard, period: "month".to_string() }),
        ..no_rules()
    }
}

fn window(start: &str, end: &str, zone: &str, day: Option<&str>) -> MaintenanceWindow {
    MaintenanceWindow {
        day_of_week: day.map(|d| d.to_string()),
        start_time: start.to_string(),
        end_time: end.to_string(),
        timezone: zone.to_string(),
    }
}

fn windows(ws: Vec<MaintenanceWindow>) -> PolicyRules {
    PolicyRules { maintenance_windows: Some(ws), ..no_rules() }
}

fn result_at(p: &Policy, c: &PolicyEvaluationContext, now: i64) -> PolicyEvaluationResult {
    PolicyEvaluator::new().evaluate_at(p, c, now).unwrap()
}

#[test]
fn hard_limit_reached_blocks() {
    let r = result_at(&policy("limits", limits(None, Some(10))), &context(10), 0);
    assert_eq!(r.action, PolicyAction::Block);
    assert!(!r.passed);
    assert_eq!(r.reason.as_deref(), Some("Hard limit reached: 10 rotations in month"));
}

#[test]
fn soft_limit_reached_warns() {
    let r = result_at(&policy("limits", limits(Some(5), Some(10))), &context(7), 0);
    assert_eq!(r.action, PolicyAction::Warn);
    assert!(r.passed);
    assert_eq!(r.reason.as_deref(), Some("Soft limit reached: 7 rotations in month"));
}

#[test]
fn under_limits_allows_without_reason() {
    let r = result_at(&policy("limits", limits(Some(5), Some(10))), &context(4), 0);
    assert_eq!(r.action, PolicyAction::Allow);
    assert!(r.passed);
    assert_eq!(r.reason, None);
    assert_eq!(r.policy_id, 7);
    assert_eq!(r.policy_name, "limits");
}

#[test]
fn negative_count_is_rendered_with_sign() {
    let r = result_at(&policy("limits", limits(None, Some(-3))), &context(-2), 0);
    assert_eq!(r.reason.as_deref(), Some("Hard limit reached: -2 rotations in month"));
}

#[test]
fn outside_business_hours_window_blocks() {
    let p = policy("hours", windows(vec![window("09:00", "17:00", "UTC", None)]));
    let r = result_at(&p, &context(0), 3 * HOUR_MS);
    assert_eq!(r.action, PolicyAction::Block);
    assert_eq!(r.reason.as_deref(), Some("Outside of maintenance window"));
    let r = result_at(&p, &context(0), 12 * HOUR_MS);
    assert_eq!(r.action, PolicyAction::Allow);
    assert!(r.passed);
}

#[test]
fn window_crossing_midnight() {
    let p = policy("night", windows(vec![window("22:00", "02:00", "UTC", None)]));
    assert_eq!(result_at(&p, &context(0), 23 * HOUR_MS + HOUR_MS / 2).action, PolicyAction::Allow);
    assert_eq!(result_at(&p, &context(0), HOUR_MS).action, PolicyAction::Allow);
    assert_eq!(result_at(&p, &context(0), 10 * HOUR_MS).action, PolicyAction::Block);
}

#[test]
fn time_range_comparisons() {
    let nine = (9 * 3600, 0);
    let five_pm = (17 * 3600, 0);
    assert!(time_in_range(nine, five_pm, (12 * 3600, 0)));
    assert!(time_in_range(nine, five_pm, nine));
    assert!(time_in_range(nine, five_pm, five_pm));
    assert!(!time_in_range(nine, five_pm, (17 * 3600, 1)));
    assert!(!time_in_range(nine, five_pm, (3 * 3600, 0)));
    let ten_pm = (22 * 3600, 0);
    let two_am = (2 * 3600, 0);
    assert!(time_in_range(ten_pm, two_am, (23 * 3600 + 1800, 0)));
    assert!(time_in_range(ten_pm, two_am, (3600, 0)));
    assert!(!time_in_range(ten_pm, two_am, (10 * 3600, 0)));
}

#[test]
fn window_in_other_time_zone() {
    // 1970-01-01 12:00 UTC is 07:00 in New York: outside 09:00-17:00 there.
    let p = policy("ny", windows(vec![window("09:00", "17:00", "America/New_York", None)]));
    assert_eq!(result_at(&p, &context(0), 12 * HOUR_MS).action, PolicyAction::Block);
    assert_eq!(result_at(&p, &context(0), 15 * HOUR_MS).action, PolicyAction::Allow);
}

#[test]
fn windows_are_alternatives() {
    let p = policy(
        "two",
        windows(vec![window("01:00", "02:00", "UTC", None), window("11:00", "13:00", "UTC", None)]),
    );
    assert_eq!(result_at(&p, &context(0), 12 * HOUR_MS).action, PolicyAction::Allow);
    assert_eq!(result_at(&p, &context(0), 5 * HOUR_MS).action, PolicyAction::Block);
}

#[test]
fn day_filter_matches_weekday_abbreviation() {
    // 1970-01-01 was a Thursday.
    let thursday = policy("thu", windows(vec![window("00:00", "23:59", "UTC", Some("Tuesday,THURSDAY"))]));
    assert_eq!(result_at(&thursday, &context(0), 12 * HOUR_MS).action, PolicyAction::Allow);
    let monday = policy("mon", windows(vec![window("00:00", "23:59", "UTC", Some("Mon"))]));
    assert_eq!(result_at(&monday, &context(0), 12 * HOUR_MS).action, PolicyAction::Block);
}

#[test]
fn unknown_time_zone_is_an_error() {
    let p = policy("bad", windows(vec![window("09:00", "17:00", "Mars/Olympus", None)]));
    match PolicyEvaluator::new().evaluate_at(&p, &context(0), 0) {
        Err(PolicyError::InvalidTimezone(z)) => assert_eq!(z, "Mars/Olympus"),
        other => panic!("unexpected {:?}", other),
    }
}

#[test]
fn malformed_time_of_day_is_an_error() {
    let p = policy("bad", windows(vec![window("9am", "17:00", "UTC", None)]));
    match PolicyEvaluator::new().evaluate_at(&p, &context(0), 0) {
        Err(PolicyError::InvalidTimeOfDay(t)) => assert_eq!(t, "9am"),
        other => panic!("unexpected {:?}", other),
    }
    let p = policy("bad", windows(vec![window("09:00", "25:00", "UTC", None)]));
    match PolicyEvaluator::new().evaluate_at(&p, &context(0), 0) {
        Err(PolicyError::InvalidTimeOfDay(t)) => assert_eq!(t, "25:00"),
        other => panic!("unexpected {:?}", other),
    }
}

#[test]
fn environment_not_listed_blocks_even_after_warning() {
    let rules = PolicyRules {
        allowed_environments: Some(vec!["staging".to_string()]),
        ..limits(Some(5), None)
    };
    let r = result_at(&policy("envs", rules), &context(6), 0);
    assert_eq!(r.action, PolicyAction::Block);
    assert!(!r.passed);
    assert_eq!(
        r.reason.as_deref(),
        Some("Soft limit reached: 6 rotations in month; Environment 'production' not allowed")
    );
}

#[test]
fn listed_environment_passes() {
    let rules = PolicyRules { allowed_environments: Some(vec!["production".to_string()]), ..no_rules() };
    assert_eq!(result_at(&policy("envs", rules), &context(0), 0).action, PolicyAction::Allow);
}

#[test]
fn approval_required_only_when_nothing_else_objects() {
    let rules = PolicyRules { require_approval: Some(true), ..no_rules() };
    let r = result_at(&policy("approve", rules), &context(0), 0);
    assert_eq!(r.action, PolicyAction::RequireApproval);
    assert!(!r.passed);
    assert_eq!(r.reason.as_deref(), Some("Approval required by policy"));
    let rules = PolicyRules { require_approval: Some(true), ..limits(Some(1), None) };
    assert_eq!(result_at(&policy("approve", rules), &context(3), 0).action, PolicyAction::Warn);
}

#[test]
fn disabled_policy_allows_with_reason() {
    let mut p = policy("off", limits(None, Some(0)));
    p.enabled = false;
    let r = result_at(&p, &context(5), 0);
    assert_eq!(r.action, PolicyAction::Allow);
    assert_eq!(r.reason.as_deref(), Some("Policy disabled"));
}

#[test]
fn scope_mismatch_allows_with_reason() {
    let mut p = policy("aws only", limits(None, Some(0)));
    p.scope = PolicyScope::Provider;
    p.provider_pattern = Some("aws".to_string());
    let r = result_at(&p, &context(5), 0);
    assert_eq!(r.action, PolicyAction::Allow);
    assert_eq!(r.reason.as_deref(), Some("Policy scope does not match"));
    p.scope = PolicyScope::Secret;
    p.provider_pattern = None;
    p.secret_pattern = Some("prod-*".to_string());
    assert_eq!(result_at(&p, &context(5), 0).action, PolicyAction::Block);
    p.secret_pattern = Some("staging-*".to_string());
    assert_eq!(result_at(&p, &context(5), 0).action, PolicyAction::Allow);
}

#[test]
fn glob_patterns() {
    assert_eq!(matches_pattern("prod-*", "prod-db"), Some(true));
    assert_eq!(matches_pattern("prod-*", "staging-db"), Some(false));
    assert_eq!(matches_pattern("prod-db", "prod-db"), Some(true));
    assert_eq!(matches_pattern("prod-db", "prod-db2"), Some(false));
    assert_eq!(matches_pattern("prod", "prod-db"), Some(false));
    assert_eq!(matches_pattern("*-db", "staging-db"), Some(true));
    assert_eq!(matches_pattern("*", ""), Some(true));
    assert_eq!(matches_pattern("prod-(*", "prod-(x"), None);
    assert_eq!(matches_pattern("prod-(", "prod-("), Some(true));
}

#[test]
fn malformed_pattern_is_an_error() {
    let mut p = policy("broken", no_rules());
    p.scope = PolicyScope::Provider;
    p.provider_pattern = Some("ver(*".to_string());
    match PolicyEvaluator::new().evaluate_at(&p, &context(0), 0) {
        Err(PolicyError::InvalidPattern(pattern)) => assert_eq!(pattern, "ver(*"),
        other => panic!("unexpected {:?}", other),
    }
}

#[test]
fn glob_translation() {
    assert_eq!(glob_to_regex("prod-*"), "^prod-.*$");
    assert_eq!(glob_to_regex("a*b*"), "^a.*b.*$");
    assert_eq!(glob_to_regex(""), "^$");
}

#[test]
fn summary_aggregates_results() {
    let evaluator = PolicyEvaluator::new();
    let results = vec![
        PolicyEvaluationResult {
            policy_id: 1,
            policy_name: "a".to_string(),
            passed: true,
            reason: Some("soft".to_string()),
            action: PolicyAction::Warn,
        },
        PolicyEvaluationResult {
            policy_id: 2,
            policy_name: "b".to_string(),
            passed: false,
            reason: Some("hard".to_string()),
            action: PolicyAction::Block,
        },
        PolicyEvaluationResult {
            policy_id: 3,
            policy_name: "c".to_string(),
            passed: false,
            reason: Some("approve".to_string()),
            action: PolicyAction::RequireApproval,
        },
        PolicyEvaluationResult { policy_id: 4, policy_name: "d".to_string(), passed: true, reason: None, action: PolicyAction::Warn },
    ];
    let s = evaluator.summarize_results(results);
    assert!(!s.allowed);
    assert!(s.requires_approval);
    assert_eq!(s.warnings, vec!["a: soft".to_string()]);
    assert_eq!(s.blocking_reasons, vec!["b: hard".to_string()]);
    assert_eq!(s.results.len(), 4);
}

#[test]
fn empty_summary_allows() {
    let s = PolicyEvaluator::new().summarize_results(Vec::new());
    assert!(s.allowed);
    assert!(!s.requires_approval);
    assert!(s.warnings.is_empty());
    assert!(s.blocking_reasons.is_empty());
}

#[test]
fn engine_evaluates_all_policies_in_order() {
    let policies = vec![
        policy("soft", limits(Some(5), None)),
        policy("hard", limits(None, Some(6))),
        policy("approve", PolicyRules { require_approval: Some(true), ..no_rules() }),
    ];
    let s = PolicyEngine::new().evaluate_policies_at(&policies, &context(6), 0).unwrap();
    assert!(!s.allowed);
    assert!(s.requires_approval);
    assert_eq!(s.warnings, vec!["soft: Soft limit reached: 6 rotations in month".to_string()]);
    assert_eq!(s.blocking_reasons, vec!["hard: Hard limit reached: 6 rotations in month".to_string()]);
    let names: Vec<&str> = s.results.iter().map(|r| r.policy_name.as_str()).collect();
    assert_eq!(names, vec!["soft", "hard", "approve"]);
}

#[test]
fn engine_stops_at_malformed_policy() {
    let policies = vec![
        policy("fine", no_rules()),
        policy("broken", windows(vec![window("09:00", "17:00", "Nowhere/Land", None)])),
    ];
    assert!(matches!(
        PolicyEngine::new().evaluate_policies_at(&policies, &context(0), 0),
        Err(PolicyError::InvalidTimezone(_))
    ));
}

#[test]
fn evaluation_with_clock_runs() {
    let p = policy("limits", limits(None, Some(1)));
    let r = PolicyEvaluator::default().evaluate(&p, &context(1)).unwrap();
    assert_eq!(r.action, PolicyAction::Block);
    let s = PolicyEngine::new().evaluate_policies(&vec![p], &context(0)).unwrap();
    assert!(s.allowed);
}

#[test]
fn decision_does_not_depend_on_policy_order() {
    let forward = vec![
        policy("soft", limits(Some(5), None)),
        policy("approve", PolicyRules { require_approval: Some(true), ..no_rules() }),
    ];
    let backward = vec![
        policy("approve", PolicyRules { require_approval: Some(true), ..no_rules() }),
        policy("soft", limits(Some(5), None)),
    ];
    let engine = PolicyEngine::new();
    let a = engine.evaluate_policies_at(&forward, &context(6), 0).unwrap();
    let b = engine.evaluate_policies_at(&backward, &context(6), 0).unwrap();
    assert_eq!(a.allowed, b.allowed);
    assert_eq!(a.requires_approval, b.requires_approval);
    assert!(a.allowed && a.requires_approval);
    assert_eq!(a.results[0].policy_name, "soft");
    assert_eq!(b.results[0].policy_name, "approve");
}
