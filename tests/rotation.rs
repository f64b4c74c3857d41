use birch_core::connector::{
    ConnectorConfig, ConnectorError, ConnectorOrchestrator, MetadataValue, RotationRequest,
};
use birch_core::policy::{Policy, PolicyRules, PolicyScope, RotationLimits};
use birch_core::rotation::{RotationError, RotationOrchestrator, RotationOutcome};

fn config(provider: &str) -> ConnectorConfig {
    ConnectorConfig { provider: provider.to_string(), credentials: serde_json::Value::Null }
}

fn request(provider: &str, dry_run: bool) -> RotationRequest {
    RotationRequest {
        workspace_id: 1,
        provider: provider.to_string(),
        secret_name: "db".to_string(),
        environment: "production".to_string(),
        dry_run,
    }
}

fn text(v: &MetadataValue) -> &str {
    match v {
        MetadataValue::Text(t) => t.as_str(),
        MetadataValue::Flag(_) => panic!("expected text"),
    }
}

fn limit_policy(name: &str, soft: Option<i32>, hard: Option<i32>, approval: bool) -> Policy {
    Policy {
        id: 9,
        workspace_id: 1,
        name: name.to_string(),
        description: None,
        priority: 1,
        enabled: true,
        scope: PolicyScope::Workspace,
        provider_pattern: None,
        secret_pattern: None,
        rules: PolicyRules {
            rotation_limits: Some(RotationLimits { soft_limit: soft, hard_limit: hard, period: "30d".to_string() }),
            maintenance_windows: None,
            preview_first: None,
            require_approval: Some(approval),
            auto_redeploy: None,
            allowed_environments: None,
        },
        created_at: 0,
        updated_at: 0,
    }
}

#[test]
fn dry_run_succeeds_without_provider() {
    let r = ConnectorOrchestrator::new().rotate_secret(&request("nowhere", true), &config("nowhere")).unwrap();
    assert!(r.success);
    assert!(r.old_value.is_none() && r.new_value.is_none() && r.error.is_none());
    assert_eq!(r.metadata[0].0, "dry_run");
    assert!(matches!(r.metadata[0].1, MetadataValue::Flag(true)));
    assert_eq!(text(&r.metadata[1].1), "Dry run completed successfully");
}

#[test]
fn supported_provider_reports_its_connector() {
    let r = ConnectorOrchestrator::new().rotate_secret(&request("cloudflare", false), &config("cloudflare")).unwrap();
    assert!(r.success);
    assert_eq!(r.metadata[0].0, "provider");
    assert_eq!(text(&r.metadata[0].1), "cloudflare");
    assert_eq!(text(&r.metadata[1].1), "Cloudflare rotation not yet fully implemented");
    let r = ConnectorOrchestrator::new().rotate_secret(&request("aws", false), &config("aws")).unwrap();
    assert_eq!(text(&r.metadata[1].1), "AWS rotation not yet fully implemented");
}

#[test]
fn unsupported_provider_is_refused() {
    match ConnectorOrchestrator::new().rotate_secret(&request("heroku", false), &config("heroku")) {
        Err(ConnectorError::UnsupportedProvider(p)) => assert_eq!(p, "heroku"),
        other => panic!("unexpected {:?}", other),
    }
}

#[test]
fn batch_stops_at_shorter_list_and_first_refusal() {
    let orchestrator = ConnectorOrchestrator::default();
    let results = orchestrator
        .batch_rotate(vec![request("aws", false), request("gcp", false), request("fly", false)], vec![config("aws"), config("gcp")])
        .unwrap();
    assert_eq!(results.len(), 2);
    let err = orchestrator
        .batch_rotate(vec![request("aws", false), request("heroku", false)], vec![config("aws"), config("heroku")])
        .unwrap_err();
    assert!(matches!(err, ConnectorError::UnsupportedProvider(ref p) if p == "heroku"));
}

#[test]
fn rollback_restores_old_value() {
    let r = ConnectorOrchestrator::new().rollback(&request("aws", false), "old-secret", &config("aws")).unwrap();
    assert!(r.success);
    assert_eq!(r.new_value.as_deref(), Some("old-secret"));
    assert_eq!(r.metadata[0].0, "rollback");
    assert_eq!(text(&r.metadata[1].1), "Rollback completed");
}

#[test]
fn blocked_rotation_reports_reasons() {
    let policies = vec![limit_policy("cap", None, Some(10), false)];
    let out = RotationOrchestrator::new()
        .execute_rotation_at(&policies, 10, 1, "aws", "db", "production", &config("aws"), false, 0)
        .unwrap();
    match out {
        RotationOutcome::Blocked { reasons, policy_results } => {
            assert_eq!(reasons, vec!["cap: Hard limit reached: 10 rotations in 30d".to_string()]);
            assert_eq!(policy_results.len(), 1);
        },
        other => panic!("unexpected {:?}", other),
    }
}

#[test]
fn approval_stops_before_connector() {
    let policies = vec![limit_policy("gate", None, None, true)];
    let out = RotationOrchestrator::new()
        .execute_rotation_at(&policies, 0, 1, "heroku", "db", "production", &config("heroku"), false, 0)
        .unwrap();
    assert!(matches!(out, RotationOutcome::RequiresApproval { .. }));
}

#[test]
fn admitted_rotation_carries_warnings() {
    let policies = vec![limit_policy("soft", Some(3), Some(10), false)];
    let out = RotationOrchestrator::new()
        .execute_rotation_at(&policies, 4, 1, "vercel", "db", "production", &config("vercel"), false, 0)
        .unwrap();
    match out {
        RotationOutcome::Rotated { result, warnings, .. } => {
            assert!(result.success);
            assert_eq!(warnings, vec!["soft: Soft limit reached: 4 rotations in 30d".to_string()]);
        },
        other => panic!("unexpected {:?}", other),
    }
}

#[test]
fn dry_run_still_respects_policies() {
    let policies = vec![limit_policy("cap", None, Some(1), false)];
    let out = RotationOrchestrator::new()
        .execute_rotation_at(&policies, 5, 1, "aws", "db", "production", &config("aws"), true, 0)
        .unwrap();
    assert!(matches!(out, RotationOutcome::Blocked { .. }));
    let out = RotationOrchestrator::new()
        .execute_rotation(&Vec::new(), 5, 1, "heroku", "db", "production", &config("heroku"), true)
        .unwrap();
    assert!(matches!(out, RotationOutcome::Rotated { .. }));
}

#[test]
fn admitted_rotation_to_unknown_provider_fails() {
    let err = RotationOrchestrator::new()
        .execute_rotation_at(&Vec::new(), 0, 1, "heroku", "db", "production", &config("heroku"), false, 0)
        .unwrap_err();
    assert!(matches!(err, RotationError::Connector(ConnectorError::UnsupportedProvider(_))));
}
