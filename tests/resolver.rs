use birch_core::circuit_breaker::{CircuitBreaker, CircuitState};
use birch_core::resolver::{
    backoff_delay, circuit_key, parse_mode, CredentialMode, CredentialResolver, FetchOutcome,
    HealthReport, ResolveAction, ResolveError, ResolveEvent, Resolution,
};

const WORKSPACE: u128 = 0x67e5_5044_10b1_426f_9247_bb68_0e5f_e0c8;

fn begin(resolver: &CredentialResolver) -> Resolution {
    let (res, action) = resolver.start(WORKSPACE, "github", "token");
    assert!(matches!(action, ResolveAction::ReadCache));
    res
}

fn miss_then_mode(resolver: &mut CredentialResolver, res: &mut Resolution, mode: Option<&str>) -> ResolveAction {
    let step = resolver.step(res, ResolveEvent::CacheRead(Ok(None)), 0);
    assert!(matches!(step.action, ResolveAction::LookupMode));
    resolver.step(res, ResolveEvent::ModeRead(Ok(mode.map(|m| m.to_string()))), 0).action
}

fn failed(message: &str) -> ResolveEvent {
    ResolveEvent::Fetched(FetchOutcome::Failed(message.to_string()))
}

fn found(value: &str) -> ResolveEvent {
    ResolveEvent::Fetched(FetchOutcome::Found(value.to_string()))
}

#[test]
fn cache_hit_ends_resolution() {
    let mut resolver = CredentialResolver::new();
    let mut res = begin(&resolver);
    let step = resolver.step(&mut res, ResolveEvent::CacheRead(Ok(Some("cached".to_string()))), 0);
    assert!(matches!(step.action, ResolveAction::Finish(Ok(ref v)) if v == "cached"));
}

#[test]
fn hosted_retries_with_doubling_backoff() {
    let mut resolver = CredentialResolver::new();
    let mut res = begin(&resolver);
    let action = miss_then_mode(&mut resolver, &mut res, Some("hosted"));
    assert!(matches!(action, ResolveAction::FetchHosted { delay_ms: 0 }));
    let step = resolver.step(&mut res, failed("vault down"), 0);
    assert!(matches!(step.action, ResolveAction::FetchHosted { delay_ms: 100 }));
    let step = resolver.step(&mut res, failed("vault down"), 0);
    assert!(matches!(step.action, ResolveAction::FetchHosted { delay_ms: 200 }));
    let step = resolver.step(&mut res, found("secret"), 0);
    assert!(matches!(step.action, ResolveAction::StoreCache(ref v) if v == "secret"));
    let step = resolver.step(&mut res, ResolveEvent::CacheStored(Ok(())), 0);
    assert!(matches!(step.action, ResolveAction::Finish(Ok(ref v)) if v == "secret"));
}

#[test]
fn hosted_gives_up_after_three_attempts() {
    let mut resolver = CredentialResolver::new();
    let mut res = begin(&resolver);
    miss_then_mode(&mut resolver, &mut res, None);
    resolver.step(&mut res, failed("one"), 0);
    resolver.step(&mut res, failed("two"), 0);
    let step = resolver.step(&mut res, failed("three"), 0);
    assert!(matches!(step.action, ResolveAction::Finish(Err(ResolveError::TransientFailure(ref m))) if m == "three"));
}

#[test]
fn hosted_not_found_is_terminal() {
    let mut resolver = CredentialResolver::new();
    let mut res = begin(&resolver);
    miss_then_mode(&mut resolver, &mut res, Some("hosted"));
    let step = resolver.step(&mut res, ResolveEvent::Fetched(FetchOutcome::Missing), 0);
    assert!(matches!(step.action, ResolveAction::Finish(Err(ResolveError::NotFound))));
}

#[test]
fn kms_failures_fall_back_to_hosted() {
    let mut resolver = CredentialResolver::new();
    let mut res = begin(&resolver);
    let action = miss_then_mode(&mut resolver, &mut res, Some("kms"));
    assert!(matches!(action, ResolveAction::FetchKms { delay_ms: 0 }));
    let step = resolver.step(&mut res, failed("kms down"), 0);
    assert!(matches!(step.action, ResolveAction::FetchKms { delay_ms: 100 }));
    let step = resolver.step(&mut res, failed("kms down"), 0);
    assert!(matches!(step.action, ResolveAction::FetchKms { delay_ms: 200 }));
    let step = resolver.step(&mut res, failed("kms down"), 0);
    assert!(matches!(step.action, ResolveAction::FetchHosted { delay_ms: 0 }));
    assert!(matches!(step.health, Some(HealthReport::Failure(CredentialMode::Kms, ref m)) if m == "kms down"));
    let step = resolver.step(&mut res, found("from vault"), 0);
    assert!(matches!(step.action, ResolveAction::StoreCache(ref v) if v == "from vault"));
    let step = resolver.step(&mut res, ResolveEvent::CacheStored(Ok(())), 0);
    assert!(matches!(step.action, ResolveAction::Finish(Ok(ref v)) if v == "from vault"));
}

#[test]
fn oauth_exhaustion_fails_without_fallback() {
    let mut resolver = CredentialResolver::new();
    let mut res = begin(&resolver);
    let action = miss_then_mode(&mut resolver, &mut res, Some("oauth"));
    assert!(matches!(action, ResolveAction::FetchOAuth { delay_ms: 0 }));
    resolver.step(&mut res, failed("x"), 0);
    resolver.step(&mut res, failed("x"), 0);
    let step = resolver.step(&mut res, failed("exchange refused"), 0);
    assert!(matches!(step.action, ResolveAction::Finish(Err(ResolveError::TransientFailure(ref m))) if m == "exchange refused"));
    assert!(matches!(step.health, Some(HealthReport::Failure(CredentialMode::OAuth, _))));
}

#[test]
fn oauth_success_is_reported() {
    let mut resolver = CredentialResolver::new();
    let mut res = begin(&resolver);
    miss_then_mode(&mut resolver, &mut res, Some("oauth"));
    let step = resolver.step(&mut res, found("access"), 0);
    assert!(matches!(step.health, Some(HealthReport::Success(CredentialMode::OAuth))));
    assert!(matches!(step.action, ResolveAction::StoreCache(ref v) if v == "access"));
}

#[test]
fn open_oauth_circuit_fails_fast_and_open_kms_circuit_falls_back() {
    let mut breaker = CircuitBreaker::default();
    let oauth_key = circuit_key(CredentialMode::OAuth, WORKSPACE, "github");
    let kms_key = circuit_key(CredentialMode::Kms, WORKSPACE, "github");
    for _ in 0..5 {
        breaker.record_failure_at(&oauth_key, 0);
        breaker.record_failure_at(&kms_key, 0);
    }
    let mut resolver = CredentialResolver::with_breaker(breaker);
    assert_eq!(resolver.circuit_state(&oauth_key), CircuitState::Open);

    let mut res = begin(&resolver);
    let action = miss_then_mode(&mut resolver, &mut res, Some("oauth"));
    assert!(matches!(action, ResolveAction::Finish(Err(ResolveError::CircuitOpen(ref p))) if p == "github"));

    let mut res = begin(&resolver);
    let step = resolver.step(&mut res, ResolveEvent::CacheRead(Ok(None)), 0);
    assert!(matches!(step.action, ResolveAction::LookupMode));
    let step = resolver.step(&mut res, ResolveEvent::ModeRead(Ok(Some("kms".to_string()))), 0);
    assert!(matches!(step.action, ResolveAction::FetchHosted { delay_ms: 0 }));
    assert!(matches!(step.health, Some(HealthReport::CircuitOpen(CredentialMode::Kms))));
}

#[test]
fn repeated_exhaustion_opens_the_oauth_circuit() {
    let mut resolver = CredentialResolver::new();
    for _ in 0..5 {
        let mut res = begin(&resolver);
        miss_then_mode(&mut resolver, &mut res, Some("oauth"));
        for _ in 0..3 {
            resolver.step(&mut res, failed("down"), 0);
        }
    }
    let key = circuit_key(CredentialMode::OAuth, WORKSPACE, "github");
    assert_eq!(resolver.circuit_state(&key), CircuitState::Open);
}

#[test]
fn api_key_is_tried_once() {
    let mut resolver = CredentialResolver::new();
    let mut res = begin(&resolver);
    let action = miss_then_mode(&mut resolver, &mut res, Some("api_key"));
    assert!(matches!(action, ResolveAction::FetchApiKey));
    let step = resolver.step(&mut res, failed("503"), 0);
    assert!(matches!(step.action, ResolveAction::Finish(Err(ResolveError::TransientFailure(ref m))) if m == "503"));
}

#[test]
fn configuration_errors_are_not_retried() {
    let mut resolver = CredentialResolver::new();
    let mut res = begin(&resolver);
    miss_then_mode(&mut resolver, &mut res, Some("kms"));
    let step = resolver.step(&mut res, ResolveEvent::Fetched(FetchOutcome::Misconfigured("Missing kms_provider in config".to_string())), 0);
    assert!(matches!(step.action, ResolveAction::Finish(Err(ResolveError::ConfigurationError(ref m))) if m == "Missing kms_provider in config"));
}

#[test]
fn unknown_mode_is_a_configuration_error() {
    let mut resolver = CredentialResolver::new();
    let mut res = begin(&resolver);
    let action = miss_then_mode(&mut resolver, &mut res, Some("carrier-pigeon"));
    assert!(matches!(action, ResolveAction::Finish(Err(ResolveError::ConfigurationError(ref m))) if m == "carrier-pigeon"));
}

#[test]
fn cache_and_lookup_errors_surface() {
    let mut resolver = CredentialResolver::new();
    let mut res = begin(&resolver);
    let step = resolver.step(&mut res, ResolveEvent::CacheRead(Err("cache down".to_string())), 0);
    assert!(matches!(step.action, ResolveAction::Finish(Err(ResolveError::TransientFailure(ref m))) if m == "cache down"));
    let mut res = begin(&resolver);
    resolver.step(&mut res, ResolveEvent::CacheRead(Ok(None)), 0);
    let step = resolver.step(&mut res, ResolveEvent::ModeRead(Err("db down".to_string())), 0);
    assert!(matches!(step.action, ResolveAction::Finish(Err(ResolveError::TransientFailure(_)))));
}

#[test]
fn unexpected_event_repeats_pending_action() {
    let mut resolver = CredentialResolver::new();
    let mut res = begin(&resolver);
    let step = resolver.step(&mut res, ResolveEvent::CacheStored(Ok(())), 0);
    assert!(matches!(step.action, ResolveAction::ReadCache));
}

#[test]
fn modes_and_keys() {
    assert_eq!(parse_mode("hosted"), Some(CredentialMode::Hosted));
    assert_eq!(parse_mode("oauth"), Some(CredentialMode::OAuth));
    assert_eq!(parse_mode("kms"), Some(CredentialMode::Kms));
    assert_eq!(parse_mode("api_key"), Some(CredentialMode::ApiKey));
    assert_eq!(parse_mode("Hosted"), None);
    assert_eq!(
        circuit_key(CredentialMode::OAuth, WORKSPACE, "github"),
        "oauth:67e55044-10b1-426f-9247-bb680e5fe0c8:github"
    );
    assert_eq!(circuit_key(CredentialMode::Kms, 0, "aws"), "kms:00000000-0000-0000-0000-000000000000:aws");
}

#[test]
fn backoff_doubles() {
    assert_eq!(backoff_delay(1), 100);
    assert_eq!(backoff_delay(2), 200);
    assert_eq!(backoff_delay(3), 400);
    assert_eq!(backoff_delay(10), 51_200);
    assert_eq!(backoff_delay(57), 100u64 << 56);
}

#[test]
fn cancelling_during_backoff_leaves_breaker_alone() {
    let mut resolver = CredentialResolver::new();
    let key = circuit_key(CredentialMode::OAuth, WORKSPACE, "github");
    for _ in 0..4 {
        let mut res = begin(&resolver);
        miss_then_mode(&mut resolver, &mut res, Some("oauth"));
        for _ in 0..3 {
            resolver.step(&mut res, failed("down"), 0);
        }
    }
    let mut res = begin(&resolver);
    miss_then_mode(&mut resolver, &mut res, Some("oauth"));
    resolver.step(&mut res, failed("down"), 0);
    resolver.step(&mut res, failed("down"), 0);
    let step = resolver.step(&mut res, ResolveEvent::Cancelled, 0);
    assert!(matches!(step.action, ResolveAction::Finish(Err(ResolveError::Cancelled))));
    assert!(step.health.is_none());
    assert_eq!(resolver.circuit_state(&key), CircuitState::Closed);
    let step = resolver.step(&mut res, failed("late"), 0);
    assert!(matches!(step.action, ResolveAction::Finish(Err(ResolveError::Cancelled))));
}
