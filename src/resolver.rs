//! The credential resolver as an explicit state machine.
//!
//! One resolution moves through stages: the cache, the configured mode, then
//! the fetches of that mode with their retries, backoff and fallback, and
//! last the cache fill. At each stage the resolver names one action for the
//! caller to perform (read the cache, sleep and fetch, store) and takes the
//! outcome back as an event. The circuit breaker shared by every resolution
//! lives here and is consulted and updated as the events come in.

use vstd::prelude::*;

use crate::circuit_breaker::{
    attempt_step, failure_step, success_step, CircuitBreaker, CircuitBreakerState, CircuitState,
};
use crate::ids::{uuid_text, uuid_text_of};
use crate::text::same_text;

verus! {

/// Attempts per remote source before giving up.
pub const MAX_RETRIES: u32 = 3;

/// The first backoff delay, doubled at each later retry.
pub const INITIAL_BACKOFF_MS: u64 = 100;

/// How the credentials of a provider are resolved.
#[derive(Debug, Clone, Copy, PartialEq, Eq, Structural)]
pub enum CredentialMode {
    Hosted,
    OAuth,
    Kms,
    ApiKey,
}

/// Why a resolution failed.
#[derive(Debug)]
pub enum ResolveError {
    /// The source holds no such credential; not retried.
    NotFound,
    /// A source failed, after the retries it is entitled to.
    TransientFailure(String),
    /// The circuit of the source is open; carries the provider.
    CircuitOpen(String),
    /// The provider configuration is missing or malformed; not retried.
    ConfigurationError(String),
    /// The caller gave up; the circuit breaker is left as it was.
    Cancelled,
}

/// What a fetch from a credential source came back with.
#[derive(Debug)]
pub enum FetchOutcome {
    Found(String),
    /// The source answered that it holds no such credential.
    Missing,
    Failed(String),
    /// The provider configuration lacks a field the source needs.
    Misconfigured(String),
}

/// The outcome of the action last asked for.
#[derive(Debug)]
pub enum ResolveEvent {
    /// The cache answered (a value, none, or an error message).
    CacheRead(Result<Option<String>, String>),
    /// The configuration store answered with the mode text of the provider,
    /// none when the provider has no configuration, or an error message.
    ModeRead(Result<Option<String>, String>),
    Fetched(FetchOutcome),
    CacheStored(Result<(), String>),
    /// The caller abandons the resolution (for instance during a backoff).
    Cancelled,
}

/// What the caller is to do next.
#[derive(Debug)]
pub enum ResolveAction {
    ReadCache,
    LookupMode,
    /// Sleep `delay_ms`, then read the credential from the vault.
    FetchHosted { delay_ms: u64 },
    /// Sleep `delay_ms`, then exchange the OAuth refresh token.
    FetchOAuth { delay_ms: u64 },
    /// Sleep `delay_ms`, then read the credential from the KMS.
    FetchKms { delay_ms: u64 },
    FetchApiKey,
    StoreCache(String),
    /// The resolution is over.
    Finish(Result<String, ResolveError>),
}

/// The health of a provider's credential source, as the monitor reports it.
#[derive(Debug, Clone, Copy, PartialEq, Eq, Structural)]
pub enum HealthStatus {
    Healthy,
    Degraded,
    Unhealthy,
    Unknown,
}

/// An observation for the health monitor.
#[derive(Debug)]
pub enum HealthReport {
    Success(CredentialMode),
    /// A failure, with the source's message.
    Failure(CredentialMode, String),
    /// The circuit of the mode refused the attempt.
    CircuitOpen(CredentialMode),
}

/// The stage a resolution is in; the numbers count the failed attempts so
/// far.
#[derive(Debug)]
pub enum Stage {
    AwaitCache,
    AwaitMode,
    AwaitHosted(u32),
    AwaitOAuth(u32),
    AwaitKms(u32),
    AwaitApiKey,
    AwaitStore(String),
    Finished(Result<String, ResolveError>),
}

/// One resolution in progress.
#[derive(Debug)]
pub struct Resolution {
    pub workspace_id: u128,
    pub provider: String,
    pub secret_name: String,
    pub stage: Stage,
}

/// What one step hands back: the next action and, for OAuth and KMS
/// attempts, a health observation.
#[derive(Debug)]
pub struct ResolveStep {
    pub action: ResolveAction,
    pub health: Option<HealthReport>,
}

/// What a step does to the circuit breaker.
pub enum BreakerEffect {
    Untouched,
    /// An admission check on the circuit of the mode.
    Check(CredentialMode),
    Success(CredentialMode),
    Failure(CredentialMode),
}

/// The mode that a configured mode text names.
pub open spec fn mode_of_text(t: Seq<char>) -> Option<CredentialMode> {
    if t == "hosted"@ {
        Some(CredentialMode::Hosted)
    } else if t == "oauth"@ {
        Some(CredentialMode::OAuth)
    } else if t == "kms"@ {
        Some(CredentialMode::Kms)
    } else if t == "api_key"@ {
        Some(CredentialMode::ApiKey)
    } else {
        None
    }
}

/// The circuit key of a remote mode: `"<mode>:<workspace>:<provider>"`.
pub open spec fn circuit_key_of(mode: CredentialMode, workspace_id: u128, provider: Seq<char>) -> Seq<char> {
    (if mode == CredentialMode::OAuth {
        "oauth"@
    } else {
        "kms"@
    }) + ":"@ + uuid_text_of(workspace_id) + ":"@ + provider
}

/// Two to the power `n`.
pub open spec fn power_of_two(n: nat) -> nat
    decreases n,
{
    if n == 0 {
        1
    } else {
        2 * power_of_two((n - 1) as nat)
    }
}

/// Powers of two grow with the exponent.
proof fn lemma_power_of_two_grows(n: nat, m: nat)
    requires
        n <= m,
    ensures
        power_of_two(n) <= power_of_two(m),
    decreases m - n,
{
    if n < m {
        lemma_power_of_two_grows(n, (m - 1) as nat);
    }
}

proof fn lemma_power_of_two_56()
    ensures
        power_of_two(56) == 72057594037927936,
{
    reveal_with_fuel(power_of_two, 57);
}

/// The delay before the retry that follows `attempt` failures.
pub open spec fn backoff_ms(attempt: nat) -> int {
    INITIAL_BACKOFF_MS * power_of_two((attempt - 1) as nat)
}

/// The delay before the attempt that follows `failures` failures: none for
/// the first attempt.
pub open spec fn delay_after(failures: u32) -> int {
    if failures == 0 {
        0
    } else {
        backoff_ms(failures as nat)
    }
}

/// The action that a stage waits on.
pub open spec fn pending_action(stage: Stage) -> ResolveAction {
    match stage {
        Stage::AwaitCache => ResolveAction::ReadCache,
        Stage::AwaitMode => ResolveAction::LookupMode,
        Stage::AwaitHosted(n) => ResolveAction::FetchHosted { delay_ms: delay_after(n) as u64 },
        Stage::AwaitOAuth(n) => ResolveAction::FetchOAuth { delay_ms: delay_after(n) as u64 },
        Stage::AwaitKms(n) => ResolveAction::FetchKms { delay_ms: delay_after(n) as u64 },
        Stage::AwaitApiKey => ResolveAction::FetchApiKey,
        Stage::AwaitStore(v) => ResolveAction::StoreCache(v),
        Stage::Finished(outcome) => ResolveAction::Finish(outcome),
    }
}

/// Moves to `stage` and asks for what it waits on.
pub open spec fn go(stage: Stage, health: Option<HealthReport>) -> (Stage, ResolveAction, Option<HealthReport>) {
    (stage, pending_action(stage), health)
}

/// Ends the resolution with `outcome`.
pub open spec fn finish(outcome: Result<String, ResolveError>, health: Option<HealthReport>) -> (
    Stage,
    ResolveAction,
    Option<HealthReport>,
) {
    go(Stage::Finished(outcome), health)
}

pub open spec fn failed_report(mode: CredentialMode, message: String) -> Option<HealthReport> {
    Some(HealthReport::Failure(mode, message))
}

pub open spec fn success_report(mode: CredentialMode) -> Option<HealthReport> {
    Some(HealthReport::Success(mode))
}

pub open spec fn circuit_open_report(mode: CredentialMode) -> Option<HealthReport> {
    Some(HealthReport::CircuitOpen(mode))
}

/// Whether a failure after `failures` earlier ones exhausts the retries.
pub open spec fn exhausted(failures: u32) -> bool {
    failures + 1 >= MAX_RETRIES
}

/// One step: the next stage, the action, and the health report. `permit` is
/// the breaker's answer when the step checks a circuit; `provider` is the
/// provider being resolved.
pub open spec fn transition(stage: Stage, ev: ResolveEvent, permit: bool, provider: String) -> (
    Stage,
    ResolveAction,
    Option<HealthReport>,
) {
    match (stage, ev) {
        (Stage::AwaitCache, ResolveEvent::CacheRead(Ok(Some(v)))) => finish(Ok(v), None),
        (Stage::AwaitCache, ResolveEvent::CacheRead(Ok(None))) => go(Stage::AwaitMode, None),
        (Stage::AwaitCache, ResolveEvent::CacheRead(Err(m))) => finish(Err(ResolveError::TransientFailure(m)), None),
        (Stage::AwaitMode, ResolveEvent::ModeRead(Err(m))) => finish(Err(ResolveError::TransientFailure(m)), None),
        (Stage::AwaitMode, ResolveEvent::ModeRead(Ok(None))) => go(Stage::AwaitHosted(0), None),
        (Stage::AwaitMode, ResolveEvent::ModeRead(Ok(Some(t)))) => match mode_of_text(t@) {
            None => finish(Err(ResolveError::ConfigurationError(t)), None),
            Some(CredentialMode::Hosted) => go(Stage::AwaitHosted(0), None),
            Some(CredentialMode::ApiKey) => go(Stage::AwaitApiKey, None),
            Some(CredentialMode::OAuth) => if permit {
                go(Stage::AwaitOAuth(0), None)
            } else {
                finish(Err(ResolveError::CircuitOpen(provider)), circuit_open_report(CredentialMode::OAuth))
            },
            Some(CredentialMode::Kms) => if permit {
                go(Stage::AwaitKms(0), None)
            } else {
                go(Stage::AwaitHosted(0), circuit_open_report(CredentialMode::Kms))
            },
        },
        (Stage::AwaitHosted(n), ResolveEvent::Fetched(o)) => match o {
            FetchOutcome::Found(v) => go(Stage::AwaitStore(v), None),
            FetchOutcome::Missing => finish(Err(ResolveError::NotFound), None),
            FetchOutcome::Misconfigured(m) => finish(Err(ResolveError::ConfigurationError(m)), None),
            FetchOutcome::Failed(m) => if exhausted(n) {
                finish(Err(ResolveError::TransientFailure(m)), None)
            } else {
                go(Stage::AwaitHosted((n + 1) as u32), None)
            },
        },
        (Stage::AwaitOAuth(n), ResolveEvent::Fetched(o)) => match o {
            FetchOutcome::Found(v) => go(Stage::AwaitStore(v), success_report(CredentialMode::OAuth)),
            FetchOutcome::Misconfigured(m) => finish(
                Err(ResolveError::ConfigurationError(m)),
                failed_report(CredentialMode::OAuth, m),
            ),
            FetchOutcome::Missing => finish(Err(ResolveError::NotFound), None),
            FetchOutcome::Failed(m) => if exhausted(n) {
                finish(Err(ResolveError::TransientFailure(m)), failed_report(CredentialMode::OAuth, m))
            } else {
                go(Stage::AwaitOAuth((n + 1) as u32), None)
            },
        },
        (Stage::AwaitKms(n), ResolveEvent::Fetched(o)) => match o {
            FetchOutcome::Found(v) => go(Stage::AwaitStore(v), success_report(CredentialMode::Kms)),
            FetchOutcome::Misconfigured(m) => finish(
                Err(ResolveError::ConfigurationError(m)),
                failed_report(CredentialMode::Kms, m),
            ),
            FetchOutcome::Missing => finish(Err(ResolveError::NotFound), None),
            FetchOutcome::Failed(m) => if exhausted(n) {
                go(Stage::AwaitHosted(0), failed_report(CredentialMode::Kms, m))
            } else {
                go(Stage::AwaitKms((n + 1) as u32), None)
            },
        },
        (Stage::AwaitApiKey, ResolveEvent::Fetched(o)) => match o {
            FetchOutcome::Found(v) => go(Stage::AwaitStore(v), None),
            FetchOutcome::Missing => finish(Err(ResolveError::NotFound), None),
            FetchOutcome::Failed(m) => finish(Err(ResolveError::TransientFailure(m)), None),
            FetchOutcome::Misconfigured(m) => finish(Err(ResolveError::ConfigurationError(m)), None),
        },
        (Stage::AwaitStore(v), ResolveEvent::CacheStored(Ok(()))) => finish(Ok(v), None),
        (Stage::AwaitStore(_), ResolveEvent::CacheStored(Err(m))) => finish(Err(ResolveError::TransientFailure(m)), None),
        (Stage::Finished(outcome), _) => finish(outcome, None),
        (_, ResolveEvent::Cancelled) => finish(Err(ResolveError::Cancelled), None),
        (s, _) => go(s, None),
    }
}

/// Whether the stage's failure count leaves room for another attempt.
pub open spec fn stage_wf(stage: Stage) -> bool {
    match stage {
        Stage::AwaitHosted(n) => n < MAX_RETRIES,
        Stage::AwaitOAuth(n) => n < MAX_RETRIES,
        Stage::AwaitKms(n) => n < MAX_RETRIES,
        _ => true,
    }
}

/// What a step does to the circuit breaker, given the stage and the event.
pub open spec fn breaker_effect(stage: Stage, ev: ResolveEvent) -> BreakerEffect {
    match (stage, ev) {
        (Stage::AwaitMode, ResolveEvent::ModeRead(Ok(Some(t)))) => match mode_of_text(t@) {
            Some(CredentialMode::OAuth) => BreakerEffect::Check(CredentialMode::OAuth),
            Some(CredentialMode::Kms) => BreakerEffect::Check(CredentialMode::Kms),
            _ => BreakerEffect::Untouched,
        },
        (Stage::AwaitOAuth(n), ResolveEvent::Fetched(o)) => remote_effect(CredentialMode::OAuth, n, o),
        (Stage::AwaitKms(n), ResolveEvent::Fetched(o)) => remote_effect(CredentialMode::Kms, n, o),
        _ => BreakerEffect::Untouched,
    }
}

/// A fetch outcome of a remote source: success, a configuration failure, or
/// the failure that exhausts the retries reach the breaker.
pub open spec fn remote_effect(mode: CredentialMode, failures: u32, o: FetchOutcome) -> BreakerEffect {
    match o {
        FetchOutcome::Found(_) => BreakerEffect::Success(mode),
        FetchOutcome::Misconfigured(_) => BreakerEffect::Failure(mode),
        FetchOutcome::Failed(_) => if exhausted(failures) {
            BreakerEffect::Failure(mode)
        } else {
            BreakerEffect::Untouched
        },
        FetchOutcome::Missing => BreakerEffect::Untouched,
    }
}

/// The breaker's records after an effect on the circuit of a resolution.
pub open spec fn breaker_after(
    b: CircuitBreaker,
    e: BreakerEffect,
    workspace_id: u128,
    provider: Seq<char>,
    now: i64,
) -> Map<Seq<char>, CircuitBreakerState> {
    match e {
        BreakerEffect::Untouched => b@,
        BreakerEffect::Check(m) => {
            let key = circuit_key_of(m, workspace_id, provider);
            b@.insert(key, attempt_step(b.record_of(key), now, b.spec_timeout_seconds(), b.spec_half_open_max()).0)
        },
        BreakerEffect::Success(m) => {
            let key = circuit_key_of(m, workspace_id, provider);
            if b@.contains_key(key) {
                b@.insert(key, success_step(b@[key], now))
            } else {
                b@
            }
        },
        BreakerEffect::Failure(m) => {
            let key = circuit_key_of(m, workspace_id, provider);
            b@.insert(key, failure_step(b.record_of(key), now, b.spec_failure_threshold()))
        },
    }
}

/// The breaker's answer to an admission check; true when there is none.
pub open spec fn breaker_permits(
    b: CircuitBreaker,
    e: BreakerEffect,
    workspace_id: u128,
    provider: Seq<char>,
    now: i64,
) -> bool {
    match e {
        BreakerEffect::Check(m) => {
            let key = circuit_key_of(m, workspace_id, provider);
            attempt_step(b.record_of(key), now, b.spec_timeout_seconds(), b.spec_half_open_max()).1
        },
        _ => true,
    }
}

/// The mode that a configured mode text names.
pub fn parse_mode(text: &str) -> (r: Option<CredentialMode>)
    ensures
        r == mode_of_text(text@),
{
    if same_text(text, "hosted") {
        Some(CredentialMode::Hosted)
    } else if same_text(text, "oauth") {
        Some(CredentialMode::OAuth)
    } else if same_text(text, "kms") {
        Some(CredentialMode::Kms)
    } else if same_text(text, "api_key") {
        Some(CredentialMode::ApiKey)
    } else {
        None
    }
}

/// The circuit key of a remote mode for a workspace and provider.
pub fn circuit_key(mode: CredentialMode, workspace_id: u128, provider: &str) -> (r: String)
    ensures
        r@ == circuit_key_of(mode, workspace_id, provider@),
{
    let mut key = if mode == CredentialMode::OAuth {
        "oauth".to_owned()
    } else {
        "kms".to_owned()
    };
    key.append(":");
    let id = uuid_text(workspace_id);
    key.append(id.as_str());
    key.append(":");
    key.append(provider);
    key
}

/// The delay before the retry that follows `attempt` failures: 100 ms, then
/// doubling (200, 400, ... ms), as long as the delay fits in a `u64`.
pub fn backoff_delay(attempt: u32) -> (r: u64)
    requires
        1 <= attempt <= 57,
    ensures
        r == backoff_ms(attempt as nat),
{
    let mut delay: u64 = INITIAL_BACKOFF_MS;
    let mut k: u32 = 1;
    while k < attempt
        invariant
            1 <= k <= attempt,
            attempt <= 57,
            delay == INITIAL_BACKOFF_MS * power_of_two((k - 1) as nat),
        decreases attempt - k,
    {
        proof {
            assert(power_of_two(0) == 1);
            assert(power_of_two(k as nat) == 2 * power_of_two((k - 1) as nat));
            lemma_power_of_two_grows(k as nat, 56);
            lemma_power_of_two_56();
        }
        delay = delay * 2;
        k += 1;
    }
    delay
}

fn copy_error(e: &ResolveError) -> (r: ResolveError)
    ensures
        r == *e,
{
    match e {
        ResolveError::NotFound => ResolveError::NotFound,
        ResolveError::TransientFailure(m) => ResolveError::TransientFailure(m.clone()),
        ResolveError::CircuitOpen(m) => ResolveError::CircuitOpen(m.clone()),
        ResolveError::ConfigurationError(m) => ResolveError::ConfigurationError(m.clone()),
        ResolveError::Cancelled => ResolveError::Cancelled,
    }
}

/// The action that `stage` waits on.
fn pending(stage: &Stage) -> (r: ResolveAction)
    requires
        stage_wf(*stage),
    ensures
        r == pending_action(*stage),
{
    match stage {
        Stage::AwaitCache => ResolveAction::ReadCache,
        Stage::AwaitMode => ResolveAction::LookupMode,
        Stage::AwaitHosted(n) => ResolveAction::FetchHosted { delay_ms: delay_for(*n) },
        Stage::AwaitOAuth(n) => ResolveAction::FetchOAuth { delay_ms: delay_for(*n) },
        Stage::AwaitKms(n) => ResolveAction::FetchKms { delay_ms: delay_for(*n) },
        Stage::AwaitApiKey => ResolveAction::FetchApiKey,
        Stage::AwaitStore(v) => ResolveAction::StoreCache(v.clone()),
        Stage::Finished(outcome) => ResolveAction::Finish(
            match outcome {
                Ok(v) => Ok(v.clone()),
                Err(e) => Err(copy_error(e)),
            },
        ),
    }
}

fn delay_for(failures: u32) -> (r: u64)
    requires
        failures < MAX_RETRIES,
    ensures
        r == delay_after(failures),
{
    if failures == 0 {
        0
    } else {
        backoff_delay(failures)
    }
}

/// Resolves credentials one step at a time, keeping the circuit breaker
/// that all resolutions share.
pub struct CredentialResolver {
    circuit_breaker: CircuitBreaker,
}

impl CredentialResolver {
    pub closed spec fn wf(&self) -> bool {
        self.circuit_breaker.wf()
    }

    pub closed spec fn breaker(&self) -> CircuitBreaker {
        self.circuit_breaker
    }

    /// A resolver whose breaker opens after five failures for sixty seconds.
    pub fn new() -> (r: Self)
        ensures
            r.wf(),
            r.breaker()@ == Map::<Seq<char>, CircuitBreakerState>::empty(),
            r.breaker().spec_failure_threshold() == 5,
            r.breaker().spec_timeout_seconds() == 60,
            r.breaker().spec_half_open_max() == 3,
    {
        CredentialResolver { circuit_breaker: CircuitBreaker::default() }
    }

    /// A resolver around the given breaker.
    pub fn with_breaker(circuit_breaker: CircuitBreaker) -> (r: Self)
        requires
            circuit_breaker.wf(),
        ensures
            r.wf(),
            r.breaker() == circuit_breaker,
    {
        CredentialResolver { circuit_breaker }
    }

    /// The state of a circuit, for diagnostics.
    pub fn circuit_state(&self, key: &str) -> (r: CircuitState)
        requires
            self.wf(),
        ensures
            r == self.breaker().record_of(key@).state,
    {
        self.circuit_breaker.get_state(key)
    }

    /// A new resolution, which starts by reading the cache.
    pub fn start(&self, workspace_id: u128, provider: &str, secret_name: &str) -> (r: (Resolution, ResolveAction))
        ensures
            r.0.workspace_id == workspace_id,
            r.0.provider@ == provider@,
            r.0.secret_name@ == secret_name@,
            r.0.stage == Stage::AwaitCache,
            r.1 == ResolveAction::ReadCache,
    {
        (
            Resolution {
                workspace_id,
                provider: provider.to_owned(),
                secret_name: secret_name.to_owned(),
                stage: Stage::AwaitCache,
            },
            ResolveAction::ReadCache,
        )
    }

    /// Takes the outcome of the last action and moves the resolution on:
    /// the cache answers first (a hit ends it), then the mode decides the
    /// source. Hosted reads are retried up to three attempts with 100 ms and
    /// 200 ms pauses, and a missing credential ends them. OAuth and KMS first
    /// ask their circuit: a refusal fails OAuth at once and sends KMS to the
    /// hosted path; their failures are retried the same way, and the last
    /// one is recorded on the circuit, after which OAuth fails and KMS falls
    /// back to the hosted path. A success is recorded on the circuit. API-key
    /// fetches are tried once. A found credential is stored in the cache
    /// before the resolution ends with it. Cancelling ends an unfinished
    /// resolution without touching the breaker. Any other event that does not
    /// answer the pending action leaves the resolution as it was.
    pub fn step(&mut self, res: &mut Resolution, event: ResolveEvent, now: i64) -> (r: ResolveStep)
        requires
            old(self).wf(),
            stage_wf(old(res).stage),
        ensures
            final(self).wf(),
            stage_wf(final(res).stage),
            final(self).breaker()@ == breaker_after(
                old(self).breaker(),
                breaker_effect(old(res).stage, event),
                old(res).workspace_id,
                old(res).provider@,
                now,
            ),
            final(self).breaker().spec_failure_threshold() == old(self).breaker().spec_failure_threshold(),
            final(self).breaker().spec_timeout_seconds() == old(self).breaker().spec_timeout_seconds(),
            final(self).breaker().spec_half_open_max() == old(self).breaker().spec_half_open_max(),
            final(res).workspace_id == old(res).workspace_id,
            final(res).provider == old(res).provider,
            final(res).secret_name == old(res).secret_name,
            (final(res).stage, r.action, r.health) == transition(
                old(res).stage,
                event,
                breaker_permits(
                    old(self).breaker(),
                    breaker_effect(old(res).stage, event),
                    old(res).workspace_id,
                    old(res).provider@,
                    now,
                ),
                old(res).provider,
            ),
    {
        let mut stage = Stage::AwaitCache;
        std::mem::swap(&mut stage, &mut res.stage);
        let cancelled = match event {
            ResolveEvent::Cancelled => true,
            _ => false,
        };
        let (next, health): (Stage, Option<HealthReport>) = if cancelled {
            match stage {
                Stage::Finished(outcome) => (Stage::Finished(outcome), None),
                _ => (Stage::Finished(Err(ResolveError::Cancelled)), None),
            }
        } else {
            match stage {
            Stage::AwaitCache => match event {
                ResolveEvent::CacheRead(Ok(Some(v))) => (Stage::Finished(Ok(v)), None),
                ResolveEvent::CacheRead(Ok(None)) => (Stage::AwaitMode, None),
                ResolveEvent::CacheRead(Err(m)) => (Stage::Finished(Err(ResolveError::TransientFailure(m))), None),
                _ => (Stage::AwaitCache, None),
            },
            Stage::AwaitMode => match event {
                ResolveEvent::ModeRead(Err(m)) => (Stage::Finished(Err(ResolveError::TransientFailure(m))), None),
                ResolveEvent::ModeRead(Ok(None)) => (Stage::AwaitHosted(0), None),
                ResolveEvent::ModeRead(Ok(Some(t))) => match parse_mode(t.as_str()) {
                    None => (Stage::Finished(Err(ResolveError::ConfigurationError(t))), None),
                    Some(CredentialMode::Hosted) => (Stage::AwaitHosted(0), None),
                    Some(CredentialMode::ApiKey) => (Stage::AwaitApiKey, None),
                    Some(CredentialMode::OAuth) => {
                        let key = circuit_key(CredentialMode::OAuth, res.workspace_id, res.provider.as_str());
                        if self.circuit_breaker.can_attempt_at(key.as_str(), now) {
                            (Stage::AwaitOAuth(0), None)
                        } else {
                            (
                                Stage::Finished(Err(ResolveError::CircuitOpen(res.provider.clone()))),
                                Some(HealthReport::CircuitOpen(CredentialMode::OAuth)),
                            )
                        }
                    },
                    Some(CredentialMode::Kms) => {
                        let key = circuit_key(CredentialMode::Kms, res.workspace_id, res.provider.as_str());
                        if self.circuit_breaker.can_attempt_at(key.as_str(), now) {
                            (Stage::AwaitKms(0), None)
                        } else {
                            (Stage::AwaitHosted(0), Some(HealthReport::CircuitOpen(CredentialMode::Kms)))
                        }
                    },
                },
                _ => (Stage::AwaitMode, None),
            },
            Stage::AwaitHosted(n) => match event {
                ResolveEvent::Fetched(FetchOutcome::Found(v)) => (Stage::AwaitStore(v), None),
                ResolveEvent::Fetched(FetchOutcome::Missing) => (Stage::Finished(Err(ResolveError::NotFound)), None),
                ResolveEvent::Fetched(FetchOutcome::Misconfigured(m)) => (
                    Stage::Finished(Err(ResolveError::ConfigurationError(m))),
                    None,
                ),
                ResolveEvent::Fetched(FetchOutcome::Failed(m)) => {
                    if n + 1 >= MAX_RETRIES {
                        (Stage::Finished(Err(ResolveError::TransientFailure(m))), None)
                    } else {
                        (Stage::AwaitHosted(n + 1), None)
                    }
                },
                _ => (Stage::AwaitHosted(n), None),
            },
            Stage::AwaitOAuth(n) => match event {
                ResolveEvent::Fetched(FetchOutcome::Found(v)) => {
                    let key = circuit_key(CredentialMode::OAuth, res.workspace_id, res.provider.as_str());
                    self.circuit_breaker.record_success_at(key.as_str(), now);
                    (Stage::AwaitStore(v), Some(HealthReport::Success(CredentialMode::OAuth)))
                },
                ResolveEvent::Fetched(FetchOutcome::Missing) => (Stage::Finished(Err(ResolveError::NotFound)), None),
                ResolveEvent::Fetched(FetchOutcome::Misconfigured(m)) => {
                    let key = circuit_key(CredentialMode::OAuth, res.workspace_id, res.provider.as_str());
                    self.circuit_breaker.record_failure_at(key.as_str(), now);
                    let report = m.clone();
                    (
                        Stage::Finished(Err(ResolveError::ConfigurationError(m))),
                        Some(HealthReport::Failure(CredentialMode::OAuth, report)),
                    )
                },
                ResolveEvent::Fetched(FetchOutcome::Failed(m)) => {
                    if n + 1 >= MAX_RETRIES {
                        let key = circuit_key(CredentialMode::OAuth, res.workspace_id, res.provider.as_str());
                        self.circuit_breaker.record_failure_at(key.as_str(), now);
                        let report = m.clone();
                        (
                            Stage::Finished(Err(ResolveError::TransientFailure(m))),
                            Some(HealthReport::Failure(CredentialMode::OAuth, report)),
                        )
                    } else {
                        (Stage::AwaitOAuth(n + 1), None)
                    }
                },
                _ => (Stage::AwaitOAuth(n), None),
            },
            Stage::AwaitKms(n) => match event {
                ResolveEvent::Fetched(FetchOutcome::Found(v)) => {
                    let key = circuit_key(CredentialMode::Kms, res.workspace_id, res.provider.as_str());
                    self.circuit_breaker.record_success_at(key.as_str(), now);
                    (Stage::AwaitStore(v), Some(HealthReport::Success(CredentialMode::Kms)))
                },
                ResolveEvent::Fetched(FetchOutcome::Missing) => (Stage::Finished(Err(ResolveError::NotFound)), None),
                ResolveEvent::Fetched(FetchOutcome::Misconfigured(m)) => {
                    let key = circuit_key(CredentialMode::Kms, res.workspace_id, res.provider.as_str());
                    self.circuit_breaker.record_failure_at(key.as_str(), now);
                    let report = m.clone();
                    (
                        Stage::Finished(Err(ResolveError::ConfigurationError(m))),
                        Some(HealthReport::Failure(CredentialMode::Kms, report)),
                    )
                },
                ResolveEvent::Fetched(FetchOutcome::Failed(m)) => {
                    if n + 1 >= MAX_RETRIES {
                        let key = circuit_key(CredentialMode::Kms, res.workspace_id, res.provider.as_str());
                        self.circuit_breaker.record_failure_at(key.as_str(), now);
                        (Stage::AwaitHosted(0), Some(HealthReport::Failure(CredentialMode::Kms, m)))
                    } else {
                        (Stage::AwaitKms(n + 1), None)
                    }
                },
                _ => (Stage::AwaitKms(n), None),
            },
            Stage::AwaitApiKey => match event {
                ResolveEvent::Fetched(FetchOutcome::Found(v)) => (Stage::AwaitStore(v), None),
                ResolveEvent::Fetched(FetchOutcome::Missing) => (Stage::Finished(Err(ResolveError::NotFound)), None),
                ResolveEvent::Fetched(FetchOutcome::Failed(m)) => (
                    Stage::Finished(Err(ResolveError::TransientFailure(m))),
                    None,
                ),
                ResolveEvent::Fetched(FetchOutcome::Misconfigured(m)) => (
                    Stage::Finished(Err(ResolveError::ConfigurationError(m))),
                    None,
                ),
                _ => (Stage::AwaitApiKey, None),
            },
            Stage::AwaitStore(v) => match event {
                ResolveEvent::CacheStored(Ok(())) => (Stage::Finished(Ok(v)), None),
                ResolveEvent::CacheStored(Err(m)) => (Stage::Finished(Err(ResolveError::TransientFailure(m))), None),
                _ => (Stage::AwaitStore(v), None),
            },
            Stage::Finished(outcome) => (Stage::Finished(outcome), None),
            }
        };
        let action = pending(&next);
        res.stage = next;
        ResolveStep { action, health }
    }
}

} // verus!
