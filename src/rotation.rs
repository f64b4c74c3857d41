//! Admission and execution of one rotation.
//!
//! The policies are evaluated first, for real and dry runs alike. A blocked
//! rotation reports its blocking reasons; one that needs approval reports
//! the warnings and stops; an admitted one goes to its provider's connector
//! and reports the connector's result with the warnings.

use vstd::prelude::*;

use crate::clock::now_millis;
use crate::connector::{
    rotated_as, rotation_refused, ConnectorConfig, ConnectorError, ConnectorOrchestrator,
    RotationRequest, RotationResult,
};
use crate::engine::{evaluations, some_outcome, PolicyEngine};
use crate::evaluator::{reason_lines, reports};
use crate::policy::{
    texts_of, ContextView, Policy, PolicyAction, PolicyError, PolicyEvaluationContext,
    PolicyEvaluationResult, PolicyEvaluationSummary,
};

verus! {

/// The trailing period, in days, over which past rotations are counted.
pub const ROTATION_PERIOD_DAYS: i32 = 30;

/// What became of a rotation request.
#[derive(Debug)]
pub enum RotationOutcome {
    Blocked { reasons: Vec<String>, policy_results: Vec<PolicyEvaluationResult> },
    RequiresApproval { warnings: Vec<String>, policy_results: Vec<PolicyEvaluationResult> },
    Rotated { result: RotationResult, warnings: Vec<String>, policy_results: Vec<PolicyEvaluationResult> },
}

/// Why a rotation could not be decided or carried out.
#[derive(Debug)]
pub enum RotationError {
    Policy(PolicyError),
    Connector(ConnectorError),
}

/// The admission decision of a policy summary.
#[derive(Debug, Clone, Copy, PartialEq, Eq, Structural)]
pub enum Admission {
    Blocked,
    RequiresApproval,
    Proceed,
}

/// A block wins over an approval requirement.
pub open spec fn admission_of(allowed: bool, requires_approval: bool) -> Admission {
    if !allowed {
        Admission::Blocked
    } else if requires_approval {
        Admission::RequiresApproval
    } else {
        Admission::Proceed
    }
}

/// The context of a rotation: the environment is always given.
pub open spec fn rotation_context(
    workspace_id: u128,
    provider: Seq<char>,
    secret_name: Seq<char>,
    environment: Seq<char>,
    rotation_count: i32,
) -> ContextView {
    ContextView {
        workspace_id,
        provider,
        secret_name,
        environment: Some(environment),
        current_rotation_count: rotation_count,
    }
}

/// Whether `results` report the outcomes `os` of the policies `ps`.
pub open spec fn results_report(
    results: Seq<PolicyEvaluationResult>,
    ps: Seq<Policy>,
    os: Seq<(PolicyAction, Option<Seq<char>>)>,
) -> bool {
    &&& results.len() == ps.len()
    &&& forall|i: int| 0 <= i < ps.len() ==> #[trigger] reports(results[i], ps[i], os[i])
}

/// Whether `r` is what executing a rotation of `provider` gives under the
/// policies `ps`, evaluated against `ctx` at `now`.
pub open spec fn execution(
    r: Result<RotationOutcome, RotationError>,
    ps: Seq<Policy>,
    ctx: ContextView,
    provider: Seq<char>,
    dry_run: bool,
    now: i64,
) -> bool {
    match evaluations(ps, ctx, now) {
        Err(e) => r == Err::<RotationOutcome, RotationError>(RotationError::Policy(e)),
        Ok(os) => if some_outcome(os, PolicyAction::Block) {
            match r {
                Ok(RotationOutcome::Blocked { reasons, policy_results }) => {
                    &&& results_report(policy_results@, ps, os)
                    &&& texts_of(reasons@) == reason_lines(policy_results@, PolicyAction::Block)
                },
                _ => false,
            }
        } else if some_outcome(os, PolicyAction::RequireApproval) {
            match r {
                Ok(RotationOutcome::RequiresApproval { warnings, policy_results }) => {
                    &&& results_report(policy_results@, ps, os)
                    &&& texts_of(warnings@) == reason_lines(policy_results@, PolicyAction::Warn)
                },
                _ => false,
            }
        } else if rotation_refused(provider, dry_run) {
            match r {
                Err(RotationError::Connector(ConnectorError::UnsupportedProvider(p))) => p@ == provider,
                _ => false,
            }
        } else {
            match r {
                Ok(RotationOutcome::Rotated { result, warnings, policy_results }) => {
                    &&& rotated_as(result, provider, dry_run)
                    &&& results_report(policy_results@, ps, os)
                    &&& texts_of(warnings@) == reason_lines(policy_results@, PolicyAction::Warn)
                },
                _ => false,
            }
        },
    }
}

/// The admission decision of a summary.
pub fn admission(summary: &PolicyEvaluationSummary) -> (r: Admission)
    ensures
        r == admission_of(summary.allowed, summary.requires_approval),
{
    if !summary.allowed {
        Admission::Blocked
    } else if summary.requires_approval {
        Admission::RequiresApproval
    } else {
        Admission::Proceed
    }
}

/// Sequences admission and connector invocation.
pub struct RotationOrchestrator {
    policy_engine: PolicyEngine,
    connector_orchestrator: ConnectorOrchestrator,
}

impl RotationOrchestrator {
    pub fn new() -> (r: Self) {
        RotationOrchestrator { policy_engine: PolicyEngine::new(), connector_orchestrator: ConnectorOrchestrator::new() }
    }

    /// Executes a rotation at the current instant.
    pub fn execute_rotation(
        &self,
        policies: &Vec<Policy>,
        rotation_count: i32,
        workspace_id: u128,
        provider: &str,
        secret_name: &str,
        environment: &str,
        config: &ConnectorConfig,
        dry_run: bool,
    ) -> (r: Result<RotationOutcome, RotationError>)
        ensures
            exists|now: i64|
                #[trigger] execution(
                    r,
                    policies@,
                    rotation_context(workspace_id, provider@, secret_name@, environment@, rotation_count),
                    provider@,
                    dry_run,
                    now,
                ),
    {
        let now = now_millis();
        self.execute_rotation_at(
            policies,
            rotation_count,
            workspace_id,
            provider,
            secret_name,
            environment,
            config,
            dry_run,
            now,
        )
    }

    /// Executes a rotation at the UTC instant `now`: `policies` are those
    /// that apply to the workspace, in priority order, and `rotation_count`
    /// the rotations of the trailing period.
    pub fn execute_rotation_at(
        &self,
        policies: &Vec<Policy>,
        rotation_count: i32,
        workspace_id: u128,
        provider: &str,
        secret_name: &str,
        environment: &str,
        config: &ConnectorConfig,
        dry_run: bool,
        now: i64,
    ) -> (r: Result<RotationOutcome, RotationError>)
        ensures
            execution(
                r,
                policies@,
                rotation_context(workspace_id, provider@, secret_name@, environment@, rotation_count),
                provider@,
                dry_run,
                now,
            ),
    {
        let context = PolicyEvaluationContext {
            workspace_id,
            provider: provider.to_owned(),
            secret_name: secret_name.to_owned(),
            environment: Some(environment.to_owned()),
            current_rotation_count: rotation_count,
        };
        assert(context@ == rotation_context(workspace_id, provider@, secret_name@, environment@, rotation_count));
        let summary = match self.policy_engine.evaluate_policies_at(policies, &context, now) {
            Ok(s) => s,
            Err(e) => {
                return Err(RotationError::Policy(e));
            },
        };
        let decision = admission(&summary);
        let PolicyEvaluationSummary { allowed, requires_approval, warnings, blocking_reasons, results } = summary;
        match decision {
            Admission::Blocked => Ok(RotationOutcome::Blocked { reasons: blocking_reasons, policy_results: results }),
            Admission::RequiresApproval => Ok(
                RotationOutcome::RequiresApproval { warnings, policy_results: results },
            ),
            Admission::Proceed => {
                let request = RotationRequest {
                    workspace_id,
                    provider: provider.to_owned(),
                    secret_name: secret_name.to_owned(),
                    environment: environment.to_owned(),
                    dry_run,
                };
                match self.connector_orchestrator.rotate_secret(&request, config) {
                    Ok(result) => Ok(RotationOutcome::Rotated { result, warnings, policy_results: results }),
                    Err(e) => Err(RotationError::Connector(e)),
                }
            },
        }
    }
}

} // verus!
