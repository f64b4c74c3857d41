//! Policies and what an evaluation of one produces.
//!
//! Identifiers are the 128-bit values of UUIDs; instants are milliseconds
//! since the Unix epoch.

use vstd::prelude::*;

verus! {

/// Which pattern fields decide whether a policy applies.
#[derive(Debug, Clone, Copy, PartialEq, Eq, Structural)]
pub enum PolicyScope {
    Workspace,
    Provider,
    Secret,
}

/// Limits on the number of rotations in a period.
#[derive(Debug)]
pub struct RotationLimits {
    pub soft_limit: Option<i32>,
    pub hard_limit: Option<i32>,
    pub period: String,
}

/// A recurring local time range in which rotations are allowed.
#[derive(Debug)]
pub struct MaintenanceWindow {
    /// When present, the window only applies on days whose English name
    /// abbreviation (`mon`, `tue`, ...) occurs in it, ignoring case.
    pub day_of_week: Option<String>,
    pub start_time: String,
    pub end_time: String,
    /// An IANA time zone name such as `Europe/Paris`.
    pub timezone: String,
}

/// The rules of a policy; each is optional.
#[derive(Debug)]
pub struct PolicyRules {
    pub rotation_limits: Option<RotationLimits>,
    pub maintenance_windows: Option<Vec<MaintenanceWindow>>,
    pub preview_first: Option<bool>,
    pub require_approval: Option<bool>,
    pub auto_redeploy: Option<bool>,
    pub allowed_environments: Option<Vec<String>>,
}

/// A governance policy of a workspace.
#[derive(Debug)]
pub struct Policy {
    pub id: u128,
    pub workspace_id: u128,
    pub name: String,
    pub description: Option<String>,
    pub priority: i32,
    pub enabled: bool,
    pub scope: PolicyScope,
    pub provider_pattern: Option<String>,
    pub secret_pattern: Option<String>,
    pub rules: PolicyRules,
    pub created_at: i64,
    pub updated_at: i64,
}

/// The facts a policy is evaluated against.
#[derive(Debug)]
pub struct PolicyEvaluationContext {
    pub workspace_id: u128,
    pub provider: String,
    pub secret_name: String,
    pub environment: Option<String>,
    /// Rotations in the trailing period, as counted by the caller.
    pub current_rotation_count: i32,
}

/// The facts of a context as plain values.
pub struct ContextView {
    pub workspace_id: u128,
    pub provider: Seq<char>,
    pub secret_name: Seq<char>,
    pub environment: Option<Seq<char>>,
    pub current_rotation_count: i32,
}

impl View for PolicyEvaluationContext {
    type V = ContextView;

    open spec fn view(&self) -> ContextView {
        ContextView {
            workspace_id: self.workspace_id,
            provider: self.provider@,
            secret_name: self.secret_name@,
            environment: text_of(self.environment),
            current_rotation_count: self.current_rotation_count,
        }
    }
}

/// What a policy decides, from the mildest to the most severe.
#[derive(Debug, Clone, Copy, PartialEq, Eq, Structural)]
pub enum PolicyAction {
    Allow,
    Warn,
    Block,
    RequireApproval,
}

/// The outcome of one policy for one context.
#[derive(Debug)]
pub struct PolicyEvaluationResult {
    pub policy_id: u128,
    pub policy_name: String,
    /// Whether the action is Allow or Warn.
    pub passed: bool,
    pub reason: Option<String>,
    pub action: PolicyAction,
}

/// The outcomes of all applicable policies, aggregated.
#[derive(Debug)]
pub struct PolicyEvaluationSummary {
    /// False when any result blocks.
    pub allowed: bool,
    /// True when any result requires approval.
    pub requires_approval: bool,
    pub warnings: Vec<String>,
    pub blocking_reasons: Vec<String>,
    pub results: Vec<PolicyEvaluationResult>,
}

/// A malformed field of a policy.
#[derive(Debug)]
pub enum PolicyError {
    /// A provider or secret pattern does not compile.
    InvalidPattern(String),
    /// A maintenance window names a time zone that is not known.
    InvalidTimezone(String),
    /// A maintenance window's start or end is not a time of day.
    InvalidTimeOfDay(String),
}

/// An optional string seen as an optional sequence of characters.
pub open spec fn text_of(o: Option<String>) -> Option<Seq<char>> {
    match o {
        Some(s) => Some(s@),
        None => None,
    }
}

/// The strings of a sequence, each seen as a sequence of characters.
pub open spec fn texts_of(v: Seq<String>) -> Seq<Seq<char>> {
    v.map_values(|s: String| s@)
}

/// Whether an action lets the rotation go ahead.
pub open spec fn action_passes(a: PolicyAction) -> bool {
    a == PolicyAction::Allow || a == PolicyAction::Warn
}

} // verus!
