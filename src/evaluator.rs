//! Evaluation of one policy against one context, and aggregation of the
//! results of several.
//!
//! The checks run in a fixed order and only ever make the action more severe:
//! rotation limits, maintenance windows, allowed environments, and last the
//! approval requirement, which applies only when nothing else objected.

use vstd::prelude::*;

use crate::clock::now_millis;
use crate::glob::{matches_pattern, pattern_match};
use crate::policy::{
    action_passes, text_of, texts_of, MaintenanceWindow, Policy, PolicyAction, PolicyError,
    ContextView, PolicyEvaluationContext, PolicyEvaluationResult, PolicyEvaluationSummary, PolicyRules,
    PolicyScope, RotationLimits,
};
use crate::text::{contains_text, decimal, decimal_text, has_infix, join_text, joined};
use crate::zone::{lower_of, lowercase, parse_time_of_day, time_of_day_of, zone_clock, zone_clock_of};

verus! {

/// The English abbreviation of a weekday counted from Monday as 0.
pub open spec fn weekday_name(day: u32) -> Seq<char> {
    if day == 0 {
        "mon"@
    } else if day == 1 {
        "tue"@
    } else if day == 2 {
        "wed"@
    } else if day == 3 {
        "thu"@
    } else if day == 4 {
        "fri"@
    } else if day == 5 {
        "sat"@
    } else {
        "sun"@
    }
}

/// Whether a window's day filter lets it apply on `day`.
pub open spec fn day_admits(filter: Option<String>, day: u32) -> bool {
    match filter {
        Some(f) => has_infix(lower_of(f@), weekday_name(day)),
        None => true,
    }
}

/// Order of times of day given as (seconds, nanoseconds).
pub open spec fn clock_le(a: (u32, u32), b: (u32, u32)) -> bool {
    a.0 < b.0 || (a.0 == b.0 && a.1 <= b.1)
}

/// Whether `now` lies in the range from `start` to `end`, both ends included;
/// when `start` is after `end` the range wraps past midnight.
pub open spec fn within(start: (u32, u32), end: (u32, u32), now: (u32, u32)) -> bool {
    if clock_le(start, end) {
        clock_le(start, now) && clock_le(now, end)
    } else {
        clock_le(start, now) || clock_le(now, end)
    }
}

/// What one window says of the UTC instant `now`: inside, not inside (or not
/// applying that day), or a malformed field.
pub open spec fn window_verdict(w: MaintenanceWindow, now: i64) -> Result<bool, PolicyError> {
    match zone_clock_of(w.timezone@, now) {
        None => Err(PolicyError::InvalidTimezone(w.timezone)),
        Some((day, secs, nanos)) => if !day_admits(w.day_of_week, day) {
            Ok(false)
        } else {
            match time_of_day_of(w.start_time@) {
                None => Err(PolicyError::InvalidTimeOfDay(w.start_time)),
                Some(start) => match time_of_day_of(w.end_time@) {
                    None => Err(PolicyError::InvalidTimeOfDay(w.end_time)),
                    Some(end) => Ok(within(start, end, (secs, nanos))),
                },
            }
        },
    }
}

/// The windows in order: the first that holds `now` ends the search with
/// true, the first malformed one (before any match) with its error.
pub open spec fn windows_verdict(ws: Seq<MaintenanceWindow>, now: i64) -> Result<bool, PolicyError>
    decreases ws.len(),
{
    if ws.len() == 0 {
        Ok(false)
    } else {
        match window_verdict(ws[0], now) {
            Err(e) => Err(e),
            Ok(true) => Ok(true),
            Ok(false) => windows_verdict(ws.subrange(1, ws.len() as int), now),
        }
    }
}

/// Whether an optional pattern admits `value`; an absent one admits all, and
/// one that does not compile is an error.
pub open spec fn optional_pattern_admits(pattern: Option<String>, value: Seq<char>) -> Result<bool, PolicyError> {
    match pattern {
        Some(p) => match pattern_match(p@, value) {
            Some(b) => Ok(b),
            None => Err(PolicyError::InvalidPattern(p)),
        },
        None => Ok(true),
    }
}

/// Whether a policy's scope covers the context: the workspace scope always
/// does; the provider scope asks the provider pattern; the secret scope asks
/// the provider pattern, then the secret pattern.
pub open spec fn scope_matches(p: Policy, ctx: ContextView) -> Result<bool, PolicyError> {
    match p.scope {
        PolicyScope::Workspace => Ok(true),
        PolicyScope::Provider => optional_pattern_admits(p.provider_pattern, ctx.provider),
        PolicyScope::Secret => match optional_pattern_admits(p.provider_pattern, ctx.provider) {
            Err(e) => Err(e),
            Ok(provider_matches) => match optional_pattern_admits(p.secret_pattern, ctx.secret_name) {
                Err(e) => Err(e),
                Ok(secret_matches) => Ok(provider_matches && secret_matches),
            },
        },
    }
}

pub open spec fn hard_limit_reason(count: i32, period: Seq<char>) -> Seq<char> {
    "Hard limit reached: "@ + decimal(count as int) + " rotations in "@ + period
}

pub open spec fn soft_limit_reason(count: i32, period: Seq<char>) -> Seq<char> {
    "Soft limit reached: "@ + decimal(count as int) + " rotations in "@ + period
}

pub open spec fn environment_reason(env: Seq<char>) -> Seq<char> {
    "Environment '"@ + env + "' not allowed"@
}

/// The action and reasons from the rotation limits alone: the hard limit
/// blocks; the soft limit warns when nothing blocked.
pub open spec fn limit_outcome(limits: Option<RotationLimits>, count: i32) -> (PolicyAction, Seq<Seq<char>>) {
    match limits {
        None => (PolicyAction::Allow, Seq::empty()),
        Some(l) => {
            let hard = match l.hard_limit {
                Some(h) => count >= h,
                None => false,
            };
            let action = if hard {
                PolicyAction::Block
            } else {
                PolicyAction::Allow
            };
            let reasons = if hard {
                seq![hard_limit_reason(count, l.period@)]
            } else {
                Seq::empty()
            };
            let soft = match l.soft_limit {
                Some(s) => count >= s && action == PolicyAction::Allow,
                None => false,
            };
            if soft {
                (PolicyAction::Warn, reasons.push(soft_limit_reason(count, l.period@)))
            } else {
                (action, reasons)
            }
        },
    }
}

/// Whether `env` is one of the listed environments.
pub open spec fn listed(list: Seq<String>, env: Seq<char>) -> bool {
    exists|i: int| 0 <= i < list.len() && #[trigger] list[i]@ == env
}

/// The action and reasons of all rules, given whether the instant lies in a
/// maintenance window.
pub open spec fn rule_outcome(rules: PolicyRules, ctx: ContextView, inside: bool) -> (
    PolicyAction,
    Seq<Seq<char>>,
) {
    let (a1, r1) = limit_outcome(rules.rotation_limits, ctx.current_rotation_count);
    let outside = rules.maintenance_windows.is_some() && !inside;
    let a2 = if outside {
        PolicyAction::Block
    } else {
        a1
    };
    let r2 = if outside {
        r1.push("Outside of maintenance window"@)
    } else {
        r1
    };
    let (a3, r3) = match (rules.allowed_environments, ctx.environment) {
        (Some(list), Some(env)) => if !listed(list@, env) {
            (PolicyAction::Block, r2.push(environment_reason(env)))
        } else {
            (a2, r2)
        },
        _ => (a2, r2),
    };
    if rules.require_approval == Some(true) && a3 == PolicyAction::Allow {
        (PolicyAction::RequireApproval, r3.push("Approval required by policy"@))
    } else {
        (a3, r3)
    }
}

/// The severity of an action: Allow, then Warn, then RequireApproval, then
/// Block.
pub open spec fn severity(a: PolicyAction) -> int {
    match a {
        PolicyAction::Allow => 0,
        PolicyAction::Warn => 1,
        PolicyAction::RequireApproval => 2,
        PolicyAction::Block => 3,
    }
}

/// The checks after the rotation limits only escalate: the final action is
/// at least as severe as the one the limits gave, its reasons extend theirs,
/// a block stays a block, and being outside every maintenance window or in
/// an unlisted environment always ends in a block.
pub proof fn lemma_rules_only_escalate(rules: PolicyRules, ctx: ContextView, inside: bool)
    ensures
        severity(limit_outcome(rules.rotation_limits, ctx.current_rotation_count).0) <= severity(
            rule_outcome(rules, ctx, inside).0,
        ),
        limit_outcome(rules.rotation_limits, ctx.current_rotation_count).1.is_prefix_of(
            rule_outcome(rules, ctx, inside).1,
        ),
        limit_outcome(rules.rotation_limits, ctx.current_rotation_count).0 == PolicyAction::Block
            ==> rule_outcome(rules, ctx, inside).0 == PolicyAction::Block,
        rules.maintenance_windows is Some && !inside ==> rule_outcome(rules, ctx, inside).0 == PolicyAction::Block,
        (rules.allowed_environments matches Some(list) && ctx.environment matches Some(env) && !listed(list@, env))
            ==> rule_outcome(rules, ctx, inside).0 == PolicyAction::Block,
{
    let r1 = limit_outcome(rules.rotation_limits, ctx.current_rotation_count).1;
    let r = rule_outcome(rules, ctx, inside).1;
    assert(r.subrange(0, r1.len() as int) =~= r1);
}

/// What evaluating policy `p` against `ctx` at the UTC instant `now` yields:
/// the action and the reason, or the error of a malformed pattern or
/// window.
pub open spec fn evaluation(p: Policy, ctx: ContextView, now: i64) -> Result<
    (PolicyAction, Option<Seq<char>>),
    PolicyError,
> {
    if !p.enabled {
        Ok((PolicyAction::Allow, Some("Policy disabled"@)))
    } else if scope_matches(p, ctx) is Err {
        Err(scope_matches(p, ctx)->Err_0)
    } else if scope_matches(p, ctx) == Ok::<bool, PolicyError>(false) {
        Ok((PolicyAction::Allow, Some("Policy scope does not match"@)))
    } else {
        let verdict = match p.rules.maintenance_windows {
            Some(ws) => windows_verdict(ws@, now),
            None => Ok(true),
        };
        match verdict {
            Err(e) => Err(e),
            Ok(inside) => {
                let (a, rs) = rule_outcome(p.rules, ctx, inside);
                Ok((
                    a,
                    if rs.len() == 0 {
                        None
                    } else {
                        Some(joined(rs, "; "@))
                    },
                ))
            },
        }
    }
}

/// Whether `r` reports the outcome `o` of policy `p`.
pub open spec fn reports(r: PolicyEvaluationResult, p: Policy, o: (PolicyAction, Option<Seq<char>>)) -> bool {
    &&& r.policy_id == p.id
    &&& r.policy_name@ == p.name@
    &&& r.action == o.0
    &&& r.passed == action_passes(o.0)
    &&& text_of(r.reason) == o.1
}

/// Whether `r` is the result that `e` describes.
pub open spec fn evaluated_as(
    r: Result<PolicyEvaluationResult, PolicyError>,
    p: Policy,
    e: Result<(PolicyAction, Option<Seq<char>>), PolicyError>,
) -> bool {
    match e {
        Err(err) => r == Err::<PolicyEvaluationResult, PolicyError>(err),
        Ok(o) => r matches Ok(res) && reports(res, p, o),
    }
}

/// The reports that summarising a list of results collects: for each result
/// with the given action and a reason, `"<policy name>: <reason>"`, in order.
pub open spec fn reason_lines(rs: Seq<PolicyEvaluationResult>, action: PolicyAction) -> Seq<Seq<char>>
    decreases rs.len(),
{
    if rs.len() == 0 {
        Seq::empty()
    } else {
        let earlier = reason_lines(rs.drop_last(), action);
        let last = rs.last();
        match last.reason {
            Some(reason) => if last.action == action {
                earlier.push(last.policy_name@ + ": "@ + reason@)
            } else {
                earlier
            },
            None => earlier,
        }
    }
}

/// Whether some result has the given action.
pub open spec fn some_action(rs: Seq<PolicyEvaluationResult>, action: PolicyAction) -> bool {
    exists|i: int| 0 <= i < rs.len() && #[trigger] rs[i].action == action
}

/// Evaluates policies; it holds no state.
pub struct PolicyEvaluator;

/// An owned copy of an optional string.
fn copy_text(o: &Option<String>) -> (r: Option<String>)
    ensures
        r == *o,
{
    match o {
        Some(s) => Some(s.clone()),
        None => None,
    }
}

impl PolicyEvaluator {
    pub fn new() -> (r: Self) {
        PolicyEvaluator
    }

    /// Evaluates `policy` against `context` at the current instant.
    pub fn evaluate(&self, policy: &Policy, context: &PolicyEvaluationContext) -> (r: Result<
        PolicyEvaluationResult,
        PolicyError,
    >)
        ensures
            exists|now: i64| evaluated_as(r, *policy, #[trigger] evaluation(*policy, context@, now)),
    {
        let now = now_millis();
        self.evaluate_at(policy, context, now)
    }

    /// Evaluates `policy` against `context` at the UTC instant `now`
    /// (milliseconds since the Unix epoch). A disabled policy, or one whose
    /// scope does not cover the context, allows with a reason saying so.
    pub fn evaluate_at(&self, policy: &Policy, context: &PolicyEvaluationContext, now: i64) -> (r: Result<
        PolicyEvaluationResult,
        PolicyError,
    >)
        ensures
            evaluated_as(r, *policy, evaluation(*policy, context@, now)),
    {
        if !policy.enabled {
            return Ok(
                PolicyEvaluationResult {
                    policy_id: policy.id,
                    policy_name: policy.name.clone(),
                    passed: true,
                    reason: Some("Policy disabled".to_owned()),
                    action: PolicyAction::Allow,
                },
            );
        }
        let in_scope = match self.matches_scope(policy, context) {
            Ok(b) => b,
            Err(e) => {
                return Err(e);
            },
        };
        if !in_scope {
            return Ok(
                PolicyEvaluationResult {
                    policy_id: policy.id,
                    policy_name: policy.name.clone(),
                    passed: true,
                    reason: Some("Policy scope does not match".to_owned()),
                    action: PolicyAction::Allow,
                },
            );
        }
        let inside = match &policy.rules.maintenance_windows {
            Some(windows) => match self.is_in_maintenance_window(windows, now) {
                Ok(b) => b,
                Err(e) => {
                    return Err(e);
                },
            },
            None => true,
        };
        let (action, reasons) = self.apply_rules(&policy.rules, context, inside);
        let passed = action == PolicyAction::Allow || action == PolicyAction::Warn;
        let reason = if reasons.len() == 0 {
            None
        } else {
            Some(join_text(&reasons, "; "))
        };
        Ok(PolicyEvaluationResult { policy_id: policy.id, policy_name: policy.name.clone(), passed, reason, action })
    }

    /// The rule checks, in order, given whether the instant lies in a
    /// maintenance window.
    fn apply_rules(&self, rules: &PolicyRules, context: &PolicyEvaluationContext, inside: bool) -> (r: (
        PolicyAction,
        Vec<String>,
    ))
        ensures
            r.0 == rule_outcome(*rules, context@, inside).0,
            texts_of(r.1@) == rule_outcome(*rules, context@, inside).1,
    {
        let mut reasons: Vec<String> = Vec::new();
        let mut action = PolicyAction::Allow;
        let count = context.current_rotation_count;
        match &rules.rotation_limits {
            Some(limits) => {
                match limits.hard_limit {
                    Some(hard) => {
                        if count >= hard {
                            action = PolicyAction::Block;
                            reasons.push(limit_reason("Hard limit reached: ", count, &limits.period));
                        }
                    },
                    None => {},
                }
                match limits.soft_limit {
                    Some(soft) => {
                        if count >= soft && action == PolicyAction::Allow {
                            action = PolicyAction::Warn;
                            reasons.push(limit_reason("Soft limit reached: ", count, &limits.period));
                        }
                    },
                    None => {},
                }
            },
            None => {},
        }
        assert(action == limit_outcome(rules.rotation_limits, count).0);
        assert(texts_of(reasons@) =~= limit_outcome(rules.rotation_limits, count).1);
        if rules.maintenance_windows.is_some() && !inside {
            action = PolicyAction::Block;
            let ghost before = reasons@;
            reasons.push("Outside of maintenance window".to_owned());
            assert(texts_of(reasons@) =~= texts_of(before).push("Outside of maintenance window"@));
        }
        match (&rules.allowed_environments, &context.environment) {
            (Some(list), Some(env)) => {
                if !is_listed(list, env) {
                    action = PolicyAction::Block;
                    let ghost before = reasons@;
                    let mut line = "Environment '".to_owned();
                    line.append(env.as_str());
                    line.append("' not allowed");
                    assert(line@ =~= environment_reason(env@));
                    reasons.push(line);
                    assert(texts_of(reasons@) =~= texts_of(before).push(environment_reason(env@)));
                }
            },
            _ => {},
        }
        if rules.require_approval == Some(true) && action == PolicyAction::Allow {
            action = PolicyAction::RequireApproval;
            let ghost before = reasons@;
            reasons.push("Approval required by policy".to_owned());
            assert(texts_of(reasons@) =~= texts_of(before).push("Approval required by policy"@));
        }
        (action, reasons)
    }

    /// Whether the policy's scope covers the context.
    fn matches_scope(&self, policy: &Policy, context: &PolicyEvaluationContext) -> (r: Result<bool, PolicyError>)
        ensures
            r == scope_matches(*policy, context@),
    {
        match policy.scope {
            PolicyScope::Workspace => Ok(true),
            PolicyScope::Provider => self.optional_matches(&policy.provider_pattern, &context.provider),
            PolicyScope::Secret => {
                let provider_matches = match self.optional_matches(&policy.provider_pattern, &context.provider) {
                    Ok(b) => b,
                    Err(e) => {
                        return Err(e);
                    },
                };
                let secret_matches = match self.optional_matches(&policy.secret_pattern, &context.secret_name) {
                    Ok(b) => b,
                    Err(e) => {
                        return Err(e);
                    },
                };
                Ok(provider_matches && secret_matches)
            },
        }
    }

    fn optional_matches(&self, pattern: &Option<String>, value: &String) -> (r: Result<bool, PolicyError>)
        ensures
            r == optional_pattern_admits(*pattern, value@),
    {
        match pattern {
            Some(p) => match matches_pattern(p.as_str(), value.as_str()) {
                Some(b) => Ok(b),
                None => Err(PolicyError::InvalidPattern(p.clone())),
            },
            None => Ok(true),
        }
    }

    /// Whether `now` lies in any of the windows; the first malformed window
    /// met before a match is an error.
    fn is_in_maintenance_window(&self, windows: &Vec<MaintenanceWindow>, now: i64) -> (r: Result<bool, PolicyError>)
        ensures
            r == windows_verdict(windows@, now),
    {
        let mut i: usize = 0;
        assert(windows@.subrange(0, windows@.len() as int) =~= windows@);
        while i < windows.len()
            invariant
                i <= windows@.len(),
                windows_verdict(windows@, now) == windows_verdict(windows@.subrange(i as int, windows@.len() as int), now),
            decreases windows@.len() - i,
        {
            let ghost rest = windows@.subrange(i as int, windows@.len() as int);
            assert(rest[0] == windows@[i as int]);
            assert(rest.subrange(1, rest.len() as int) =~= windows@.subrange(i + 1, windows@.len() as int));
            match self.window_admits(&windows[i], now) {
                Err(e) => {
                    return Err(e);
                },
                Ok(true) => {
                    return Ok(true);
                },
                Ok(false) => {},
            }
            i += 1;
        }
        Ok(false)
    }

    /// What one window says of the instant `now`.
    fn window_admits(&self, window: &MaintenanceWindow, now: i64) -> (r: Result<bool, PolicyError>)
        ensures
            r == window_verdict(*window, now),
    {
        let (day, secs, nanos) = match zone_clock(window.timezone.as_str(), now) {
            Some(clock) => clock,
            None => {
                return Err(PolicyError::InvalidTimezone(window.timezone.clone()));
            },
        };
        match &window.day_of_week {
            Some(filter) => {
                if !self.matches_weekday(filter.as_str(), day) {
                    return Ok(false);
                }
            },
            None => {},
        }
        let start = match parse_time_of_day(window.start_time.as_str()) {
            Some(t) => t,
            None => {
                return Err(PolicyError::InvalidTimeOfDay(window.start_time.clone()));
            },
        };
        let end = match parse_time_of_day(window.end_time.as_str()) {
            Some(t) => t,
            None => {
                return Err(PolicyError::InvalidTimeOfDay(window.end_time.clone()));
            },
        };
        Ok(time_in_range(start, end, (secs, nanos)))
    }

    /// Whether the lower-cased day filter names the weekday `day` (Monday 0).
    fn matches_weekday(&self, day_filter: &str, day: u32) -> (r: bool)
        ensures
            r == has_infix(lower_of(day_filter@), weekday_name(day)),
    {
        let lower = lowercase(day_filter);
        let name = if day == 0 {
            "mon"
        } else if day == 1 {
            "tue"
        } else if day == 2 {
            "wed"
        } else if day == 3 {
            "thu"
        } else if day == 4 {
            "fri"
        } else if day == 5 {
            "sat"
        } else {
            "sun"
        };
        contains_text(lower.as_str(), name)
    }

    /// Aggregates results: any Block disallows, any RequireApproval requires
    /// approval, and the reasons of warning and blocking results are
    /// collected as `"<policy name>: <reason>"`.
    pub fn summarize_results(&self, results: Vec<PolicyEvaluationResult>) -> (r: PolicyEvaluationSummary)
        ensures
            r.allowed == !some_action(results@, PolicyAction::Block),
            r.requires_approval == some_action(results@, PolicyAction::RequireApproval),
            texts_of(r.warnings@) == reason_lines(results@, PolicyAction::Warn),
            texts_of(r.blocking_reasons@) == reason_lines(results@, PolicyAction::Block),
            r.results@ == results@,
    {
        let mut allowed = true;
        let mut requires_approval = false;
        let mut warnings: Vec<String> = Vec::new();
        let mut blocking_reasons: Vec<String> = Vec::new();
        let mut i: usize = 0;
        while i < results.len()
            invariant
                i <= results@.len(),
                allowed == !some_action(results@.subrange(0, i as int), PolicyAction::Block),
                requires_approval == some_action(results@.subrange(0, i as int), PolicyAction::RequireApproval),
                texts_of(warnings@) == reason_lines(results@.subrange(0, i as int), PolicyAction::Warn),
                texts_of(blocking_reasons@) == reason_lines(results@.subrange(0, i as int), PolicyAction::Block),
            decreases results@.len() - i,
        {
            let ghost done = results@.subrange(0, i as int);
            let ghost next = results@.subrange(0, i + 1);
            assert(next.drop_last() =~= done);
            assert(next.last() == results@[i as int]);
            let result = &results[i];
            match result.action {
                PolicyAction::Allow => {},
                PolicyAction::Warn => {
                    match &result.reason {
                        Some(reason) => {
                            let ghost before = warnings@;
                            warnings.push(reason_line(&result.policy_name, reason));
                            assert(texts_of(warnings@) =~= texts_of(before).push(
                                result.policy_name@ + ": "@ + reason@,
                            ));
                        },
                        None => {},
                    }
                },
                PolicyAction::Block => {
                    allowed = false;
                    match &result.reason {
                        Some(reason) => {
                            let ghost before = blocking_reasons@;
                            blocking_reasons.push(reason_line(&result.policy_name, reason));
                            assert(texts_of(blocking_reasons@) =~= texts_of(before).push(
                                result.policy_name@ + ": "@ + reason@,
                            ));
                        },
                        None => {},
                    }
                },
                PolicyAction::RequireApproval => {
                    requires_approval = true;
                },
            }
            proof {
                if result.action == PolicyAction::Block {
                    assert(next[i as int].action == PolicyAction::Block);
                } else {
                    assert forall|k: int| 0 <= k < next.len() && #[trigger] next[k].action == PolicyAction::Block
                        implies done[k].action == PolicyAction::Block by {
                        assert(k < i);
                    }
                }
                if result.action == PolicyAction::RequireApproval {
                    assert(next[i as int].action == PolicyAction::RequireApproval);
                } else {
                    assert forall|k: int| 0 <= k < next.len() && #[trigger] next[k].action == PolicyAction::RequireApproval
                        implies done[k].action == PolicyAction::RequireApproval by {
                        assert(k < i);
                    }
                }
                assert forall|k: int| 0 <= k < done.len() implies #[trigger] next[k] == done[k] by {}
            }
            i += 1;
        }
        assert(results@.subrange(0, results@.len() as int) =~= results@);
        PolicyEvaluationSummary { allowed, requires_approval, warnings, blocking_reasons, results }
    }
}

impl Default for PolicyEvaluator {
    fn default() -> (r: Self) {
        Self::new()
    }
}

/// `"<prefix><count> rotations in <period>"`.
fn limit_reason(prefix: &str, count: i32, period: &String) -> (r: String)
    ensures
        r@ == prefix@ + decimal(count as int) + " rotations in "@ + period@,
{
    let mut line = prefix.to_owned();
    let digits = decimal_text(count as i64);
    line.append(digits.as_str());
    line.append(" rotations in ");
    line.append(period.as_str());
    line
}

/// `"<name>: <reason>"`.
fn reason_line(name: &String, reason: &String) -> (r: String)
    ensures
        r@ == name@ + ": "@ + reason@,
{
    let mut line = name.clone();
    line.append(": ");
    line.append(reason.as_str());
    line
}

/// Whether `env` is one of `list`.
fn is_listed(list: &Vec<String>, env: &String) -> (r: bool)
    ensures
        r == listed(list@, env@),
{
    let mut i: usize = 0;
    while i < list.len()
        invariant
            i <= list@.len(),
            forall|k: int| 0 <= k < i ==> #[trigger] list@[k]@ != env@,
        decreases list@.len() - i,
    {
        if list[i] == *env {
            return true;
        }
        i += 1;
    }
    false
}

/// Whether `now` lies between `start` and `end`, wrapping past midnight when
/// `start` is after `end`.
pub fn time_in_range(start: (u32, u32), end: (u32, u32), now: (u32, u32)) -> (r: bool)
    ensures
        r == within(start, end, now),
{
    let start_le_end = start.0 < end.0 || (start.0 == end.0 && start.1 <= end.1);
    let start_le_now = start.0 < now.0 || (start.0 == now.0 && start.1 <= now.1);
    let now_le_end = now.0 < end.0 || (now.0 == end.0 && now.1 <= end.1);
    if start_le_end {
        start_le_now && now_le_end
    } else {
        start_le_now || now_le_end
    }
}

} // verus!
