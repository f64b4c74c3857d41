//! Evaluation of every applicable policy of a context, aggregated into one
//! summary.
//!
//! Loading the applicable policies (enabled, with a matching or absent
//! pattern, by descending priority then ascending creation) is the policy
//! store's work; the engine evaluates what it is given, in that order.

use vstd::prelude::*;

use crate::clock::now_millis;
use crate::evaluator::{evaluation, reason_lines, reports, PolicyEvaluator};
use crate::policy::{
    texts_of, ContextView, Policy, PolicyAction, PolicyError, PolicyEvaluationContext,
    PolicyEvaluationResult, PolicyEvaluationSummary,
};

verus! {

/// The outcomes of the policies in order, or the error of the first
/// malformed one.
pub open spec fn evaluations(ps: Seq<Policy>, ctx: ContextView, now: i64) -> Result<
    Seq<(PolicyAction, Option<Seq<char>>)>,
    PolicyError,
>
    decreases ps.len(),
{
    if ps.len() == 0 {
        Ok(Seq::empty())
    } else {
        match evaluations(ps.drop_last(), ctx, now) {
            Err(e) => Err(e),
            Ok(os) => match evaluation(ps.last(), ctx, now) {
                Err(e) => Err(e),
                Ok(o) => Ok(os.push(o)),
            },
        }
    }
}

/// Whether some outcome has the given action.
pub open spec fn some_outcome(os: Seq<(PolicyAction, Option<Seq<char>>)>, action: PolicyAction) -> bool {
    exists|i: int| 0 <= i < os.len() && #[trigger] os[i].0 == action
}

/// Whether `s` is the summary of the outcomes `os` of the policies `ps`.
pub open spec fn summarizes(s: PolicyEvaluationSummary, ps: Seq<Policy>, os: Seq<(PolicyAction, Option<Seq<char>>)>) -> bool {
    &&& s.results@.len() == ps.len()
    &&& os.len() == ps.len()
    &&& forall|i: int| 0 <= i < ps.len() ==> #[trigger] reports(s.results@[i], ps[i], os[i])
    &&& s.allowed == !some_outcome(os, PolicyAction::Block)
    &&& s.requires_approval == some_outcome(os, PolicyAction::RequireApproval)
    &&& texts_of(s.warnings@) == reason_lines(s.results@, PolicyAction::Warn)
    &&& texts_of(s.blocking_reasons@) == reason_lines(s.results@, PolicyAction::Block)
}

/// Whether `r` is what evaluating `ps` against `ctx` at `now` gives.
pub open spec fn engine_result(r: Result<PolicyEvaluationSummary, PolicyError>, ps: Seq<Policy>, ctx: ContextView, now: i64) -> bool {
    match evaluations(ps, ctx, now) {
        Err(e) => r == Err::<PolicyEvaluationSummary, PolicyError>(e),
        Ok(os) => r matches Ok(s) && summarizes(s, ps, os),
    }
}

/// Evaluates policies and aggregates their results.
pub struct PolicyEngine {
    evaluator: PolicyEvaluator,
}

impl PolicyEngine {
    pub fn new() -> (r: Self) {
        PolicyEngine { evaluator: PolicyEvaluator::new() }
    }

    /// Evaluates every policy against `context` at the current instant.
    pub fn evaluate_policies(&self, policies: &Vec<Policy>, context: &PolicyEvaluationContext) -> (r: Result<
        PolicyEvaluationSummary,
        PolicyError,
    >)
        ensures
            exists|now: i64| #[trigger] engine_result(r, policies@, context@, now),
    {
        let now = now_millis();
        self.evaluate_policies_at(policies, context, now)
    }

    /// Evaluates every policy, in order, against `context` at the UTC instant
    /// `now`, and aggregates the results; the first malformed policy ends the
    /// evaluation with its error.
    pub fn evaluate_policies_at(&self, policies: &Vec<Policy>, context: &PolicyEvaluationContext, now: i64) -> (r:
        Result<PolicyEvaluationSummary, PolicyError>)
        ensures
            engine_result(r, policies@, context@, now),
    {
        let mut results: Vec<PolicyEvaluationResult> = Vec::new();
        let ghost mut outcomes: Seq<(PolicyAction, Option<Seq<char>>)> = Seq::empty();
        let mut i: usize = 0;
        while i < policies.len()
            invariant
                i <= policies@.len(),
                evaluations(policies@.subrange(0, i as int), context@, now) == Ok::<
                    Seq<(PolicyAction, Option<Seq<char>>)>,
                    PolicyError,
                >(outcomes),
                results@.len() == i,
                outcomes.len() == i,
                forall|k: int| 0 <= k < i ==> #[trigger] reports(results@[k], policies@[k], outcomes[k]),
            decreases policies@.len() - i,
        {
            let ghost next = policies@.subrange(0, i + 1);
            assert(next.drop_last() =~= policies@.subrange(0, i as int));
            assert(next.last() == policies@[i as int]);
            let r = self.evaluator.evaluate_at(&policies[i], context, now);
            match r {
                Ok(result) => {
                    proof {
                        let o = evaluation(policies@[i as int], context@, now)->Ok_0;
                        outcomes = outcomes.push(o);
                    }
                    results.push(result);
                },
                Err(e) => {
                    proof {
                        lemma_error_sticks(policies@, context@, now, (i + 1) as nat);
                    }
                    return Err(e);
                },
            }
            i += 1;
        }
        assert(policies@.subrange(0, policies@.len() as int) =~= policies@);
        let ghost rs = results@;
        let summary = self.evaluator.summarize_results(results);
        proof {
            assert forall|a: PolicyAction| (#[trigger] some_outcome(outcomes, a)) == crate::evaluator::some_action(rs, a) by {
                if some_outcome(outcomes, a) {
                    let k = choose|k: int| 0 <= k < outcomes.len() && #[trigger] outcomes[k].0 == a;
                    assert(reports(rs[k], policies@[k], outcomes[k]));
                    assert(rs[k].action == a);
                }
                if crate::evaluator::some_action(rs, a) {
                    let k = choose|k: int| 0 <= k < rs.len() && #[trigger] rs[k].action == a;
                    assert(reports(rs[k], policies@[k], outcomes[k]));
                    assert(outcomes[k].0 == a);
                }
            }
            assert(some_outcome(outcomes, PolicyAction::Block) == crate::evaluator::some_action(rs, PolicyAction::Block));
            assert(some_outcome(outcomes, PolicyAction::RequireApproval) == crate::evaluator::some_action(
                rs,
                PolicyAction::RequireApproval,
            ));
        }
        Ok(summary)
    }
}

/// Once a prefix of the policies fails to evaluate, every longer prefix fails
/// with the same error.
proof fn lemma_error_sticks(ps: Seq<Policy>, ctx: ContextView, now: i64, n: nat)
    requires
        n <= ps.len(),
        evaluations(ps.subrange(0, n as int), ctx, now) is Err,
    ensures
        evaluations(ps, ctx, now) == evaluations(ps.subrange(0, n as int), ctx, now),
    decreases ps.len() - n,
{
    if n < ps.len() {
        let longer = ps.subrange(0, n + 1 as int);
        assert(longer.drop_last() =~= ps.subrange(0, n as int));
        lemma_error_sticks(ps, ctx, now, n + 1);
    } else {
        assert(ps.subrange(0, n as int) =~= ps);
    }
}

/// The evaluations succeed exactly when each policy evaluates, and then
/// hold each policy's outcome at its position.
proof fn lemma_evaluations_pointwise(ps: Seq<Policy>, ctx: ContextView, now: i64)
    ensures
        (evaluations(ps, ctx, now) is Ok) == (forall|i: int| 0 <= i < ps.len() ==> #[trigger] evaluation(ps[i], ctx, now) is Ok),
        evaluations(ps, ctx, now) matches Ok(os) ==> {
            &&& os.len() == ps.len()
            &&& forall|i: int| 0 <= i < ps.len() ==> #[trigger] os[i] == evaluation(ps[i], ctx, now)->Ok_0
        },
    decreases ps.len(),
{
    if ps.len() > 0 {
        let init = ps.drop_last();
        lemma_evaluations_pointwise(init, ctx, now);
        assert forall|i: int| 0 <= i < init.len() implies #[trigger] init[i] == ps[i] by {}
        if evaluations(ps, ctx, now) is Ok {
            assert forall|i: int| 0 <= i < ps.len() implies #[trigger] evaluation(ps[i], ctx, now) is Ok by {
                if i < init.len() {
                    assert(init[i] == ps[i]);
                }
            }
        }
        if forall|i: int| 0 <= i < ps.len() ==> #[trigger] evaluation(ps[i], ctx, now) is Ok {
            assert forall|i: int| 0 <= i < init.len() implies #[trigger] evaluation(init[i], ctx, now) is Ok by {
                assert(init[i] == ps[i]);
            }
            assert(evaluation(ps[ps.len() - 1], ctx, now) is Ok);
        }
    }
}

/// The order of the policies does not change the decision: two lists that
/// hold the same policies either both evaluate or both fail, and when they
/// evaluate, each action occurs among the outcomes of one exactly when it
/// occurs among those of the other. In particular the summaries agree on
/// whether the rotation is allowed and whether it requires approval.
pub proof fn lemma_decision_ignores_order(ps1: Seq<Policy>, ps2: Seq<Policy>, ctx: ContextView, now: i64)
    requires
        forall|p: Policy| ps1.contains(p) <==> ps2.contains(p),
    ensures
        (evaluations(ps1, ctx, now) is Ok) == (evaluations(ps2, ctx, now) is Ok),
        evaluations(ps1, ctx, now) matches Ok(os1) ==> evaluations(ps2, ctx, now) matches Ok(os2)
            && forall|a: PolicyAction| #[trigger] some_outcome(os1, a) == some_outcome(os2, a),
{
    lemma_evaluations_pointwise(ps1, ctx, now);
    lemma_evaluations_pointwise(ps2, ctx, now);
    assert forall|i: int| #![trigger ps1[i]] 0 <= i < ps1.len() implies exists|j: int| 0 <= j < ps2.len() && #[trigger] ps2[j] == ps1[i] by {
        assert(ps1.contains(ps1[i]));
    }
    assert forall|j: int| #![trigger ps2[j]] 0 <= j < ps2.len() implies exists|i: int| 0 <= i < ps1.len() && #[trigger] ps1[i] == ps2[j] by {
        assert(ps2.contains(ps2[j]));
    }
    if evaluations(ps1, ctx, now) is Ok {
        assert forall|j: int| 0 <= j < ps2.len() implies #[trigger] evaluation(ps2[j], ctx, now) is Ok by {
            let i = choose|i: int| 0 <= i < ps1.len() && #[trigger] ps1[i] == ps2[j];
            assert(evaluation(ps1[i], ctx, now) is Ok);
        }
    }
    if evaluations(ps2, ctx, now) is Ok {
        assert forall|i: int| 0 <= i < ps1.len() implies #[trigger] evaluation(ps1[i], ctx, now) is Ok by {
            let j = choose|j: int| 0 <= j < ps2.len() && #[trigger] ps2[j] == ps1[i];
            assert(evaluation(ps2[j], ctx, now) is Ok);
        }
    }
    if evaluations(ps1, ctx, now) is Ok {
        let os1 = evaluations(ps1, ctx, now)->Ok_0;
        let os2 = evaluations(ps2, ctx, now)->Ok_0;
        assert forall|a: PolicyAction| #[trigger] some_outcome(os1, a) == some_outcome(os2, a) by {
            if some_outcome(os1, a) {
                let i = choose|i: int| 0 <= i < os1.len() && #[trigger] os1[i].0 == a;
                let j = choose|j: int| 0 <= j < ps2.len() && #[trigger] ps2[j] == ps1[i];
                assert(os2[j] == os1[i]);
            }
            if some_outcome(os2, a) {
                let j = choose|j: int| 0 <= j < os2.len() && #[trigger] os2[j].0 == a;
                let i = choose|i: int| 0 <= i < ps1.len() && #[trigger] ps1[i] == ps2[j];
                assert(os1[i] == os2[j]);
            }
        }
    }
}

} // verus!
