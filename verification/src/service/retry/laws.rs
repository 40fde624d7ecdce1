//! What holds of every call that the engine retries.

use vstd::prelude::*;
use crate::context::context::ContextView;
use crate::service::retry::engine::{attempt_on, course, Course};
use crate::service::retry::policies::{CannotClone, Limit, MutatingPolicy, RetryErrors, UnlessErr};
use crate::service::retry::policy::Policy;

verus! {

/// Retry until success: where the inner service fails on its first `n`
/// calls and then succeeds, a call under [`RetryErrors`] ends with that
/// success, after exactly `n + 1` calls of the inner service, each with
/// the caller's input.
pub proof fn retry_until_success<State, Req: Copy, Res, E>(
    ctx: ContextView<State>,
    req: Req,
    outcomes: Seq<Result<Res, E>>,
    n: nat,
)
    requires
        n < outcomes.len(),
        forall|i: int| 0 <= i < n ==> (#[trigger] outcomes[i]) is Err,
        outcomes[n as int] is Ok,
    ensures
        ({
            let run = course::<State, Req, Res, E, RetryErrors>(
                RetryErrors,
                attempt_on::<State, Req, Res, E, RetryErrors>(RetryErrors, ctx, req),
                outcomes,
            );
            &&& run.end == Some(outcomes[n as int])
            &&& run.calls.len() == n + 1
            &&& forall|i: int| 0 <= i <= n ==> run.calls[i] == (ctx, req)
        }),
    decreases n,
{
    let first = attempt_on::<State, Req, Res, E, RetryErrors>(RetryErrors, ctx, req);
    let run = course::<State, Req, Res, E, RetryErrors>(RetryErrors, first, outcomes);
    if n == 0 {
        assert(run.calls =~= seq![(ctx, req)]);
    } else {
        let rest = outcomes.skip(1);
        assert(rest[n - 1] == outcomes[n as int]);
        assert forall|i: int| 0 <= i < n - 1 implies (#[trigger] rest[i]) is Err by {
            assert(rest[i] == outcomes[i + 1]);
        }
        retry_until_success::<State, Req, Res, E>(ctx, req, rest, (n - 1) as nat);
        let tail = course::<State, Req, Res, E, RetryErrors>(RetryErrors, first, rest);
        assert(outcomes[0] is Err);
        assert(run.calls =~= seq![(ctx, req)] + tail.calls);
        assert forall|i: int| 0 <= i <= n implies run.calls[i] == (ctx, req) by {
            if i > 0 {
                assert(run.calls[i] == tail.calls[i - 1]);
            }
        }
    }
}

/// Retry limit: where the inner service fails on every call, a call under
/// [`Limit`] with `k` attempts left ends after exactly `k + 1` calls of
/// the inner service, with the error of the last of them, and the limit
/// is used up.
pub proof fn retry_limit<State, Req: Copy, Res, E>(
    limit: Limit,
    ctx: ContextView<State>,
    req: Req,
    outcomes: Seq<Result<Res, E>>,
)
    requires
        limit.0 < outcomes.len(),
        forall|i: int| 0 <= i <= limit.0 ==> (#[trigger] outcomes[i]) is Err,
    ensures
        ({
            let run = course::<State, Req, Res, E, Limit>(
                limit,
                attempt_on::<State, Req, Res, E, Limit>(limit, ctx, req),
                outcomes,
            );
            &&& run.end == Some(outcomes[limit.0 as int])
            &&& run.calls.len() == limit.0 + 1
            &&& run.policy == Limit(0)
            &&& forall|i: int| 0 <= i <= limit.0 ==> run.calls[i] == (ctx, req)
        }),
    decreases limit.0,
{
    let first = attempt_on::<State, Req, Res, E, Limit>(limit, ctx, req);
    let run = course::<State, Req, Res, E, Limit>(limit, first, outcomes);
    assert(outcomes[0] is Err);
    if limit.0 == 0 {
        assert(run.calls =~= seq![(ctx, req)]);
    } else {
        let less = Limit((limit.0 - 1) as usize);
        let rest = outcomes.skip(1);
        assert(rest[less.0 as int] == outcomes[limit.0 as int]);
        assert forall|i: int| 0 <= i <= less.0 implies (#[trigger] rest[i]) is Err by {
            assert(rest[i] == outcomes[i + 1]);
        }
        retry_limit::<State, Req, Res, E>(less, ctx, req, rest);
        let tail = course::<State, Req, Res, E, Limit>(
            less,
            attempt_on::<State, Req, Res, E, Limit>(less, ctx, req),
            rest,
        );
        assert(run.calls =~= seq![(ctx, req)] + tail.calls);
        assert forall|i: int| 0 <= i <= limit.0 implies run.calls[i] == (ctx, req) by {
            if i > 0 {
                assert(run.calls[i] == tail.calls[i - 1]);
            }
        }
    }
}

/// Selective retry: where the inner service fails `n` times with errors
/// other than the one that [`UnlessErr`] names and then with that one,
/// the call ends with exactly that error, after `n + 1` calls of the
/// inner service, however large `n` is.
pub proof fn selective_retry<State, Req: Copy, Res>(
    policy: UnlessErr,
    ctx: ContextView<State>,
    req: Req,
    outcomes: Seq<Result<Res, &'static str>>,
    n: nat,
)
    requires
        n < outcomes.len(),
        forall|i: int| 0 <= i < n ==> (#[trigger] outcomes[i]) is Err && outcomes[i]->Err_0@ != policy.0@,
        outcomes[n as int] is Err,
        outcomes[n as int]->Err_0@ == policy.0@,
    ensures
        ({
            let run = course::<State, Req, Res, &'static str, UnlessErr>(
                policy,
                attempt_on::<State, Req, Res, &'static str, UnlessErr>(policy, ctx, req),
                outcomes,
            );
            &&& run.end == Some(outcomes[n as int])
            &&& run.calls.len() == n + 1
        }),
    decreases n,
{
    let first = attempt_on::<State, Req, Res, &'static str, UnlessErr>(policy, ctx, req);
    let run = course::<State, Req, Res, &'static str, UnlessErr>(policy, first, outcomes);
    if n == 0 {
        assert(run.calls =~= seq![(ctx, req)]);
    } else {
        let rest = outcomes.skip(1);
        assert(rest[n - 1] == outcomes[n as int]);
        assert forall|i: int| 0 <= i < n - 1 implies (#[trigger] rest[i]) is Err && rest[i]->Err_0@
            != policy.0@ by {
            assert(rest[i] == outcomes[i + 1]);
        }
        selective_retry::<State, Req, Res>(policy, ctx, req, rest, (n - 1) as nat);
        let tail = course::<State, Req, Res, &'static str, UnlessErr>(policy, first, rest);
        assert(outcomes[0] is Err && outcomes[0]->Err_0@ != policy.0@);
        assert(run.calls =~= seq![(ctx, req)] + tail.calls);
    }
}

/// No copy, no second attempt: where the policy keeps no copy of the
/// input, the inner service is called exactly once and its result is the
/// result of the call, be it success or failure, whatever the policy
/// would have decided. The policy is not asked and stays as it was.
pub proof fn no_copy_caps_at_one_attempt<State, Req, Res, E, P: Policy<State, Req, Res, E>>(
    policy: P,
    ctx: ContextView<State>,
    req: Req,
    outcomes: Seq<Result<Res, E>>,
)
    requires
        !policy.keeps(ctx, req),
        outcomes.len() > 0,
    ensures
        course::<State, Req, Res, E, P>(
            policy,
            attempt_on::<State, Req, Res, E, P>(policy, ctx, req),
            outcomes,
        ) == (Course::<State, Req, Res, E, P> { policy, calls: seq![(ctx, req)], end: Some(outcomes[0]) }),
{
}

/// [`CannotClone`] keeps no copy of any input, so that every call under
/// it is one call of the inner service.
pub proof fn cannot_clone_caps_at_one_attempt<State, Req, Res, E>(
    ctx: ContextView<State>,
    req: Req,
    outcomes: Seq<Result<Res, E>>,
)
    requires
        outcomes.len() > 0,
    ensures
        course::<State, Req, Res, E, CannotClone>(
            CannotClone,
            attempt_on::<State, Req, Res, E, CannotClone>(CannotClone, ctx, req),
            outcomes,
        ) == (Course::<State, Req, Res, E, CannotClone> {
            policy: CannotClone,
            calls: seq![(ctx, req)],
            end: Some(outcomes[0]),
        }),
{
    no_copy_caps_at_one_attempt::<State, Req, Res, E, CannotClone>(CannotClone, ctx, req, outcomes);
}

/// A policy that rewrites the request: under [`MutatingPolicy`] with `k`
/// attempts left the inner service is called `k + 1` times, whatever it
/// answers; it sees the caller's request at the first call and the
/// request `retrying` at every later one; and the call ends with the
/// policy's own error.
pub proof fn mutating_policy_rewrites_requests<State, Res>(
    policy: MutatingPolicy,
    ctx: ContextView<State>,
    req: &'static str,
    outcomes: Seq<Result<Res, &'static str>>,
)
    requires
        policy.remaining < outcomes.len(),
    ensures
        ({
            let run = course::<State, &'static str, Res, &'static str, MutatingPolicy>(
                policy,
                attempt_on::<State, &'static str, Res, &'static str, MutatingPolicy>(policy, ctx, req),
                outcomes,
            );
            &&& run.end == Some(Err::<Res, &'static str>("out of retries"))
            &&& run.calls.len() == policy.remaining + 1
            &&& run.calls[0] == (ctx, req)
            &&& forall|i: int| 1 <= i <= policy.remaining ==> run.calls[i] == (ctx, "retrying")
        }),
    decreases policy.remaining,
{
    let first = attempt_on::<State, &'static str, Res, &'static str, MutatingPolicy>(policy, ctx, req);
    let run = course::<State, &'static str, Res, &'static str, MutatingPolicy>(policy, first, outcomes);
    if policy.remaining == 0 {
        assert(run.calls =~= seq![(ctx, req)]);
    } else {
        let less = MutatingPolicy { remaining: (policy.remaining - 1) as usize };
        let rest = outcomes.skip(1);
        mutating_policy_rewrites_requests::<State, Res>(less, ctx, "retrying", rest);
        let tail = course::<State, &'static str, Res, &'static str, MutatingPolicy>(
            less,
            attempt_on::<State, &'static str, Res, &'static str, MutatingPolicy>(less, ctx, "retrying"),
            rest,
        );
        assert(run.calls =~= seq![(ctx, req)] + tail.calls);
        assert forall|i: int| 1 <= i <= policy.remaining implies run.calls[i] == (ctx, "retrying") by {
            assert(run.calls[i] == tail.calls[i - 1]);
        }
    }
}

} // verus!
