//! The retry engine: what is called next, and when the call is over.

use vstd::prelude::*;
use crate::context::context::{Context, ContextView};
use crate::service::layer::Layer;
use crate::service::retry::policy::{Decision, Policy, PolicyResult};

verus! {

/// One attempt that is due: the inner service is to be called with `ctx`
/// and `req`. `saved` is the copy of both that the policy kept for the
/// attempt after this one, if it kept one.
pub struct Attempt<State, Req> {
    pub ctx: Context<State>,
    pub req: Req,
    pub saved: Option<(Context<State>, Req)>,
}

/// The mathematical value of an [`Attempt`].
pub struct AttemptView<State, Req> {
    pub ctx: ContextView<State>,
    pub req: Req,
    pub saved: Option<(ContextView<State>, Req)>,
}

/// The view of a saved input.
pub open spec fn saved_view<State, Req>(saved: Option<(Context<State>, Req)>) -> Option<
    (ContextView<State>, Req),
> {
    match saved {
        Some((ctx, req)) => Some((ctx@, req)),
        None => None,
    }
}

impl<State, Req> View for Attempt<State, Req> {
    type V = AttemptView<State, Req>;

    open spec fn view(&self) -> AttemptView<State, Req> {
        AttemptView { ctx: self.ctx@, req: self.req, saved: saved_view(self.saved) }
    }
}

/// What the engine says after an attempt.
pub enum RetryStep<State, Req, Res, E> {
    /// Call the inner service once more.
    Call(Attempt<State, Req>),
    /// The call is over, with this result.
    Done(Result<Res, E>),
}

/// The mathematical value of a [`RetryStep`].
pub enum StepView<State, Req, Res, E> {
    Call(AttemptView<State, Req>),
    Done(Result<Res, E>),
}

impl<State, Req, Res, E> View for RetryStep<State, Req, Res, E> {
    type V = StepView<State, Req, Res, E>;

    open spec fn view(&self) -> StepView<State, Req, Res, E> {
        match self {
            RetryStep::Call(attempt) => StepView::Call(attempt@),
            RetryStep::Done(result) => StepView::Done(*result),
        }
    }
}

/// The attempt on `ctx` and `req` under `policy`: the policy keeps a copy
/// of the input, or does not.
pub open spec fn attempt_on<State, Req, Res, E, P: Policy<State, Req, Res, E>>(
    policy: P,
    ctx: ContextView<State>,
    req: Req,
) -> AttemptView<State, Req> {
    AttemptView {
        ctx,
        req,
        saved: if policy.keeps(ctx, req) {
            Some((ctx, req))
        } else {
            None
        },
    }
}

/// What follows an attempt that ended with `result`, where `saved` is
/// the copy of its input: the policy afterwards, and the next step.
///
/// Without a copy the call is over and `result` is its result, whatever
/// the policy would have decided. With a copy the policy decides: to
/// stop with a result of its choice, or to go on with an input of its
/// choice.
pub open spec fn settled<State, Req, Res, E, P: Policy<State, Req, Res, E>>(
    policy: P,
    saved: Option<(ContextView<State>, Req)>,
    result: Result<Res, E>,
) -> (P, StepView<State, Req, Res, E>) {
    match saved {
        None => (policy, StepView::Done(result)),
        Some((ctx, req)) => {
            let (after, decision) = policy.decide(ctx, req, result);
            match decision {
                Decision::Abort(last) => (after, StepView::Done(last)),
                Decision::Retry { ctx, req } => (
                    after,
                    StepView::Call(attempt_on::<State, Req, Res, E, P>(after, ctx, req)),
                ),
            }
        },
    }
}

/// The course of a call.
pub struct Course<State, Req, Res, E, P> {
    /// The policy at the end.
    pub policy: P,
    /// The inputs with which the inner service was called, in order.
    pub calls: Seq<(ContextView<State>, Req)>,
    /// The result of the call; nothing where the call is not over.
    pub end: Option<Result<Res, E>>,
}

/// The course of a call that starts with `attempt` under `policy` when
/// the inner service answers its calls, one after another, with
/// `outcomes`. Where the outcomes run out before the call is over, the
/// course tells how far the call got.
pub open spec fn course<State, Req, Res, E, P: Policy<State, Req, Res, E>>(
    policy: P,
    attempt: AttemptView<State, Req>,
    outcomes: Seq<Result<Res, E>>,
) -> Course<State, Req, Res, E, P>
    decreases outcomes.len(),
{
    if outcomes.len() == 0 {
        Course { policy, calls: Seq::empty(), end: None }
    } else {
        let (after, step) = settled::<State, Req, Res, E, P>(policy, attempt.saved, outcomes[0]);
        match step {
            StepView::Done(result) => Course {
                policy: after,
                calls: seq![(attempt.ctx, attempt.req)],
                end: Some(result),
            },
            StepView::Call(next) => {
                let rest = course::<State, Req, Res, E, P>(after, next, outcomes.skip(1));
                Course {
                    policy: rest.policy,
                    calls: seq![(attempt.ctx, attempt.req)] + rest.calls,
                    end: rest.end,
                }
            },
        }
    }
}

/// A service that retries its inner service as its policy decides.
///
/// The engine makes no call itself. It says which call is due
/// ([`Retry::begin`], [`Retry::settle`]); whoever drives it calls the
/// inner service and hands the result back.
pub struct Retry<P, S> {
    policy: P,
    inner: S,
}

impl<P, S> Retry<P, S> {
    /// The policy, as a value.
    pub closed spec fn policy_spec(&self) -> P {
        self.policy
    }

    /// The inner service, as a value.
    pub closed spec fn inner_spec(&self) -> S {
        self.inner
    }

    /// A retrying service of the given policy and inner service.
    pub fn new(policy: P, inner: S) -> (retry: Retry<P, S>)
        ensures
            retry.policy_spec() == policy,
            retry.inner_spec() == inner,
    {
        Retry { policy, inner }
    }

    /// The policy.
    pub fn policy(&self) -> (policy: &P)
        ensures
            *policy == self.policy_spec(),
    {
        &self.policy
    }

    /// The inner service.
    pub fn get_ref(&self) -> (inner: &S)
        ensures
            *inner == self.inner_spec(),
    {
        &self.inner
    }

    /// The policy and the inner service, apart.
    pub fn into_parts(self) -> (parts: (P, S))
        ensures
            parts.0 == self.policy_spec(),
            parts.1 == self.inner_spec(),
    {
        (self.policy, self.inner)
    }

    /// The first attempt of a call: the inner service is to be called
    /// with the caller's own context and request. Before that call, which
    /// may use them up, the policy is asked for a copy.
    pub fn begin<State, Req, Res, E>(&self, ctx: Context<State>, req: Req) -> (attempt: Attempt<State, Req>)
        where P: Policy<State, Req, Res, E>
        ensures
            attempt.ctx == ctx,
            attempt.req == req,
            attempt@ == attempt_on::<State, Req, Res, E, P>(self.policy_spec(), ctx@, req),
    {
        let saved = self.policy.clone_input(&ctx, &req);
        Attempt { ctx, req, saved }
    }

    /// What follows an attempt: `saved` is the copy of the attempt's
    /// input, as [`Retry::begin`] or the step before handed it out, and
    /// `result` what the inner service returned.
    ///
    /// Without a copy the call is over with `result`, and the policy is
    /// not asked. With a copy the policy decides. Where it decides to try
    /// again, it is asked for a copy of the new input before that input
    /// is handed out.
    pub fn settle<State, Req, Res, E>(
        &mut self,
        saved: Option<(Context<State>, Req)>,
        result: Result<Res, E>,
    ) -> (step: RetryStep<State, Req, Res, E>)
        where P: Policy<State, Req, Res, E>
        requires
            saved matches Some((ctx, req)) ==> old(self).policy_spec().keeps(ctx@, req),
        ensures
            (final(self).policy_spec(), step@) == settled::<State, Req, Res, E, P>(
                old(self).policy_spec(),
                saved_view(saved),
                result,
            ),
            final(self).inner_spec() == old(self).inner_spec(),
    {
        match saved {
            None => RetryStep::Done(result),
            Some((ctx, req)) => match self.policy.retry(ctx, req, result) {
                PolicyResult::Abort(last) => RetryStep::Done(last),
                PolicyResult::Retry { ctx, req } => {
                    let saved = self.policy.clone_input(&ctx, &req);
                    RetryStep::Call(Attempt { ctx, req, saved })
                },
            },
        }
    }
}

/// The layer that makes a service retry as a policy decides.
pub struct RetryLayer<P> {
    policy: P,
}

impl<P> RetryLayer<P> {
    /// The policy, as a value.
    pub closed spec fn policy_spec(&self) -> P {
        self.policy
    }

    /// A layer of the given policy.
    pub fn new(policy: P) -> (layer: RetryLayer<P>)
        ensures
            layer.policy_spec() == policy,
    {
        RetryLayer { policy }
    }
}

impl<P: Clone, S> Layer<S> for RetryLayer<P> {
    type Service = Retry<P, S>;

    /// Wraps `inner` with a copy of the policy.
    fn layer(&self, inner: S) -> (retry: Retry<P, S>)
        ensures
            cloned(self.policy_spec(), retry.policy_spec()),
            retry.inner_spec() == inner,
    {
        Retry::new(self.policy.clone(), inner)
    }
}

} // verus!
