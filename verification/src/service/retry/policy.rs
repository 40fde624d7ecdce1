//! Policies: who decides whether a call is tried again.

use vstd::prelude::*;
use crate::context::context::{Context, ContextView};

verus! {

/// What a policy decides after an attempt.
pub enum PolicyResult<State, Req, Res, E> {
    /// Try again, with this context and this request.
    Retry { ctx: Context<State>, req: Req },
    /// Stop, and let this be the result of the call. It need not be the
    /// result of the attempt: a policy that gives up may put its own
    /// error in its place.
    Abort(Result<Res, E>),
}

/// The mathematical value of a [`PolicyResult`].
pub enum Decision<State, Req, Res, E> {
    Retry { ctx: ContextView<State>, req: Req },
    Abort(Result<Res, E>),
}

impl<State, Req, Res, E> View for PolicyResult<State, Req, Res, E> {
    type V = Decision<State, Req, Res, E>;

    open spec fn view(&self) -> Decision<State, Req, Res, E> {
        match self {
            PolicyResult::Retry { ctx, req } => Decision::Retry { ctx: ctx@, req: *req },
            PolicyResult::Abort(result) => Decision::Abort(*result),
        }
    }
}

/// A policy decides two things of a call: whether its input can be kept
/// for another attempt, and, after an attempt, whether there is another.
///
/// A policy may count or remember: deciding changes it. An
/// implementation states its own behaviour as two functions, `keeps` and
/// `decide`, of the policy as it stands and of what it is shown.
pub trait Policy<State, Req, Res, E>: Sized {
    /// Whether the policy keeps a copy of this input for another attempt.
    spec fn keeps(&self, ctx: ContextView<State>, req: Req) -> bool;

    /// The policy after it was shown the result of an attempt on this
    /// input, and what it decided.
    spec fn decide(self, ctx: ContextView<State>, req: Req, result: Result<Res, E>) -> (
        Self,
        Decision<State, Req, Res, E>,
    );

    /// Decides, after an attempt on `ctx` and `req` that ended with
    /// `result`, whether to try again. The policy is asked only about an
    /// input of which it kept a copy: without a copy there is nothing to
    /// try again, and nothing to decide.
    fn retry(&mut self, ctx: Context<State>, req: Req, result: Result<Res, E>) -> (decision: PolicyResult<
        State,
        Req,
        Res,
        E,
    >)
        requires
            old(self).keeps(ctx@, req),
        ensures
            (*final(self), decision@) == old(self).decide(ctx@, req, result),
    ;

    /// A copy of the input of an attempt, to be tried again if the attempt
    /// fails; nothing where the input cannot be tried twice.
    fn clone_input(&self, ctx: &Context<State>, req: &Req) -> (saved: Option<(Context<State>, Req)>)
        ensures
            match saved {
                Some((c, r)) => self.keeps(ctx@, *req) && c@ == ctx@ && r == *req,
                None => !self.keeps(ctx@, *req),
            },
    ;
}

} // verus!
