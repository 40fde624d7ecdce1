//! Policies for common cases.

use vstd::prelude::*;
use vstd::string::*;
use crate::context::context::{Context, ContextView};
use crate::service::retry::policy::{Decision, Policy, PolicyResult};
use crate::utils::text::same_text;

verus! {

/// Tries again after every error, without end.
#[derive(Debug, Clone, Copy)]
pub struct RetryErrors;

impl<State, Req: Copy, Res, E> Policy<State, Req, Res, E> for RetryErrors {
    open spec fn keeps(&self, ctx: ContextView<State>, req: Req) -> bool {
        true
    }

    open spec fn decide(self, ctx: ContextView<State>, req: Req, result: Result<Res, E>) -> (
        Self,
        Decision<State, Req, Res, E>,
    ) {
        if result is Err {
            (self, Decision::Retry { ctx, req })
        } else {
            (self, Decision::Abort(result))
        }
    }

    fn retry(&mut self, ctx: Context<State>, req: Req, result: Result<Res, E>) -> (decision: PolicyResult<
        State,
        Req,
        Res,
        E,
    >) {
        if result.is_err() {
            PolicyResult::Retry { ctx, req }
        } else {
            PolicyResult::Abort(result)
        }
    }

    fn clone_input(&self, ctx: &Context<State>, req: &Req) -> (saved: Option<(Context<State>, Req)>) {
        Some((ctx.clone(), *req))
    }
}

/// Tries again after an error as long as it has attempts left. The number
/// is that of the attempts after the first.
#[derive(Debug, Clone, Copy)]
pub struct Limit(pub usize);

impl<State, Req: Copy, Res, E> Policy<State, Req, Res, E> for Limit {
    open spec fn keeps(&self, ctx: ContextView<State>, req: Req) -> bool {
        true
    }

    open spec fn decide(self, ctx: ContextView<State>, req: Req, result: Result<Res, E>) -> (
        Self,
        Decision<State, Req, Res, E>,
    ) {
        if result is Err && self.0 > 0 {
            (Limit((self.0 - 1) as usize), Decision::Retry { ctx, req })
        } else {
            (self, Decision::Abort(result))
        }
    }

    fn retry(&mut self, ctx: Context<State>, req: Req, result: Result<Res, E>) -> (decision: PolicyResult<
        State,
        Req,
        Res,
        E,
    >) {
        if result.is_err() && self.0 > 0 {
            self.0 = self.0 - 1;
            PolicyResult::Retry { ctx, req }
        } else {
            PolicyResult::Abort(result)
        }
    }

    fn clone_input(&self, ctx: &Context<State>, req: &Req) -> (saved: Option<(Context<State>, Req)>) {
        Some((ctx.clone(), *req))
    }
}

/// Tries again after every error but the one that says this.
#[derive(Debug, Clone, Copy)]
pub struct UnlessErr(pub &'static str);

impl<State, Req: Copy, Res> Policy<State, Req, Res, &'static str> for UnlessErr {
    open spec fn keeps(&self, ctx: ContextView<State>, req: Req) -> bool {
        true
    }

    open spec fn decide(self, ctx: ContextView<State>, req: Req, result: Result<Res, &'static str>) -> (
        Self,
        Decision<State, Req, Res, &'static str>,
    ) {
        match result {
            Err(error) => if error@ != self.0@ {
                (self, Decision::Retry { ctx, req })
            } else {
                (self, Decision::Abort(result))
            },
            Ok(_) => (self, Decision::Abort(result)),
        }
    }

    fn retry(&mut self, ctx: Context<State>, req: Req, result: Result<Res, &'static str>) -> (decision:
        PolicyResult<State, Req, Res, &'static str>) {
        let again = match &result {
            Err(error) => !same_text(error, self.0),
            Ok(_) => false,
        };
        if again {
            PolicyResult::Retry { ctx, req }
        } else {
            PolicyResult::Abort(result)
        }
    }

    fn clone_input(&self, ctx: &Context<State>, req: &Req) -> (saved: Option<(Context<State>, Req)>) {
        Some((ctx.clone(), *req))
    }
}

/// Keeps no copy of any input, so that no call is tried twice.
#[derive(Debug, Clone, Copy)]
pub struct CannotClone;

impl<State, Req, Res, E> Policy<State, Req, Res, E> for CannotClone {
    open spec fn keeps(&self, ctx: ContextView<State>, req: Req) -> bool {
        false
    }

    open spec fn decide(self, ctx: ContextView<State>, req: Req, result: Result<Res, E>) -> (
        Self,
        Decision<State, Req, Res, E>,
    ) {
        (self, Decision::Abort(result))
    }

    /// Never asked: a policy is asked only about an input of which it
    /// kept a copy, and this one keeps none.
    fn retry(&mut self, ctx: Context<State>, req: Req, result: Result<Res, E>) -> (decision: PolicyResult<
        State,
        Req,
        Res,
        E,
    >) {
        unreached()
    }

    fn clone_input(&self, ctx: &Context<State>, req: &Req) -> (saved: Option<(Context<State>, Req)>) {
        None
    }
}

/// Tries again whatever the result, a given number of times, each time
/// with the request `retrying`, and then gives up with an error of its
/// own, `out of retries`.
#[derive(Debug, Clone, Copy)]
pub struct MutatingPolicy {
    /// The attempts that are left after the first.
    pub remaining: usize,
}

impl<State, Res> Policy<State, &'static str, Res, &'static str> for MutatingPolicy {
    open spec fn keeps(&self, ctx: ContextView<State>, req: &'static str) -> bool {
        true
    }

    open spec fn decide(
        self,
        ctx: ContextView<State>,
        req: &'static str,
        result: Result<Res, &'static str>,
    ) -> (Self, Decision<State, &'static str, Res, &'static str>) {
        if self.remaining == 0 {
            (self, Decision::Abort(Err("out of retries")))
        } else {
            (
                MutatingPolicy { remaining: (self.remaining - 1) as usize },
                Decision::Retry { ctx, req: "retrying" },
            )
        }
    }

    fn retry(&mut self, ctx: Context<State>, req: &'static str, result: Result<Res, &'static str>) -> (decision:
        PolicyResult<State, &'static str, Res, &'static str>) {
        if self.remaining == 0 {
            PolicyResult::Abort(Err("out of retries"))
        } else {
            self.remaining = self.remaining - 1;
            PolicyResult::Retry { ctx, req: "retrying" }
        }
    }

    fn clone_input(&self, ctx: &Context<State>, req: &&'static str) -> (saved: Option<
        (Context<State>, &'static str),
    >) {
        Some((ctx.clone(), *req))
    }
}

} // verus!
