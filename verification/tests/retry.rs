use std::cell::Cell;

use rama::context::context::{Context, ContextView};
use rama::service::layer::Layer;
use rama::service::retry::engine::{Attempt, Retry, RetryLayer, RetryStep};
use rama::service::retry::policies::{CannotClone, Limit, MutatingPolicy, RetryErrors, UnlessErr};
use rama::service::retry::policy::{Decision, Policy, PolicyResult};

type State = ();
type Req = &'static str;
type Res = &'static str;
type Error = &'static str;

/// Drives a retrying service to the end of one call: makes the calls that
/// the engine asks for and hands their results back.
fn serve<P, S>(retry: Retry<P, S>, ctx: Context<State>, req: Req) -> Result<Res, Error>
where
    P: Policy<State, Req, Res, Error>,
    S: Fn(Context<State>, Req) -> Result<Res, Error>,
{
    let (policy, svc) = retry.into_parts();
    let mut engine = Retry::new(policy, ());
    let mut attempt = engine.begin::<State, Req, Res, Error>(ctx, req);
    loop {
        let Attempt { ctx, req, saved } = attempt;
        let result = svc(ctx, req);
        match engine.settle(saved, result) {
            RetryStep::Done(result) => return result,
            RetryStep::Call(next) => attempt = next,
        }
    }
}

#[test]
fn retry_errors() {
    let errored = Cell::new(false);
    let response_counter = Cell::new(0usize);
    let error_counter = Cell::new(0usize);

    let svc = RetryLayer::new(RetryErrors).layer(|_ctx: Context<State>, req: Req| {
        assert_eq!(req, "hello");
        if errored.replace(true) {
            response_counter.set(response_counter.get() + 1);
            Ok("world")
        } else {
            error_counter.set(error_counter.get() + 1);
            Err("retry me")
        }
    });

    let resp = serve(svc, Context::default(), "hello").unwrap();
    assert_eq!(resp, "world");
    assert_eq!(response_counter.get(), 1);
    assert_eq!(error_counter.get(), 1);
}

#[test]
fn retry_limit() {
    let error_counter = Cell::new(0usize);

    let svc = RetryLayer::new(Limit(2)).layer(|_ctx: Context<State>, req: Req| {
        assert_eq!(req, "hello");
        error_counter.set(error_counter.get() + 1);
        Err("error forever")
    });

    let err = serve(svc, Context::default(), "hello").unwrap_err();
    assert_eq!(err.to_string(), "error forever");
    assert_eq!(error_counter.get(), 3);
}

#[test]
fn retry_error_inspection() {
    let errored = Cell::new(false);

    let svc = RetryLayer::new(UnlessErr("reject")).layer(|_ctx: Context<State>, req: Req| {
        assert_eq!(req, "hello");
        if errored.replace(true) {
            Err("reject")
        } else {
            Err("retry me")
        }
    });

    let err = serve(svc, Context::default(), "hello").unwrap_err();
    assert_eq!(err.to_string(), "reject");
}

#[test]
fn retry_cannot_clone_request() {
    let calls = Cell::new(0usize);

    let svc = RetryLayer::new(CannotClone).layer(|_ctx: Context<State>, req: Req| {
        assert_eq!(req, "hello");
        calls.set(calls.get() + 1);
        Err("failed")
    });

    let err = serve(svc, Context::default(), "hello").unwrap_err();
    assert_eq!(err.to_string(), "failed");
    assert_eq!(calls.get(), 1);
}

#[test]
fn success_with_cannot_clone() {
    let calls = Cell::new(0usize);

    let svc = RetryLayer::new(CannotClone).layer(|_ctx: Context<State>, req: Req| {
        assert_eq!(req, "hello");
        calls.set(calls.get() + 1);
        Ok("world")
    });

    let resp = serve(svc, Context::default(), "hello").unwrap();
    assert_eq!(resp, "world");
    assert_eq!(calls.get(), 1);
}

#[test]
fn retry_mutating_policy() {
    let responded = Cell::new(false);
    let response_counter = Cell::new(0usize);

    let svc = RetryLayer::new(MutatingPolicy { remaining: 2 }).layer(
        |_ctx: Context<State>, req: Req| {
            response_counter.set(response_counter.get() + 1);
            if responded.replace(true) {
                assert_eq!(req, "retrying");
            } else {
                assert_eq!(req, "hello");
            }
            Ok("world")
        },
    );

    let err = serve(svc, Context::default(), "hello").unwrap_err();
    assert_eq!(err.to_string(), "out of retries");
    assert_eq!(response_counter.get(), 3);
}

#[test]
fn retry_until_success_after_many_errors() {
    for n in [0usize, 1, 5, 40] {
        let calls = Cell::new(0usize);
        let svc = RetryLayer::new(RetryErrors).layer(|_ctx: Context<State>, req: Req| {
            assert_eq!(req, "hello");
            calls.set(calls.get() + 1);
            if calls.get() <= n {
                Err("not yet")
            } else {
                Ok("world")
            }
        });
        assert_eq!(serve(svc, Context::default(), "hello"), Ok("world"));
        assert_eq!(calls.get(), n + 1);
    }
}

#[test]
fn limit_stops_at_the_first_success() {
    let calls = Cell::new(0usize);
    let svc = RetryLayer::new(Limit(5)).layer(|_ctx: Context<State>, _req: Req| {
        calls.set(calls.get() + 1);
        if calls.get() < 3 {
            Err("again")
        } else {
            Ok("world")
        }
    });
    assert_eq!(serve(svc, Context::default(), "hello"), Ok("world"));
    assert_eq!(calls.get(), 3);
}

#[test]
fn limit_of_zero_makes_one_call() {
    let calls = Cell::new(0usize);
    let svc = RetryLayer::new(Limit(0)).layer(|_ctx: Context<State>, _req: Req| {
        calls.set(calls.get() + 1);
        Err("no")
    });
    assert_eq!(serve(svc, Context::default(), "hello"), Err("no"));
    assert_eq!(calls.get(), 1);
}

#[test]
fn selective_retry_returns_the_sentinel_after_any_number_of_retries() {
    for n in [0usize, 1, 7] {
        let calls = Cell::new(0usize);
        let svc = RetryLayer::new(UnlessErr("reject")).layer(|_ctx: Context<State>, _req: Req| {
            calls.set(calls.get() + 1);
            if calls.get() <= n {
                Err("retry me")
            } else {
                Err("reject")
            }
        });
        assert_eq!(serve(svc, Context::default(), "hello"), Err("reject"));
        assert_eq!(calls.get(), n + 1);
    }
}

#[test]
fn selective_retry_ends_on_success() {
    let svc = RetryLayer::new(UnlessErr("reject")).layer(|_ctx: Context<State>, _req: Req| Ok("fine"));
    assert_eq!(serve(svc, Context::default(), "hello"), Ok("fine"));
}

/// A policy of the application's own: it tries once more after any
/// error and then lets the last error stand.
struct Once {
    used: bool,
}

impl Policy<State, Req, Res, Error> for Once {
    fn keeps(&self, _ctx: ContextView<State>, _req: Req) -> bool {
        true
    }

    fn decide(
        self,
        ctx: ContextView<State>,
        req: Req,
        result: Result<Res, Error>,
    ) -> (Self, Decision<State, Req, Res, Error>) {
        if result.is_err() && !self.used {
            (Once { used: true }, Decision::Retry { ctx, req })
        } else {
            (self, Decision::Abort(result))
        }
    }

    fn retry(
        &mut self,
        ctx: Context<State>,
        req: Req,
        result: Result<Res, Error>,
    ) -> PolicyResult<State, Req, Res, Error> {
        if result.is_err() && !self.used {
            self.used = true;
            PolicyResult::Retry { ctx, req }
        } else {
            PolicyResult::Abort(result)
        }
    }

    fn clone_input(&self, ctx: &Context<State>, req: &Req) -> Option<(Context<State>, Req)> {
        Some((ctx.clone(), *req))
    }
}

#[test]
fn a_policy_of_the_application_decides() {
    let calls = Cell::new(0usize);
    let svc = Retry::new(Once { used: false }, |_ctx: Context<State>, _req: Req| {
        calls.set(calls.get() + 1);
        Err("down")
    });
    assert_eq!(serve(svc, Context::default(), "hello"), Err("down"));
    assert_eq!(calls.get(), 2);
}

#[test]
fn the_engine_hands_out_the_callers_own_input_first() {
    let engine = Retry::new(RetryErrors, ());
    let attempt = engine.begin::<State, Req, Res, Error>(Context::default(), "hello");
    assert_eq!(attempt.req, "hello");
    assert!(attempt.saved.is_some());
    assert_eq!(attempt.saved.unwrap().1, "hello");

    let engine = Retry::new(CannotClone, ());
    let attempt = engine.begin::<State, Req, Res, Error>(Context::default(), "hello");
    assert_eq!(attempt.req, "hello");
    assert!(attempt.saved.is_none());
}

#[test]
fn without_a_copy_the_policy_is_not_asked() {
    let mut engine = Retry::new(Limit(3), ());
    let step = engine.settle::<State, Req, Res, Error>(None, Err("lost"));
    match step {
        RetryStep::Done(result) => assert_eq!(result, Err("lost")),
        RetryStep::Call(_) => panic!("no copy, no second attempt"),
    }
    assert_eq!(engine.policy().0, 3);
}
