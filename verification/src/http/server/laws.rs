//! What holds of every connection that the driver drives.

use vstd::prelude::*;
use crate::error::IoError;
use crate::http::server::hyper_conn::{
    classified,
    step,
    DriverAction,
    DriverEvent,
    DriverState,
    HttpServeResult,
    ServeError,
};

verus! {

/// Where a driver that stands at `state` gets on `events`, and the
/// actions that it asks for on the way.
pub open spec fn driven(state: DriverState, guarded: bool, graceful: bool, events: Seq<DriverEvent>) -> (
    DriverState,
    Seq<DriverAction>,
)
    decreases events.len(),
{
    if events.len() == 0 {
        (state, Seq::empty())
    } else {
        let (next, action) = step(state, guarded, graceful, events[0]);
        let (last, actions) = driven(next, guarded, graceful, events.skip(1));
        (last, seq![action] + actions)
    }
}

/// How often `actions` ask for the connection to wind down.
pub open spec fn shutdowns(actions: Seq<DriverAction>) -> nat
    decreases actions.len(),
{
    if actions.len() == 0 {
        0
    } else {
        shutdowns(actions.skip(1)) + if actions[0] == DriverAction::ShutdownThenAwait {
            1nat
        } else {
            0nat
        }
    }
}

/// The guard gives its signal `cancels` times, then the connection ends
/// with `result`.
pub open spec fn cancelled_then_finished(cancels: nat, result: HttpServeResult) -> Seq<DriverEvent> {
    Seq::new(cancels, |i: int| DriverEvent::Cancelled).push(DriverEvent::Finished(result))
}

proof fn lemma_shutdowns_front(action: DriverAction, actions: Seq<DriverAction>)
    ensures
        shutdowns(seq![action] + actions) == shutdowns(actions) + if action == DriverAction::ShutdownThenAwait {
            1nat
        } else {
            0nat
        },
{
    assert((seq![action] + actions).skip(1) =~= actions);
}

proof fn lemma_winding_down(guarded: bool, graceful: bool, cancels: nat, result: HttpServeResult)
    ensures
        ({
            let (last, actions) = driven(
                DriverState::GracefulShutdownRequested,
                guarded,
                graceful,
                cancelled_then_finished(cancels, result),
            );
            &&& last == DriverState::Done
            &&& actions.len() == cancels + 1
            &&& actions.last() == DriverAction::Return(classified(result))
            &&& shutdowns(actions) == 0
        }),
    decreases cancels,
{
    let events = cancelled_then_finished(cancels, result);
    let state = DriverState::GracefulShutdownRequested;
    let (next, action) = step(state, guarded, graceful, events[0]);
    let (last, rest) = driven(next, guarded, graceful, events.skip(1));
    lemma_shutdowns_front(action, rest);
    if cancels == 0 {
        assert(events.skip(1) =~= Seq::<DriverEvent>::empty());
        assert(rest =~= Seq::<DriverAction>::empty());
    } else {
        assert(events.skip(1) =~= cancelled_then_finished((cancels - 1) as nat, result));
        lemma_winding_down(guarded, graceful, (cancels - 1) as nat, result);
    }
}

proof fn lemma_unguarded(graceful: bool, cancels: nat, result: HttpServeResult)
    ensures
        ({
            let (last, actions) = driven(
                DriverState::Serving,
                false,
                graceful,
                cancelled_then_finished(cancels, result),
            );
            &&& last == DriverState::Done
            &&& actions.len() == cancels + 1
            &&& actions.last() == DriverAction::Return(classified(result))
            &&& shutdowns(actions) == 0
        }),
    decreases cancels,
{
    let events = cancelled_then_finished(cancels, result);
    let (next, action) = step(DriverState::Serving, false, graceful, events[0]);
    let (last, rest) = driven(next, false, graceful, events.skip(1));
    lemma_shutdowns_front(action, rest);
    if cancels == 0 {
        assert(events.skip(1) =~= Seq::<DriverEvent>::empty());
        assert(rest =~= Seq::<DriverAction>::empty());
    } else {
        assert(events.skip(1) =~= cancelled_then_finished((cancels - 1) as nat, result));
        lemma_unguarded(graceful, (cancels - 1) as nat, result);
    }
}

/// Cancellation changes how a connection is driven, not how its end is
/// judged. Where the guard gives its signal while the connection is
/// served, however often, and the connection then ends with `result`:
/// the driver asks for the connection to wind down exactly once (never,
/// where there is no guard, no signal, or nothing to wind down), it ends
/// at `Done`, and the result that it returns is the classification of
/// `result`, the same as without any signal.
pub proof fn cancellation_keeps_the_classification(
    guarded: bool,
    graceful: bool,
    cancels: nat,
    result: HttpServeResult,
)
    ensures
        ({
            let (last, actions) = driven(
                DriverState::Serving,
                guarded,
                graceful,
                cancelled_then_finished(cancels, result),
            );
            let (_, plain) = driven(DriverState::Serving, guarded, graceful, cancelled_then_finished(0, result));
            &&& last == DriverState::Done
            &&& actions.len() == cancels + 1
            &&& actions.last() == DriverAction::Return(classified(result))
            &&& actions.last() == plain.last()
            &&& shutdowns(actions) == if guarded && graceful && cancels > 0 {
                1nat
            } else {
                0nat
            }
            &&& guarded && graceful && cancels > 0 ==> actions[0] == DriverAction::ShutdownThenAwait
        }),
{
    let events = cancelled_then_finished(cancels, result);
    let (next, action) = step(DriverState::Serving, guarded, graceful, events[0]);
    let (last, rest) = driven(next, guarded, graceful, events.skip(1));
    lemma_shutdowns_front(action, rest);
    let none = cancelled_then_finished(0, result);
    assert(none.skip(1) =~= Seq::<DriverEvent>::empty());
    let (_, plain_rest) = driven(DriverState::Done, guarded, graceful, none.skip(1));
    assert(plain_rest =~= Seq::<DriverAction>::empty());
    if cancels == 0 {
    } else if guarded {
        assert(events.skip(1) =~= cancelled_then_finished((cancels - 1) as nat, result));
        lemma_winding_down(guarded, graceful, (cancels - 1) as nat, result);
    } else {
        lemma_unguarded(graceful, cancels, result);
    }
}

/// Nothing follows `Done`: whatever comes in then, the driver stays
/// where it is and asks for nothing.
pub proof fn done_is_final(guarded: bool, graceful: bool, events: Seq<DriverEvent>)
    ensures
        ({
            let (last, actions) = driven(DriverState::Done, guarded, graceful, events);
            &&& last == DriverState::Done
            &&& actions.len() == events.len()
            &&& forall|i: int| 0 <= i < actions.len() ==> actions[i] == DriverAction::Nothing
        }),
    decreases events.len(),
{
    if events.len() > 0 {
        done_is_final(guarded, graceful, events.skip(1));
    }
}

/// An I/O error at the end of a connection is success exactly where it
/// is a disconnect; any other I/O error is handed on as it is.
pub proof fn io_errors_are_judged_by_kind(error: IoError)
    ensures
        classified(Err(ServeError::Io(error))) == if error.kind_spec().is_disconnect() {
            Ok::<(), ServeError>(())
        } else {
            Err::<(), ServeError>(ServeError::Io(error))
        },
{
}

/// A connection that ends well, or with any orderly end, is success; any
/// other end is handed on unchanged. Judging twice changes nothing.
pub proof fn classification_is_settled(result: HttpServeResult)
    ensures
        classified(classified(result)) == classified(result),
        classified(result) is Err ==> classified(result) == result,
{
}

} // verus!
