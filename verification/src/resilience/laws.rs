//! What holds of a circuit breaker over whole sequences of calls.

use vstd::prelude::*;
use crate::resilience::BreakerModel;
use crate::resilience::CircuitState;
use crate::resilience::elapsed_between;

verus! {

/// One call through the breaker: when it arrived, and how and when its
/// operation ended if the breaker let it through.
pub struct CallEvent {
    pub arrival: nat,
    pub succeeded: bool,
    pub end: nat,
}

/// The breaker after the given calls, made one after the other.
pub open spec fn after_calls(breaker: BreakerModel, calls: Seq<CallEvent>) -> BreakerModel
    decreases calls.len(),
{
    if calls.len() == 0 {
        breaker
    } else {
        let last = calls.last();
        after_calls(breaker, calls.drop_last()).on_call(last.arrival, last.succeeded, last.end)
    }
}

/// A breaker whose counters and thresholds fit their machine types.
pub open spec fn in_range(breaker: BreakerModel) -> bool {
    &&& breaker.failure_threshold <= u32::MAX
    &&& breaker.success_threshold <= u32::MAX
    &&& breaker.failure_count <= u32::MAX
    &&& breaker.success_count <= u32::MAX
}

proof fn failures_accumulate(breaker: BreakerModel, calls: Seq<CallEvent>)
    requires
        breaker.wf(),
        in_range(breaker),
        breaker.state == CircuitState::Closed,
        calls.len() <= breaker.failure_threshold,
        forall|i: int| 0 <= i < calls.len() ==> !(#[trigger] calls[i]).succeeded,
    ensures
        ({
            let after = after_calls(breaker, calls);
            &&& after.wf()
            &&& in_range(after)
            &&& after.failure_threshold == breaker.failure_threshold
            &&& after.state != CircuitState::HalfOpen
            &&& after.state == CircuitState::Closed ==> after.failure_count >= calls.len()
            &&& after.state == CircuitState::Closed && calls.len() >= 1 ==> after.failure_count
                < after.failure_threshold
        }),
    decreases calls.len(),
{
    if calls.len() > 0 {
        let earlier = calls.drop_last();
        assert forall|i: int| 0 <= i < earlier.len() implies !(#[trigger] earlier[i]).succeeded by {
            assert(earlier[i] == calls[i]);
        }
        failures_accumulate(breaker, earlier);
        assert(!calls[calls.len() - 1].succeeded);
    }
}

/// A closed breaker is open after as many consecutive failing calls as its
/// failure threshold says, whenever those calls arrive and end; the threshold
/// is at least one.
pub proof fn threshold_failures_open_the_circuit(breaker: BreakerModel, calls: Seq<CallEvent>)
    requires
        breaker.wf(),
        in_range(breaker),
        breaker.state == CircuitState::Closed,
        breaker.failure_threshold >= 1,
        calls.len() == breaker.failure_threshold,
        forall|i: int| 0 <= i < calls.len() ==> !(#[trigger] calls[i]).succeeded,
    ensures
        after_calls(breaker, calls).state == CircuitState::Open,
{
    failures_accumulate(breaker, calls);
}

/// While a breaker is open and its reset timeout still runs, every call is
/// refused and leaves the breaker exactly as it was.
pub proof fn open_circuit_refuses_until_timeout(breaker: BreakerModel, calls: Seq<CallEvent>)
    requires
        breaker.wf(),
        breaker.state == CircuitState::Open,
        forall|i: int|
            0 <= i < calls.len() ==> elapsed_between(
                breaker.last_failure_time.unwrap(),
                (#[trigger] calls[i]).arrival,
            ) < breaker.reset_timeout,
    ensures
        after_calls(breaker, calls) == breaker,
        forall|i: int|
            0 <= i < calls.len() ==> !after_calls(breaker, #[trigger] calls.take(i)).lets_through(
                calls[i].arrival,
            ),
    decreases calls.len(),
{
    if calls.len() > 0 {
        let earlier = calls.drop_last();
        assert forall|i: int| 0 <= i < earlier.len() implies elapsed_between(
            breaker.last_failure_time.unwrap(),
            (#[trigger] earlier[i]).arrival,
        ) < breaker.reset_timeout by {
            assert(earlier[i] == calls[i]);
        }
        open_circuit_refuses_until_timeout(breaker, earlier);
        assert(elapsed_between(
            breaker.last_failure_time.unwrap(),
            calls[calls.len() - 1].arrival,
        ) < breaker.reset_timeout);
        assert forall|i: int| 0 <= i < calls.len() implies !after_calls(
            breaker,
            #[trigger] calls.take(i),
        ).lets_through(calls[i].arrival) by {
            assert(elapsed_between(breaker.last_failure_time.unwrap(), calls[i].arrival)
                < breaker.reset_timeout);
            if i < earlier.len() {
                assert(calls.take(i) =~= earlier.take(i));
                assert(earlier[i] == calls[i]);
            } else {
                assert(calls.take(i) =~= earlier);
            }
        }
    }
}

/// Once the reset timeout of an open breaker has run out, the next call is
/// let through by a breaker that has gone over to probing with no success
/// counted yet, so that its operation runs and its outcome is recorded.
pub proof fn call_after_timeout_probes(
    breaker: BreakerModel,
    arrival: nat,
    succeeded: bool,
    end: nat,
)
    requires
        breaker.wf(),
        breaker.state == CircuitState::Open,
        elapsed_between(breaker.last_failure_time.unwrap(), arrival) >= breaker.reset_timeout,
    ensures
        breaker.lets_through(arrival),
        breaker.on_arrival(arrival).state == CircuitState::HalfOpen,
        breaker.on_arrival(arrival).success_count == 0,
        breaker.on_call(arrival, succeeded, end) == breaker.on_arrival(arrival).on_outcome(
            succeeded,
            end,
        ),
{
}

proof fn successes_accumulate(breaker: BreakerModel, calls: Seq<CallEvent>)
    requires
        breaker.wf(),
        in_range(breaker),
        breaker.state == CircuitState::HalfOpen,
        calls.len() <= breaker.success_threshold,
        forall|i: int| 0 <= i < calls.len() ==> (#[trigger] calls[i]).succeeded,
    ensures
        ({
            let after = after_calls(breaker, calls);
            &&& after.wf()
            &&& in_range(after)
            &&& after.success_threshold == breaker.success_threshold
            &&& after.state != CircuitState::Open
            &&& after.state == CircuitState::Closed ==> after.failure_count == 0
            &&& after.state == CircuitState::HalfOpen ==> after.success_count >= calls.len()
            &&& after.state == CircuitState::HalfOpen && calls.len() >= 1 ==> after.success_count
                < after.success_threshold
        }),
    decreases calls.len(),
{
    if calls.len() > 0 {
        let earlier = calls.drop_last();
        assert forall|i: int| 0 <= i < earlier.len() implies (#[trigger] earlier[i]).succeeded by {
            assert(earlier[i] == calls[i]);
        }
        successes_accumulate(breaker, earlier);
        assert(calls[calls.len() - 1].succeeded);
    }
}

/// A probing breaker is closed, with no failure counted, after as many
/// consecutive successful calls as its success threshold says; the threshold
/// is at least one.
pub proof fn threshold_successes_close_the_circuit(breaker: BreakerModel, calls: Seq<CallEvent>)
    requires
        breaker.wf(),
        in_range(breaker),
        breaker.state == CircuitState::HalfOpen,
        breaker.success_threshold >= 1,
        calls.len() == breaker.success_threshold,
        forall|i: int| 0 <= i < calls.len() ==> (#[trigger] calls[i]).succeeded,
    ensures
        after_calls(breaker, calls).state == CircuitState::Closed,
        after_calls(breaker, calls).failure_count == 0,
{
    successes_accumulate(breaker, calls);
}

/// One failure while probing reopens the circuit, however many successes
/// were counted before, and records when.
pub proof fn probe_failure_reopens(breaker: BreakerModel, arrival: nat, end: nat)
    requires
        breaker.state == CircuitState::HalfOpen,
    ensures
        breaker.lets_through(arrival),
        breaker.on_call(arrival, false, end).state == CircuitState::Open,
        breaker.on_call(arrival, false, end).last_failure_time == Some(end),
{
}

/// The invariants of the counters. Closing the circuit, by probes or by
/// hand, clears the failures. Starting to probe clears the successes. Every
/// step that opens the circuit records when. A call counts a failure only
/// where it was let through, by a closed or a probing breaker, and failed.
pub proof fn transitions_keep_the_counters(
    breaker: BreakerModel,
    arrival: nat,
    succeeded: bool,
    end: nat,
)
    requires
        breaker.wf(),
    ensures
        breaker.on_reset().state == CircuitState::Closed,
        breaker.on_reset().failure_count == 0 && breaker.on_reset().success_count == 0,
        breaker.state != CircuitState::Closed && breaker.on_success().state
            == CircuitState::Closed ==> breaker.on_success().failure_count == 0,
        breaker.state != CircuitState::HalfOpen && breaker.on_arrival(arrival).state
            == CircuitState::HalfOpen ==> breaker.on_arrival(arrival).success_count == 0,
        breaker.state != CircuitState::Open && breaker.on_failure(end).state
            == CircuitState::Open ==> breaker.on_failure(end).last_failure_time == Some(end),
        breaker.on_call(arrival, succeeded, end).failure_count > breaker.failure_count ==> {
            &&& !succeeded
            &&& breaker.lets_through(arrival)
            &&& breaker.on_arrival(arrival).state != CircuitState::Open
        },
        breaker.on_arrival(arrival).wf(),
        breaker.on_success().wf(),
        breaker.on_failure(end).wf(),
        breaker.on_call(arrival, succeeded, end).wf(),
        breaker.on_reset().wf(),
{
}

} // verus!
