//! Circuit breaker: a call-gating state machine that stops invoking a failing
//! dependency until it shows signs of recovery.
//!
//! Time is a count of milliseconds on a monotonic clock. Every transition
//! takes the instant at which it happens as an argument; [`CircuitBreaker::call`]
//! reads the breaker's own clock.

use vstd::prelude::*;

pub mod laws;

use std::time::Instant;
use std::time::Duration;
use vstd::string::StringExecFns;

verus! {

/// The state of a circuit breaker.
#[derive(Debug, Clone, Copy, PartialEq, Eq, Structural)]
pub enum CircuitState {
    /// Normal operation: calls are let through.
    Closed,
    /// The failure threshold was reached: calls are refused.
    Open,
    /// Recovery is being probed: calls are let through and counted.
    HalfOpen,
}

/// What a refused or failed call through the breaker returns.
#[derive(Debug)]
pub enum CircuitBreakerOutcome<E> {
    /// The breaker refused the call; the operation was not attempted.
    CircuitOpen,
    /// The operation ran and failed with this error.
    OperationError(E),
}

/// The result of a call through the breaker.
pub type CircuitBreakerResult<T, E> = Result<T, CircuitBreakerOutcome<E>>;

/// The ways in which a protected call can end badly, as a single error value
/// for callers that carry the operation's error as text.
#[derive(Debug, Clone)]
pub enum CircuitBreakerError {
    /// The circuit is open and refuses calls.
    Open,
    /// The operation timed out.
    Timeout,
    /// The operation failed, with its error as text.
    OperationFailed(String),
}

impl CircuitBreakerError {
    /// What [`CircuitBreakerError::message`] returns.
    pub open spec fn message_text(self) -> Seq<char> {
        match self {
            CircuitBreakerError::Open => "Circuit breaker is open. Service unavailable."@,
            CircuitBreakerError::Timeout => "Operation timed out"@,
            CircuitBreakerError::OperationFailed(detail) => "Operation failed: "@ + detail@,
        }
    }

    /// The error as a line of text.
    pub fn message(&self) -> (text: String)
        ensures
            text@ == self.message_text(),
    {
        match self {
            CircuitBreakerError::Open => String::from_str(
                "Circuit breaker is open. Service unavailable.",
            ),
            CircuitBreakerError::Timeout => String::from_str("Operation timed out"),
            CircuitBreakerError::OperationFailed(detail) => String::from_str(
                "Operation failed: ",
            ).concat(detail.as_str()),
        }
    }
}

impl<E> CircuitBreakerOutcome<E> {
    /// What [`CircuitBreakerOutcome::message`] returns, given the operation's
    /// error as text.
    pub open spec fn message_text(self, detail: Seq<char>) -> Seq<char> {
        match self {
            CircuitBreakerOutcome::CircuitOpen => "Circuit breaker is open"@,
            CircuitBreakerOutcome::OperationError(_) => "Operation error: "@ + detail,
        }
    }

    /// The outcome as a line of text; `describe` turns the operation's error
    /// into text.
    pub fn message<F: Fn(&E) -> String>(&self, describe: F) -> (text: String)
        requires
            forall|error: &E| describe.requires((error,)),
        ensures
            match self {
                CircuitBreakerOutcome::CircuitOpen => text@ == "Circuit breaker is open"@,
                CircuitBreakerOutcome::OperationError(error) => exists|detail: String|
                    describe.ensures((error,), detail) && text@ == "Operation error: "@
                        + detail@,
            },
    {
        match self {
            CircuitBreakerOutcome::CircuitOpen => String::from_str("Circuit breaker is open"),
            CircuitBreakerOutcome::OperationError(error) => {
                let detail = describe(error);
                String::from_str("Operation error: ").concat(detail.as_str())
            },
        }
    }
}

/// Milliseconds that lie between `then` and `now`; zero where `now` is the earlier.
pub open spec fn elapsed_between(then: nat, now: nat) -> nat {
    if now >= then {
        (now - then) as nat
    } else {
        0
    }
}

/// A counter one step further, held at the largest 32-bit value.
pub open spec fn bump(count: nat) -> nat {
    if count < u32::MAX {
        count + 1
    } else {
        count
    }
}

/// The breaker as a mathematical record.
pub struct BreakerModel {
    pub state: CircuitState,
    pub failure_threshold: nat,
    pub failure_count: nat,
    pub success_threshold: nat,
    pub success_count: nat,
    pub reset_timeout: nat,
    pub last_failure_time: Option<nat>,
}

impl BreakerModel {
    /// An open breaker knows when it opened.
    pub open spec fn wf(self) -> bool {
        self.state == CircuitState::Open ==> self.last_failure_time.is_some()
    }

    /// The breaker that `new` builds.
    pub open spec fn initial(failure_threshold: nat, reset_timeout: nat) -> Self {
        BreakerModel {
            state: CircuitState::Closed,
            failure_threshold,
            failure_count: 0,
            success_threshold: 2,
            success_count: 0,
            reset_timeout,
            last_failure_time: None,
        }
    }

    /// The reset timeout has run out at `now`.
    pub open spec fn probe_due(self, now: nat) -> bool {
        self.last_failure_time.is_some() && elapsed_between(
            self.last_failure_time.unwrap(),
            now,
        ) >= self.reset_timeout
    }

    /// A call arriving at `now` is let through.
    pub open spec fn lets_through(self, now: nat) -> bool {
        self.state != CircuitState::Open || self.probe_due(now)
    }

    /// The breaker after it has decided on a call arriving at `now`: an open
    /// breaker whose timeout has run out starts probing, any other is unchanged.
    pub open spec fn on_arrival(self, now: nat) -> Self {
        if self.state == CircuitState::Open && self.probe_due(now) {
            BreakerModel { state: CircuitState::HalfOpen, success_count: 0, ..self }
        } else {
            self
        }
    }

    /// The breaker after an operation has succeeded.
    pub open spec fn on_success(self) -> Self {
        match self.state {
            CircuitState::HalfOpen => {
                if bump(self.success_count) >= self.success_threshold {
                    BreakerModel {
                        state: CircuitState::Closed,
                        failure_count: 0,
                        success_count: 0,
                        ..self
                    }
                } else {
                    BreakerModel { success_count: bump(self.success_count), ..self }
                }
            },
            CircuitState::Closed => BreakerModel { failure_count: 0, ..self },
            CircuitState::Open => self,
        }
    }

    /// The breaker after an operation has failed at `now`.
    pub open spec fn on_failure(self, now: nat) -> Self {
        let count = bump(self.failure_count);
        if self.state == CircuitState::HalfOpen || count >= self.failure_threshold {
            BreakerModel {
                state: CircuitState::Open,
                failure_count: count,
                last_failure_time: Some(now),
                ..self
            }
        } else {
            BreakerModel { failure_count: count, ..self }
        }
    }

    /// The breaker after an operation has ended at `now`, well or not.
    pub open spec fn on_outcome(self, succeeded: bool, now: nat) -> Self {
        if succeeded {
            self.on_success()
        } else {
            self.on_failure(now)
        }
    }

    /// The breaker after a whole call: it arrives at `arrival`, and where it is
    /// let through its operation ends at `end` with the given outcome.
    pub open spec fn on_call(self, arrival: nat, succeeded: bool, end: nat) -> Self {
        if self.lets_through(arrival) {
            self.on_arrival(arrival).on_outcome(succeeded, end)
        } else {
            self
        }
    }

    /// The breaker after a manual reset.
    pub open spec fn on_reset(self) -> Self {
        BreakerModel { state: CircuitState::Closed, failure_count: 0, success_count: 0, ..self }
    }
}

/// A circuit breaker for one protected dependency.
pub struct CircuitBreaker {
    state: CircuitState,
    failure_threshold: u32,
    failure_count: u32,
    success_threshold: u32,
    success_count: u32,
    reset_timeout: u64,
    last_failure_time: Option<u64>,
    epoch: Instant,
}

impl View for CircuitBreaker {
    type V = BreakerModel;

    closed spec fn view(&self) -> BreakerModel {
        BreakerModel {
            state: self.state,
            failure_threshold: self.failure_threshold as nat,
            failure_count: self.failure_count as nat,
            success_threshold: self.success_threshold as nat,
            success_count: self.success_count as nat,
            reset_timeout: self.reset_timeout as nat,
            last_failure_time: match self.last_failure_time {
                Some(t) => Some(t as nat),
                None => None,
            },
        }
    }
}

/// `std::time::Instant`, a point on the monotonic clock, carried as an opaque value.
#[verifier::external_type_specification]
#[verifier::external_body]
pub struct ExInstant(Instant);

/// `Instant::now` reads the monotonic clock; nothing is claimed of the reading.
pub assume_specification[ Instant::now ]() -> (now: Instant);

/// `Instant::elapsed` gives the time since the instant; nothing is claimed of it.
pub assume_specification[ Instant::elapsed ](instant: &Instant) -> (elapsed: Duration);

/// `Duration::as_millis` gives the duration in whole milliseconds; nothing is
/// claimed of the number.
pub assume_specification[ Duration::as_millis ](duration: &Duration) -> (millis: u128);

/// A count of milliseconds as an instant of the breaker: itself, held at the
/// largest 64-bit number.
pub open spec fn held_millis(millis: u128) -> u64 {
    if millis > u64::MAX {
        u64::MAX
    } else {
        millis as u64
    }
}

/// The instant that a clock shows which has run for `millis` milliseconds.
pub fn clock_reading(millis: u128) -> (instant: u64)
    ensures
        instant == held_millis(millis),
{
    if millis > 0xffff_ffff_ffff_ffffu128 {
        u64::MAX
    } else {
        millis as u64
    }
}

fn step_up(count: u32) -> (next: u32)
    ensures
        next as nat == bump(count as nat),
{
    if count < u32::MAX {
        count + 1
    } else {
        count
    }
}

impl CircuitBreaker {
    /// Every breaker is well formed: one that is open knows when it opened.
    #[verifier::type_invariant]
    closed spec fn well_formed(&self) -> bool {
        self.state == CircuitState::Open ==> self.last_failure_time.is_some()
    }

    /// A closed breaker that opens after `failure_threshold` consecutive
    /// failures, probes again `reset_timeout` milliseconds after it opened, and
    /// closes after two consecutive successful probes.
    pub fn new(failure_threshold: u32, reset_timeout: u64) -> (breaker: Self)
        ensures
            breaker@ == BreakerModel::initial(failure_threshold as nat, reset_timeout as nat),
            breaker@.wf(),
    {
        CircuitBreaker {
            state: CircuitState::Closed,
            failure_threshold,
            failure_count: 0,
            success_threshold: 2,
            success_count: 0,
            reset_timeout,
            last_failure_time: None,
            epoch: Instant::now(),
        }
    }

    /// The same breaker with another number of successful probes needed to close.
    pub fn with_success_threshold(self, threshold: u32) -> (breaker: Self)
        ensures
            breaker@ == (BreakerModel { success_threshold: threshold as nat, ..self@ }),
    {
        proof {
            use_type_invariant(&self);
        }
        let mut breaker = self;
        breaker.success_threshold = threshold;
        breaker
    }

    /// The current state.
    pub fn state(&self) -> (state: CircuitState)
        ensures
            state == self@.state,
            self@.wf(),
    {
        proof {
            use_type_invariant(self);
        }
        self.state
    }

    /// The number of consecutive failures at which the breaker opens.
    pub fn failure_threshold(&self) -> (threshold: u32)
        ensures
            threshold as nat == self@.failure_threshold,
    {
        self.failure_threshold
    }

    /// The number of consecutive successful probes at which the breaker closes.
    pub fn success_threshold(&self) -> (threshold: u32)
        ensures
            threshold as nat == self@.success_threshold,
    {
        self.success_threshold
    }

    /// Milliseconds that the breaker stays open before it probes.
    pub fn reset_timeout(&self) -> (timeout: u64)
        ensures
            timeout as nat == self@.reset_timeout,
    {
        self.reset_timeout
    }

    /// Consecutive failures since the breaker last closed.
    pub fn failure_count(&self) -> (count: u32)
        ensures
            count as nat == self@.failure_count,
    {
        self.failure_count
    }

    /// Consecutive successful probes since the breaker last started probing.
    pub fn success_count(&self) -> (count: u32)
        ensures
            count as nat == self@.success_count,
    {
        self.success_count
    }

    /// The instant at which the breaker last opened, if it ever did.
    pub fn last_failure_time(&self) -> (time: Option<u64>)
        ensures
            time.is_some() == self@.last_failure_time.is_some(),
            time.is_some() ==> time.unwrap() as nat == self@.last_failure_time.unwrap(),
    {
        self.last_failure_time
    }

    /// Milliseconds on the breaker's own clock, which started when it was
    /// built: a reading of the clock, of which nothing holds beforehand.
    pub fn now(&self) -> u64 {
        let elapsed = self.epoch.elapsed();
        clock_reading(elapsed.as_millis())
    }

    /// Decides on a call that arrives at `now`. An open breaker whose timeout
    /// has run out starts probing and lets the call through; an open breaker
    /// whose timeout still runs refuses it and stays as it is; a closed or
    /// probing breaker lets it through unchanged.
    pub fn begin_call(&mut self, now: u64) -> (admitted: bool)
        ensures
            admitted == old(self)@.lets_through(now as nat),
            final(self)@ == old(self)@.on_arrival(now as nat),
            final(self)@.wf(),
            !admitted ==> final(self)@ == old(self)@,
            admitted ==> final(self)@.state != CircuitState::Open,
    {
        proof {
            use_type_invariant(&*self);
        }
        match self.state {
            CircuitState::Open => {
                let due = match self.last_failure_time {
                    Some(opened) => {
                        let elapsed: u64 = if now >= opened {
                            now - opened
                        } else {
                            0
                        };
                        elapsed >= self.reset_timeout
                    },
                    None => false,
                };
                if due {
                    self.success_count = 0;
                    self.state = CircuitState::HalfOpen;
                }
                due
            },
            _ => true,
        }
    }

    /// Records that an operation succeeded.
    pub fn record_success(&mut self)
        ensures
            final(self)@ == old(self)@.on_success(),
            final(self)@.wf(),
    {
        proof {
            use_type_invariant(&*self);
        }
        match self.state {
            CircuitState::HalfOpen => {
                let count = step_up(self.success_count);
                if count >= self.success_threshold {
                    self.state = CircuitState::Closed;
                    self.failure_count = 0;
                    self.success_count = 0;
                } else {
                    self.success_count = count;
                }
            },
            CircuitState::Closed => {
                self.failure_count = 0;
            },
            CircuitState::Open => {},
        }
    }

    /// Records that an operation failed at `now`. A probing breaker opens at
    /// once; any other opens when the failures reach the threshold.
    pub fn record_failure(&mut self, now: u64)
        ensures
            final(self)@ == old(self)@.on_failure(now as nat),
            final(self)@.wf(),
    {
        proof {
            use_type_invariant(&*self);
        }
        let count = step_up(self.failure_count);
        self.failure_count = count;
        let probing = match self.state {
            CircuitState::HalfOpen => true,
            _ => false,
        };
        if probing || count >= self.failure_threshold {
            self.last_failure_time = Some(now);
            self.state = CircuitState::Open;
        }
    }

    /// Records the outcome of an operation that ended at `now` and hands it
    /// on: the value unchanged, the error as `OperationError`.
    pub fn settle<T, E>(&mut self, outcome: Result<T, E>, now: u64) -> (result:
        CircuitBreakerResult<T, E>)
        ensures
            final(self)@ == old(self)@.on_outcome(outcome.is_ok(), now as nat),
            final(self)@.wf(),
            match outcome {
                Ok(value) => result == Ok::<T, CircuitBreakerOutcome<E>>(value),
                Err(error) => result == Err::<T, CircuitBreakerOutcome<E>>(
                    CircuitBreakerOutcome::OperationError(error),
                ),
            },
    {
        match outcome {
            Ok(value) => {
                self.record_success();
                Ok(value)
            },
            Err(error) => {
                self.record_failure(now);
                Err(CircuitBreakerOutcome::OperationError(error))
            },
        }
    }

    /// Runs `operation` through the breaker, with `now` as the instant of both
    /// the decision and the operation's end. A refused call returns
    /// `CircuitOpen` and leaves the breaker as it was; a call let through returns
    /// what the operation returned, recorded in the breaker.
    pub fn call_at<T, E, F: FnOnce() -> Result<T, E>>(&mut self, now: u64, operation: F) -> (result:
        CircuitBreakerResult<T, E>)
        requires
            operation.requires(()),
        ensures
            final(self)@.wf(),
            final(self)@ == old(self)@.on_call(now as nat, result.is_ok(), now as nat),
            match result {
                Ok(value) => old(self)@.lets_through(now as nat) && operation.ensures(
                    (),
                    Ok(value),
                ),
                Err(CircuitBreakerOutcome::OperationError(error)) => old(self)@.lets_through(
                    now as nat,
                ) && operation.ensures((), Err(error)),
                Err(CircuitBreakerOutcome::CircuitOpen) => !old(self)@.lets_through(now as nat),
            },
    {
        if !self.begin_call(now) {
            return Err(CircuitBreakerOutcome::CircuitOpen);
        }
        let outcome = operation();
        self.settle(outcome, now)
    }

    /// Runs `operation` through the breaker on the breaker's own clock, read
    /// once when the call arrives and once when the operation has ended. The
    /// breaker then is what [`BreakerModel::on_call`] gives for some pair of
    /// instants.
    pub fn call<T, E, F: FnOnce() -> Result<T, E>>(&mut self, operation: F) -> (result:
        CircuitBreakerResult<T, E>)
        requires
            operation.requires(()),
        ensures
            final(self)@.wf(),
            exists|arrival: nat, end: nat|
                final(self)@ == #[trigger] old(self)@.on_call(arrival, result.is_ok(), end) && (old(
                    self,
                )@.lets_through(arrival) <==> !(result matches Err(
                    CircuitBreakerOutcome::CircuitOpen,
                ))),
            old(self)@.state != CircuitState::Open ==> !(result matches Err(
                CircuitBreakerOutcome::CircuitOpen,
            )),
            match result {
                Ok(value) => operation.ensures((), Ok(value)),
                Err(CircuitBreakerOutcome::OperationError(error)) => operation.ensures(
                    (),
                    Err(error),
                ),
                Err(CircuitBreakerOutcome::CircuitOpen) => final(self)@ == old(self)@,
            },
    {
        let arrival = self.now();
        if !self.begin_call(arrival) {
            assert(self@ == old(self)@.on_call(arrival as nat, false, arrival as nat));
            return Err(CircuitBreakerOutcome::CircuitOpen);
        }
        let outcome = operation();
        let end = self.now();
        let result = self.settle(outcome, end);
        assert(self@ == old(self)@.on_call(arrival as nat, result.is_ok(), end as nat));
        result
    }

    /// Forces the breaker closed with both counters at zero.
    pub fn reset(&mut self)
        ensures
            final(self)@ == old(self)@.on_reset(),
            final(self)@.wf(),
    {
        self.state = CircuitState::Closed;
        self.failure_count = 0;
        self.success_count = 0;
    }
}

} // verus!
