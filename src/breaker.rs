use vstd::prelude::*;

verus! {

/// Where a breaker stands. Instants are readings of the caller's monotonic
/// clock, in the same unit as the breaker's reset timeout.
#[derive(Clone, Copy, Debug, PartialEq, Eq, Structural)]
pub enum State {
    /// Calls are attempted; consecutive failures are counted.
    Closed,
    /// Calls are refused until the clock reads the given instant.
    Open(u64),
    /// One trial call is admitted to decide whether to close again.
    HalfOpen,
}

/// Why a guarded call did not produce a value.
#[derive(Debug)]
pub enum CircuitBreakerError<E> {
    /// The breaker is open: the operation was not attempted.
    OpenCircuit,
    /// The operation ran and failed with this error.
    OperationError(E),
}

/// The instant `timeout` after `now`, held at the end of the clock's range.
pub open spec fn deadline(now: u64, timeout: nat) -> u64 {
    if now + timeout <= u64::MAX {
        (now + timeout) as u64
    } else {
        u64::MAX
    }
}

/// The abstract value of a breaker.
pub struct BreakerModel {
    pub state: State,
    pub failure_count: nat,
    pub failure_threshold: nat,
    pub reset_timeout: nat,
}

impl BreakerModel {
    /// A breaker as it is made: closed, with no failure counted.
    pub open spec fn fresh(failure_threshold: nat, reset_timeout: nat) -> BreakerModel {
        BreakerModel { state: State::Closed, failure_count: 0, failure_threshold, reset_timeout }
    }

    /// Whether a call made when the clock reads `now` runs the operation.
    pub open spec fn admits(self, now: u64) -> bool {
        match self.state {
            State::Open(reset_at) => now >= reset_at,
            _ => true,
        }
    }

    /// The breaker once a call at `now` has been admitted or refused: an
    /// expired open breaker moves to half-open, everything else stays.
    pub open spec fn on_call(self, now: u64) -> BreakerModel {
        match self.state {
            State::Open(reset_at) => if now >= reset_at {
                BreakerModel { state: State::HalfOpen, ..self }
            } else {
                self
            },
            _ => self,
        }
    }

    /// The breaker once an admitted call has succeeded: a closed breaker keeps
    /// its count, any other closes with the count cleared.
    pub open spec fn on_success(self) -> BreakerModel {
        match self.state {
            State::Closed => self,
            _ => BreakerModel { state: State::Closed, failure_count: 0, ..self },
        }
    }

    /// The breaker once an admitted call has failed at `now`: a closed breaker
    /// counts the failure and opens when the count passes the threshold; any
    /// other opens again.
    pub open spec fn on_failure(self, now: u64) -> BreakerModel {
        match self.state {
            State::Closed => {
                let count = self.failure_count + 1;
                if count > self.failure_threshold {
                    BreakerModel {
                        state: State::Open(deadline(now, self.reset_timeout)),
                        failure_count: count,
                        ..self
                    }
                } else {
                    BreakerModel { failure_count: count, ..self }
                }
            },
            _ => BreakerModel { state: State::Open(deadline(now, self.reset_timeout)), ..self },
        }
    }
}

/// Guards one logical operation. Callers that share a breaker serialize
/// their calls on it, each call running from admission to its outcome
/// without interleaving.
pub struct CircuitBreaker {
    state: State,
    failure_threshold: u32,
    failure_count: u64,
    reset_timeout: u64,
}

impl View for CircuitBreaker {
    type V = BreakerModel;

    closed spec fn view(&self) -> BreakerModel {
        BreakerModel {
            state: self.state,
            failure_count: self.failure_count as nat,
            failure_threshold: self.failure_threshold as nat,
            reset_timeout: self.reset_timeout as nat,
        }
    }
}

impl CircuitBreaker {
    #[verifier::type_invariant]
    spec fn counted(&self) -> bool {
        &&& self.failure_count <= self.failure_threshold as u64 + 1
        &&& self.state == State::Closed ==> self.failure_count <= self.failure_threshold as u64
    }

    /// A closed breaker that opens once more than `failure_threshold`
    /// consecutive failures have been counted, and stays open for
    /// `reset_timeout` clock units.
    pub fn new(failure_threshold: u32, reset_timeout: u64) -> (r: CircuitBreaker)
        ensures
            r@ == BreakerModel::fresh(failure_threshold as nat, reset_timeout as nat),
    {
        CircuitBreaker { state: State::Closed, failure_threshold, failure_count: 0, reset_timeout }
    }

    /// Decides whether a call arriving when the clock reads `now` runs the
    /// operation. An open breaker whose timeout has run out moves to
    /// half-open and admits this call as its probe; one still inside its
    /// timeout refuses and stays as it is.
    pub fn begin_call(&mut self, now: u64) -> (admitted: bool)
        ensures
            admitted == old(self)@.admits(now),
            final(self)@ == old(self)@.on_call(now),
    {
        proof {
            use_type_invariant(&*self);
        }
        match self.state {
            State::Open(reset_at) => {
                if now < reset_at {
                    false
                } else {
                    self.state = State::HalfOpen;
                    true
                }
            },
            _ => true,
        }
    }

    /// Records that an admitted call succeeded.
    pub fn record_success(&mut self)
        ensures
            final(self)@ == old(self)@.on_success(),
    {
        match self.state {
            State::Closed => {},
            _ => {
                self.failure_count = 0;
                self.state = State::Closed;
            },
        }
    }

    /// Records that an admitted call failed, the clock reading `now`.
    pub fn record_failure(&mut self, now: u64)
        ensures
            final(self)@ == old(self)@.on_failure(now),
    {
        proof {
            use_type_invariant(&*self);
        }
        let reset_at = now.saturating_add(self.reset_timeout);
        match self.state {
            State::Closed => {
                let count = self.failure_count + 1;
                if count > self.failure_threshold as u64 {
                    self.state = State::Open(reset_at);
                }
                self.failure_count = count;
            },
            _ => {
                self.state = State::Open(reset_at);
            },
        }
    }

    /// Runs `operation` under the breaker, the clock reading `now`.
    ///
    /// Refused calls return `OpenCircuit` and leave the breaker unchanged.
    /// An admitted call runs the operation once: its value is returned, or its
    /// error wrapped in `OperationError`, and the outcome is recorded.
    pub fn try_call<F, T, E>(&mut self, now: u64, operation: F) -> (r: Result<
        T,
        CircuitBreakerError<E>,
    >) where F: FnOnce() -> Result<T, E>
        requires
            operation.requires(()),
        ensures
            !old(self)@.admits(now) ==> r is Err && r->Err_0 is OpenCircuit,
            match r {
                Ok(v) => {
                    &&& old(self)@.admits(now)
                    &&& operation.ensures((), Ok(v))
                    &&& final(self)@ == old(self)@.on_call(now).on_success()
                },
                Err(CircuitBreakerError::OpenCircuit) => {
                    &&& !old(self)@.admits(now)
                    &&& final(self)@ == old(self)@
                },
                Err(CircuitBreakerError::OperationError(e)) => {
                    &&& old(self)@.admits(now)
                    &&& operation.ensures((), Err(e))
                    &&& final(self)@ == old(self)@.on_call(now).on_failure(now)
                },
            },
    {
        if !self.begin_call(now) {
            return Err(CircuitBreakerError::OpenCircuit);
        }
        match operation() {
            Ok(v) => {
                self.record_success();
                Ok(v)
            },
            Err(e) => {
                self.record_failure(now);
                Err(CircuitBreakerError::OperationError(e))
            },
        }
    }

    /// Where the breaker stands.
    pub fn state(&self) -> (r: State)
        ensures
            r == self@.state,
    {
        self.state
    }

    /// Consecutive failures counted while closed.
    pub fn failure_count(&self) -> (r: u64)
        ensures
            r == self@.failure_count,
    {
        self.failure_count
    }

    /// The number of consecutive failures a closed breaker tolerates.
    pub fn failure_threshold(&self) -> (r: u32)
        ensures
            r == self@.failure_threshold,
    {
        self.failure_threshold
    }

    /// How long the breaker stays open once tripped.
    pub fn reset_timeout(&self) -> (r: u64)
        ensures
            r == self@.reset_timeout,
    {
        self.reset_timeout
    }
}

} // verus!
