use std::collections::HashMap;
use vstd::prelude::*;

use crate::breaker::{BreakerModel, CircuitBreaker, CircuitBreakerError};

verus! {

broadcast use vstd::std_specs::hash::group_hash_axioms;

/// The 64-bit FNV-1a digest of a byte string.
pub uninterp spec fn fnv_digest(bytes: Seq<u8>) -> u64;

/// Relies on fnv::FnvHasher: starting from its default state, `write` over
/// the key's bytes and then `finish` give a digest that depends on those
/// bytes alone.
#[verifier::external_body]
fn compute_key(key: &[u8]) -> (r: u64)
    ensures
        r == fnv_digest(key@),
{
    let mut hasher = fnv::FnvHasher::default();
    std::hash::Hasher::write(&mut hasher, key);
    std::hash::Hasher::finish(&hasher)
}

/// Why a call through the registry did not produce a value.
#[derive(Debug)]
pub enum CircuitBreakerManagerError<E> {
    /// No breaker is registered under the key: the operation was not attempted.
    UnknownKey,
    /// The key's breaker refused the call or the operation failed.
    CircuitBreakerError(CircuitBreakerError<E>),
}

/// Independent breakers addressed by key. A key is reduced to its 64-bit
/// digest; keys with the same digest share one breaker.
pub struct CircuitBreakerManager {
    circuit_breakers: HashMap<u64, CircuitBreaker>,
}

impl View for CircuitBreakerManager {
    type V = Map<u64, BreakerModel>;

    closed spec fn view(&self) -> Map<u64, BreakerModel> {
        self.circuit_breakers@.map_values(|b: CircuitBreaker| b@)
    }
}

impl CircuitBreakerManager {
    /// A registry with no breaker in it.
    pub fn new() -> (r: CircuitBreakerManager)
        ensures
            r@ == Map::<u64, BreakerModel>::empty(),
    {
        let r = CircuitBreakerManager { circuit_breakers: HashMap::new() };
        assert(r@ =~= Map::<u64, BreakerModel>::empty());
        r
    }

    /// Registers a fresh breaker under `key`, replacing the one, and the
    /// state it had built up, that was there before.
    pub fn add_circuit_breaker(&mut self, key: &[u8], failure_threshold: u32, reset_timeout: u64)
        ensures
            final(self)@ == old(self)@.insert(
                fnv_digest(key@),
                BreakerModel::fresh(failure_threshold as nat, reset_timeout as nat),
            ),
    {
        let hashed_key = compute_key(key);
        let circuit_breaker = CircuitBreaker::new(failure_threshold, reset_timeout);
        self.circuit_breakers.insert(hashed_key, circuit_breaker);
        assert(self@ =~= old(self)@.insert(
            hashed_key,
            BreakerModel::fresh(failure_threshold as nat, reset_timeout as nat),
        ));
    }

    /// The breaker registered under `key`, if any.
    pub fn circuit_breaker(&self, key: &[u8]) -> (r: Option<&CircuitBreaker>)
        ensures
            match r {
                Some(b) => self@.contains_key(fnv_digest(key@)) && b@ == self@[fnv_digest(
                    key@,
                )],
                None => !self@.contains_key(fnv_digest(key@)),
            },
    {
        let hashed_key = compute_key(key);
        self.circuit_breakers.get(&hashed_key)
    }

    /// Runs `operation` under the breaker registered for `key`, the clock
    /// reading `now`.
    ///
    /// Without a breaker for the key the call fails with `UnknownKey` and
    /// nothing changes. Otherwise the key's breaker handles the call as
    /// `CircuitBreaker::try_call` does, and its error comes back wrapped.
    pub fn try_call<F, T, E>(&mut self, key: &[u8], now: u64, operation: F) -> (r: Result<
        T,
        CircuitBreakerManagerError<E>,
    >) where F: FnOnce() -> Result<T, E>
        requires
            operation.requires(()),
        ensures
            ({
                let d = fnv_digest(key@);
                let b = old(self)@[d];
                match r {
                    Ok(v) => {
                        &&& old(self)@.contains_key(d)
                        &&& b.admits(now)
                        &&& operation.ensures((), Ok(v))
                        &&& final(self)@ == old(self)@.insert(d, b.on_call(now).on_success())
                    },
                    Err(CircuitBreakerManagerError::UnknownKey) => {
                        &&& !old(self)@.contains_key(d)
                        &&& final(self)@ == old(self)@
                    },
                    Err(
                        CircuitBreakerManagerError::CircuitBreakerError(
                            CircuitBreakerError::OpenCircuit,
                        ),
                    ) => {
                        &&& old(self)@.contains_key(d)
                        &&& !b.admits(now)
                        &&& final(self)@ == old(self)@
                    },
                    Err(
                        CircuitBreakerManagerError::CircuitBreakerError(
                            CircuitBreakerError::OperationError(e),
                        ),
                    ) => {
                        &&& old(self)@.contains_key(d)
                        &&& b.admits(now)
                        &&& operation.ensures((), Err(e))
                        &&& final(self)@ == old(self)@.insert(d, b.on_call(now).on_failure(now))
                    },
                }
            }),
            !old(self)@.contains_key(fnv_digest(key@)) ==> r is Err && r->Err_0 is UnknownKey,
    {
        let hashed_key = compute_key(key);
        let removed = self.circuit_breakers.remove(&hashed_key);
        match removed {
            None => {
                assert(self@ =~= old(self)@);
                Err(CircuitBreakerManagerError::UnknownKey)
            },
            Some(circuit_breaker) => {
                let mut circuit_breaker = circuit_breaker;
                let r = circuit_breaker.try_call(now, operation);
                let ghost after = circuit_breaker@;
                self.circuit_breakers.insert(hashed_key, circuit_breaker);
                assert(self@ =~= old(self)@.insert(hashed_key, after));
                match r {
                    Ok(v) => Ok(v),
                    Err(e) => Err(CircuitBreakerManagerError::CircuitBreakerError(e)),
                }
            },
        }
    }
}

} // verus!
