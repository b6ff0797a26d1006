//! A circuit breaker that guards a fallible operation, and a registry of
//! independent breakers addressed by key.

pub mod breaker;
pub mod laws;
pub mod manager;

pub use breaker::{BreakerModel, CircuitBreaker, CircuitBreakerError, State};
pub use manager::{CircuitBreakerManager, CircuitBreakerManagerError};
