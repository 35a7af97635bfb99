//! Resilience primitives for backend services: a circuit breaker, a saga
//! orchestrator and a sliding-window admission controller, together with the
//! plain configuration values of the surrounding service glue.

pub mod common;
pub mod resilience;
pub mod rate_limit;
pub mod saga;
pub mod server;
pub mod middleware;
pub mod messaging;
pub mod text;
pub mod cors;
pub mod observability;
