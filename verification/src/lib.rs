//! Core of a small health-check service: a singleton database session
//! established exactly once at startup, shared read-only application state,
//! handlers that derive liveness and readiness replies, and a lifecycle
//! coordinator that drains in-flight requests on a termination signal.

pub mod config;
pub mod health;
pub mod init;
pub mod lifecycle;
pub mod router;
pub mod state;
