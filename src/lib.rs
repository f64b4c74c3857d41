//! Credential resolution, circuit breaking and policy admission for a
//! multi-tenant secret-rotation service.
//!
//! The decisions of the service live here and are verified: the per-key
//! circuit breaker, the retry and fallback state machine of the credential
//! resolver, the policy evaluator with its scope and maintenance-window
//! rules, the aggregation of policy results and the admission step of a
//! rotation. Reading clocks, time zones and regular expressions goes through
//! a few small trusted wrappers.

pub mod clock;
pub mod circuit_breaker;
pub mod text;
pub mod glob;
pub mod zone;
pub mod ids;
pub mod policy;
pub mod resolver;
pub mod provider_config;
pub mod evaluator;
pub mod engine;
pub mod connector;
pub mod rotation;
pub mod alerts;
pub mod auth;
pub mod callback;
