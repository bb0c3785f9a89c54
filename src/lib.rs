//! Orchestration logic for inspecting a persistent volume claim through a
//! short-lived pod: request validation, pod construction, readiness,
//! session relay decisions, cleanup ordering and the stale-pod sweep.

pub mod readiness;
pub mod labels;
pub mod pod_spec;
pub mod sweep;
pub mod session;
pub mod credential;
pub mod relay;
pub mod commands;
pub mod request;
