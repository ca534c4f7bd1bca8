//! Client-side request orchestration: a layered configuration bag, attempt
//! counting, auth option resolution, retry strategies and the call state machine.

pub mod attempts;
pub mod auth;
pub mod config_bag;
pub mod context;
pub mod never;
pub mod orchestrator;
pub mod query_errors;
pub mod retries;
pub mod standard;
