//! Multi-provider calendar aggregation core.
//!
//! The crate normalizes calendar data from heterogeneous providers (Google,
//! Microsoft) into one unified representation, drives the per-account fetch
//! protocol as an explicit state machine, and folds per-account results into
//! an aggregate store, tolerating partial failures.

pub mod error;
pub mod json;
pub mod lifecycle;
pub mod models;
pub mod services;
pub mod store;

pub use error::Error;
