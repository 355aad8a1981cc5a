//! The logging controller: its state, its requests and its operations.
//!
//! - [`state`]: one component's logging state, and the registry of all.
//! - [`command`]: the collection command and the planning of its launch.
//! - [`routes`]: requests, responses and the operations `start`, `stop` and
//!   `status`.
//! - [`laws`]: what holds of the operations on every state.

pub mod command;
pub mod laws;
pub mod routes;
pub mod state;

pub use self::routes::{
    complete_start, start, status, stop, ComponentLoggingResponse, LoggingResponse, Outcome,
    StartDecision, StartLoggingRequest, StopLoggingRequest,
};
pub use self::state::{ComponentState, LoggerState};
