//! Supervision of a long-lived, failure-prone source of events.
//!
//! A source has to be established before it can be polled, and either step
//! can fail at any time. This crate holds the rules by which such a source is
//! kept alive, free of any transport, clock or runtime:
//!
//! - [`Status`] tracks whether the connection is healthy, and tells a new
//!   outage from one that goes on;
//! - [`LastRepeatIter`] paces the attempts to reconnect: it walks through a
//!   schedule of delays and stays on the last one;
//! - [`Monitor`] is the supervisor as a state machine: it is told how each
//!   call to the source went, and answers with what to publish, how long to
//!   wait and when to stop.
//!
//! What holds of a monitor over a whole run is proved in [`trace`].

pub mod monitor;
pub mod repeat_last;
pub mod status;
pub mod trace;

pub use crate::monitor::{ConfigError, Effect, Monitor, Outcome, Phase, StepError};
pub use crate::repeat_last::LastRepeatIter;
pub use crate::status::{Severity, Status};
