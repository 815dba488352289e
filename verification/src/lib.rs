//! A retry combinator for asynchronous operations.
//!
//! Given a factory that produces a fresh asynchronous operation on each
//! invocation, the combinator drives the operation to completion and, on
//! failure, re-invokes the factory to try again, governed by two independent
//! optional limits: a maximum attempt count and a maximum cumulative elapsed
//! time measured from the first attempt. It reports either the first success
//! or the last failure once a stop condition is reached.

pub mod driver;
pub mod laws;
pub mod policy;
pub mod state;

pub use driver::{Backoff, OpPoll, Operation, Resumption};
pub use policy::RetryPolicy;
pub use state::{AttemptWindow, Outcome, RetryState};
