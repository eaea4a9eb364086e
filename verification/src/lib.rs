//! A verified core for a job-dispatching HTTP service.
//!
//! The library owns the dispatcher's request queue, its message protocol,
//! the worker-pool accounting, the admission rules for job submissions,
//! and the persisted job state machine.  The surrounding process (HTTP
//! front end, channels, thread pool, the external key/value store client)
//! lives outside the library and drives it through plain values.

pub mod args;
pub mod codec;
pub mod command;
pub mod dispatcher;
pub mod persistence;
pub mod responder;
pub mod server;
