//! Control plane of a job-execution backend.
//!
//! Clients submit named jobs; each job moves through a fixed lifecycle
//! (compile, queue, run, terminal) and can be polled or cancelled while it
//! does.
//!
//! - [`state_machine`] holds the lifecycle graph and the one function that
//!   follows it.
//! - [`record`] and [`counts`] are what is kept about a job.
//! - [`registry`] owns the records and is the only place where a state
//!   changes; [`job_store`] shares one registry between tasks.
//! - [`pipeline`] is the driver that advances a job from submission to
//!   completion.
//! - [`gateway`] turns client requests into operations on the store.
//! - [`circuit_fs`] lays out a job's artifacts on a filesystem.
//! - [`clock`] and [`text`] are small helpers, and [`components`] names the
//!   parts of the backend.
//!
//! The library touches no file and no network, and none of its functions
//! panics. Running drivers in the background, waiting between their steps
//! and carrying out filesystem plans is left to the program around it.

pub mod circuit_fs;
pub mod clock;
pub mod components;
pub mod counts;
pub mod gateway;
pub mod job_store;
pub mod pipeline;
pub mod record;
pub mod registry;
pub mod state_machine;
pub mod text;
