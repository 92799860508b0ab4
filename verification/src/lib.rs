//! Decision logic of a kernel-event-driven script dispatcher.
//!
//! The dispatcher watches route and address changes that the kernel
//! announces on a notification socket and runs a directory of handler
//! scripts once per settled burst of changes. This library holds what is
//! decided on the way; reading the socket, sleeping and starting the
//! scripts are left to the program around it.
//!
//! - [`provision`]: whether the socket is inherited or bound here.
//! - [`groups`]: the interest groups of a self-bound socket.
//! - [`event`]: the classification of notifications.
//! - [`signal`]: the single-slot debounce signal.
//! - [`dispatcher`]: the state machine that settles, clears and runs.
//! - [`lifecycle`]: the state machine of the receive loop.
//! - [`schedule`]: the timing of runs, as a model and as a replay.
//! - [`config`]: the start-up configuration and its defaults.

pub mod config;
pub mod dispatcher;
pub mod event;
pub mod groups;
pub mod lifecycle;
pub mod provision;
pub mod schedule;
pub mod signal;
