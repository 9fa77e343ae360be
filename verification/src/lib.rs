//! Decision logic for answering "yes" to the upcoming events of a list of
//! groups on an event-hosting service.
//!
//! The crate sends nothing, prints nothing and never sleeps. A run is a state
//! machine: the caller hands it what its last action brought back, and is
//! told which lines to print and what to do next (send a request, decode a
//! body, sleep, stop). [`run`] holds the run over one group, [`runner`] the
//! run over a list of groups, and [`protocol`] what a run and its caller say
//! to each other. Every step is specified by a `spec` function, and [`laws`]
//! proves what follows for whole runs: which events are submitted and how
//! often, that a pause lies between two submissions, what a refused read
//! leads to, and that no group is left out.

pub mod clock;
pub mod decimal;
pub mod failure;
pub mod laws;
pub mod model;
pub mod notice;
pub mod protocol;
pub mod request;
pub mod retry;
pub mod run;
pub mod runner;
pub mod schedule;
pub mod status;
