//! Orchestration of the iOS simulator workflow: staging the native runner
//! library into the host project, building the host app, and driving the
//! simulator through boot, install and launch.
//!
//! Every external invocation is planned here as a [`steps::Step`] that carries
//! its own failure policy; the caller performs each step and hands its outcome
//! back to [`steps::judge`], which decides whether the run goes on.

pub mod failure;
pub mod paths;
pub mod command;
pub mod mirror;
pub mod steps;
pub mod config;
pub mod stages;
pub mod dispatch;
