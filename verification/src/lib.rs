//! Verified core of `docks`, an interactive helper around docker, ssh and rsync.
//!
//! The library decides; the program around it acts. It builds every command
//! line that the tool runs, turns what a finished process reports into the
//! tool's results, reads the `docks.toml` configuration, lays out local and
//! remote deployments as plans of steps, and drives the interactive chores
//! (removing, stopping, starting, restarting, pulling images, reading logs,
//! jumping between folders) as state machines.

pub mod error;
pub mod messages;
pub mod invocation;
pub mod plan;
pub mod commands;
pub mod config;
pub mod deploy;
pub mod chore;
pub mod menu;
pub mod laws;
pub mod trace;
