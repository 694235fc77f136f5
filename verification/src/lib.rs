//! Provisioning, validation and launch planning for competitor projects.
//!
//! Every decision the tool takes is a function from plain values to plain
//! values: the caller probes the machine, hands over what it found, and
//! carries out the commands that come back.

pub mod bindings;
pub mod command;
pub mod config;
pub mod constants;
pub mod dialogue;
pub mod launch;
pub mod lists;
pub mod paths;
pub mod prereqs;
pub mod project;
pub mod provision;
pub mod snapshot;
pub mod staleness;
pub mod subcommands;
pub mod text;
