//! Secure key-staging and foreground job-control library.
//!
//! The library models the core of an interactive remote-shell launcher whose
//! private key is never persisted long-term: a key alias is resolved from
//! configuration, the secret bytes are staged in an ephemeral owner-only file,
//! and a child process is supervised in the foreground of the controlling
//! terminal until it exits or a termination request supersedes it.
//!
//! All operating-system work (fetching the secret, filesystem staging, process
//! and terminal control) is driven by a surrounding program through the two
//! state machines in [`session`] and [`controller`]: the machines make every
//! decision and the surrounding program only performs the action each machine
//! asks for, reporting back what happened.

pub mod cli;
pub mod config;
pub mod controller;
pub mod errors;
pub mod invocation;
pub mod session;
