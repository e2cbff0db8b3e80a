//! The verified core of sshub, a terminal manager for SSH connections.
//!
//! Everything here works on plain values. Reading files, spawning processes,
//! drawing and talking to the terminal stay with the caller, which hands in
//! what it read and carries out what comes back.

use vstd::prelude::*;

pub mod app;
pub mod cli;
pub mod command_path;
pub mod config;
pub mod model;
pub mod session;
pub mod session_log;
pub mod text;
pub mod tui;

verus! {

} // verus!
