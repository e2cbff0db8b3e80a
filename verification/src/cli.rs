//! The command line: how arguments are read, and what the host commands decide.

pub mod add;
pub mod commands;
pub mod connect;
pub mod edit;
pub mod edit_run;
pub mod host;
pub mod parse;
pub mod runs;
