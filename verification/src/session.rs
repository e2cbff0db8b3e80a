//! Terminal sessions that run inside the program.

pub mod pty;
