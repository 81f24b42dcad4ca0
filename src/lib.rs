//! Startup layer of a language-server process: command-line resolution,
//! severity parsing and the entry-point orchestration, all verified.

pub mod level;
pub mod config;
pub mod session;
