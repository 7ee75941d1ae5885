//! srap: append a line to shell startup files.
//!
//! The library holds every decision the command makes: reading the flags,
//! assembling the line, choosing the target files and computing the new
//! contents. Reading the environment and touching the disk is left to the
//! caller, which hands the results in as plain values.
pub mod text;
pub mod config;
pub mod args;
pub mod line;
pub mod invocation;
pub mod resolve;
pub mod engine;
pub mod notice;
