//! Toolchain discovery and dispatch for a nightly-only `fmt` subcommand.
//!
//! The library decides everything: which candidate binaries could run a
//! nightly formatter, how a version probe's output is judged, which
//! candidate wins, how the caller's arguments are split and forwarded, and
//! which exit code to report. The surrounding binary only reads the
//! process environment, searches the executable path, runs the probes and
//! spawns the chosen command.

pub mod args;
pub mod dispatch;
pub mod nightly;
pub mod resolve;
pub mod text;
