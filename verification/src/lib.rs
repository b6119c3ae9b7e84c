//! Supervision of an external backend process for a desktop shell.
//!
//! The crate decides; the shell around it acts. Every function here maps
//! plain observations (is the port answering, which files exist, what did a
//! process listing print) to the next thing to do, and each carries a
//! contract that pins that decision down.

pub mod commands;
pub mod health;
pub mod launcher;
pub mod locator;
pub mod pids;
pub mod reaper;
pub mod state;
pub mod sweep;
pub mod surface;

pub use state::{BackendState, ProcessHandle, TradingState};
