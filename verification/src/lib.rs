//! An in-memory task tracker: an ordered registry of tasks addressed by
//! position, and a mode-aware command interpreter that enforces which
//! operations are valid given its current mode and a task's current status.
//!
//! The library holds the task state machine, the registry, the command
//! vocabulary and every input validator; a thin line-oriented driver around it
//! does the prompting and printing.

pub mod session;
pub mod text;
pub mod todo;
pub mod utils;
