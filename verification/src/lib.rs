//! Core logic of an interactive workspace picker: entry catalog building,
//! live fuzzy filtering, the modal session state machine, theme registry
//! with preview and rollback, and safe (worktree-aware) deletion planning.
//!
//! Everything here works on plain values; reading the terminal, the
//! filesystem and subprocesses is left to the surrounding binary.

pub mod config;
pub mod dates;
pub mod entry;
pub mod naming;
pub mod scan;
pub mod session;
pub mod shell;
pub mod themes;
pub mod trusted;
