//! A one-line summary of a git repository for a shell prompt: the current
//! branch with its distance to the mainline and to its upstream, followed by
//! counts of staged, unstaged and untracked changes.

pub mod branch;
pub mod decimal;
pub mod error;
mod git;
pub mod repo;
pub mod status;
pub mod style;
