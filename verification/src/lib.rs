//! A git repository engine: partial staging by hunk and by line, conflict
//! resolution, commit graph layout, and the decisions behind merge, rebase,
//! cherry-pick and revert.

pub mod ai;
pub mod config;
pub mod git;
pub mod hosting;
pub mod text;
