//! The repository engine: data types, text diffs, patches, conflicts, the
//! commit graph and the decisions that drive multi-step operations.

pub mod apply;
pub mod auth;
pub mod backend;
pub mod blame;
pub mod conflict;
pub mod diff_parse;
pub mod dispatcher;
pub mod error;
pub mod graph;
pub mod history;
pub mod index;
pub mod merge;
pub mod oid;
pub mod operations;
pub mod patch;
pub mod rebase;
pub mod refs;
pub mod repo;
pub mod search;
pub mod stash;
pub mod status;
pub mod submodule;
pub mod types;
pub mod word_diff;
pub mod worktree;
