//! The assistant: prompts for commit messages, reviews, conflicts and pull
//! requests, and the frame of its answers.

pub mod adapter;
pub mod conflict;
pub mod detector;
pub mod diff_text;
pub mod fences;
pub mod pr;
pub mod prompt;
pub mod review;
pub mod types;
