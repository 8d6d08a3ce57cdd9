//! Codex-style Git worktrees: the decisions and text processing of the
//! `codex-wt` tool, with the Git and file-system work left to its caller.
pub mod create;
pub mod effects;
pub mod error;
pub mod inspect;
pub mod list;
pub mod naming;
pub mod path;
pub mod report;
pub mod setup;
pub mod slug;
pub mod text;
pub mod untracked;
pub mod worktrees;
