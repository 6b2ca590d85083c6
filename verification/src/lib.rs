//! Verified orchestration core for rewriting committer/author identity
//! across the history of one or more git repositories.
//!
//! The library models the whole run as an explicit state machine: a driver
//! performs the filesystem and subprocess work (listing directories, cloning
//! a mirror backup, invoking the external history-rewrite engine) and feeds
//! each outcome back as an [`machine::Event`]; the machine decides, step by
//! step, which [`machine::Action`] comes next. Everything the tool decides —
//! what the mapping directive says, what counts as a repository, which
//! subdirectories are visited, which flags the rewrite engine is given, and
//! when the run must stop — is stated in contracts and proved.

pub mod detect;
pub mod engine;
pub mod ephemeral;
pub mod identity;
pub mod machine;
pub mod trace;
