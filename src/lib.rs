//! Finds the version-controlled repositories under a directory and reports,
//! for each, the actions still pending on it: uncommitted or untracked work,
//! commits not yet pushed or pulled, an untagged revision, and tags or
//! commits that differ from the remote.
pub mod label;
pub mod pending;
pub mod facts;
pub mod text;
pub mod classify;
pub mod laws;
pub mod git;
pub mod crawler;

pub use classify::Output;
pub use crawler::Crawler;
