//! Verified building blocks of a small set of git helper tools: a poller that
//! watches the latest CI workflow run of a repository until it ends, with the
//! reading of its responses and of the API quota; the per-author tallies of a
//! commit log; the next version tag after a commit; and the ahead/behind
//! report of local branches.

pub mod author_stats;
pub mod branches;
pub mod commit_log;
pub mod poller;
pub mod rate_limit;
pub mod repo;
pub mod text;
pub mod version_tag;
pub mod workflow;
