//! Decision logic for fetching version-controlled source trees onto local
//! disk and for emptying directories.
//!
//! Three operations are offered: cloning a repository, optionally pinned to a
//! commit ([`clone`]); extracting one subdirectory of a repository into a
//! destination ([`extract`]); and removing everything inside a directory
//! ([`prune`]). Each is a small state machine. It names the next action to
//! perform on disk or over the network, takes the reply to that action and
//! names the next one, until it finishes with a result ([`protocol`]). The
//! machines never touch the disk or the network themselves: the caller
//! performs the actions, one at a time, and no state outlives a run.
//!
//! Failures are structured values that say what kind of failure occurred and
//! at which step; text is made from them on request ([`error`]). Commit
//! references are resolved before anything is asked of the repository
//! ([`reference`]). A configured secret falls back to a fixed value
//! ([`secret`]).

pub mod clone;
pub mod error;
pub mod extract;
pub mod protocol;
pub mod prune;
pub mod reference;
pub mod secret;
