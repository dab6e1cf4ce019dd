//! Per-instance session state: the last resolved binary path and version,
//! kept only for the lifetime of one running extension instance.

use vstd::prelude::*;

verus! {

/// The session cache.  It either points at a binary that existed at its last
/// probe or is empty; a stale entry is dropped at the next probe.
pub struct SessionState {
    pub cached_binary_path: Option<String>,
    pub cached_version: Option<String>,
}

/// Both cache fields are empty.
pub open spec fn session_empty(s: SessionState) -> bool {
    s.cached_binary_path is None && s.cached_version is None
}

/// A fresh session remembers nothing.
pub fn new_session() -> (s: SessionState)
    ensures
        session_empty(s),
{
    SessionState { cached_binary_path: None, cached_version: None }
}

} // verus!
