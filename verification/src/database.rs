//! Selection of the storage engine from the connection string.
//!
//! The backend is a closed set of engines picked once at startup: a
//! networked engine for a websocket scheme, an embedded on-disk engine
//! for an embedded-path scheme, and the in-memory fallback for anything
//! else. Opening the connection, authenticating the networked engine and
//! selecting its namespace are I/O and live outside the library; which
//! engine a connection string names is decided here.

use vstd::prelude::*;

use vstd::string::StrSliceExecFns;

verus! {

/// `p` is a prefix of `s`.
pub open spec fn is_prefix(p: Seq<char>, s: Seq<char>) -> bool {
    p.len() <= s.len() && s.subrange(0, p.len() as int) == p
}

/// Whether `s` starts with `p`.
fn has_prefix(s: &str, p: &str) -> (r: bool)
    ensures
        r == is_prefix(p@, s@),
{
    let np = p.unicode_len();
    let ns = s.unicode_len();
    if np > ns {
        assert(!is_prefix(p@, s@));
        return false;
    }
    let mut i: usize = 0;
    while i < np
        invariant
            i <= np,
            np == p@.len(),
            np <= ns == s@.len(),
            forall|j: int| 0 <= j < i ==> s@[j] == p@[j],
        decreases np - i,
    {
        if s.get_char(i) != p.get_char(i) {
            assert(s@.subrange(0, np as int)[i as int] != p@[i as int]);
            return false;
        }
        i = i + 1;
    }
    proof {
        assert(s@.subrange(0, np as int) =~= p@);
    }
    true
}

/// Which engine a connection string names.
#[derive(Debug)]
pub enum EngineSelection {
    /// A networked engine reached over a websocket session; requires
    /// credentials and a namespace before any query.
    Networked,
    /// An embedded on-disk engine at the given path.
    Embedded(String),
    /// The in-memory fallback; data is lost on restart.
    Memory,
}

/// Dispatches the connection string once, at startup: a `ws://` or
/// `wss://` scheme names the networked engine, a `rocksdb://` scheme
/// names the embedded engine at the path that follows the scheme, and
/// anything else falls back to the in-memory engine.
pub fn select_engine(database_url: &str) -> (r: EngineSelection)
    ensures
        is_prefix("ws://"@, database_url@) || is_prefix("wss://"@, database_url@)
            ==> r is Networked,
        !(is_prefix("ws://"@, database_url@) || is_prefix("wss://"@, database_url@)) && is_prefix(
            "rocksdb://"@,
            database_url@,
        ) ==> (r matches EngineSelection::Embedded(path) && path@ == database_url@.subrange(
            "rocksdb://"@.len() as int,
            database_url@.len() as int,
        )),
        !(is_prefix("ws://"@, database_url@) || is_prefix("wss://"@, database_url@)) && !is_prefix(
            "rocksdb://"@,
            database_url@,
        ) ==> r is Memory,
{
    if has_prefix(database_url, "ws://") || has_prefix(database_url, "wss://") {
        EngineSelection::Networked
    } else if has_prefix(database_url, "rocksdb://") {
        let scheme_chars = "rocksdb://".unicode_len();
        let path = database_url.substring_char(scheme_chars, database_url.unicode_len());
        EngineSelection::Embedded(path.to_owned())
    } else {
        EngineSelection::Memory
    }
}

} // verus!
