//! The session record that callers hand to the writer.

use vstd::prelude::*;

verus! {

/// What is known of a session when it starts.
#[derive(Clone, Debug, PartialEq, Eq)]
pub struct Meta {
    /// Start of the session, in milliseconds since the Unix epoch.
    pub start_timestamp_ms: u128,
    /// The branch that was checked out when the session started, if known.
    pub branch: Option<String>,
    /// The commit that was checked out when the session started, if known.
    pub commit: Option<String>,
}

/// One recorded interval of activity in a project.
#[derive(Clone, Debug, PartialEq, Eq)]
pub struct Session {
    /// Identifier chosen by the caller before the first write.
    pub id: String,
    /// Set once the session has been closed; an open session has none.
    pub hash: Option<String>,
    pub meta: Meta,
}

/// A session as the contracts see it: text as sequences of characters and
/// the start time as a natural number.
pub struct SessionView {
    pub id: Seq<char>,
    pub hash: Option<Seq<char>>,
    pub start: nat,
    pub branch: Option<Seq<char>>,
    pub commit: Option<Seq<char>>,
}

/// The characters of an optional string.
pub open spec fn text_of(s: Option<String>) -> Option<Seq<char>> {
    match s {
        Some(t) => Some(t@),
        None => None,
    }
}

impl View for Session {
    type V = SessionView;

    open spec fn view(&self) -> SessionView {
        SessionView {
            id: self.id@,
            hash: text_of(self.hash),
            start: self.meta.start_timestamp_ms as nat,
            branch: text_of(self.meta.branch),
            commit: text_of(self.meta.commit),
        }
    }
}

} // verus!
