//! The metadata fields of a session and the keys under which they are stored.

use vstd::prelude::*;
use vstd::string::*;

verus! {

/// A metadata field of the session that is current for a project.
#[derive(Clone, Copy, Debug, PartialEq, Eq, Structural)]
pub enum Field {
    /// When the writer was last seen alive.
    Last,
    /// The identifier of the current session.
    Id,
    /// When the current session started.
    Start,
    /// The branch at the start of the current session.
    Branch,
    /// The commit at the start of the current session.
    Commit,
}

impl Field {
    /// The key under which the field is stored, relative to the session
    /// directory of the project.
    pub open spec fn spec_key(self) -> Seq<char> {
        match self {
            Field::Last => "meta/last"@,
            Field::Id => "meta/id"@,
            Field::Start => "meta/start"@,
            Field::Branch => "meta/branch"@,
            Field::Commit => "meta/commit"@,
        }
    }

    /// The place of the field in the order in which a new session is
    /// written: the liveness timestamp first, then what identifies the
    /// session.
    pub open spec fn rank(self) -> nat {
        match self {
            Field::Last => 0,
            Field::Id => 1,
            Field::Start => 2,
            Field::Branch => 3,
            Field::Commit => 4,
        }
    }

    /// The key under which the field is stored.
    pub fn key(self) -> (key: &'static str)
        ensures
            key@ == self.spec_key(),
    {
        match self {
            Field::Last => "meta/last",
            Field::Id => "meta/id",
            Field::Start => "meta/start",
            Field::Branch => "meta/branch",
            Field::Commit => "meta/commit",
        }
    }
}

/// Two fields are stored under the same key only if they are the same field.
pub proof fn lemma_keys_distinct(a: Field, b: Field)
    ensures
        a.spec_key() == b.spec_key() <==> a == b,
{
    reveal_strlit("meta/last");
    reveal_strlit("meta/id");
    reveal_strlit("meta/start");
    reveal_strlit("meta/branch");
    reveal_strlit("meta/commit");
    if a != b && a.spec_key() == b.spec_key() {
        assert(a.spec_key().len() == b.spec_key().len());
        assert(a.spec_key()[5] == b.spec_key()[5]);
    }
}

} // verus!
