//! Why a write was turned down or did not complete.

use crate::field::Field;
use vstd::prelude::*;
use vstd::string::*;

verus! {

/// Why a store or a lock could not do what was asked of it.
#[derive(Clone, Debug, PartialEq, Eq)]
pub struct Fault {
    pub message: String,
}

/// The two moments at which the lock can fail.
#[derive(Clone, Copy, Debug, PartialEq, Eq, Structural)]
pub enum LockPhase {
    /// Taking the lock, before anything was read or written.
    Acquire,
    /// Giving the lock back, after everything was written.
    Release,
}

/// Why a write was turned down or did not complete.
#[derive(Clone, Debug, PartialEq, Eq)]
pub enum WriteError {
    /// The session has been closed and can be written no more.
    FinalizedSession,
    /// Another session is current for the project.
    ConflictingWriter { requested_id: String, current_id: String },
    /// The store refused the write of `field`; the fields before it in the
    /// writing order have been written, `field` and those after it have
    /// not.
    StoreWrite { field: Field, cause: Fault },
    /// The lock could not be taken, or could not be given back.
    Lock { phase: LockPhase, cause: Fault },
}

impl Field {
    /// What the field is called in messages.
    pub open spec fn spec_label(self) -> Seq<char> {
        match self {
            Field::Last => "last timestamp"@,
            Field::Id => "id"@,
            Field::Start => "start timestamp"@,
            Field::Branch => "branch"@,
            Field::Commit => "commit"@,
        }
    }

    /// What the field is called in messages.
    pub fn label(self) -> (label: &'static str)
        ensures
            label@ == self.spec_label(),
    {
        match self {
            Field::Last => "last timestamp",
            Field::Id => "id",
            Field::Start => "start timestamp",
            Field::Branch => "branch",
            Field::Commit => "commit",
        }
    }
}

impl WriteError {
    /// The error in words.
    pub open spec fn spec_message(self) -> Seq<char> {
        match self {
            WriteError::FinalizedSession => "can not open writer for a session with a hash"@,
            WriteError::ConflictingWriter { requested_id, current_id } => {
                "can not open writer for "@ + requested_id@ + " because a writer for "@
                    + current_id@ + " is still open"@
            },
            WriteError::StoreWrite { field, cause } => {
                "failed to write "@ + field.spec_label() + ": "@ + cause.message@
            },
            WriteError::Lock { phase: LockPhase::Acquire, cause } => {
                "failed to lock: "@ + cause.message@
            },
            WriteError::Lock { phase: LockPhase::Release, cause } => {
                "failed to unlock: "@ + cause.message@
            },
        }
    }

    /// The error in words, for logs and for the user.
    pub fn message(&self) -> (text: String)
        ensures
            text@ == self.spec_message(),
    {
        match self {
            WriteError::FinalizedSession => {
                String::from_str("can not open writer for a session with a hash")
            },
            WriteError::ConflictingWriter { requested_id, current_id } => {
                let mut text = String::from_str("can not open writer for ");
                text.append(requested_id.as_str());
                text.append(" because a writer for ");
                text.append(current_id.as_str());
                text.append(" is still open");
                text
            },
            WriteError::StoreWrite { field, cause } => {
                let mut text = String::from_str("failed to write ");
                text.append(field.label());
                text.append(": ");
                text.append(cause.message.as_str());
                text
            },
            WriteError::Lock { phase: LockPhase::Acquire, cause } => {
                let mut text = String::from_str("failed to lock: ");
                text.append(cause.message.as_str());
                text
            },
            WriteError::Lock { phase: LockPhase::Release, cause } => {
                let mut text = String::from_str("failed to unlock: ");
                text.append(cause.message.as_str());
                text
            },
        }
    }
}

} // verus!
