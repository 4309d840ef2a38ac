//! The rules of a session write, apart from the store and the lock.
//!
//! Everything here is a function of plain values: which path a write
//! takes given the session that is current, what the store holds after
//! the sub-writes that were reached, and how the results of the store and
//! of the lock become the result of the write.

use crate::decimal::decimal;
use crate::error::{Fault, LockPhase, WriteError};
use crate::field::Field;
use crate::session::{text_of, Session, SessionView};
use crate::store::Contents;
use vstd::prelude::*;

verus! {

/// The two ways in which a write can proceed.
#[derive(Clone, Copy, Debug, PartialEq, Eq, Structural)]
pub enum WritePath {
    /// No session is current: the session becomes current and all its
    /// fields are written.
    Open,
    /// The session is current already: only the liveness timestamp is
    /// written.
    Heartbeat,
}

/// The identifier of the session that the store records as current.
pub open spec fn current_id(store: Contents) -> Option<Seq<char>> {
    if store.contains_key(Field::Id.spec_key()) {
        Some(store[Field::Id.spec_key()])
    } else {
        None
    }
}

/// The path of a write for the session `id` while `current` is recorded as
/// current; `None` where another session is current.
pub open spec fn path_for(current: Option<Seq<char>>, id: Seq<char>) -> Option<WritePath> {
    match current {
        None => Some(WritePath::Open),
        Some(c) => if c == id {
            Some(WritePath::Heartbeat)
        } else {
            None
        },
    }
}

/// Whether a write of `session` on `path` writes `field` if nothing fails
/// before.
pub open spec fn attempted(session: SessionView, path: WritePath, field: Field) -> bool {
    match field {
        Field::Last => true,
        Field::Id => path == WritePath::Open,
        Field::Start => path == WritePath::Open,
        Field::Branch => path == WritePath::Open && session.branch is Some,
        Field::Commit => path == WritePath::Open && session.commit is Some,
    }
}

/// Whether the sub-write of `field` was carried out, given the field at
/// which the store failed, if it did.
pub open spec fn reached(field: Field, failed: Option<Field>) -> bool {
    match failed {
        None => true,
        Some(f) => field.rank() < f.rank(),
    }
}

/// The text that a write of `session` at time `now` puts under `field`.
pub open spec fn field_text(session: SessionView, now: nat, field: Field) -> Seq<char> {
    match field {
        Field::Last => decimal(now),
        Field::Id => session.id,
        Field::Start => decimal(session.start),
        Field::Branch => session.branch->0,
        Field::Commit => session.commit->0,
    }
}

/// `store` after the sub-write of `field`, where the write attempts it and
/// reached it; `store` otherwise.
pub open spec fn after_field(
    store: Contents,
    session: SessionView,
    now: nat,
    path: WritePath,
    failed: Option<Field>,
    field: Field,
) -> Contents {
    if attempted(session, path, field) && reached(field, failed) {
        store.insert(field.spec_key(), field_text(session, now, field))
    } else {
        store
    }
}

/// What the store holds after a write of `session` at time `now` on
/// `path`, where it held `store` before: each attempted field in writing
/// order, up to the one at which the store failed, if it did.
pub open spec fn after_sub_writes(
    store: Contents,
    session: SessionView,
    now: nat,
    path: WritePath,
    failed: Option<Field>,
) -> Contents {
    let s0 = after_field(store, session, now, path, failed, Field::Last);
    let s1 = after_field(s0, session, now, path, failed, Field::Id);
    let s2 = after_field(s1, session, now, path, failed, Field::Start);
    let s3 = after_field(s2, session, now, path, failed, Field::Branch);
    after_field(s3, session, now, path, failed, Field::Commit)
}

/// What the store holds after a write of `session` at time `now` that
/// completed, where it held `store` before and `session` was free to
/// write.
pub open spec fn after_write(store: Contents, session: SessionView, now: nat) -> Contents {
    match path_for(current_id(store), session.id) {
        Some(path) => after_sub_writes(store, session, now, path, None),
        None => store,
    }
}

/// Whether `result`, with `after` in the store, is a way in which a write of
/// `session` at time `now` can end once the lock is held, where the store
/// held `before`.
///
/// Where another session is current, the write is turned down and the store
/// is left alone. Otherwise the sub-writes are made in order; the write
/// succeeds where all of them land and fails at the first that the store
/// refuses.
pub open spec fn wrote_under_lock(
    before: Contents,
    after: Contents,
    session: SessionView,
    now: nat,
    result: Result<(), WriteError>,
) -> bool {
    match path_for(current_id(before), session.id) {
        None => {
            &&& after == before
            &&& result matches Err(WriteError::ConflictingWriter { requested_id, current_id: c })
            &&& requested_id@ == session.id
            &&& Some(c@) == current_id(before)
        },
        Some(path) => match result {
            Ok(_) => after == after_sub_writes(before, session, now, path, None),
            Err(WriteError::StoreWrite { field, .. }) => {
                &&& attempted(session, path, field)
                &&& after == after_sub_writes(before, session, now, path, Some(field))
            },
            Err(_) => false,
        },
    }
}

/// Decides the path of a write for `session`, given what the store holds
/// as the current session's identifier.
pub fn choose_path(session: &Session, current: Option<String>) -> (chosen: Result<
    WritePath,
    WriteError,
>)
    ensures
        match path_for(text_of(current), session@.id) {
            Some(path) => chosen == Ok::<WritePath, WriteError>(path),
            None => chosen == Err::<WritePath, WriteError>(
                WriteError::ConflictingWriter {
                    requested_id: session.id,
                    current_id: current->0,
                },
            ),
        },
{
    match current {
        None => Ok(WritePath::Open),
        Some(current_id) => {
            if current_id == session.id {
                Ok(WritePath::Heartbeat)
            } else {
                Err(WriteError::ConflictingWriter { requested_id: session.id.clone(), current_id })
            }
        },
    }
}

/// The result of a sub-write of `field`, given what the store answered.
pub fn sub_write_result(field: Field, done: Result<(), Fault>) -> (result: Result<(), WriteError>)
    ensures
        match done {
            Ok(_) => result == Ok::<(), WriteError>(()),
            Err(cause) => result == Err::<(), WriteError>(WriteError::StoreWrite { field, cause }),
        },
{
    match done {
        Ok(_) => Ok(()),
        Err(cause) => Err(WriteError::StoreWrite { field, cause }),
    }
}

/// The result of taking the lock, given what the lock answered.
pub fn acquire_result(taken: Result<(), Fault>) -> (result: Result<(), WriteError>)
    ensures
        match taken {
            Ok(_) => result == Ok::<(), WriteError>(()),
            Err(cause) => result == Err::<(), WriteError>(
                WriteError::Lock { phase: LockPhase::Acquire, cause },
            ),
        },
{
    match taken {
        Ok(_) => Ok(()),
        Err(cause) => Err(WriteError::Lock { phase: LockPhase::Acquire, cause }),
    }
}

/// The result of a write, given what happened while the lock was held and
/// what the lock answered when it was given back: the first failure is the
/// one reported.
pub fn conclude(outcome: Result<(), WriteError>, given: Result<(), Fault>) -> (result: Result<
    (),
    WriteError,
>)
    ensures
        match (outcome, given) {
            (Err(e), _) => result == Err::<(), WriteError>(e),
            (Ok(_), Err(cause)) => result == Err::<(), WriteError>(
                WriteError::Lock { phase: LockPhase::Release, cause },
            ),
            (Ok(_), Ok(_)) => result == Ok::<(), WriteError>(()),
        },
{
    match outcome {
        Err(e) => Err(e),
        Ok(_) => match given {
            Err(cause) => Err(WriteError::Lock { phase: LockPhase::Release, cause }),
            Ok(_) => Ok(()),
        },
    }
}

} // verus!
