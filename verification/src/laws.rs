//! What holds of every write, and of writes that follow one another.

use crate::decimal::{decimal, decimal_value, lemma_decimal_round_trip};
use crate::error::{LockPhase, WriteError};
use crate::field::{lemma_keys_distinct, Field};
use crate::lock::RepositoryLock;
use crate::protocol::{after_write, current_id, path_for};
use crate::session::{Session, SessionView};
use crate::store::{Contents, MetaStore};
use crate::transaction::{answers, next_stage, steps_left, Event, Stage};
use crate::writer::SessionWriter;
use vstd::prelude::*;

verus! {

/// What the store holds after one completed write of `session` for each of
/// `times`, in order, where it held `store` before.
pub open spec fn after_writes(store: Contents, session: SessionView, times: Seq<nat>) -> Contents
    decreases times.len(),
{
    if times.len() == 0 {
        store
    } else {
        after_write(after_writes(store, session, times.drop_last()), session, times.last())
    }
}

/// A completed write makes the session the current one, whichever path it
/// took.
pub proof fn lemma_written_session_is_current(store: Contents, session: SessionView, now: nat)
    requires
        path_for(current_id(store), session.id) is Some,
    ensures
        current_id(after_write(store, session, now)) == Some(session.id),
        after_write(store, session, now)[Field::Last.spec_key()] == decimal(now),
        after_write(store, session, now).contains_key(Field::Last.spec_key()),
{
    lemma_all_keys_distinct();
}

/// A write for the session that is current already changes the liveness
/// timestamp and nothing else: identifier, start, branch and commit stay
/// as they were first written, whatever the session handed in says of
/// them.
pub proof fn lemma_heartbeat_writes_last_only(store: Contents, session: SessionView, now: nat)
    requires
        current_id(store) == Some(session.id),
    ensures
        after_write(store, session, now) == store.insert(Field::Last.spec_key(), decimal(now)),
{
}

/// Writing a session any number of times leaves the store as the first
/// write left it, but for the liveness timestamp, which is that of the
/// latest write.
pub proof fn lemma_repeated_writes(store: Contents, session: SessionView, times: Seq<nat>)
    requires
        path_for(current_id(store), session.id) is Some,
        times.len() > 0,
    ensures
        after_writes(store, session, times) == after_write(store, session, times[0]).insert(
            Field::Last.spec_key(),
            decimal(times.last()),
        ),
        current_id(after_writes(store, session, times)) == Some(session.id),
    decreases times.len(),
{
    lemma_all_keys_distinct();
    let first = after_write(store, session, times[0]);
    lemma_written_session_is_current(store, session, times[0]);
    if times.len() == 1 {
        assert(times.drop_last() =~= Seq::<nat>::empty());
        assert(after_writes(store, session, times.drop_last()) == store);
        assert(times.last() == times[0]);
        assert(first =~= first.insert(Field::Last.spec_key(), decimal(times.last())));
    } else {
        let earlier = times.drop_last();
        lemma_repeated_writes(store, session, earlier);
        assert(earlier[0] == times[0]);
        let before = after_writes(store, session, earlier);
        lemma_heartbeat_writes_last_only(before, session, times.last());
        assert(before.insert(Field::Last.spec_key(), decimal(times.last())) =~= first.insert(
            Field::Last.spec_key(),
            decimal(times.last()),
        ));
    }
}

/// Where the clock does not go back between two writes of a session, the
/// liveness timestamp in the store does not go back either.
pub proof fn lemma_last_follows_the_clock(
    store: Contents,
    session: SessionView,
    earlier: nat,
    later: nat,
)
    requires
        path_for(current_id(store), session.id) is Some,
        earlier <= later,
    ensures
        ({
            let first = after_write(store, session, earlier);
            let second = after_write(first, session, later);
            decimal_value(first[Field::Last.spec_key()]) <= decimal_value(
                second[Field::Last.spec_key()],
            )
        }),
{
    let first = after_write(store, session, earlier);
    lemma_written_session_is_current(store, session, earlier);
    lemma_written_session_is_current(first, session, later);
    lemma_decimal_round_trip(earlier);
    lemma_decimal_round_trip(later);
}

/// A write that completes leaves the store as [`after_write`] says.
pub proof fn lemma_completed_write<S: MetaStore, L: RepositoryLock>(
    before: SessionWriter<S, L>,
    after: SessionWriter<S, L>,
    session: SessionView,
    now: nat,
    result: Result<(), WriteError>,
)
    requires
        before.write_outcome(&after, session, now, result),
        result is Ok,
    ensures
        path_for(current_id(before.spec_store().contents()), session.id) is Some,
        after.spec_store().contents() == after_write(
            before.spec_store().contents(),
            session,
            now,
        ),
{
}

/// A write creates a key for the branch only where the session has a
/// branch, and a key for the commit only where it has a commit: a store
/// without these keys is without them afterwards, however the write ends.
pub proof fn lemma_absent_fields_stay_absent<S: MetaStore, L: RepositoryLock>(
    before: SessionWriter<S, L>,
    after: SessionWriter<S, L>,
    session: SessionView,
    now: nat,
    result: Result<(), WriteError>,
)
    requires
        before.write_outcome(&after, session, now, result),
    ensures
        session.branch is None && !before.spec_store().contents().contains_key(
            Field::Branch.spec_key(),
        ) ==> !after.spec_store().contents().contains_key(Field::Branch.spec_key()),
        session.commit is None && !before.spec_store().contents().contains_key(
            Field::Commit.spec_key(),
        ) ==> !after.spec_store().contents().contains_key(Field::Commit.spec_key()),
{
    lemma_all_keys_distinct();
}

/// Where another session is current, a write that got the lock is turned
/// down with both identifiers, and the store holds what it held.
pub proof fn lemma_conflict_is_rejected<S: MetaStore, L: RepositoryLock>(
    before: SessionWriter<S, L>,
    after: SessionWriter<S, L>,
    session: SessionView,
    now: nat,
    result: Result<(), WriteError>,
    current: Seq<char>,
)
    requires
        before.write_outcome(&after, session, now, result),
        session.hash is None,
        current_id(before.spec_store().contents()) == Some(current),
        current != session.id,
        !(result matches Err(WriteError::Lock { phase: LockPhase::Acquire, .. })),
    ensures
        result matches Err(WriteError::ConflictingWriter { requested_id, current_id: c })
            && requested_id@ == session.id && c@ == current,
        after.spec_store().contents() == before.spec_store().contents(),
        before.locked_once(&after),
{
}

/// A closed session is turned down, and neither the store nor the lock is
/// touched.
pub proof fn lemma_finalized_is_rejected<S: MetaStore, L: RepositoryLock>(
    before: SessionWriter<S, L>,
    after: SessionWriter<S, L>,
    session: SessionView,
    now: nat,
    result: Result<(), WriteError>,
)
    requires
        before.write_outcome(&after, session, now, result),
        session.hash is Some,
    ensures
        result matches Err(WriteError::FinalizedSession),
        after == before,
{
}

/// However a write ends, the lock is not left held: a write that took the
/// lock gave it back exactly once, and a write that did not take it left
/// it alone.
pub proof fn lemma_lock_is_released<S: MetaStore, L: RepositoryLock>(
    before: SessionWriter<S, L>,
    after: SessionWriter<S, L>,
    session: SessionView,
    now: nat,
    result: Result<(), WriteError>,
)
    requires
        before.write_outcome(&after, session, now, result),
    ensures
        after.spec_lock().held() == before.spec_lock().held(),
        after.spec_lock().releases() - before.spec_lock().releases()
            == after.spec_lock().acquisitions() - before.spec_lock().acquisitions(),
        result matches Err(WriteError::StoreWrite { .. }) ==> before.locked_once(&after),
        result is Ok ==> before.locked_once(&after),
{
}

/// Every answer brings a write nearer to its end: no write takes more than
/// ten steps.
pub proof fn lemma_every_step_counts(stage: Stage, session: Session, event: Event)
    requires
        answers(stage, event),
    ensures
        steps_left(next_stage(stage, session, event)) < steps_left(stage),
        steps_left(stage) <= 10,
        steps_left(stage) == 0 <==> stage is Finished,
{
}

/// A write ends in one of two ways only: the lock was not to be had, or the
/// lock has just been given back. No failure of the store and no conflict
/// ends a write while the lock is held.
pub proof fn lemma_ends_only_without_the_lock(stage: Stage, session: Session, event: Event)
    requires
        answers(stage, event),
        next_stage(stage, session, event) is Finished,
    ensures
        stage is Releasing || (stage is Acquiring && event matches Event::Acquired {
            taken: Err(_),
        }),
{
}

/// The five keys are five different texts.
proof fn lemma_all_keys_distinct()
    ensures
        forall|a: Field, b: Field| #[trigger] a.spec_key() == #[trigger] b.spec_key() ==> a == b,
{
    assert forall|a: Field, b: Field| #[trigger] a.spec_key() == #[trigger] b.spec_key() implies a
        == b by {
        lemma_keys_distinct(a, b);
    }
}

} // verus!
