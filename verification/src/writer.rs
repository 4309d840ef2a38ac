//! The writer of session metadata.

use crate::clock::now_millis;
use crate::error::{LockPhase, WriteError};
use crate::field::Field;
use crate::lock::RepositoryLock;
use crate::protocol::{after_sub_writes, attempted, current_id, path_for, wrote_under_lock};
use crate::session::{Session, SessionView};
use crate::store::MetaStore;
use crate::transaction::{is_due, steps_left, Action, Event, Stage, Transaction};
use vstd::pervasive::unreached;
use vstd::prelude::*;

verus! {

/// Writes the metadata of the session that is current for one project.
///
/// The writer owns the store and the lock of the project. Every write takes
/// the lock, looks at the store, writes what is due, and gives the lock
/// back.
pub struct SessionWriter<S: MetaStore, L: RepositoryLock> {
    store: S,
    lock: L,
}

impl<S: MetaStore, L: RepositoryLock> SessionWriter<S, L> {
    /// The store of the project.
    pub closed spec fn spec_store(&self) -> S {
        self.store
    }

    /// The lock of the project.
    pub closed spec fn spec_lock(&self) -> L {
        self.lock
    }

    /// Whether the lock is in `after` as it is in `self`.
    pub open spec fn lock_as_before(&self, after: &Self) -> bool {
        &&& after.spec_lock().held() == self.spec_lock().held()
        &&& after.spec_lock().acquisitions() == self.spec_lock().acquisitions()
        &&& after.spec_lock().releases() == self.spec_lock().releases()
    }

    /// Whether, between `self` and `after`, the lock was taken once and
    /// given back once, and is free at both ends.
    pub open spec fn locked_once(&self, after: &Self) -> bool {
        &&& !self.spec_lock().held()
        &&& !after.spec_lock().held()
        &&& after.spec_lock().acquisitions() == self.spec_lock().acquisitions() + 1
        &&& after.spec_lock().releases() == self.spec_lock().releases() + 1
    }

    /// Whether `result`, with the writer as in `after`, is a way in which a
    /// write of `session` at time `now` can end, where the writer was as in
    /// `self`.
    ///
    /// A closed session is turned down with nothing touched. Where the lock
    /// is not to be had, the store is untouched. Otherwise the lock is
    /// taken and given back once, and the store and the result are as
    /// [`wrote_under_lock`] says; a failure to give the lock back is
    /// reported only where all else went well.
    pub open spec fn write_outcome(
        &self,
        after: &Self,
        session: SessionView,
        now: nat,
        result: Result<(), WriteError>,
    ) -> bool {
        match result {
            Err(WriteError::FinalizedSession) => session.hash is Some && *after == *self,
            Err(WriteError::Lock { phase: LockPhase::Acquire, .. }) => {
                &&& session.hash is None
                &&& after.spec_store() == self.spec_store()
                &&& self.lock_as_before(after)
            },
            Err(WriteError::Lock { phase: LockPhase::Release, .. }) => {
                &&& session.hash is None
                &&& self.locked_once(after)
                &&& wrote_under_lock(
                    self.spec_store().contents(),
                    after.spec_store().contents(),
                    session,
                    now,
                    Ok(()),
                )
            },
            _ => {
                &&& session.hash is None
                &&& self.locked_once(after)
                &&& wrote_under_lock(
                    self.spec_store().contents(),
                    after.spec_store().contents(),
                    session,
                    now,
                    result,
                )
            },
        }
    }

    /// A writer over the store and the lock of a project.
    pub fn new(store: S, lock: L) -> (writer: Self)
        ensures
            writer.spec_store() == store,
            writer.spec_lock() == lock,
    {
        SessionWriter { store, lock }
    }

    /// The store of the project.
    pub fn store(&self) -> (store: &S)
        ensures
            *store == self.spec_store(),
    {
        &self.store
    }

    /// The lock of the project.
    pub fn lock(&self) -> (lock: &L)
        ensures
            *lock == self.spec_lock(),
    {
        &self.lock
    }

    /// Records `session` as alive at the time of the system clock, and as
    /// the current session of the project if none is current.
    ///
    /// The clock is read while the lock is held, just before the first
    /// sub-write; the outcome is that of [`Self::write_at`] at the time
    /// that was read.
    pub fn write(&mut self, session: &Session) -> (result: Result<(), WriteError>)
        ensures
            exists|now: nat| #[trigger]
                old(self).write_outcome(final(self), session@, now, result),
    {
        self.write_timed(session, None)
    }

    /// Records `session` as alive at `now_ms`, and as the current session
    /// of the project if none is current.
    pub fn write_at(&mut self, session: &Session, now_ms: u128) -> (result: Result<(), WriteError>)
        ensures
            old(self).write_outcome(final(self), session@, now_ms as nat, result),
    {
        self.write_timed(session, Some(now_ms))
    }

    /// Whether the lock has been taken since `self` and is held in `after`.
    spec fn lock_taken(&self, after: &Self) -> bool {
        &&& !self.spec_lock().held()
        &&& after.spec_lock().held()
        &&& after.spec_lock().acquisitions() == self.spec_lock().acquisitions() + 1
        &&& after.spec_lock().releases() == self.spec_lock().releases()
    }

    /// Whether a write of `session` that began with the writer as in `self`
    /// and has come to `stage`, with `action` to be done next, has the
    /// writer as in `now` and will end as [`Self::write_outcome`] says.
    spec fn on_track(
        &self,
        now: &Self,
        session: SessionView,
        time: nat,
        stage: Stage,
        action: Action,
    ) -> bool {
        let before = self.spec_store().contents();
        let contents = now.spec_store().contents();
        match stage {
            Stage::Finished => action matches Action::Finish { result } && self.write_outcome(
                now,
                session,
                time,
                result,
            ),
            Stage::Acquiring => {
                &&& is_due(action, stage, session)
                &&& session.hash is None
                &&& *now == *self
            },
            Stage::Reading => {
                &&& is_due(action, stage, session)
                &&& session.hash is None
                &&& self.lock_taken(now)
                &&& contents == before
            },
            Stage::Timing { path } => {
                &&& is_due(action, stage, session)
                &&& session.hash is None
                &&& self.lock_taken(now)
                &&& contents == before
                &&& path_for(current_id(before), session.id) == Some(path)
            },
            Stage::Writing { path, now_ms, field } => {
                &&& is_due(action, stage, session)
                &&& session.hash is None
                &&& self.lock_taken(now)
                &&& path_for(current_id(before), session.id) == Some(path)
                &&& now_ms == time
                &&& attempted(session, path, field)
                &&& contents == after_sub_writes(before, session, time, path, Some(field))
            },
            Stage::Releasing { outcome } => {
                &&& is_due(action, stage, session)
                &&& session.hash is None
                &&& self.lock_taken(now)
                &&& wrote_under_lock(before, contents, session, time, outcome)
            },
        }
    }

    /// A write at the time `at`, or at the time of the system clock where
    /// `at` is `None`: a [`Transaction`] carried through against the store
    /// and the lock.
    fn write_timed(&mut self, session: &Session, at: Option<u128>) -> (result: Result<
        (),
        WriteError,
    >)
        ensures
            exists|now: nat|
                {
                    &&& at matches Some(t) ==> now == t
                    &&& #[trigger] old(self).write_outcome(final(self), session@, now, result)
                },
    {
        let (mut transaction, mut action) = Transaction::begin(session);
        let ghost mut time: nat = match at {
            Some(t) => t as nat,
            None => 0,
        };
        loop
            invariant
                transaction.session() == *session,
                at matches Some(t) ==> time == t,
                old(self).on_track(self, session@, time, transaction.stage(), action),
            decreases steps_left(transaction.stage()),
        {
            let event = match action {
                Action::Acquire => Event::Acquired { taken: self.lock.acquire() },
                Action::ReadCurrentId => Event::CurrentId {
                    value: self.store.read(Field::Id.key()),
                },
                Action::ReadClock => {
                    let now_ms = match at {
                        Some(t) => t,
                        None => now_millis(),
                    };
                    proof {
                        time = now_ms as nat;
                    }
                    Event::Clock { now_ms }
                },
                Action::Write { field, value } => Event::Written {
                    done: self.store.write(field.key(), value.as_str()),
                },
                Action::Release => Event::Released { given: self.lock.release() },
                Action::Finish { result } => {
                    return result;
                },
            };
            action = match transaction.step(event) {
                Some(next) => next,
                None => unreached(),
            };
        }
    }
}

} // verus!
