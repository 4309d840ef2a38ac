//! One write, as a conversation between the writer and its surroundings.
//!
//! A [`Transaction`] never touches a store, a lock or a clock. It says what
//! is to be done next ([`Action`]), is told how that went ([`Event`]), and
//! says what is to be done then. Whoever can take a lock and write a file
//! can carry a write through by following it; how every step is decided,
//! and that the lock is given back whatever happens, is settled here.

use crate::decimal::decimal_string;
use crate::error::{Fault, LockPhase, WriteError};
use crate::field::Field;
use crate::protocol::{
    acquire_result, choose_path, conclude, field_text, path_for, sub_write_result, WritePath,
};
use crate::session::{text_of, Session, SessionView};
use vstd::prelude::*;

verus! {

/// What is to be done next.
#[derive(Debug, PartialEq, Eq)]
pub enum Action {
    /// Take the lock of the project.
    Acquire,
    /// Read what the store holds as the identifier of the current session.
    ReadCurrentId,
    /// Read the clock.
    ReadClock,
    /// Put `value` under the key of `field`.
    Write { field: Field, value: String },
    /// Give the lock back.
    Release,
    /// Nothing more: the write has ended with `result`.
    Finish { result: Result<(), WriteError> },
}

/// How what was to be done went.
#[derive(Debug, PartialEq, Eq)]
pub enum Event {
    /// The lock was taken, or could not be.
    Acquired { taken: Result<(), Fault> },
    /// The store holds `value` as the current session's identifier, or none.
    CurrentId { value: Option<String> },
    /// The clock shows `now_ms` milliseconds since the Unix epoch.
    Clock { now_ms: u128 },
    /// The value was written, or the store refused it.
    Written { done: Result<(), Fault> },
    /// The lock was given back, or giving it back failed.
    Released { given: Result<(), Fault> },
}

/// How far a write has come.
#[derive(Debug, PartialEq, Eq)]
pub enum Stage {
    /// The lock has been asked for.
    Acquiring,
    /// The lock is held; the current session's identifier has been asked
    /// for.
    Reading,
    /// The session is free to write on `path`; the time has been asked for.
    Timing { path: WritePath },
    /// The write of `field` has been asked for; the fields before it have
    /// been written.
    Writing { path: WritePath, now_ms: u128, field: Field },
    /// What was to be done under the lock has ended with `outcome`; the
    /// lock is being given back.
    Releasing { outcome: Result<(), WriteError> },
    /// The write has ended.
    Finished,
}

/// Whether `event` answers what was asked for at `stage`.
pub open spec fn answers(stage: Stage, event: Event) -> bool {
    match stage {
        Stage::Acquiring => event is Acquired,
        Stage::Reading => event is CurrentId,
        Stage::Timing { .. } => event is Clock,
        Stage::Writing { .. } => event is Written,
        Stage::Releasing { .. } => event is Released,
        Stage::Finished => false,
    }
}

/// The field that a write of `session` on `path` writes after `field`, if
/// any.
pub open spec fn next_field(session: SessionView, path: WritePath, field: Field) -> Option<Field> {
    if path == WritePath::Heartbeat {
        None
    } else if field.rank() < Field::Id.rank() {
        Some(Field::Id)
    } else if field.rank() < Field::Start.rank() {
        Some(Field::Start)
    } else if field.rank() < Field::Branch.rank() && session.branch is Some {
        Some(Field::Branch)
    } else if field.rank() < Field::Commit.rank() && session.commit is Some {
        Some(Field::Commit)
    } else {
        None
    }
}

/// The stage that follows `stage` once `event` has answered it, in a write of
/// `session`.
pub open spec fn next_stage(stage: Stage, session: Session, event: Event) -> Stage {
    match (stage, event) {
        (Stage::Acquiring, Event::Acquired { taken: Ok(_) }) => Stage::Reading,
        (Stage::Acquiring, Event::Acquired { taken: Err(_) }) => Stage::Finished,
        (Stage::Reading, Event::CurrentId { value }) => match path_for(
            text_of(value),
            session@.id,
        ) {
            Some(path) => Stage::Timing { path },
            None => Stage::Releasing {
                outcome: Err(
                    WriteError::ConflictingWriter {
                        requested_id: session.id,
                        current_id: value->0,
                    },
                ),
            },
        },
        (Stage::Timing { path }, Event::Clock { now_ms }) => Stage::Writing {
            path,
            now_ms,
            field: Field::Last,
        },
        (Stage::Writing { path, now_ms, field }, Event::Written { done: Ok(_) }) => match next_field(
            session@,
            path,
            field,
        ) {
            Some(next) => Stage::Writing { path, now_ms, field: next },
            None => Stage::Releasing { outcome: Ok(()) },
        },
        (Stage::Writing { path, now_ms, field }, Event::Written { done: Err(cause) }) => {
            Stage::Releasing { outcome: Err(WriteError::StoreWrite { field, cause }) }
        },
        (Stage::Releasing { outcome }, Event::Released { given }) => Stage::Finished,
        _ => stage,
    }
}

/// The result with which a write ends when `event` answers `stage`, where it
/// ends then.
pub open spec fn final_result(stage: Stage, event: Event) -> Result<(), WriteError> {
    match (stage, event) {
        (Stage::Acquiring, Event::Acquired { taken: Err(cause) }) => Err(
            WriteError::Lock { phase: LockPhase::Acquire, cause },
        ),
        (Stage::Releasing { outcome: Err(e) }, _) => Err(e),
        (Stage::Releasing { outcome: Ok(_) }, Event::Released { given: Err(cause) }) => Err(
            WriteError::Lock { phase: LockPhase::Release, cause },
        ),
        _ => Ok(()),
    }
}

/// Whether `action` is what is to be done at `stage` in a write of
/// `session`, where the write has not ended.
pub open spec fn is_due(action: Action, stage: Stage, session: SessionView) -> bool {
    match stage {
        Stage::Acquiring => action is Acquire,
        Stage::Reading => action is ReadCurrentId,
        Stage::Timing { .. } => action is ReadClock,
        Stage::Writing { path, now_ms, field } => {
            &&& action matches Action::Write { field: f, value }
            &&& f == field
            &&& value@ == field_text(session, now_ms as nat, field)
        },
        Stage::Releasing { .. } => action is Release,
        Stage::Finished => false,
    }
}

/// An upper bound on the number of steps that a write at `stage` still
/// takes.
pub open spec fn steps_left(stage: Stage) -> nat {
    match stage {
        Stage::Acquiring => 10,
        Stage::Reading => 9,
        Stage::Timing { .. } => 8,
        Stage::Writing { field, .. } => (7 - field.rank()) as nat,
        Stage::Releasing { .. } => 1,
        Stage::Finished => 0,
    }
}

/// One write of one session, carried through step by step.
pub struct Transaction<'a> {
    session: &'a Session,
    stage: Stage,
}

impl<'a> Transaction<'a> {
    /// The session that is written.
    pub closed spec fn session(&self) -> Session {
        *self.session
    }

    /// How far the write has come.
    pub closed spec fn stage(&self) -> Stage {
        self.stage
    }

    /// Begins a write of `session`. A closed session is turned down at
    /// once; for an open one the lock is asked for.
    pub fn begin(session: &'a Session) -> (begun: (Transaction<'a>, Action))
        ensures
            begun.0.session() == *session,
            session@.hash is Some ==> begun.0.stage() == Stage::Finished && begun.1 == (
            Action::Finish { result: Err(WriteError::FinalizedSession) }),
            session@.hash is None ==> begun.0.stage() == Stage::Acquiring && begun.1
                == Action::Acquire,
    {
        if session.hash.is_some() {
            (
                Transaction { session, stage: Stage::Finished },
                Action::Finish { result: Err(WriteError::FinalizedSession) },
            )
        } else {
            (Transaction { session, stage: Stage::Acquiring }, Action::Acquire)
        }
    }

    /// Whether `event` answers what the transaction asked for last. A
    /// transaction that has ended expects nothing.
    pub fn expects(&self, event: &Event) -> (expected: bool)
        ensures
            expected == answers(self.stage(), *event),
    {
        match (&self.stage, event) {
            (Stage::Acquiring, Event::Acquired { .. }) => true,
            (Stage::Reading, Event::CurrentId { .. }) => true,
            (Stage::Timing { .. }, Event::Clock { .. }) => true,
            (Stage::Writing { .. }, Event::Written { .. }) => true,
            (Stage::Releasing { .. }, Event::Released { .. }) => true,
            _ => false,
        }
    }

    /// Takes the answer to what was asked for last, and says what is to be
    /// done next. An event that does not answer what was asked for is
    /// passed over: the transaction stays where it is and says `None`.
    pub fn step(&mut self, event: Event) -> (next: Option<Action>)
        ensures
            final(self).session() == old(self).session(),
            final(self).stage() == next_stage(old(self).stage(), old(self).session(), event),
            match next {
                None => !answers(old(self).stage(), event),
                Some(action) => answers(old(self).stage(), event) && match final(self).stage() {
                    Stage::Finished => action == (Action::Finish {
                        result: final_result(old(self).stage(), event),
                    }),
                    stage => is_due(action, stage, old(self).session()@),
                },
            },
    {
        let session = self.session;
        let mut stage = Stage::Finished;
        std::mem::swap(&mut self.stage, &mut stage);
        match (stage, event) {
            (Stage::Acquiring, Event::Acquired { taken }) => match acquire_result(taken) {
                Ok(_) => {
                    self.stage = Stage::Reading;
                    Some(Action::ReadCurrentId)
                },
                Err(e) => Some(Action::Finish { result: Err(e) }),
            },
            (Stage::Reading, Event::CurrentId { value }) => match choose_path(session, value) {
                Ok(path) => {
                    self.stage = Stage::Timing { path };
                    Some(Action::ReadClock)
                },
                Err(e) => {
                    self.stage = Stage::Releasing { outcome: Err(e) };
                    Some(Action::Release)
                },
            },
            (Stage::Timing { path }, Event::Clock { now_ms }) => {
                self.stage = Stage::Writing { path, now_ms, field: Field::Last };
                Some(Action::Write { field: Field::Last, value: decimal_string(now_ms) })
            },
            (Stage::Writing { path, now_ms, field }, Event::Written { done }) => {
                match sub_write_result(field, done) {
                    Err(e) => {
                        self.stage = Stage::Releasing { outcome: Err(e) };
                        Some(Action::Release)
                    },
                    Ok(_) => match following(session, path, field) {
                        Some((next, value)) => {
                            self.stage = Stage::Writing { path, now_ms, field: next };
                            Some(Action::Write { field: next, value })
                        },
                        None => {
                            self.stage = Stage::Releasing { outcome: Ok(()) };
                            Some(Action::Release)
                        },
                    },
                }
            },
            (Stage::Releasing { outcome }, Event::Released { given }) => {
                Some(Action::Finish { result: conclude(outcome, given) })
            },
            (stage, _) => {
                self.stage = stage;
                None
            },
        }
    }
}

/// The field that follows `field` in a write of `session` on `path`, with
/// the text to be written there.
fn following(session: &Session, path: WritePath, field: Field) -> (next: Option<(Field, String)>)
    ensures
        match next_field(session@, path, field) {
            Some(f) => next matches Some((g, value)) && g == f && value@ == field_text(
                session@,
                0,
                f,
            ),
            None => next is None,
        },
{
    match path {
        WritePath::Heartbeat => None,
        WritePath::Open => {
            let after_start = match field {
                Field::Last => {
                    return Some((Field::Id, session.id.clone()));
                },
                Field::Id => {
                    return Some(
                        (Field::Start, decimal_string(session.meta.start_timestamp_ms)),
                    );
                },
                Field::Start => true,
                _ => false,
            };
            if after_start {
                match &session.meta.branch {
                    Some(branch) => {
                        return Some((Field::Branch, branch.clone()));
                    },
                    None => {},
                }
            }
            match field {
                Field::Commit => None,
                _ => match &session.meta.commit {
                    Some(commit) => Some((Field::Commit, commit.clone())),
                    None => None,
                },
            }
        },
    }
}

} // verus!
