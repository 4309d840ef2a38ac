use std::collections::HashMap;

use sessions::error::{Fault, LockPhase, WriteError};
use sessions::field::Field;
use sessions::session::{Meta, Session};
use sessions::transaction::{Action, Event, Transaction};

fn session(id: &str, start: u128, branch: Option<&str>, commit: Option<&str>) -> Session {
    Session {
        id: id.to_string(),
        hash: None,
        meta: Meta {
            start_timestamp_ms: start,
            branch: branch.map(|b| b.to_string()),
            commit: commit.map(|c| c.to_string()),
        },
    }
}

fn fault(message: &str) -> Fault {
    Fault { message: message.to_string() }
}

fn write_of(field: Field, value: &str) -> Action {
    Action::Write { field, value: value.to_string() }
}

/// Surroundings made of a map, a flag and a counter.
struct World {
    files: HashMap<String, String>,
    refused: Option<&'static str>,
    locked: bool,
    releases: u32,
    now: u128,
    trace: Vec<&'static str>,
}

impl World {
    fn new(now: u128) -> World {
        World {
            files: HashMap::new(),
            refused: None,
            locked: false,
            releases: 0,
            now,
            trace: Vec::new(),
        }
    }

    fn get(&self, key: &str) -> Option<&str> {
        self.files.get(key).map(|v| v.as_str())
    }

    fn run(&mut self, session: &Session) -> Result<(), WriteError> {
        let (mut transaction, mut action) = Transaction::begin(session);
        loop {
            let event = match action {
                Action::Acquire => {
                    self.trace.push("acquire");
                    assert!(!self.locked);
                    self.locked = true;
                    Event::Acquired { taken: Ok(()) }
                }
                Action::ReadCurrentId => {
                    self.trace.push("read");
                    assert!(self.locked);
                    Event::CurrentId { value: self.files.get("meta/id").cloned() }
                }
                Action::ReadClock => {
                    self.trace.push("clock");
                    Event::Clock { now_ms: self.now }
                }
                Action::Write { field, value } => {
                    self.trace.push(field.key());
                    assert!(self.locked);
                    if self.refused == Some(field.key()) {
                        Event::Written { done: Err(fault("refused")) }
                    } else {
                        self.files.insert(field.key().to_string(), value);
                        Event::Written { done: Ok(()) }
                    }
                }
                Action::Release => {
                    self.trace.push("release");
                    assert!(self.locked);
                    self.locked = false;
                    self.releases += 1;
                    Event::Released { given: Ok(()) }
                }
                Action::Finish { result } => return result,
            };
            assert!(transaction.expects(&event));
            action = transaction.step(event).unwrap();
        }
    }
}

#[test]
fn closed_session_ends_at_once() {
    let mut closed = session("s1", 1000, None, None);
    closed.hash = Some("x".to_string());
    let (transaction, action) = Transaction::begin(&closed);
    assert_eq!(action, Action::Finish { result: Err(WriteError::FinalizedSession) });
    assert!(!transaction.expects(&Event::Acquired { taken: Ok(()) }));
    assert!(!transaction.expects(&Event::Released { given: Ok(()) }));
}

#[test]
fn new_session_step_by_step() {
    let s = session("s1", 1000, Some("main"), Some("abc"));
    let (mut t, action) = Transaction::begin(&s);
    assert_eq!(action, Action::Acquire);
    assert_eq!(t.step(Event::Acquired { taken: Ok(()) }), Some(Action::ReadCurrentId));
    assert_eq!(t.step(Event::CurrentId { value: None }), Some(Action::ReadClock));
    assert_eq!(t.step(Event::Clock { now_ms: 5000 }), Some(write_of(Field::Last, "5000")));
    assert_eq!(t.step(Event::Written { done: Ok(()) }), Some(write_of(Field::Id, "s1")));
    assert_eq!(t.step(Event::Written { done: Ok(()) }), Some(write_of(Field::Start, "1000")));
    assert_eq!(t.step(Event::Written { done: Ok(()) }), Some(write_of(Field::Branch, "main")));
    assert_eq!(t.step(Event::Written { done: Ok(()) }), Some(write_of(Field::Commit, "abc")));
    assert_eq!(t.step(Event::Written { done: Ok(()) }), Some(Action::Release));
    assert_eq!(t.step(Event::Released { given: Ok(()) }), Some(Action::Finish { result: Ok(()) }));
}

#[test]
fn absent_fields_are_skipped() {
    let s = session("s1", 1000, None, Some("abc"));
    let (mut t, _) = Transaction::begin(&s);
    t.step(Event::Acquired { taken: Ok(()) });
    t.step(Event::CurrentId { value: None });
    assert_eq!(t.step(Event::Clock { now_ms: 1 }), Some(write_of(Field::Last, "1")));
    assert_eq!(t.step(Event::Written { done: Ok(()) }), Some(write_of(Field::Id, "s1")));
    assert_eq!(t.step(Event::Written { done: Ok(()) }), Some(write_of(Field::Start, "1000")));
    assert_eq!(t.step(Event::Written { done: Ok(()) }), Some(write_of(Field::Commit, "abc")));
    assert_eq!(t.step(Event::Written { done: Ok(()) }), Some(Action::Release));

    let s = session("s1", 1000, Some("main"), None);
    let (mut t, _) = Transaction::begin(&s);
    t.step(Event::Acquired { taken: Ok(()) });
    t.step(Event::CurrentId { value: None });
    t.step(Event::Clock { now_ms: 1 });
    t.step(Event::Written { done: Ok(()) });
    assert_eq!(t.step(Event::Written { done: Ok(()) }), Some(write_of(Field::Start, "1000")));
    assert_eq!(t.step(Event::Written { done: Ok(()) }), Some(write_of(Field::Branch, "main")));
    assert_eq!(t.step(Event::Written { done: Ok(()) }), Some(Action::Release));

    let s = session("s1", 1000, None, None);
    let (mut t, _) = Transaction::begin(&s);
    t.step(Event::Acquired { taken: Ok(()) });
    t.step(Event::CurrentId { value: None });
    t.step(Event::Clock { now_ms: 1 });
    t.step(Event::Written { done: Ok(()) });
    assert_eq!(t.step(Event::Written { done: Ok(()) }), Some(write_of(Field::Start, "1000")));
    assert_eq!(t.step(Event::Written { done: Ok(()) }), Some(Action::Release));
}

#[test]
fn heartbeat_step_by_step() {
    let s = session("s1", 9999, Some("dev"), Some("abc"));
    let (mut t, action) = Transaction::begin(&s);
    assert_eq!(action, Action::Acquire);
    assert_eq!(t.step(Event::Acquired { taken: Ok(()) }), Some(Action::ReadCurrentId));
    assert_eq!(t.step(Event::CurrentId { value: Some("s1".to_string()) }), Some(Action::ReadClock));
    assert_eq!(t.step(Event::Clock { now_ms: 42 }), Some(write_of(Field::Last, "42")));
    assert_eq!(t.step(Event::Written { done: Ok(()) }), Some(Action::Release));
    assert_eq!(t.step(Event::Released { given: Ok(()) }), Some(Action::Finish { result: Ok(()) }));
}

#[test]
fn conflict_step_by_step() {
    let s = session("s2", 2000, None, None);
    let (mut t, _) = Transaction::begin(&s);
    assert_eq!(t.step(Event::Acquired { taken: Ok(()) }), Some(Action::ReadCurrentId));
    // No clock is read and nothing is written: the lock is given back.
    assert_eq!(t.step(Event::CurrentId { value: Some("s1".to_string()) }), Some(Action::Release));
    assert_eq!(
        t.step(Event::Released { given: Ok(()) }),
        Some(Action::Finish {
            result: Err(WriteError::ConflictingWriter {
                requested_id: "s2".to_string(),
                current_id: "s1".to_string(),
            })
        })
    );
}

#[test]
fn refused_lock_ends_the_write() {
    let s = session("s1", 1000, None, None);
    let (mut t, _) = Transaction::begin(&s);
    assert_eq!(
        t.step(Event::Acquired { taken: Err(fault("busy")) }),
        Some(Action::Finish {
            result: Err(WriteError::Lock { phase: LockPhase::Acquire, cause: fault("busy") })
        })
    );
    assert!(!t.expects(&Event::Acquired { taken: Ok(()) }));
}

#[test]
fn store_failure_goes_to_release() {
    for failing in 0..5usize {
        let s = session("s1", 1000, Some("main"), Some("abc"));
        let fields = [Field::Last, Field::Id, Field::Start, Field::Branch, Field::Commit];
        let (mut t, _) = Transaction::begin(&s);
        t.step(Event::Acquired { taken: Ok(()) });
        t.step(Event::CurrentId { value: None });
        let mut action = t.step(Event::Clock { now_ms: 1 }).unwrap();
        for field in fields.iter().take(failing) {
            match &action {
                Action::Write { field: f, .. } => assert_eq!(f, field),
                other => panic!("unexpected action: {:?}", other),
            }
            action = t.step(Event::Written { done: Ok(()) }).unwrap();
        }
        match &action {
            Action::Write { field: f, .. } => assert_eq!(*f, fields[failing]),
            other => panic!("unexpected action: {:?}", other),
        }
        assert_eq!(t.step(Event::Written { done: Err(fault("disk full")) }), Some(Action::Release));
        assert_eq!(
            t.step(Event::Released { given: Ok(()) }),
            Some(Action::Finish {
                result: Err(WriteError::StoreWrite {
                    field: fields[failing],
                    cause: fault("disk full"),
                })
            })
        );
    }
}

#[test]
fn failed_release_after_success_is_a_lock_error() {
    let s = session("s1", 1000, None, None);
    let (mut t, _) = Transaction::begin(&s);
    t.step(Event::Acquired { taken: Ok(()) });
    t.step(Event::CurrentId { value: Some("s1".to_string()) });
    t.step(Event::Clock { now_ms: 1 });
    assert_eq!(t.step(Event::Written { done: Ok(()) }), Some(Action::Release));
    assert_eq!(
        t.step(Event::Released { given: Err(fault("stuck")) }),
        Some(Action::Finish {
            result: Err(WriteError::Lock { phase: LockPhase::Release, cause: fault("stuck") })
        })
    );
}

#[test]
fn failed_release_after_failure_reports_the_failure() {
    let s = session("s1", 1000, None, None);
    let (mut t, _) = Transaction::begin(&s);
    t.step(Event::Acquired { taken: Ok(()) });
    t.step(Event::CurrentId { value: None });
    t.step(Event::Clock { now_ms: 1 });
    assert_eq!(t.step(Event::Written { done: Err(fault("disk full")) }), Some(Action::Release));
    assert_eq!(
        t.step(Event::Released { given: Err(fault("stuck")) }),
        Some(Action::Finish {
            result: Err(WriteError::StoreWrite { field: Field::Last, cause: fault("disk full") })
        })
    );
}

#[test]
fn answer_to_another_question_is_passed_over() {
    let s = session("s1", 1000, None, None);
    let (mut t, _) = Transaction::begin(&s);
    assert_eq!(t.step(Event::Written { done: Ok(()) }), None);
    assert_eq!(t.step(Event::Released { given: Ok(()) }), None);
    assert_eq!(t.step(Event::Clock { now_ms: 3 }), None);
    assert_eq!(t.step(Event::CurrentId { value: None }), None);
    // The transaction is where it was: it still waits for the lock.
    assert_eq!(t.step(Event::Acquired { taken: Ok(()) }), Some(Action::ReadCurrentId));
    assert_eq!(t.step(Event::Acquired { taken: Ok(()) }), None);
    assert_eq!(t.step(Event::CurrentId { value: None }), Some(Action::ReadClock));
    assert_eq!(t.step(Event::Written { done: Err(fault("x")) }), None);
    assert_eq!(t.step(Event::Clock { now_ms: 3 }), Some(write_of(Field::Last, "3")));
    assert_eq!(t.step(Event::Clock { now_ms: 4 }), None);
    assert_eq!(t.step(Event::Written { done: Ok(()) }), Some(write_of(Field::Id, "s1")));
}

#[test]
fn ended_transaction_takes_no_more_answers() {
    let s = session("s1", 1000, None, None);
    let (mut t, _) = Transaction::begin(&s);
    assert_eq!(
        t.step(Event::Acquired { taken: Err(fault("busy")) }),
        Some(Action::Finish {
            result: Err(WriteError::Lock { phase: LockPhase::Acquire, cause: fault("busy") })
        })
    );
    assert_eq!(t.step(Event::Acquired { taken: Ok(()) }), None);
    assert_eq!(t.step(Event::Released { given: Ok(()) }), None);

    let mut closed = session("s1", 1000, None, None);
    closed.hash = Some(String::new());
    let (mut t, _) = Transaction::begin(&closed);
    assert_eq!(t.step(Event::Acquired { taken: Ok(()) }), None);
}

#[test]
fn expects_the_answer_to_what_was_asked() {
    let s = session("s1", 1000, None, None);
    let (mut t, _) = Transaction::begin(&s);
    let acquired = || Event::Acquired { taken: Ok(()) };
    let id = || Event::CurrentId { value: None };
    let clock = || Event::Clock { now_ms: 1 };
    let written = || Event::Written { done: Ok(()) };
    let released = || Event::Released { given: Ok(()) };

    assert!(t.expects(&acquired()));
    assert!(!t.expects(&id()) && !t.expects(&clock()));
    assert!(!t.expects(&written()) && !t.expects(&released()));
    t.step(acquired());
    assert!(t.expects(&id()));
    assert!(!t.expects(&acquired()) && !t.expects(&clock()));
    t.step(id());
    assert!(t.expects(&clock()));
    assert!(!t.expects(&written()) && !t.expects(&id()));
    t.step(clock());
    assert!(t.expects(&written()));
    assert!(!t.expects(&released()) && !t.expects(&clock()));
    t.step(written());
    t.step(written());
    assert_eq!(t.step(written()), Some(Action::Release));
    assert!(t.expects(&released()));
    assert!(!t.expects(&written()));
    t.step(released());
    assert!(!t.expects(&released()) && !t.expects(&acquired()));
}

#[test]
fn world_opens_beats_and_turns_down() {
    let mut world = World::new(100);
    assert_eq!(world.run(&session("s1", 1000, Some("main"), None)), Ok(()));
    assert_eq!(world.get("meta/id"), Some("s1"));
    assert_eq!(world.get("meta/start"), Some("1000"));
    assert_eq!(world.get("meta/branch"), Some("main"));
    assert_eq!(world.get("meta/last"), Some("100"));
    assert_eq!(world.get("meta/commit"), None);
    assert_eq!(
        world.trace,
        vec!["acquire", "read", "clock", "meta/last", "meta/id", "meta/start", "meta/branch",
            "release"]
    );

    world.now = 101;
    world.trace.clear();
    assert_eq!(world.run(&session("s1", 9999, Some("dev"), None)), Ok(()));
    assert_eq!(world.get("meta/start"), Some("1000"));
    assert_eq!(world.get("meta/branch"), Some("main"));
    assert_eq!(world.get("meta/last"), Some("101"));
    assert_eq!(world.trace, vec!["acquire", "read", "clock", "meta/last", "release"]);

    world.now = 102;
    world.trace.clear();
    let before = world.files.clone();
    assert_eq!(
        world.run(&session("s2", 2000, None, None)),
        Err(WriteError::ConflictingWriter {
            requested_id: "s2".to_string(),
            current_id: "s1".to_string(),
        })
    );
    assert_eq!(world.files, before);
    assert_eq!(world.trace, vec!["acquire", "read", "release"]);
    assert_eq!(world.releases, 3);
    assert!(!world.locked);
}

#[test]
fn world_with_a_failing_store_gives_the_lock_back_once() {
    let mut world = World::new(7);
    world.refused = Some("meta/start");
    match world.run(&session("s1", 1000, Some("main"), Some("abc"))) {
        Err(WriteError::StoreWrite { field, cause }) => {
            assert_eq!(field, Field::Start);
            assert_eq!(cause, fault("refused"));
        }
        other => panic!("unexpected result: {:?}", other),
    }
    assert_eq!(world.releases, 1);
    assert!(!world.locked);
    assert_eq!(
        world.trace,
        vec!["acquire", "read", "clock", "meta/last", "meta/id", "meta/start", "release"]
    );
    assert_eq!(world.get("meta/last"), Some("7"));
    assert_eq!(world.get("meta/id"), Some("s1"));
    assert_eq!(world.get("meta/start"), None);
}

#[test]
fn world_untouched_by_a_closed_session() {
    let mut world = World::new(7);
    let mut closed = session("s1", 1000, None, None);
    closed.hash = Some("abc".to_string());
    assert_eq!(world.run(&closed), Err(WriteError::FinalizedSession));
    assert!(world.trace.is_empty());
    assert!(world.files.is_empty());
    assert_eq!(world.releases, 0);
}
