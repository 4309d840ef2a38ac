//! The lock that keeps session writers of one project apart.
//!
//! [`RepositoryLock`] is what a lock has to offer so that a
//! [`SessionWriter`](crate::writer::SessionWriter) can work with it, and
//! [`MemoryLock`] is such a lock, for one process. A lock that cannot be
//! described to Verus, such as a lock file, is served by following a
//! [`Transaction`](crate::transaction::Transaction) instead.

use crate::error::Fault;
use vstd::prelude::*;
use vstd::string::*;

verus! {

/// An advisory lock on the repository of one project.
///
/// The three spec functions are the model of a handle: whether it holds the
/// lock, and how often it has taken and given it back. An implementation
/// promises that taking the lock never succeeds on a handle that already
/// holds it, and that giving it back always leaves the handle without it,
/// whatever it reports; Verus holds every implementation to it.
pub trait RepositoryLock {
    /// Whether this handle holds the lock.
    spec fn held(&self) -> bool;

    /// How often this handle has taken the lock.
    spec fn acquisitions(&self) -> nat;

    /// How often this handle has given the lock back.
    spec fn releases(&self) -> nat;

    /// Takes the lock. On failure the handle is as it was.
    fn acquire(&mut self) -> (taken: Result<(), Fault>)
        ensures
            taken is Ok ==> !old(self).held() && final(self).held() && final(self).acquisitions()
                == old(self).acquisitions() + 1,
            taken is Err ==> final(self).held() == old(self).held() && final(self).acquisitions()
                == old(self).acquisitions(),
            final(self).releases() == old(self).releases(),
    ;

    /// Gives the lock back. Afterwards the handle does not hold it, also
    /// where giving it back is reported to have failed.
    fn release(&mut self) -> (given: Result<(), Fault>)
        requires
            old(self).held(),
        ensures
            !final(self).held(),
            final(self).releases() == old(self).releases() + 1,
            final(self).acquisitions() == old(self).acquisitions(),
    ;
}

/// A lock for a single process.
///
/// It can be told to refuse the lock, or to report a failure when the lock
/// is given back.
pub struct MemoryLock {
    held: bool,
    rounds: u64,
    refusing: bool,
    sticking: bool,
}

impl MemoryLock {
    /// Whether the lock is refused to whoever asks for it.
    pub closed spec fn refuses(&self) -> bool {
        self.refusing
    }

    /// Whether giving the lock back is reported as failed.
    pub closed spec fn sticks(&self) -> bool {
        self.sticking
    }

    /// Whether the handle has been through so many rounds that it takes
    /// the lock no more.
    pub closed spec fn worn_out(&self) -> bool {
        self.rounds == u64::MAX
    }

    /// A lock that nobody holds and nobody has held, and that does what it
    /// is asked.
    pub fn new() -> (lock: MemoryLock)
        ensures
            !lock.held(),
            lock.acquisitions() == 0,
            lock.releases() == 0,
            !lock.refuses(),
            !lock.sticks(),
            !lock.worn_out(),
    {
        MemoryLock { held: false, rounds: 0, refusing: false, sticking: false }
    }

    /// Sets whether the lock is refused from now on.
    pub fn set_refusing(&mut self, refusing: bool)
        ensures
            final(self).refuses() == refusing,
            final(self).sticks() == old(self).sticks(),
            final(self).held() == old(self).held(),
            final(self).acquisitions() == old(self).acquisitions(),
            final(self).releases() == old(self).releases(),
            final(self).worn_out() == old(self).worn_out(),
    {
        self.refusing = refusing;
    }

    /// Sets whether giving the lock back is reported as failed from now on.
    pub fn set_sticking(&mut self, sticking: bool)
        ensures
            final(self).sticks() == sticking,
            final(self).refuses() == old(self).refuses(),
            final(self).held() == old(self).held(),
            final(self).acquisitions() == old(self).acquisitions(),
            final(self).releases() == old(self).releases(),
            final(self).worn_out() == old(self).worn_out(),
    {
        self.sticking = sticking;
    }

    /// Whether the handle holds the lock.
    pub fn is_held(&self) -> (held: bool)
        ensures
            held == self.held(),
    {
        self.held && self.rounds < u64::MAX
    }

    /// How often the handle has given the lock back.
    pub fn release_count(&self) -> (count: u64)
        ensures
            count as nat == self.releases(),
    {
        self.rounds
    }

    /// How often the handle has taken the lock.
    pub fn acquire_count(&self) -> (count: u64)
        ensures
            count as nat == self.acquisitions(),
    {
        if self.held && self.rounds < u64::MAX {
            self.rounds + 1
        } else {
            self.rounds
        }
    }
}

impl RepositoryLock for MemoryLock {
    closed spec fn held(&self) -> bool {
        self.held && self.rounds < u64::MAX
    }

    closed spec fn acquisitions(&self) -> nat {
        if self.held() {
            (self.rounds + 1) as nat
        } else {
            self.rounds as nat
        }
    }

    closed spec fn releases(&self) -> nat {
        self.rounds as nat
    }

    /// Succeeds unless the handle holds the lock already, is told to
    /// refuse it, or is worn out.
    fn acquire(&mut self) -> (taken: Result<(), Fault>)
        ensures
            taken is Ok <==> !old(self).held() && !old(self).refuses() && !old(self).worn_out(),
            taken matches Err(fault) ==> fault.message@ == (if old(self).held() {
                "lock is already held"@
            } else if old(self).refuses() {
                "lock refused"@
            } else {
                "lock is worn out"@
            }),
            final(self).refuses() == old(self).refuses(),
            final(self).sticks() == old(self).sticks(),
            final(self).worn_out() == old(self).worn_out(),
    {
        if self.held && self.rounds < u64::MAX {
            Err(Fault { message: String::from_str("lock is already held") })
        } else if self.refusing {
            Err(Fault { message: String::from_str("lock refused") })
        } else if self.rounds == u64::MAX {
            Err(Fault { message: String::from_str("lock is worn out") })
        } else {
            self.held = true;
            Ok(())
        }
    }

    /// Reports a failure exactly when the handle is told to stick.
    fn release(&mut self) -> (given: Result<(), Fault>)
        ensures
            given is Err <==> old(self).sticks(),
            given matches Err(fault) ==> fault.message@ == "lock could not be given back"@,
            final(self).refuses() == old(self).refuses(),
            final(self).sticks() == old(self).sticks(),
    {
        self.held = false;
        self.rounds = self.rounds + 1;
        if self.sticking {
            Err(Fault { message: String::from_str("lock could not be given back") })
        } else {
            Ok(())
        }
    }
}

} // verus!
