//! Session metadata writing under a per-project lock.
//!
//! A work session is an interval during which the edits to a project are
//! recorded. This crate keeps the record of which session is current for a
//! project and of when its writer was last seen alive.
//!
//! * [`transaction`] is the heart: one write as a conversation of requests
//!   and answers, which touches neither disk nor lock nor clock.
//! * [`protocol`] holds the rules that the conversation follows, and says
//!   what a store holds after a write.
//! * [`writer`] carries a transaction through against a store and a lock
//!   that are given as [`store::MetaStore`] and [`lock::RepositoryLock`].
//! * [`laws`] states what holds of every write.

pub mod clock;
pub mod decimal;
pub mod error;
pub mod events;
pub mod field;
pub mod laws;
pub mod lock;
pub mod protocol;
pub mod session;
pub mod store;
pub mod transaction;
pub mod writer;
