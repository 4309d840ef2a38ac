//! The names under which changes in a project are announced.
//!
//! Whoever dispatches events to a front end builds the payload; what the
//! event is called is decided here.

use vstd::prelude::*;
use vstd::string::*;

verus! {

/// What an event is about.
#[derive(Clone, Debug, PartialEq, Eq)]
pub enum Topic {
    /// The git index of the project changed.
    GitIndex,
    /// A fetch was made.
    GitFetch,
    /// The head of the project moved.
    GitHead,
    /// Something else happened in the git directory.
    GitActivity,
    /// A session was opened or updated.
    Sessions,
    /// A file was recorded in a session.
    SessionFiles { session_id: String },
    /// Deltas were recorded in a session.
    SessionDeltas { session_id: String },
    /// The virtual branches of the project changed.
    VirtualBranches,
}

impl Topic {
    /// The part of the event's name that follows the project.
    pub open spec fn spec_path(self) -> Seq<char> {
        match self {
            Topic::GitIndex => "git/index"@,
            Topic::GitFetch => "git/fetch"@,
            Topic::GitHead => "git/head"@,
            Topic::GitActivity => "git/activity"@,
            Topic::Sessions => "sessions"@,
            Topic::SessionFiles { session_id } => "sessions/"@ + session_id@ + "/files"@,
            Topic::SessionDeltas { session_id } => "sessions/"@ + session_id@ + "/deltas"@,
            Topic::VirtualBranches => "virtual-branches"@,
        }
    }

    /// The part of the event's name that follows the project.
    pub fn path(&self) -> (path: String)
        ensures
            path@ == self.spec_path(),
    {
        match self {
            Topic::GitIndex => String::from_str("git/index"),
            Topic::GitFetch => String::from_str("git/fetch"),
            Topic::GitHead => String::from_str("git/head"),
            Topic::GitActivity => String::from_str("git/activity"),
            Topic::Sessions => String::from_str("sessions"),
            Topic::SessionFiles { session_id } => {
                let mut path = String::from_str("sessions/");
                path.append(session_id.as_str());
                path.append("/files");
                path
            },
            Topic::SessionDeltas { session_id } => {
                let mut path = String::from_str("sessions/");
                path.append(session_id.as_str());
                path.append("/deltas");
                path
            },
            Topic::VirtualBranches => String::from_str("virtual-branches"),
        }
    }
}

/// The name of the event that announces `topic` for the project
/// `project_id`.
pub fn event_name(project_id: &str, topic: &Topic) -> (name: String)
    ensures
        name@ == "project://"@ + project_id@ + "/"@ + topic.spec_path(),
{
    let mut name = String::from_str("project://");
    name.append(project_id);
    name.append("/");
    let path = topic.path();
    name.append(path.as_str());
    name
}

} // verus!
