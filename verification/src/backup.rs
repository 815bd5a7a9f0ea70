//! Decisions of the change-notification dispatcher.
//!
//! A filesystem watcher (outside the library) reports each change as a
//! pair of an optional new path and an optional old path. The functions
//! here decide what such an event means — a file was added, updated,
//! renamed or removed — and render the human-readable message to notify
//! with. Delivering the message is a backend's job, behind `Notifiable`.

use vstd::prelude::*;
use vstd::string::StringExecFns;

use crate::path::{render_path, FilePath};

verus! {

/// Why handling a change event failed.
#[derive(Clone, Copy, Debug, PartialEq, Eq, Structural)]
pub enum EventError {
    /// The event named neither a new nor an old path.
    EmptyEvent,
    /// The notification backend reported a failure.
    NotifyFailed,
}

/// Why a notification could not be delivered.
#[derive(Clone, Copy, Debug, PartialEq, Eq, Structural)]
pub enum NotifyError {
    /// The backend could not show the message.
    Failed,
}

/// A notification backend: shows a message to the user. Implementations
/// live outside the library (a desktop toast, a terminal line, ...).
pub trait Notifiable {
    fn notify(&self, msg: &str) -> Result<(), NotifyError>;
}

/// What kind of change an event reports.
#[derive(Clone, Copy, Debug, PartialEq, Eq, Structural)]
pub enum ChangeKind {
    /// A file appeared: only a new path was reported.
    Added,
    /// A file's content changed: new and old path are the same.
    Updated,
    /// A file moved: new and old path differ.
    Renamed,
    /// A file vanished: only an old path was reported.
    Removed,
}

/// The view of an optional path.
pub open spec fn opt_path_view(p: Option<FilePath>) -> Option<Seq<Seq<char>>> {
    match p {
        Option::Some(q) => Option::Some(q@),
        Option::None => Option::None,
    }
}

/// The message an event is announced with; empty for the empty event.
pub open spec fn event_message_view(
    new: Option<Seq<Seq<char>>>,
    old: Option<Seq<Seq<char>>>,
) -> Seq<char> {
    match (new, old) {
        (Option::Some(n), Option::None) => "new file: "@ + render_path(n),
        (Option::Some(n), Option::Some(o)) => if n == o {
            "updated "@ + render_path(n)
        } else {
            "rename "@ + render_path(o) + " to "@ + render_path(n)
        },
        (Option::None, Option::Some(o)) => "delete "@ + render_path(o),
        (Option::None, Option::None) => Seq::empty(),
    }
}

/// Renders the notification message of one change event, or nothing for
/// an event that names no path at all.
pub fn event_message(new: &Option<FilePath>, old: &Option<FilePath>) -> (r: Option<String>)
    ensures
        r is Some <==> !(new is None && old is None),
        r matches Some(msg) ==> msg@ == event_message_view(opt_path_view(*new), opt_path_view(*old)),
{
    match (new, old) {
        (Option::Some(n), Option::None) => {
            let mut s = String::new();
            s.append("new file: ");
            let d = n.display_string();
            s.append(d.as_str());
            Option::Some(s)
        },
        (Option::Some(n), Option::Some(o)) => {
            let mut s = String::new();
            if n.eq_path(o) {
                s.append("updated ");
                let d = n.display_string();
                s.append(d.as_str());
            } else {
                s.append("rename ");
                let od = o.display_string();
                s.append(od.as_str());
                s.append(" to ");
                let nd = n.display_string();
                s.append(nd.as_str());
            }
            Option::Some(s)
        },
        (Option::None, Option::Some(o)) => {
            let mut s = String::new();
            s.append("delete ");
            let d = o.display_string();
            s.append(d.as_str());
            Option::Some(s)
        },
        (Option::None, Option::None) => Option::None,
    }
}

/// What the git-side handler is to do with an event: the kind of change,
/// or a fault for the empty event.
pub open spec fn spec_git_handle(
    new: Option<Seq<Seq<char>>>,
    old: Option<Seq<Seq<char>>>,
) -> Result<ChangeKind, EventError> {
    match (new, old) {
        (Option::Some(_), Option::None) => Result::Ok(ChangeKind::Added),
        (Option::Some(n), Option::Some(o)) => if n == o {
            Result::Ok(ChangeKind::Updated)
        } else {
            Result::Ok(ChangeKind::Renamed)
        },
        (Option::None, Option::Some(_)) => Result::Ok(ChangeKind::Removed),
        (Option::None, Option::None) => Result::Err(EventError::EmptyEvent),
    }
}

/// Classifies a change event for the git-side handler.
pub fn git_handle(new: &Option<FilePath>, old: &Option<FilePath>) -> (r: Result<
    ChangeKind,
    EventError,
>)
    ensures
        r == spec_git_handle(opt_path_view(*new), opt_path_view(*old)),
{
    match (new, old) {
        (Option::Some(_), Option::None) => Result::Ok(ChangeKind::Added),
        (Option::Some(n), Option::Some(o)) => if n.eq_path(o) {
            Result::Ok(ChangeKind::Updated)
        } else {
            Result::Ok(ChangeKind::Renamed)
        },
        (Option::None, Option::Some(_)) => Result::Ok(ChangeKind::Removed),
        (Option::None, Option::None) => Result::Err(EventError::EmptyEvent),
    }
}

/// Decides whether a change event should fire the on-change callback:
/// every event that names at least one path does, the empty event does
/// not. The caller runs the callback.
pub fn trigger_on_change(new: &Option<FilePath>, old: &Option<FilePath>) -> (r: bool)
    ensures
        r == !(new is None && old is None),
{
    match (new, old) {
        (Option::None, Option::None) => false,
        _ => true,
    }
}

/// Sends one probe notification through the backend, to check that it is
/// wired up; returns whatever the backend answered.
pub fn t<M: Notifiable>(m: M) -> Result<(), NotifyError> {
    m.notify("test")
}

/// The event dispatcher: renders each event's message and hands it to its
/// notification backend.
pub struct Program<N> {
    pub notifiable: N,
}

impl<N: Notifiable> Program<N> {
    /// Handles one change event: renders its message and notifies with it.
    /// The empty event is a fault of the watcher and is rejected; for any
    /// other event the outcome is the backend's.
    pub fn handle(&self, new: &Option<FilePath>, old: &Option<FilePath>) -> (r: Result<
        (),
        EventError,
    >)
        ensures
            (new is None && old is None) <==> (r matches Err(e) && e is EmptyEvent),
    {
        match event_message(new, old) {
            Option::Some(msg) => match self.notifiable.notify(msg.as_str()) {
                Result::Ok(_) => Result::Ok(()),
                Result::Err(_) => Result::Err(EventError::NotifyFailed),
            },
            Option::None => Result::Err(EventError::EmptyEvent),
        }
    }
}

} // verus!
