//! The exchange between an acquisition and the program that embeds it: the
//! actions that the library asks for, and the events that answer them.

use crate::error::{ErrorKind, ErrorModel};
use vstd::prelude::*;

verus! {

/// What is appended to a tool's path to name its staging file.
pub const STAGING_SUFFIX: &'static str = ".part";

/// What the embedding program reports back.
#[derive(Debug, PartialEq, Eq)]
pub enum Event {
    /// The tool's place in the installation directory, and whether a file
    /// is there already.
    Located { path: String, exists: bool },
    /// The download process ended, with a success status or another.
    Exited { success: bool },
    /// The body of the fetched archive.
    Body { bytes: Vec<u8> },
    /// The running program's path names no directory to install into.
    NoDirectory,
    /// The action was carried out.
    Completed,
    /// The action could not be carried out.
    Failed { cause: String },
    /// The transfer began and broke off.
    Interrupted { cause: String },
}

/// An [`Event`] with its strings and bytes as sequences.
pub enum EventModel {
    Located { path: Seq<char>, exists: bool },
    Exited { success: bool },
    Body { bytes: Seq<u8> },
    NoDirectory,
    Completed,
    Failed { cause: Seq<char> },
    Interrupted { cause: Seq<char> },
}

impl View for Event {
    type V = EventModel;

    open spec fn view(&self) -> EventModel {
        match *self {
            Event::Located { path, exists } => EventModel::Located { path: path@, exists },
            Event::Exited { success } => EventModel::Exited { success },
            Event::Body { bytes } => EventModel::Body { bytes: bytes@ },
            Event::NoDirectory => EventModel::NoDirectory,
            Event::Completed => EventModel::Completed,
            Event::Failed { cause } => EventModel::Failed { cause: cause@ },
            Event::Interrupted { cause } => EventModel::Interrupted { cause: cause@ },
        }
    }
}

/// What the embedding program is to do next.
#[derive(Debug, PartialEq, Eq)]
pub enum Action {
    /// Find the directory of the running program, join `file_name` to it,
    /// and report the path and whether a file exists there.
    Locate { file_name: String },
    /// Stream the resource at `url` into the file `to`, following
    /// redirects, and report how the transfer ended.
    Download { url: String, to: String },
    /// Fetch the resource at `url` into memory and report its body.
    Fetch { url: String },
    /// Write `data` to the file `to`.
    Write { to: String, data: Vec<u8> },
    /// Rename the file `from` to `to`, replacing nothing half-way.
    Rename { from: String, to: String },
    /// Make the file at `path` executable.
    GrantExec { path: String },
    /// Remove the file at `path` if it is there.
    Remove { path: String },
    /// The event was not the one awaited: go on waiting for that one.
    Idle,
    /// The acquisition is over: read the outcome from the state.
    Stop,
}

/// An [`Action`] with its strings and bytes as sequences.
pub enum ActionModel {
    Locate { file_name: Seq<char> },
    Download { url: Seq<char>, to: Seq<char> },
    Fetch { url: Seq<char> },
    Write { to: Seq<char>, data: Seq<u8> },
    Rename { from: Seq<char>, to: Seq<char> },
    GrantExec { path: Seq<char> },
    Remove { path: Seq<char> },
    Idle,
    Stop,
}

impl View for Action {
    type V = ActionModel;

    open spec fn view(&self) -> ActionModel {
        match *self {
            Action::Locate { file_name } => ActionModel::Locate { file_name: file_name@ },
            Action::Download { url, to } => ActionModel::Download { url: url@, to: to@ },
            Action::Fetch { url } => ActionModel::Fetch { url: url@ },
            Action::Write { to, data } => ActionModel::Write { to: to@, data: data@ },
            Action::Rename { from, to } => ActionModel::Rename { from: from@, to: to@ },
            Action::GrantExec { path } => ActionModel::GrantExec { path: path@ },
            Action::Remove { path } => ActionModel::Remove { path: path@ },
            Action::Idle => ActionModel::Idle,
            Action::Stop => ActionModel::Stop,
        }
    }
}

/// The staging file of a tool: its path with the staging suffix.
pub open spec fn staging_of(path: Seq<char>) -> Seq<char> {
    path + STAGING_SUFFIX@
}

/// The path of the staging file that belongs to `path`.
pub fn staging_path(path: &str) -> (staging: String)
    ensures
        staging@ == staging_of(path@),
{
    let mut staging = path.to_owned();
    staging.append(STAGING_SUFFIX);
    staging
}

/// A staging file is never the tool's own place.
pub proof fn lemma_staging_differs(path: Seq<char>)
    ensures
        staging_of(path) != path,
{
    reveal_strlit(".part");
    assert(staging_of(path).len() == path.len() + 5);
}

/// An error of the given kind with the given cause.
pub open spec fn failure(kind: ErrorKind, message: Seq<char>) -> ErrorModel {
    ErrorModel { kind, message }
}

} // verus!
