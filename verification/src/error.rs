//! Why a tool could not be acquired.

use vstd::prelude::*;

verus! {

/// The stage of an acquisition that failed.
#[derive(Clone, Copy, Debug, PartialEq, Eq, Structural)]
pub enum ErrorKind {
    /// The directory of the running program could not be determined.
    DirectoryResolution,
    /// A fetch did not complete, or did not end with a success status.
    Network,
    /// The fetched bytes are not a readable archive.
    Archive,
    /// The tool could not be put at its place in the installation directory.
    Install,
    /// The tool could not be made executable.
    PermissionGrant,
}

/// A failed acquisition: the stage that failed and a cause for people to read.
#[derive(Debug, PartialEq, Eq)]
pub struct AcquisitionError {
    pub kind: ErrorKind,
    pub message: String,
}

/// What an [`AcquisitionError`] says, with the message as a sequence of
/// characters.
pub struct ErrorModel {
    pub kind: ErrorKind,
    pub message: Seq<char>,
}

impl View for AcquisitionError {
    type V = ErrorModel;

    open spec fn view(&self) -> ErrorModel {
        ErrorModel { kind: self.kind, message: self.message@ }
    }
}

impl AcquisitionError {
    /// An error of the given kind with the given cause.
    pub fn new(kind: ErrorKind, message: String) -> (e: AcquisitionError)
        ensures
            e@ == (ErrorModel { kind, message: message@ }),
    {
        AcquisitionError { kind, message }
    }

    /// An error of the given kind whose cause is `prefix` followed by `cause`.
    pub fn with_prefix(kind: ErrorKind, prefix: &str, cause: &str) -> (e: AcquisitionError)
        ensures
            e@ == (ErrorModel { kind, message: prefix@ + cause@ }),
    {
        let mut message = prefix.to_owned();
        message.append(cause);
        AcquisitionError { kind, message }
    }

    /// The stage that failed.
    pub fn kind(&self) -> (kind: ErrorKind)
        ensures
            kind == self@.kind,
    {
        self.kind
    }

    /// The cause, as it is shown to the user.
    pub fn describe(&self) -> (text: String)
        ensures
            text@ == self@.message,
    {
        self.message.clone()
    }

    /// A second error that says the same.
    pub fn duplicate(&self) -> (e: AcquisitionError)
        ensures
            e@ == self@,
    {
        AcquisitionError { kind: self.kind, message: self.message.clone() }
    }
}

} // verus!
