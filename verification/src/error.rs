//! The error type shared by every operation of the library.

use crate::text::{decimal, push_decimal};
use vstd::prelude::*;
use vstd::string::*;

verus! {

/// Why an operation did not succeed.
#[derive(Clone, Debug, PartialEq, Eq)]
pub enum ErrorKind {
    /// The credential exchange with the remote service failed.
    AuthenticationFailure(String),
    /// The playlist file does not exist.
    FileNotFound(String),
    /// A search that should have had one result had this many.
    MultipleResults(u32),
    /// The playlist path names something that is not a file.
    NotAFile(String),
    /// A search had no result.
    NoResults,
    /// The playlist file could not be read as a property list.
    PlistError(String),
    /// The remote service rejected the credential of a call.
    Unauthorized,
}

#[derive(Clone, Debug, PartialEq, Eq)]
pub struct Error {
    pub kind: ErrorKind,
}

impl ErrorKind {
    /// Whether this is the outcome of a search that found no single track:
    /// no result at all, or more than one.
    pub open spec fn is_mismatch(self) -> bool {
        self is NoResults || self is MultipleResults
    }
}

impl Error {
    pub fn new(kind: ErrorKind) -> (e: Error)
        ensures
            e.kind == kind,
    {
        Error { kind }
    }

    /// A fixed phrase for each kind of error.
    pub open spec fn description_text(&self) -> Seq<char> {
        match self.kind {
            ErrorKind::AuthenticationFailure(_) => "failure authenticating with Spotify"@,
            ErrorKind::FileNotFound(_) => "file not found"@,
            ErrorKind::MultipleResults(_) => "multiple results returned"@,
            ErrorKind::NotAFile(_) => "not a file"@,
            ErrorKind::NoResults => "no results returned"@,
            ErrorKind::PlistError(_) => "an error occurred loading a plist"@,
            ErrorKind::Unauthorized => "unauthorized api call"@,
        }
    }

    /// What a user is shown for this error: the text that the error carries,
    /// or a fixed phrase where it carries none.
    pub open spec fn message_text(&self) -> Seq<char> {
        match self.kind {
            ErrorKind::AuthenticationFailure(s) => s@,
            ErrorKind::FileNotFound(s) => s@,
            ErrorKind::MultipleResults(count) => "expected 1 result, found "@ + decimal(count as nat),
            ErrorKind::NotAFile(s) => s@,
            ErrorKind::NoResults => "no results returned"@,
            ErrorKind::PlistError(s) => s@,
            ErrorKind::Unauthorized => "unauthorized api call"@,
        }
    }

    pub fn description(&self) -> (s: &'static str)
        ensures
            s@ == self.description_text(),
    {
        match self.kind {
            ErrorKind::AuthenticationFailure(_) => "failure authenticating with Spotify",
            ErrorKind::FileNotFound(_) => "file not found",
            ErrorKind::MultipleResults(_) => "multiple results returned",
            ErrorKind::NotAFile(_) => "not a file",
            ErrorKind::NoResults => "no results returned",
            ErrorKind::PlistError(_) => "an error occurred loading a plist",
            ErrorKind::Unauthorized => "unauthorized api call",
        }
    }

    /// The message to show for this error.
    pub fn message(&self) -> (s: String)
        ensures
            s@ == self.message_text(),
    {
        match &self.kind {
            ErrorKind::AuthenticationFailure(s) => s.clone(),
            ErrorKind::FileNotFound(s) => s.clone(),
            ErrorKind::MultipleResults(count) => {
                let mut out = "expected 1 result, found ".to_owned();
                push_decimal(&mut out, *count as u64);
                out
            },
            ErrorKind::NotAFile(s) => s.clone(),
            ErrorKind::NoResults => "no results returned".to_owned(),
            ErrorKind::PlistError(s) => s.clone(),
            ErrorKind::Unauthorized => "unauthorized api call".to_owned(),
        }
    }

    /// Whether this error is the outcome of a search that found no single track.
    pub fn is_mismatch(&self) -> (b: bool)
        ensures
            b == self.kind.is_mismatch(),
    {
        match self.kind {
            ErrorKind::NoResults => true,
            ErrorKind::MultipleResults(_) => true,
            _ => false,
        }
    }
}

} // verus!
