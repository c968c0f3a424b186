//! How a worker's log file is opened, and what is said when it cannot be.
//!
//! A log is opened once per worker and held for as long as the worker is
//! supervised; every run of the worker writes both of its output streams to
//! it. Opening the file is the caller's work: this module says with which
//! options, and words the diagnostic of a failure.
use vstd::prelude::*;

verus! {

/// The options a log file is opened with.
#[derive(Clone, Copy, Debug, PartialEq, Eq, Structural)]
pub struct LogOpenOptions {
    /// Open for writing.
    pub write: bool,
    /// Create the file if it is absent.
    pub create: bool,
    /// Drop what the file held before.
    pub truncate: bool,
    /// Open for reading.
    pub read: bool,
    /// Keep what the file held before and write behind it.
    pub append: bool,
}

impl LogOpenOptions {
    /// The options of the launcher: written to, created if absent, emptied on
    /// open, never read and never appended to what an earlier run left.
    pub fn launcher() -> (options: Self)
        ensures
            options == (LogOpenOptions {
                write: true,
                create: true,
                truncate: true,
                read: false,
                append: false,
            }),
    {
        LogOpenOptions { write: true, create: true, truncate: true, read: false, append: false }
    }
}

/// A log file that could not be opened: its path, and the reason that the
/// operating system gave.
#[derive(Clone, Debug, PartialEq, Eq)]
pub struct LogOpenError {
    pub path: String,
    pub reason: String,
}

/// The diagnostic of a log file that could not be opened.
pub open spec fn log_open_diagnostic_text(path: Seq<char>, reason: Seq<char>) -> Seq<char> {
    path + ": Unable to open log file. Error: "@ + reason
}

impl LogOpenError {
    /// An error for the log at `path`.
    pub fn new(path: &str, reason: &str) -> (error: Self)
        ensures
            error.path@ == path@,
            error.reason@ == reason@,
    {
        LogOpenError { path: String::from_str(path), reason: String::from_str(reason) }
    }

    /// The diagnostic that names the path and the reason.
    pub fn diagnostic(&self) -> (text: String)
        ensures
            text@ == log_open_diagnostic_text(self.path@, self.reason@),
    {
        let mut text = String::from_str(self.path.as_str());
        text.append(": Unable to open log file. Error: ");
        text.append(self.reason.as_str());
        text
    }
}

} // verus!
