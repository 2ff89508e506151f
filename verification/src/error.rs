//! What can go wrong when the tracing filesystem is driven.

use crate::errno::{describe_errno, errno_text};
use vstd::prelude::*;
use vstd::std_specs::convert::FromSpecImpl;
use vstd::string::StringExecFns;

verus! {

/// Why a file operation failed.
#[derive(Debug, Clone, Copy, PartialEq, Eq, Structural)]
pub enum IoFailure {
    /// No tracing filesystem has been found to work on.
    NoTracefs,
    /// The operating system refused, with this error number.
    Os(i32),
    /// Any other failure, for which the operating system gave no number.
    Other,
}

/// Why a text read from a file could not be understood.
#[derive(Debug, Clone, Copy, PartialEq, Eq, Structural)]
pub enum ParseFailure {
    /// A number was expected and the text is empty.
    Empty,
    /// A number was expected and the text is not a decimal number.
    InvalidDigit,
    /// The text is a decimal number too large for 32 bits.
    Overflow,
    /// The text names no tracer.
    UnknownTracer,
}

/// The failures that the operations of this crate report.
#[derive(Debug, Clone, Copy, PartialEq, Eq, Structural)]
pub enum Error {
    /// The requested tracer is not among the available ones.
    InvalidTracer,
    /// A process id exceeds the system's maximum.
    InvalidProcessID,
    /// The trace was asked for while tracing is off.
    TracingDisabled,
    /// A control file could not be opened for writing.
    OpenToWriteFailed,
    /// The directory of an instance could not be created; holds the error
    /// number of the operating system.
    InstanceCreationFailed(i32),
    /// The tracing filesystem could not be mounted; holds the error number of
    /// the operating system.
    TracefsMountFailed(i32),
    /// A file could not be read or written.
    Io(IoFailure),
    /// The content of a file could not be parsed.
    Parse(ParseFailure),
}

impl From<IoFailure> for Error {
    fn from(cause: IoFailure) -> (e: Error) {
        Error::Io(cause)
    }
}

impl FromSpecImpl<IoFailure> for Error {
    open spec fn obeys_from_spec() -> bool {
        true
    }

    open spec fn from_spec(cause: IoFailure) -> Error {
        Error::Io(cause)
    }
}

impl From<ParseFailure> for Error {
    fn from(cause: ParseFailure) -> (e: Error) {
        Error::Parse(cause)
    }
}

impl FromSpecImpl<ParseFailure> for Error {
    open spec fn obeys_from_spec() -> bool {
        true
    }

    open spec fn from_spec(cause: ParseFailure) -> Error {
        Error::Parse(cause)
    }
}

impl Error {
    /// The error number of the operating system that the error holds, if it
    /// holds one.
    pub open spec fn os_code(self) -> Option<i32> {
        match self {
            Error::InstanceCreationFailed(code) => Some(code),
            Error::TracefsMountFailed(code) => Some(code),
            Error::Io(IoFailure::Os(code)) => Some(code),
            _ => None,
        }
    }

    /// The part of the message that does not depend on the cause.
    pub open spec fn headline(self) -> Seq<char> {
        match self {
            Error::InvalidTracer => "Invalid or unsupported tracer."@,
            Error::InvalidProcessID => "Invalid PID."@,
            Error::TracingDisabled => "Tracing is off."@,
            Error::OpenToWriteFailed => "Failed open the file in tracefs for writing."@,
            Error::InstanceCreationFailed(_) => "Failed to create an instance: "@,
            Error::TracefsMountFailed(_) => "Failed to mount tracefs: "@,
            Error::Io(_) => "I/O Error: "@,
            Error::Parse(_) => "Parse Error: "@,
        }
    }

    /// The cause in words, for the errors that neither hold an error number
    /// nor are told by their headline alone; empty for the others.
    pub open spec fn plain_cause(self) -> Seq<char> {
        match self {
            Error::Io(IoFailure::NoTracefs) => "There is no tracefs available to work on."@,
            Error::Io(IoFailure::Other) => "the operating system gave no error number"@,
            Error::Parse(ParseFailure::Empty) => "cannot parse integer from empty string"@,
            Error::Parse(ParseFailure::InvalidDigit) => "invalid digit found in string"@,
            Error::Parse(ParseFailure::Overflow) => "number too large to fit in target type"@,
            Error::Parse(ParseFailure::UnknownTracer) => "unknown tracer"@,
            _ => Seq::empty(),
        }
    }

    /// The message, given the description `os_text` of the error number that
    /// the error holds: the headline, followed by that description or, where
    /// the error holds no number, by the cause in words.
    pub open spec fn message_with(self, os_text: Seq<char>) -> Seq<char> {
        if self.os_code() is Some {
            self.headline() + os_text
        } else {
            self.headline() + self.plain_cause()
        }
    }

    /// The message of the error.
    pub open spec fn message(self) -> Seq<char> {
        match self.os_code() {
            Some(code) => self.message_with(errno_text(code)),
            None => self.message_with(Seq::empty()),
        }
    }

    /// The error number of the operating system that the error holds, if it
    /// holds one.
    pub fn raw_os_error(&self) -> (code: Option<i32>)
        ensures
            code == self.os_code(),
    {
        match self {
            Error::InstanceCreationFailed(code) => Some(*code),
            Error::TracefsMountFailed(code) => Some(*code),
            Error::Io(IoFailure::Os(code)) => Some(*code),
            _ => None,
        }
    }

    /// Writes the message of the error, given the description of the error
    /// number that it holds; the description is not used where it holds none.
    pub fn describe(&self, os_text: &str) -> (text: String)
        ensures
            text@ == self.message_with(os_text@),
    {
        let headline = match self {
            Error::InvalidTracer => "Invalid or unsupported tracer.",
            Error::InvalidProcessID => "Invalid PID.",
            Error::TracingDisabled => "Tracing is off.",
            Error::OpenToWriteFailed => "Failed open the file in tracefs for writing.",
            Error::InstanceCreationFailed(_) => "Failed to create an instance: ",
            Error::TracefsMountFailed(_) => "Failed to mount tracefs: ",
            Error::Io(_) => "I/O Error: ",
            Error::Parse(_) => "Parse Error: ",
        };
        let mut text = String::from_str(headline);
        if self.raw_os_error().is_some() {
            text.append(os_text);
        } else {
            let cause = match self {
                Error::Io(IoFailure::NoTracefs) => "There is no tracefs available to work on.",
                Error::Io(IoFailure::Other) => "the operating system gave no error number",
                Error::Parse(ParseFailure::Empty) => "cannot parse integer from empty string",
                Error::Parse(ParseFailure::InvalidDigit) => "invalid digit found in string",
                Error::Parse(ParseFailure::Overflow) => "number too large to fit in target type",
                Error::Parse(ParseFailure::UnknownTracer) => "unknown tracer",
                _ => "",
            };
            proof {
                reveal_strlit("");
                assert(""@ =~= Seq::<char>::empty());
            }
            text.append(cause);
        }
        text
    }

    /// The message of the error.
    pub fn to_string(&self) -> (text: String)
        ensures
            text@ == self.message(),
    {
        match self.raw_os_error() {
            Some(code) => {
                let os_text = describe_errno(code);
                self.describe(os_text.as_str())
            },
            None => self.describe(""),
        }
    }
}

} // verus!
