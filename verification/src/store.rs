//! The control files of a tracing directory, and the requests to read and
//! write them.
//!
//! Nothing here touches a file. An operation of this crate hands back a
//! request; the caller carries it out and reports what the operating system
//! answered.

use crate::error::{Error, IoFailure};
use crate::RifResult;
use vstd::prelude::*;
use vstd::string::StringExecFns;

verus! {

/// The control files of a tracing directory.
#[derive(Debug, Clone, Copy, PartialEq, Eq, Structural)]
pub enum ControlFile {
    /// Switches tracing on and off.
    TracingOn,
    /// Holds the tracer in use.
    CurrentTracer,
    /// Lists the tracers that the kernel was built with.
    AvailableTracers,
    /// The trace in readable form.
    Trace,
    /// The functions that are traced.
    SetFtraceFilter,
    /// The functions that are not traced.
    SetFtraceNotrace,
    /// The functions whose call graphs are traced.
    SetGraphFunction,
    /// The processes that are traced.
    SetFtracePid,
    /// The processes that are not traced.
    SetFtraceNotracePid,
    /// Takes text markers into the trace.
    TraceMarker,
    /// Takes raw markers into the trace.
    TraceMarkerRaw,
}

impl ControlFile {
    /// The name of the file inside a tracing directory.
    pub open spec fn name(self) -> Seq<char> {
        match self {
            ControlFile::TracingOn => "tracing_on"@,
            ControlFile::CurrentTracer => "current_tracer"@,
            ControlFile::AvailableTracers => "available_tracers"@,
            ControlFile::Trace => "trace"@,
            ControlFile::SetFtraceFilter => "set_ftrace_filter"@,
            ControlFile::SetFtraceNotrace => "set_ftrace_notrace"@,
            ControlFile::SetGraphFunction => "set_graph_function"@,
            ControlFile::SetFtracePid => "set_ftrace_pid"@,
            ControlFile::SetFtraceNotracePid => "set_ftrace_notrace_pid"@,
            ControlFile::TraceMarker => "trace_marker"@,
            ControlFile::TraceMarkerRaw => "trace_marker_raw"@,
        }
    }

    /// The name of the file inside a tracing directory.
    pub fn subpath(&self) -> (name: &'static str)
        ensures
            name@ == self.name(),
    {
        match self {
            ControlFile::TracingOn => "tracing_on",
            ControlFile::CurrentTracer => "current_tracer",
            ControlFile::AvailableTracers => "available_tracers",
            ControlFile::Trace => "trace",
            ControlFile::SetFtraceFilter => "set_ftrace_filter",
            ControlFile::SetFtraceNotrace => "set_ftrace_notrace",
            ControlFile::SetGraphFunction => "set_graph_function",
            ControlFile::SetFtracePid => "set_ftrace_pid",
            ControlFile::SetFtraceNotracePid => "set_ftrace_notrace_pid",
            ControlFile::TraceMarker => "trace_marker",
            ControlFile::TraceMarkerRaw => "trace_marker_raw",
        }
    }
}

/// The path `sub` below the directory `root`.
pub open spec fn joined(root: Seq<char>, sub: Seq<char>) -> Seq<char> {
    root + seq!['/'] + sub
}

/// The path of the file `sub` of the tracing directory `root`; an I/O failure
/// where no tracing directory is known.
pub open spec fn resolved(root: Option<Seq<char>>, sub: Seq<char>) -> Result<Seq<char>, Error> {
    match root {
        Some(dir) => Ok(joined(dir, sub)),
        None => Err(Error::Io(IoFailure::NoTracefs)),
    }
}

/// The view of a path that may be missing.
pub open spec fn path_view(path: Option<String>) -> Option<Seq<char>> {
    match path {
        Some(p) => Some(p@),
        None => None,
    }
}

/// The path `sub` below the directory `root`.
pub fn join(root: &str, sub: &str) -> (path: String)
    ensures
        path@ == joined(root@, sub@),
{
    proof {
        reveal_strlit("/");
    }
    let mut path = String::from_str(root);
    path.append("/");
    path.append(sub);
    assert(path@ =~= joined(root@, sub@));
    path
}

/// The path of the file `sub` of the tracing directory `root`.
pub fn resolve(root: &Option<String>, sub: &str) -> (r: RifResult<String>)
    ensures
        match r {
            Ok(path) => resolved(path_view(*root), sub@) == Ok::<Seq<char>, Error>(path@),
            Err(e) => resolved(path_view(*root), sub@) == Err::<Seq<char>, Error>(e),
        },
{
    match root {
        Some(dir) => Ok(join(dir.as_str(), sub)),
        None => Err(Error::Io(IoFailure::NoTracefs)),
    }
}

/// A request to read a file as text.
#[derive(Debug, Clone)]
pub struct ConfigRead {
    /// The path of the file.
    pub path: String,
}

/// A request to write text to a file.
#[derive(Debug, Clone)]
pub struct ConfigWrite {
    /// The path of the file.
    pub path: String,
    /// The text to write.
    pub content: String,
    /// Whether a line feed follows the text.
    pub newline: bool,
    /// Whether the text is added to what the file holds, or takes its place.
    pub append: bool,
}

/// A request to write bytes to a file, all of them and unchanged.
#[derive(Debug, Clone)]
pub struct RawWrite {
    /// The path of the file.
    pub path: String,
    /// The bytes to write.
    pub data: Vec<u8>,
}

/// What a request to write text holds.
pub struct WriteView {
    pub path: Seq<char>,
    pub content: Seq<char>,
    pub newline: bool,
    pub append: bool,
}

impl WriteView {
    /// The characters that reach the file: the content, and a line feed
    /// where the request asks for one.
    pub open spec fn text(self) -> Seq<char> {
        if self.newline {
            self.content.push('\n')
        } else {
            self.content
        }
    }
}

impl View for ConfigWrite {
    type V = WriteView;

    open spec fn view(&self) -> WriteView {
        WriteView {
            path: self.path@,
            content: self.content@,
            newline: self.newline,
            append: self.append,
        }
    }
}

/// Whether `r` is the request or the failure that `expected` describes.
pub open spec fn writes_as(r: RifResult<ConfigWrite>, expected: Result<WriteView, Error>) -> bool {
    match r {
        Ok(w) => expected == Ok::<WriteView, Error>(w@),
        Err(e) => expected == Err::<WriteView, Error>(e),
    }
}

/// Whether `r` is a request to read the file that `expected` names, or the
/// failure that `expected` holds.
pub open spec fn reads_as(r: RifResult<ConfigRead>, expected: Result<Seq<char>, Error>) -> bool {
    match r {
        Ok(read) => expected == Ok::<Seq<char>, Error>(read.path@),
        Err(e) => expected == Err::<Seq<char>, Error>(e),
    }
}

/// The request to write `content` to the file `sub` of the tracing directory
/// `root`; an I/O failure where no tracing directory is known.
pub open spec fn write_to(
    root: Option<Seq<char>>,
    sub: Seq<char>,
    content: Seq<char>,
    newline: bool,
    append: bool,
) -> Result<WriteView, Error> {
    match root {
        Some(dir) => Ok(WriteView { path: joined(dir, sub), content, newline, append }),
        None => Err(Error::Io(IoFailure::NoTracefs)),
    }
}

/// Makes the request to write `content` to the file `sub` of the tracing
/// directory `root`.
pub fn write_request(
    root: &Option<String>,
    sub: &str,
    content: &str,
    newline: bool,
    append: bool,
) -> (r: RifResult<ConfigWrite>)
    ensures
        writes_as(r, write_to(path_view(*root), sub@, content@, newline, append)),
{
    match root {
        Some(dir) => Ok(
            ConfigWrite {
                path: join(dir.as_str(), sub),
                content: String::from_str(content),
                newline,
                append,
            },
        ),
        None => Err(Error::Io(IoFailure::NoTracefs)),
    }
}

/// Makes the request to read the file `sub` of the tracing directory `root`.
pub fn read_request(root: &Option<String>, sub: &str) -> (r: RifResult<ConfigRead>)
    ensures
        reads_as(r, resolved(path_view(*root), sub@)),
{
    match root {
        Some(dir) => Ok(ConfigRead { path: join(dir.as_str(), sub) }),
        None => Err(Error::Io(IoFailure::NoTracefs)),
    }
}

/// What the operating system answered to a request to write.
#[derive(Debug, Clone, Copy, PartialEq, Eq, Structural)]
pub enum WriteOutcome {
    /// Everything was written.
    Done,
    /// The file could not be opened for writing.
    OpenFailed,
    /// The file was opened, and writing to it failed.
    Failed(IoFailure),
}

impl WriteOutcome {
    /// The result of the operation that asked for the write: a file that
    /// could not be opened is told apart from a write that failed.
    pub open spec fn result(self) -> RifResult<()> {
        match self {
            WriteOutcome::Done => Ok(()),
            WriteOutcome::OpenFailed => Err(Error::OpenToWriteFailed),
            WriteOutcome::Failed(cause) => Err(Error::Io(cause)),
        }
    }
}

impl ConfigRead {
    /// The result of the operation that asked for the read, from what the
    /// operating system answered: the text of the file, or why it could not
    /// be read.
    pub fn finish(&self, outcome: Result<String, IoFailure>) -> (r: RifResult<String>)
        ensures
            match outcome {
                Ok(text) => r == Ok::<String, Error>(text),
                Err(cause) => r == Err::<String, Error>(Error::Io(cause)),
            },
    {
        match outcome {
            Ok(text) => Ok(text),
            Err(cause) => Err(Error::Io(cause)),
        }
    }
}

impl ConfigWrite {
    /// The result of the operation that asked for the write, from what the
    /// operating system answered.
    pub fn finish(&self, outcome: WriteOutcome) -> (r: RifResult<()>)
        ensures
            r == outcome.result(),
    {
        match outcome {
            WriteOutcome::Done => Ok(()),
            WriteOutcome::OpenFailed => Err(Error::OpenToWriteFailed),
            WriteOutcome::Failed(cause) => Err(Error::Io(cause)),
        }
    }
}

impl RawWrite {
    /// The result of the operation that asked for the write, from what the
    /// operating system answered.
    pub fn finish(&self, outcome: WriteOutcome) -> (r: RifResult<()>)
        ensures
            r == outcome.result(),
    {
        match outcome {
            WriteOutcome::Done => Ok(()),
            WriteOutcome::OpenFailed => Err(Error::OpenToWriteFailed),
            WriteOutcome::Failed(cause) => Err(Error::Io(cause)),
        }
    }
}

} // verus!
