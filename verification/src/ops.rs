//! The operations on one tracing directory, each as a function of the
//! directory's path and of what has been read from its files. A missing
//! path stands for a tracing filesystem that was not found: every operation
//! then fails with an I/O failure.

use crate::error::{Error, IoFailure};
use crate::store::{
    path_view, read_request, reads_as, resolved, write_request, write_to, writes_as, ConfigRead,
    ConfigWrite, ControlFile, RawWrite, WriteView, joined,
};
use crate::text::{split_whitespace, texts, words};
use crate::tracer::{Tracer, TracingStat};
use crate::validator::{is_listed, pids_as_string, pids_text, tracer_is_available};
use crate::RifResult;
use vstd::prelude::*;

verus! {

/// The tracer in use, read off the content `current` of its control file.
pub open spec fn current_tracer(root: Option<Seq<char>>, current: Seq<char>) -> RifResult<Tracer> {
    match root {
        Some(_) => Tracer::parsed(current),
        None => Err(Error::Io(IoFailure::NoTracefs)),
    }
}

/// What selecting `tracer` asks for, where `available` is the content of the
/// list of available tracers: the tracer's name takes the place of the
/// content of the control file, if the list holds that name.
pub open spec fn select_tracer(
    root: Option<Seq<char>>,
    tracer: Tracer,
    available: Seq<char>,
) -> Result<WriteView, Error> {
    match root {
        None => Err(Error::Io(IoFailure::NoTracefs)),
        Some(_) => if is_listed(tracer.wire(), available) {
            write_to(root, ControlFile::CurrentTracer.name(), tracer.wire(), false, false)
        } else {
            Err(Error::InvalidTracer)
        },
    }
}

/// What switching tracing to `stat` asks for: `1` or `0` takes the place of
/// the content of the control file.
pub open spec fn switch_tracing(root: Option<Seq<char>>, stat: TracingStat) -> Result<
    WriteView,
    Error,
> {
    write_to(root, ControlFile::TracingOn.name(), stat.wire(), false, false)
}

/// Whether tracing is on, read off the content `switch` of its control file.
pub open spec fn tracing_is_on(root: Option<Seq<char>>, switch: Seq<char>) -> RifResult<bool> {
    match root {
        Some(_) => Ok(TracingStat::is_on(switch)),
        None => Err(Error::Io(IoFailure::NoTracefs)),
    }
}

/// What asking for the trace leads to, where `switch` is the content of the
/// file that switches tracing: the path of the trace to read while tracing is
/// on, and a refusal while it is off.
pub open spec fn trace_source(root: Option<Seq<char>>, switch: Seq<char>) -> Result<
    Seq<char>,
    Error,
> {
    match root {
        None => Err(Error::Io(IoFailure::NoTracefs)),
        Some(_) => if TracingStat::is_on(switch) {
            resolved(root, ControlFile::Trace.name())
        } else {
            Err(Error::TracingDisabled)
        },
    }
}

/// What setting a filter asks for: the pattern as it is, as one line, added
/// to the filter file or in place of its content.
pub open spec fn filter_write(
    root: Option<Seq<char>>,
    file: ControlFile,
    pattern: Seq<char>,
    append: bool,
) -> Result<WriteView, Error> {
    write_to(root, file.name(), pattern, true, append)
}

/// What setting a filter of process ids asks for, where `pid_max` is the
/// content of the file that holds the system's maximum: the text of the ids,
/// as one line, if all of them are valid.
pub open spec fn pid_write(
    root: Option<Seq<char>>,
    file: ControlFile,
    pids: Seq<u32>,
    append: bool,
    pid_max: Seq<char>,
) -> Result<WriteView, Error> {
    match pids_text(pids, pid_max) {
        Err(e) => Err(e),
        Ok(text) => write_to(root, file.name(), text, true, append),
    }
}

/// What writing a marker asks for: the text as it is.
pub open spec fn marker_write(root: Option<Seq<char>>, mark: Seq<char>) -> Result<
    WriteView,
    Error,
> {
    write_to(root, ControlFile::TraceMarker.name(), mark, false, false)
}

/// What cleaning up asks for, where `available` is the content of the list
/// of available tracers: first the tracer that traces nothing is selected,
/// then tracing is switched off.
pub open spec fn cleanup_writes(root: Option<Seq<char>>, available: Seq<char>) -> Result<
    Seq<WriteView>,
    Error,
> {
    match select_tracer(root, Tracer::Nop, available) {
        Err(e) => Err(e),
        Ok(first) => match switch_tracing(root, TracingStat::Off) {
            Err(e) => Err(e),
            Ok(second) => Ok(seq![first, second]),
        },
    }
}

/// The views of a sequence of requests to write.
pub open spec fn write_views(writes: Seq<ConfigWrite>) -> Seq<WriteView> {
    writes.map_values(|w: ConfigWrite| w@)
}

/// Whether `r` holds the requests or the failure that `expected` describes.
pub open spec fn write_all_as(
    r: RifResult<Vec<ConfigWrite>>,
    expected: Result<Seq<WriteView>, Error>,
) -> bool {
    match r {
        Ok(writes) => expected == Ok::<Seq<WriteView>, Error>(write_views(writes@)),
        Err(e) => expected == Err::<Seq<WriteView>, Error>(e),
    }
}

/// Parses the tracer in use from the content of its control file.
pub fn get_current_tracer(root: &Option<String>, current: &str) -> (r: RifResult<Tracer>)
    ensures
        r == current_tracer(path_view(*root), current@),
{
    match root {
        Some(_) => Tracer::from_str(current),
        None => Err(Error::Io(IoFailure::NoTracefs)),
    }
}

/// The words of the content of the list of available tracers.
pub fn get_available_tracers(root: &Option<String>, available: &str) -> (r: RifResult<
    Vec<String>,
>)
    ensures
        match r {
            Ok(names) => root is Some && texts(names@) == words(available@),
            Err(e) => root is None && e == Error::Io(IoFailure::NoTracefs),
        },
{
    match root {
        Some(_) => Ok(split_whitespace(available)),
        None => Err(Error::Io(IoFailure::NoTracefs)),
    }
}

/// Selects `tracer`, if the list of available tracers holds its name.
pub fn set_current_tracer(root: &Option<String>, tracer: Tracer, available: &str) -> (r: RifResult<
    ConfigWrite,
>)
    ensures
        writes_as(r, select_tracer(path_view(*root), tracer, available@)),
{
    if root.is_none() {
        return Err(Error::Io(IoFailure::NoTracefs));
    }
    let name = tracer.to_string();
    if tracer_is_available(name.as_str(), available) {
        write_request(root, ControlFile::CurrentTracer.subpath(), name.as_str(), false, false)
    } else {
        Err(Error::InvalidTracer)
    }
}

/// Switches tracing on or off.
pub fn set_tracing_on(root: &Option<String>, stat: TracingStat) -> (r: RifResult<ConfigWrite>)
    ensures
        writes_as(r, switch_tracing(path_view(*root), stat)),
{
    let text = stat.to_string();
    write_request(root, ControlFile::TracingOn.subpath(), text.as_str(), false, false)
}

/// Tells from the content of the control file whether tracing is on.
pub fn is_tracing_on(root: &Option<String>, switch: &str) -> (r: RifResult<bool>)
    ensures
        r == tracing_is_on(path_view(*root), switch@),
{
    match root {
        Some(_) => Ok(TracingStat::from_content(switch) == TracingStat::On),
        None => Err(Error::Io(IoFailure::NoTracefs)),
    }
}

/// Asks for the trace: refused while tracing is off, whatever the trace
/// holds.
pub fn trace(root: &Option<String>, switch: &str) -> (r: RifResult<ConfigRead>)
    ensures
        reads_as(r, trace_source(path_view(*root), switch@)),
{
    if root.is_none() {
        return Err(Error::Io(IoFailure::NoTracefs));
    }
    if TracingStat::from_content(switch) == TracingStat::On {
        read_request(root, ControlFile::Trace.subpath())
    } else {
        Err(Error::TracingDisabled)
    }
}

/// Sets a filter of functions: the pattern is passed on as it is.
pub fn set_filter(root: &Option<String>, file: ControlFile, pattern: &str, append: bool) -> (r:
    RifResult<ConfigWrite>)
    ensures
        writes_as(r, filter_write(path_view(*root), file, pattern@, append)),
{
    write_request(root, file.subpath(), pattern, true, append)
}

/// Sets a filter of process ids, after checking each of them.
pub fn set_pids(
    root: &Option<String>,
    file: ControlFile,
    pids: &[u32],
    append: bool,
    pid_max: &str,
) -> (r: RifResult<ConfigWrite>)
    ensures
        writes_as(r, pid_write(path_view(*root), file, pids@, append, pid_max@)),
{
    match pids_as_string(pids, pid_max) {
        Ok(text) => write_request(root, file.subpath(), text.as_str(), true, append),
        Err(e) => Err(e),
    }
}

/// Writes a marker into the trace.
pub fn trace_marker(root: &Option<String>, mark: &str) -> (r: RifResult<ConfigWrite>)
    ensures
        writes_as(r, marker_write(path_view(*root), mark@)),
{
    write_request(root, ControlFile::TraceMarker.subpath(), mark, false, false)
}

/// Writes a raw marker into the trace: the bytes as they are, all of them.
pub fn trace_marker_raw(root: &Option<String>, mark: &[u8]) -> (r: RifResult<RawWrite>)
    ensures
        match r {
            Ok(write) => resolved(path_view(*root), ControlFile::TraceMarkerRaw.name()) == Ok::<
                Seq<char>,
                Error,
            >(write.path@) && write.data@ == mark@,
            Err(e) => root is None && e == Error::Io(IoFailure::NoTracefs),
        },
{
    match root {
        Some(dir) => Ok(
            RawWrite {
                path: crate::store::join(dir.as_str(), ControlFile::TraceMarkerRaw.subpath()),
                data: vstd::slice::slice_to_vec(mark),
            },
        ),
        None => Err(Error::Io(IoFailure::NoTracefs)),
    }
}

/// Sets the tracer back to the one that traces nothing, then switches
/// tracing off: the two requests, in the order in which to carry them out.
pub fn cleanup_tracing(root: &Option<String>, available: &str) -> (r: RifResult<Vec<ConfigWrite>>)
    ensures
        write_all_as(r, cleanup_writes(path_view(*root), available@)),
{
    let first = match set_current_tracer(root, Tracer::Nop, available) {
        Ok(first) => first,
        Err(e) => {
            return Err(e);
        },
    };
    let second = match set_tracing_on(root, TracingStat::Off) {
        Ok(second) => second,
        Err(e) => {
            return Err(e);
        },
    };
    let mut writes: Vec<ConfigWrite> = Vec::new();
    writes.push(first);
    writes.push(second);
    assert(write_views(writes@) =~= seq![first@, second@]);
    Ok(writes)
}

} // verus!
