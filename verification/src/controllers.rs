//! The operations on the tracing directory at its conventional place, as
//! plain functions. Each takes `old_linux`, which says whether the kernel is
//! an older one that keeps the tracing directory below the debug filesystem.

use crate::error::Error;
use crate::ops;
use crate::resolver::{DEBUG_TRACING_PATH, TRACEFS_PATH};
use crate::store::{reads_as, writes_as, ConfigRead, ConfigWrite, ControlFile};
use crate::text::{texts, words};
use crate::tracer::{Tracer, TracingStat};
use crate::RifResult;
use vstd::prelude::*;
use vstd::string::StringExecFns;

verus! {

/// The tracing directory at its conventional place.
pub open spec fn default_root(old_linux: bool) -> Option<Seq<char>> {
    if old_linux {
        Some(DEBUG_TRACING_PATH@)
    } else {
        Some(TRACEFS_PATH@)
    }
}

/// The tracing directory at its conventional place.
pub fn default_path(old_linux: bool) -> (root: Option<String>)
    ensures
        crate::store::path_view(root) == default_root(old_linux),
{
    if old_linux {
        Some(String::from_str(DEBUG_TRACING_PATH))
    } else {
        Some(String::from_str(TRACEFS_PATH))
    }
}

/// Asks for the trace in readable form, where `switch` is the content of the
/// file that switches tracing.
pub fn trace(old_linux: bool, switch: &str) -> (r: RifResult<ConfigRead>)
    ensures
        reads_as(r, ops::trace_source(default_root(old_linux), switch@)),
{
    ops::trace(&default_path(old_linux), switch)
}

/// The tracer in use, from the content `current` of the control file.
pub fn get_current_tracer(old_linux: bool, current: &str) -> (r: RifResult<Tracer>)
    ensures
        r == ops::current_tracer(default_root(old_linux), current@),
{
    ops::get_current_tracer(&default_path(old_linux), current)
}

/// Enables or disables writing to the trace ring buffer.
pub fn set_tracing_on(old_linux: bool, stat: TracingStat) -> (r: RifResult<ConfigWrite>)
    ensures
        writes_as(r, ops::switch_tracing(default_root(old_linux), stat)),
{
    ops::set_tracing_on(&default_path(old_linux), stat)
}

/// Tells whether writing to the trace ring buffer is enabled, from the
/// content `switch` of the control file.
pub fn is_tracing_on(old_linux: bool, switch: &str) -> (r: RifResult<bool>)
    ensures
        r == ops::tracing_is_on(default_root(old_linux), switch@),
{
    ops::is_tracing_on(&default_path(old_linux), switch)
}

/// The tracers that have been compiled into the kernel, from the content
/// `available` of their list.
pub fn get_available_tracers(old_linux: bool, available: &str) -> (r: RifResult<Vec<String>>)
    ensures
        r is Ok,
        texts(r->Ok_0@) == words(available@),
{
    ops::get_available_tracers(&default_path(old_linux), available)
}

/// Sets the tracer, where `available` is the content of the list of
/// available tracers.
pub fn set_current_tracer(old_linux: bool, tracer: Tracer, available: &str) -> (r: RifResult<
    ConfigWrite,
>)
    ensures
        writes_as(r, ops::select_tracer(default_root(old_linux), tracer, available@)),
{
    ops::set_current_tracer(&default_path(old_linux), tracer, available)
}

/// Limits the trace to the functions that `filter` matches.
pub fn set_ftrace_filter(old_linux: bool, filter: &str, append: bool) -> (r: RifResult<ConfigWrite>)
    ensures
        writes_as(
            r,
            ops::filter_write(
                default_root(old_linux),
                ControlFile::SetFtraceFilter,
                filter@,
                append,
            ),
        ),
{
    ops::set_filter(&default_path(old_linux), ControlFile::SetFtraceFilter, filter, append)
}

/// Makes the function graph tracer trace only the functions that `filter`
/// matches and the functions that they call.
pub fn set_graph_function(old_linux: bool, filter: &str, append: bool) -> (r: RifResult<
    ConfigWrite,
>)
    ensures
        writes_as(
            r,
            ops::filter_write(
                default_root(old_linux),
                ControlFile::SetGraphFunction,
                filter@,
                append,
            ),
        ),
{
    ops::set_filter(&default_path(old_linux), ControlFile::SetGraphFunction, filter, append)
}

/// Asks for `mark` to be written into the trace.
pub fn trace_marker(old_linux: bool, mark: &str) -> (r: RifResult<ConfigWrite>)
    ensures
        writes_as(r, ops::marker_write(default_root(old_linux), mark@)),
{
    ops::trace_marker(&default_path(old_linux), mark)
}

/// Keeps the functions that `filter` matches out of the trace.
pub fn set_ftrace_notrace(old_linux: bool, filter: &str, append: bool) -> (r: RifResult<
    ConfigWrite,
>)
    ensures
        writes_as(
            r,
            ops::filter_write(
                default_root(old_linux),
                ControlFile::SetFtraceNotrace,
                filter@,
                append,
            ),
        ),
{
    ops::set_filter(&default_path(old_linux), ControlFile::SetFtraceNotrace, filter, append)
}

/// Makes the function tracer trace only the threads whose process ids are in
/// `pids`; `pid_max` is the content of the file that holds the system's
/// maximum.
pub fn set_ftrace_pid(old_linux: bool, pids: &[u32], append: bool, pid_max: &str) -> (r: RifResult<
    ConfigWrite,
>)
    ensures
        writes_as(
            r,
            ops::pid_write(
                default_root(old_linux),
                ControlFile::SetFtracePid,
                pids@,
                append,
                pid_max@,
            ),
        ),
{
    ops::set_pids(&default_path(old_linux), ControlFile::SetFtracePid, pids, append, pid_max)
}

/// Sets the tracer back to `nop` and disables tracing, in that order.
pub fn cleanup_tracing(old_linux: bool, available: &str) -> (r: RifResult<Vec<ConfigWrite>>)
    ensures
        ops::write_all_as(r, ops::cleanup_writes(default_root(old_linux), available@)),
{
    ops::cleanup_tracing(&default_path(old_linux), available)
}

} // verus!
