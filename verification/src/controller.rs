//! A controller that offers every operation on the tracing directory in one
//! place.

use crate::error::{Error, IoFailure};
use crate::ops;
use crate::resolver;
use crate::resolver::{
    default_dir, mount_default, resolve_default, MountRequest, TRACEFS_PATH, TRACEFS_TYPE,
};
use crate::store::{
    path_view, reads_as, resolved, writes_as, ConfigRead, ConfigWrite, ControlFile,
};
use crate::text::{texts, words};
use crate::tracer::{Tracer, TracingStat};
use crate::RifResult;
use vstd::prelude::*;

pub use crate::ctrltrait::ControllerTrait;
pub use crate::instancectrl::{InstanceController, InstanceRequest};
pub use crate::mainctrl::MainController;

verus! {

/// Controller providing methods to manage the core functionality of the
/// tracer. Its operations read nothing and write nothing: each takes the
/// content of the files that it depends on and returns the request that the
/// caller is to carry out.
#[derive(Debug)]
pub struct Controller {
    tracefs_path: Option<String>,
}

impl Controller {
    /// The path of the tracing directory, if one is known.
    pub closed spec fn path(&self) -> Option<Seq<char>> {
        path_view(self.tracefs_path)
    }

    /// The controller of the first tracing filesystem in the table of mounts
    /// whose text is `mounts`, or of none where the table holds none.
    pub fn new(mounts: &str) -> (ctrl: Self)
        ensures
            ctrl.path() == default_dir(mounts@),
    {
        Controller { tracefs_path: resolve_default(mounts) }
    }

    /// Reads the mount points of the tracing filesystems off the table of
    /// mounts; `None` where the table holds none.
    pub fn find_tracefs_dirs(mounts: &str) -> (r: Option<Vec<String>>)
        ensures
            match r {
                Some(dirs) => dirs@.len() > 0 && texts(dirs@) == resolver::tracefs_dirs(mounts@),
                None => resolver::tracefs_dirs(mounts@).len() == 0,
            },
    {
        resolver::find_tracefs_dirs(mounts)
    }

    /// Asks for the tracing filesystem to be mounted at its conventional
    /// place, with set-id bits, execution and device files all switched off.
    pub fn mount_tracefs() -> (request: MountRequest)
        ensures
            request.source@ == "nodev"@,
            request.target@ == TRACEFS_PATH@,
            request.fstype@ == TRACEFS_TYPE@,
            request.nosuid,
            request.noexec,
            request.nodev,
    {
        mount_default()
    }

    /// The path of `subpath` below the tracing directory.
    pub fn get_fullpath(&self, subpath: &str) -> (r: RifResult<String>)
        ensures
            match r {
                Ok(full) => resolved(self.path(), subpath@) == Ok::<Seq<char>, Error>(full@),
                Err(e) => resolved(self.path(), subpath@) == Err::<Seq<char>, Error>(e),
            },
    {
        crate::store::resolve(&self.tracefs_path, subpath)
    }

    /// Asks for the trace in readable form, where `switch` is the content of
    /// the file that switches tracing.
    pub fn trace(&self, switch: &str) -> (r: RifResult<ConfigRead>)
        ensures
            reads_as(r, ops::trace_source(self.path(), switch@)),
    {
        ops::trace(&self.tracefs_path, switch)
    }

    /// The tracer in use, from the content `current` of the control file.
    pub fn get_current_tracer(&self, current: &str) -> (r: RifResult<Tracer>)
        ensures
            r == ops::current_tracer(self.path(), current@),
    {
        ops::get_current_tracer(&self.tracefs_path, current)
    }

    /// Enables or disables writing to the trace ring buffer.
    pub fn set_tracing_on(&self, stat: TracingStat) -> (r: RifResult<ConfigWrite>)
        ensures
            writes_as(r, ops::switch_tracing(self.path(), stat)),
    {
        ops::set_tracing_on(&self.tracefs_path, stat)
    }

    /// Tells whether writing to the trace ring buffer is enabled, from the
    /// content `switch` of the control file.
    pub fn is_tracing_on(&self, switch: &str) -> (r: RifResult<bool>)
        ensures
            r == ops::tracing_is_on(self.path(), switch@),
    {
        ops::is_tracing_on(&self.tracefs_path, switch)
    }

    /// The tracers that have been compiled into the kernel, from the content
    /// `available` of their list.
    pub fn get_available_tracers(&self, available: &str) -> (r: RifResult<Vec<String>>)
        ensures
            match r {
                Ok(names) => self.path() is Some && texts(names@) == words(available@),
                Err(e) => self.path() is None && e == Error::Io(IoFailure::NoTracefs),
            },
    {
        ops::get_available_tracers(&self.tracefs_path, available)
    }

    /// Sets the tracer, where `available` is the content of the list of
    /// available tracers.
    pub fn set_current_tracer(&self, tracer: Tracer, available: &str) -> (r: RifResult<ConfigWrite>)
        ensures
            writes_as(r, ops::select_tracer(self.path(), tracer, available@)),
    {
        ops::set_current_tracer(&self.tracefs_path, tracer, available)
    }

    /// Limits the trace to the functions that `filter` matches.
    pub fn set_ftrace_filter(&self, filter: &str, with_append: bool) -> (r: RifResult<ConfigWrite>)
        ensures
            writes_as(
                r,
                ops::filter_write(self.path(), ControlFile::SetFtraceFilter, filter@, with_append),
            ),
    {
        ops::set_filter(&self.tracefs_path, ControlFile::SetFtraceFilter, filter, with_append)
    }

    /// Makes the function graph tracer trace only the functions that
    /// `filter` matches and the functions that they call.
    pub fn set_graph_function(&self, filter: &str, with_append: bool) -> (r: RifResult<ConfigWrite>)
        ensures
            writes_as(
                r,
                ops::filter_write(self.path(), ControlFile::SetGraphFunction, filter@, with_append),
            ),
    {
        ops::set_filter(&self.tracefs_path, ControlFile::SetGraphFunction, filter, with_append)
    }

    /// Asks for `mark` to be written into the trace.
    pub fn trace_marker(&self, mark: &str) -> (r: RifResult<ConfigWrite>)
        ensures
            writes_as(r, ops::marker_write(self.path(), mark@)),
    {
        ops::trace_marker(&self.tracefs_path, mark)
    }

    /// Keeps the functions that `filter` matches out of the trace.
    pub fn set_ftrace_notrace(&self, filter: &str, with_append: bool) -> (r: RifResult<ConfigWrite>)
        ensures
            writes_as(
                r,
                ops::filter_write(self.path(), ControlFile::SetFtraceNotrace, filter@, with_append),
            ),
    {
        ops::set_filter(&self.tracefs_path, ControlFile::SetFtraceNotrace, filter, with_append)
    }

    /// Makes the function tracer trace only the threads whose process ids
    /// are in `pids`; `pid_max` is the content of the file that holds the
    /// system's maximum.
    pub fn set_ftrace_pid(&self, pids: &[u32], with_append: bool, pid_max: &str) -> (r: RifResult<
        ConfigWrite,
    >)
        ensures
            writes_as(
                r,
                ops::pid_write(
                    self.path(),
                    ControlFile::SetFtracePid,
                    pids@,
                    with_append,
                    pid_max@,
                ),
            ),
    {
        ops::set_pids(&self.tracefs_path, ControlFile::SetFtracePid, pids, with_append, pid_max)
    }

    /// Sets the tracer back to `nop` and disables tracing, in that order.
    pub fn cleanup_tracing(&self, available: &str) -> (r: RifResult<Vec<ConfigWrite>>)
        ensures
            ops::write_all_as(r, ops::cleanup_writes(self.path(), available@)),
    {
        ops::cleanup_tracing(&self.tracefs_path, available)
    }
}

} // verus!
