//! Filters: which functions and which processes are traced.

use crate::ctrltrait::ControllerTrait;
use crate::mainctrl::MainController;
use crate::ops;
use crate::store::{writes_as, ConfigWrite, ControlFile};
use crate::validator::pids_text;
use crate::RifResult;
use vstd::prelude::*;

verus! {

/// Sets the filters of the tracing directory of a controller.
pub struct FilterOps<'a> {
    trace_ctrl: &'a MainController,
}

impl<'a> FilterOps<'a> {
    /// The controller whose tracing directory the filters belong to.
    pub closed spec fn controller(&self) -> &MainController {
        self.trace_ctrl
    }

    /// The filters of the tracing directory of `trace_ctrl`.
    pub fn new(trace_ctrl: &'a MainController) -> (filters: Self)
        ensures
            filters.controller() == trace_ctrl,
    {
        FilterOps { trace_ctrl }
    }

    /// Limits the trace to the functions that `filter` matches.
    pub fn set_ftrace_filter(&self, filter: &str, with_append: bool) -> (r: RifResult<ConfigWrite>)
        ensures
            writes_as(
                r,
                ops::filter_write(
                    self.controller().path(),
                    ControlFile::SetFtraceFilter,
                    filter@,
                    with_append,
                ),
            ),
    {
        let root = self.trace_ctrl.get_path();
        ops::set_filter(&root, ControlFile::SetFtraceFilter, filter, with_append)
    }

    /// Keeps the functions that `filter` matches out of the trace.
    pub fn set_ftrace_notrace(&self, filter: &str, with_append: bool) -> (r: RifResult<ConfigWrite>)
        ensures
            writes_as(
                r,
                ops::filter_write(
                    self.controller().path(),
                    ControlFile::SetFtraceNotrace,
                    filter@,
                    with_append,
                ),
            ),
    {
        let root = self.trace_ctrl.get_path();
        ops::set_filter(&root, ControlFile::SetFtraceNotrace, filter, with_append)
    }

    /// Makes the function graph tracer trace only the functions that
    /// `filter` matches and the functions that they call.
    pub fn set_graph_function(&self, filter: &str, with_append: bool) -> (r: RifResult<ConfigWrite>)
        ensures
            writes_as(
                r,
                ops::filter_write(
                    self.controller().path(),
                    ControlFile::SetGraphFunction,
                    filter@,
                    with_append,
                ),
            ),
    {
        let root = self.trace_ctrl.get_path();
        ops::set_filter(&root, ControlFile::SetGraphFunction, filter, with_append)
    }

    /// Checks the process ids against the system's maximum, whose file holds
    /// `pid_max`, and joins them into one text.
    pub fn pids_as_string(&self, pids: &[u32], pid_max: &str) -> (r: RifResult<String>)
        ensures
            match r {
                Ok(text) => pids_text(pids@, pid_max@) == Ok::<Seq<char>, crate::error::Error>(
                    text@,
                ),
                Err(e) => pids_text(pids@, pid_max@) == Err::<Seq<char>, crate::error::Error>(e),
            },
    {
        crate::validator::pids_as_string(pids, pid_max)
    }

    /// Makes the function tracer trace only the threads whose process ids
    /// are in `pids`; `pid_max` is the content of the file that holds the
    /// system's maximum.
    pub fn set_ftrace_pid(&self, pids: &[u32], with_append: bool, pid_max: &str) -> (r: RifResult<
        ConfigWrite,
    >)
        ensures
            writes_as(
                r,
                ops::pid_write(
                    self.controller().path(),
                    ControlFile::SetFtracePid,
                    pids@,
                    with_append,
                    pid_max@,
                ),
            ),
    {
        let root = self.trace_ctrl.get_path();
        ops::set_pids(&root, ControlFile::SetFtracePid, pids, with_append, pid_max)
    }

    /// Keeps the threads whose process ids are in `pids` out of the trace;
    /// `pid_max` is the content of the file that holds the system's maximum.
    pub fn set_ftrace_notrace_pid(&self, pids: &[u32], with_append: bool, pid_max: &str) -> (r:
        RifResult<ConfigWrite>)
        ensures
            writes_as(
                r,
                ops::pid_write(
                    self.controller().path(),
                    ControlFile::SetFtraceNotracePid,
                    pids@,
                    with_append,
                    pid_max@,
                ),
            ),
    {
        let root = self.trace_ctrl.get_path();
        ops::set_pids(&root, ControlFile::SetFtraceNotracePid, pids, with_append, pid_max)
    }
}

} // verus!
