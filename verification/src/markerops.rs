//! Markers: text and bytes that the caller puts into the trace.

use crate::ctrltrait::ControllerTrait;
use crate::error::{Error, IoFailure};
use crate::mainctrl::MainController;
use crate::ops;
use crate::store::{resolved, writes_as, ConfigWrite, ControlFile, RawWrite};
use crate::RifResult;
use vstd::prelude::*;

verus! {

/// Writes markers into the trace of the tracing directory of a controller.
pub struct MarkerOps<'a> {
    trace_ctrl: &'a MainController,
}

impl<'a> MarkerOps<'a> {
    /// The controller whose trace the markers go to.
    pub closed spec fn controller(&self) -> &MainController {
        self.trace_ctrl
    }

    /// The markers of the tracing directory of `trace_ctrl`.
    pub fn new(trace_ctrl: &'a MainController) -> (markers: Self)
        ensures
            markers.controller() == trace_ctrl,
    {
        MarkerOps { trace_ctrl }
    }

    /// Asks for `mark` to be written into the trace.
    pub fn marker_write(&self, mark: &str) -> (r: RifResult<ConfigWrite>)
        ensures
            writes_as(r, ops::marker_write(self.controller().path(), mark@)),
    {
        let root = self.trace_ctrl.get_path();
        ops::trace_marker(&root, mark)
    }

    /// Asks for the bytes of `mark` to be written into the trace, all of
    /// them and as they are.
    pub fn marker_write_raw(&self, mark: &[u8]) -> (r: RifResult<RawWrite>)
        ensures
            match r {
                Ok(write) => resolved(
                    self.controller().path(),
                    ControlFile::TraceMarkerRaw.name(),
                ) == Ok::<Seq<char>, Error>(write.path@) && write.data@ == mark@,
                Err(e) => self.controller().path() is None && e == Error::Io(IoFailure::NoTracefs),
            },
    {
        let root = self.trace_ctrl.get_path();
        ops::trace_marker_raw(&root, mark)
    }
}

} // verus!
