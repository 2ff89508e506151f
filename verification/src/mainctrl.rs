//! The controller of the tracing filesystem as a whole.

use crate::ctrltrait::ControllerTrait;
use crate::error::Error;
use crate::instancectrl::{instance_request, InstanceRequest};
use crate::resolver::{
    default_dir, mount_default, resolve_default, MountRequest, TRACEFS_PATH, TRACEFS_TYPE,
};
use crate::store::path_view;
use crate::RifResult;
use vstd::prelude::*;

verus! {

/// Provides the core functionality of the tracer: it works on the tracing
/// directory itself.
#[derive(Debug)]
pub struct MainController {
    tracefs_path: Option<String>,
}

impl MainController {
    /// The controller of the first tracing filesystem in the table of mounts
    /// whose text is `mounts`, or of none where the table holds none.
    pub fn new(mounts: &str) -> (ctrl: Self)
        ensures
            ctrl.path() == default_dir(mounts@),
    {
        MainController { tracefs_path: resolve_default(mounts) }
    }

    /// Asks for the instance `instance`: the request to create its
    /// directory, which gives the controller of the instance once the
    /// operating system has answered.
    pub fn obtain_instance(&self, instance: &str) -> (r: RifResult<InstanceRequest>)
        ensures
            match r {
                Ok(request) => instance_request(self.path(), instance@) == Ok::<
                    (Seq<char>, u32),
                    Error,
                >((request.path@, request.mode)),
                Err(e) => instance_request(self.path(), instance@) == Err::<
                    (Seq<char>, u32),
                    Error,
                >(e),
            },
    {
        crate::instancectrl::obtain_instance(&self.tracefs_path, instance)
    }

    /// Asks for the tracing filesystem to be mounted at its conventional
    /// place, with set-id bits, execution and device files all switched off.
    pub fn mount_tracefs() -> (request: MountRequest)
        ensures
            request.source@ == "nodev"@,
            request.target@ == TRACEFS_PATH@,
            request.fstype@ == TRACEFS_TYPE@,
            request.nosuid,
            request.noexec,
            request.nodev,
    {
        mount_default()
    }
}

impl ControllerTrait for MainController {
    closed spec fn path(&self) -> Option<Seq<char>> {
        path_view(self.tracefs_path)
    }

    fn get_path(&self) -> (path: Option<String>) {
        self.tracefs_path.clone()
    }

    fn set_path(&mut self, path: Option<String>) {
        self.tracefs_path = path;
    }
}

} // verus!
