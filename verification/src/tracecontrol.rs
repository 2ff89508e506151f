//! The controller of the tracing filesystem as a whole, which finds the
//! directory of an instance by itself.

use crate::ctrltrait::ControllerTrait;
use crate::error::Error;
use crate::instancectrl::{instance_request, InstanceRequest};
use crate::resolver::{
    default_dir, mount_default, resolve_default, MountRequest, TRACEFS_PATH, TRACEFS_TYPE,
};
use crate::store::path_view;
use crate::RifResult;
use vstd::prelude::*;

verus! {

/// Provides the core functionality of the tracer: it works on the tracing
/// directory itself.
#[derive(Debug)]
pub struct TracingControl {
    tracefs_path: Option<String>,
}

impl TracingControl {
    /// The controller of the first tracing filesystem in the table of mounts
    /// whose text is `mounts`, or of none where the table holds none.
    pub fn new(mounts: &str) -> (ctrl: Self)
        ensures
            ctrl.path() == default_dir(mounts@),
    {
        TracingControl { tracefs_path: resolve_default(mounts) }
    }

    /// Asks for the instance `instance` of the first tracing filesystem in
    /// the table of mounts whose text is `mounts`: the request to create its
    /// directory.
    pub fn obtain_instance(instance: &str, mounts: &str) -> (r: RifResult<InstanceRequest>)
        ensures
            match r {
                Ok(request) => instance_request(default_dir(mounts@), instance@) == Ok::<
                    (Seq<char>, u32),
                    Error,
                >((request.path@, request.mode)),
                Err(e) => instance_request(default_dir(mounts@), instance@) == Err::<
                    (Seq<char>, u32),
                    Error,
                >(e),
            },
    {
        let root = resolve_default(mounts);
        crate::instancectrl::obtain_instance(&root, instance)
    }

    /// Asks for the tracing filesystem to be mounted at its conventional
    /// place, with set-id bits, execution and device files all switched off.
    pub fn mount_tracefs() -> (request: MountRequest)
        ensures
            request.source@ == "nodev"@,
            request.target@ == TRACEFS_PATH@,
            request.fstype@ == TRACEFS_TYPE@,
            request.nosuid,
            request.noexec,
            request.nodev,
    {
        mount_default()
    }
}

impl ControllerTrait for TracingControl {
    closed spec fn path(&self) -> Option<Seq<char>> {
        path_view(self.tracefs_path)
    }

    fn get_path(&self) -> (path: Option<String>) {
        self.tracefs_path.clone()
    }

    fn set_path(&mut self, path: Option<String>) {
        self.tracefs_path = path;
    }
}

} // verus!
