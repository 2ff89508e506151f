//! Instances: tracing directories of their own below `instances`, each with
//! the full set of control files.

use crate::ctrltrait::ControllerTrait;
use crate::errno::{file_exists, file_exists_code, no_such_file, no_such_file_code};
use crate::error::Error;
use crate::resolver::{default_dir, resolve_default};
use crate::store::{join, joined, path_view};
use crate::RifResult;
use vstd::prelude::*;

verus! {

/// The directory that holds the instances of a tracing directory.
pub const INSTANCES_DIR: &'static str = "instances";

/// The permissions of a new instance: everything for the owner, reading and
/// searching for the group, nothing for the others.
pub const INSTANCE_MODE: u32 = 0o750;

/// The directory of the instance `name` of the tracing directory `root`.
pub open spec fn instance_dir(root: Seq<char>, name: Seq<char>) -> Seq<char> {
    joined(joined(root, INSTANCES_DIR@), name)
}

/// The directory of the instance `name` of the tracing directory `root`.
pub fn instance_path(root: &str, name: &str) -> (path: String)
    ensures
        path@ == instance_dir(root@, name@),
{
    let instances = join(root, INSTANCES_DIR);
    join(instances.as_str(), name)
}

/// A controller of one instance. It holds the path of the instance and
/// nothing of the tracing directory that the instance belongs to.
#[derive(Debug)]
pub struct InstanceController {
    instance_path: Option<String>,
}

/// A request to create the directory of an instance.
#[derive(Debug)]
pub struct InstanceRequest {
    /// The directory to create.
    pub path: String,
    /// The permissions to create it with.
    pub mode: u32,
}

impl InstanceController {
    /// The controller of the instance `instance` of the first tracing
    /// filesystem in the table of mounts whose text is `mounts`. Without a
    /// name, or without a tracing filesystem, the controller has no path.
    pub fn new(instance: Option<&str>, mounts: &str) -> (ctrl: Self)
        ensures
            ctrl.path() == match (instance, default_dir(mounts@)) {
                (Some(name), Some(root)) => Some(instance_dir(root, name@)),
                _ => None,
            },
    {
        let instance_path = match instance {
            Some(name) => match resolve_default(mounts) {
                Some(root) => Some(instance_path(root.as_str(), name)),
                None => None,
            },
            None => None,
        };
        InstanceController { instance_path }
    }
}

impl ControllerTrait for InstanceController {
    closed spec fn path(&self) -> Option<Seq<char>> {
        path_view(self.instance_path)
    }

    fn get_path(&self) -> (path: Option<String>) {
        self.instance_path.clone()
    }

    fn set_path(&mut self, path: Option<String>) {
        self.instance_path = path;
    }
}

/// What obtaining the instance `name` of the tracing directory `root` asks
/// for: its directory, to be created for owner and group only. Without a
/// tracing directory there is nothing to create it in, which is reported as
/// the error of a missing directory.
pub open spec fn instance_request(root: Option<Seq<char>>, name: Seq<char>) -> Result<
    (Seq<char>, u32),
    Error,
> {
    match root {
        Some(dir) => Ok((instance_dir(dir, name), INSTANCE_MODE)),
        None => Err(Error::InstanceCreationFailed(no_such_file())),
    }
}

/// Whether the answer of the operating system to the creation of a
/// directory leaves the directory in place: it was created, or it was there
/// already.
pub open spec fn directory_stands(outcome: Result<(), i32>) -> bool {
    match outcome {
        Ok(()) => true,
        Err(code) => code == file_exists(),
    }
}

/// Makes the request to create the directory of the instance `instance` of
/// the tracing directory `root`.
pub fn obtain_instance(root: &Option<String>, instance: &str) -> (r: RifResult<InstanceRequest>)
    ensures
        match r {
            Ok(request) => instance_request(path_view(*root), instance@) == Ok::<
                (Seq<char>, u32),
                Error,
            >((request.path@, request.mode)),
            Err(e) => instance_request(path_view(*root), instance@) == Err::<
                (Seq<char>, u32),
                Error,
            >(e),
        },
{
    match root {
        Some(dir) => Ok(
            InstanceRequest { path: instance_path(dir.as_str(), instance), mode: INSTANCE_MODE },
        ),
        None => Err(Error::InstanceCreationFailed(no_such_file_code())),
    }
}

impl InstanceRequest {
    /// The controller of the instance, from what the operating system
    /// answered to the creation of its directory. A directory that exists
    /// already is as good as a new one; any other refusal is reported with
    /// its error number.
    pub fn finish(self, outcome: Result<(), i32>) -> (r: RifResult<InstanceController>)
        ensures
            match outcome {
                Ok(()) => r is Ok && r->Ok_0.path() == Some(self.path@),
                Err(code) => if code == file_exists() {
                    r is Ok && r->Ok_0.path() == Some(self.path@)
                } else {
                    r is Err && r->Err_0 == Error::InstanceCreationFailed(code)
                },
            },
    {
        match outcome {
            Ok(()) => Ok(InstanceController { instance_path: Some(self.path) }),
            Err(code) => {
                if code == file_exists_code() {
                    Ok(InstanceController { instance_path: Some(self.path) })
                } else {
                    Err(Error::InstanceCreationFailed(code))
                }
            },
        }
    }
}

} // verus!
