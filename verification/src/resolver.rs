//! Where the tracing filesystem is: read off the table of mounts, or asked
//! for by a request to mount it.

use crate::error::Error;
use crate::text::{lines, split_lines, split_whitespace, texts, words};
use crate::RifResult;
use vstd::prelude::*;
use vstd::string::StringExecFns;

verus! {

/// Where the tracing filesystem is mounted by convention.
pub const TRACEFS_PATH: &'static str = "/sys/kernel/tracing";

/// Where older kernels keep the tracing directory, below the debug
/// filesystem.
pub const DEBUG_TRACING_PATH: &'static str = "/sys/kernel/debug/tracing";

/// The file that holds the table of mounts.
pub const MOUNTS_PATH: &'static str = "/proc/mounts";

/// The file that holds the largest process id of the system.
pub const PID_MAX_PATH: &'static str = "/proc/sys/kernel/pid_max";

/// The type tag of the tracing filesystem in the table of mounts.
pub const TRACEFS_TYPE: &'static str = "tracefs";

/// The mount point that one line of the table of mounts gives, where the
/// line is that of a tracing filesystem: its second word, where its third
/// word is the type tag.
pub open spec fn mount_entry(line: Seq<char>) -> Option<Seq<char>> {
    let fields = words(line);
    if fields.len() >= 3 && fields[2] == TRACEFS_TYPE@ {
        Some(fields[1])
    } else {
        None
    }
}

/// The mount points that the lines `table` give, in their order.
pub open spec fn mount_entries(table: Seq<Seq<char>>) -> Seq<Seq<char>>
    decreases table.len(),
{
    if table.len() == 0 {
        Seq::empty()
    } else {
        match mount_entry(table.last()) {
            Some(dir) => mount_entries(table.drop_last()).push(dir),
            None => mount_entries(table.drop_last()),
        }
    }
}

/// The mount points of the tracing filesystems in the table of mounts whose
/// text is `mounts`, in the order of the table.
pub open spec fn tracefs_dirs(mounts: Seq<char>) -> Seq<Seq<char>> {
    mount_entries(lines(mounts))
}

/// The first mount point of a tracing filesystem in the table of mounts, if
/// the table holds one.
pub open spec fn default_dir(mounts: Seq<char>) -> Option<Seq<char>> {
    if tracefs_dirs(mounts).len() > 0 {
        Some(tracefs_dirs(mounts).first())
    } else {
        None
    }
}

/// Reads the mount points of the tracing filesystems off the table of
/// mounts, in the order of the table. An empty table, or one without a
/// tracing filesystem, gives an empty list.
pub fn discover_roots(mounts: &str) -> (dirs: Vec<String>)
    ensures
        texts(dirs@) == tracefs_dirs(mounts@),
{
    let table = split_lines(mounts);
    let mut dirs: Vec<String> = Vec::new();
    let mut i: usize = 0;
    assert(texts(table@).take(0) =~= Seq::<Seq<char>>::empty());
    assert(texts(dirs@) =~= Seq::<Seq<char>>::empty());
    while i < table.len()
        invariant
            i <= table.len(),
            texts(table@) == lines(mounts@),
            texts(dirs@) == mount_entries(texts(table@).take(i as int)),
        decreases table.len() - i,
    {
        let fields = split_whitespace(table[i].as_str());
        proof {
            let upto = texts(table@).take(i + 1);
            assert(upto.drop_last() == texts(table@).take(i as int));
            assert(upto.last() == table@[i as int]@);
            assert(texts(fields@).len() == fields@.len());
        }
        if fields.len() >= 3 {
            let tag = String::from_str(TRACEFS_TYPE);
            assert(texts(fields@)[2] == fields@[2]@);
            assert(texts(fields@)[1] == fields@[1]@);
            if fields[2] == tag {
                let dir = fields[1].clone();
                let ghost before = dirs@;
                dirs.push(dir);
                assert(texts(dirs@) =~= texts(before).push(dir@));
            }
        }
        i += 1;
    }
    assert(texts(table@).take(table.len() as int) == texts(table@));
    dirs
}

/// Reads the mount points of the tracing filesystems off the table of
/// mounts; `None` where the table holds none.
pub fn find_tracefs_dirs(mounts: &str) -> (r: Option<Vec<String>>)
    ensures
        match r {
            Some(dirs) => dirs@.len() > 0 && texts(dirs@) == tracefs_dirs(mounts@),
            None => tracefs_dirs(mounts@).len() == 0,
        },
{
    let dirs = discover_roots(mounts);
    assert(texts(dirs@).len() == dirs@.len());
    if dirs.is_empty() {
        None
    } else {
        Some(dirs)
    }
}

/// The first mount point of a tracing filesystem in the table of mounts, if
/// the table holds one.
pub fn resolve_default(mounts: &str) -> (dir: Option<String>)
    ensures
        crate::store::path_view(dir) == default_dir(mounts@),
{
    let dirs = discover_roots(mounts);
    assert(texts(dirs@).len() == dirs@.len());
    if dirs.len() > 0 {
        assert(texts(dirs@)[0] == dirs@[0]@);
        Some(dirs[0].clone())
    } else {
        None
    }
}

/// A request to mount the tracing filesystem.
#[derive(Debug, Clone)]
pub struct MountRequest {
    /// The device to mount; the tracing filesystem has none.
    pub source: String,
    /// The directory to mount on.
    pub target: String,
    /// The type of the filesystem.
    pub fstype: String,
    /// Whether programs below the mount point lose their set-id bits.
    pub nosuid: bool,
    /// Whether programs below the mount point cannot be run.
    pub noexec: bool,
    /// Whether device files below the mount point are not honoured.
    pub nodev: bool,
}

/// Makes the request to mount the tracing filesystem at its conventional
/// place, with set-id bits, execution and device files all switched off.
pub fn mount_default() -> (request: MountRequest)
    ensures
        request.source@ == "nodev"@,
        request.target@ == TRACEFS_PATH@,
        request.fstype@ == TRACEFS_TYPE@,
        request.nosuid,
        request.noexec,
        request.nodev,
{
    MountRequest {
        source: String::from_str("nodev"),
        target: String::from_str(TRACEFS_PATH),
        fstype: String::from_str(TRACEFS_TYPE),
        nosuid: true,
        noexec: true,
        nodev: true,
    }
}

impl MountRequest {
    /// The result of the mount from what the operating system answered:
    /// nothing, or its error number. A refused mount is not tried again.
    pub fn finish(&self, outcome: Result<(), i32>) -> (r: RifResult<()>)
        ensures
            r == match outcome {
                Ok(()) => Ok::<(), Error>(()),
                Err(code) => Err::<(), Error>(Error::TracefsMountFailed(code)),
            },
    {
        match outcome {
            Ok(()) => Ok(()),
            Err(code) => Err(Error::TracefsMountFailed(code)),
        }
    }
}

} // verus!
