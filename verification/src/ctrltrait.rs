//! What the controller of the whole tracing filesystem and the controller of
//! one instance have in common: both work on a tracing directory, and the
//! same control files are found in either.

use crate::error::{Error, IoFailure};
use crate::ops;
use crate::resolver;
use crate::store::{
    path_view, reads_as, resolved, write_to, writes_as, ConfigRead, ConfigWrite,
};
use crate::text::{texts, words};
use crate::tracer::{Tracer, TracingStat};
use crate::RifResult;
use vstd::prelude::*;

verus! {

/// A controller of one tracing directory. Its operations read nothing and
/// write nothing: each takes the content of the files that it depends on and
/// returns the request that the caller is to carry out.
pub trait ControllerTrait {
    /// The path of the tracing directory, if one is known.
    spec fn path(&self) -> Option<Seq<char>>;

    /// The path of the tracing directory, if one is known.
    fn get_path(&self) -> (path: Option<String>)
        ensures
            path_view(path) == self.path(),
    ;

    /// Makes the controller work on another tracing directory, or on none.
    fn set_path(&mut self, path: Option<String>)
        ensures
            final(self).path() == path_view(path),
    ;

    /// The path of `subpath` below the tracing directory.
    fn get_joined_path(&self, subpath: &str) -> (r: RifResult<String>)
        ensures
            match r {
                Ok(full) => resolved(self.path(), subpath@) == Ok::<Seq<char>, Error>(full@),
                Err(e) => resolved(self.path(), subpath@) == Err::<Seq<char>, Error>(e),
            },
    {
        let root = self.get_path();
        crate::store::resolve(&root, subpath)
    }

    /// Asks for `content` to be written to the file at `subpath`, as it is.
    fn write_to_subpath(&self, subpath: &str, with_append: bool, content: &str) -> (r: RifResult<
        ConfigWrite,
    >)
        ensures
            writes_as(r, write_to(self.path(), subpath@, content@, false, with_append)),
    {
        let root = self.get_path();
        crate::store::write_request(&root, subpath, content, false, with_append)
    }

    /// Enables or disables writing to the trace ring buffer.
    fn set_tracing_on(&self, stat: TracingStat) -> (r: RifResult<ConfigWrite>)
        ensures
            writes_as(r, ops::switch_tracing(self.path(), stat)),
    {
        let root = self.get_path();
        ops::set_tracing_on(&root, stat)
    }

    /// Reads the mount points of the tracing filesystems off the table of
    /// mounts; `None` where the table holds none.
    fn find_tracefs_dirs(mounts: &str) -> (r: Option<Vec<String>>)
        ensures
            match r {
                Some(dirs) => dirs@.len() > 0 && texts(dirs@) == resolver::tracefs_dirs(mounts@),
                None => resolver::tracefs_dirs(mounts@).len() == 0,
            },
    {
        resolver::find_tracefs_dirs(mounts)
    }

    /// Tells whether writing to the trace ring buffer is enabled, from the
    /// content `switch` of the control file.
    fn is_tracing_on(&self, switch: &str) -> (r: RifResult<bool>)
        ensures
            r == ops::tracing_is_on(self.path(), switch@),
    {
        let root = self.get_path();
        ops::is_tracing_on(&root, switch)
    }

    /// Asks for the trace in readable form, where `switch` is the content of
    /// the file that switches tracing.
    fn trace(&self, switch: &str) -> (r: RifResult<ConfigRead>)
        ensures
            reads_as(r, ops::trace_source(self.path(), switch@)),
    {
        let root = self.get_path();
        ops::trace(&root, switch)
    }

    /// The tracers that have been compiled into the kernel, from the content
    /// `available` of their list.
    fn get_available_tracers(&self, available: &str) -> (r: RifResult<Vec<String>>)
        ensures
            match r {
                Ok(names) => self.path() is Some && texts(names@) == words(available@),
                Err(e) => self.path() is None && e == Error::Io(IoFailure::NoTracefs),
            },
    {
        let root = self.get_path();
        ops::get_available_tracers(&root, available)
    }

    /// The tracer in use, from the content `current` of the control file.
    fn get_current_tracer(&self, current: &str) -> (r: RifResult<Tracer>)
        ensures
            r == ops::current_tracer(self.path(), current@),
    {
        let root = self.get_path();
        ops::get_current_tracer(&root, current)
    }

    /// Sets the tracer, where `available` is the content of the list of
    /// available tracers.
    fn set_current_tracer(&self, tracer: Tracer, available: &str) -> (r: RifResult<ConfigWrite>)
        ensures
            writes_as(r, ops::select_tracer(self.path(), tracer, available@)),
    {
        let root = self.get_path();
        ops::set_current_tracer(&root, tracer, available)
    }

    /// Sets the tracer back to `nop` and disables tracing, in that order.
    fn cleanup_tracing(&self, available: &str) -> (r: RifResult<Vec<ConfigWrite>>)
        ensures
            ops::write_all_as(r, ops::cleanup_writes(self.path(), available@)),
    {
        let root = self.get_path();
        ops::cleanup_tracing(&root, available)
    }
}

} // verus!
