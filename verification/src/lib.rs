//! A controlled way to drive the function tracer of the Linux kernel
//! through its tracing filesystem: where the filesystem is, which tracer is
//! in use, whether tracing is on, what is traced, and instances with control
//! files of their own.
//!
//! The crate decides and checks; it does not open a file. An operation takes
//! what has been read from the control files and hands back a request, which
//! the caller carries out.

pub mod controller;
pub mod controllers;
pub mod ctrltrait;
pub mod errno;
pub mod error;
pub mod filterops;
pub mod instancectrl;
pub mod laws;
pub mod mainctrl;
pub mod markerops;
pub mod memory;
pub mod operations;
pub mod ops;
pub mod resolver;
pub mod store;
pub mod text;
pub mod tracecontrol;
pub mod tracer;
pub mod validator;

pub use controller::Controller;
pub use controllers::{
    cleanup_tracing, get_available_tracers, get_current_tracer, is_tracing_on, set_current_tracer,
    set_ftrace_filter, set_ftrace_notrace, set_ftrace_pid, set_graph_function, set_tracing_on,
    trace, trace_marker,
};
pub use tracecontrol::TracingControl;
pub use tracer::{Tracer, TracingStat};

use vstd::prelude::*;

verus! {

/// The error type of this crate.
pub type RifError = error::Error;

/// The result type of this crate.
pub type RifResult<T> = Result<T, RifError>;

} // verus!
