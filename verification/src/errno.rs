//! The error numbers of the operating system that this crate tells apart,
//! and the text that describes an error number.
//!
//! The numbers and the text come from outside this crate; what is stated of
//! them here is believed, not proved.

use vstd::prelude::*;

verus! {

/// The error number for a file that exists already, on Linux.
pub open spec fn file_exists() -> i32 {
    17
}

/// The error number for a file or directory that does not exist, on Linux.
pub open spec fn no_such_file() -> i32 {
    2
}

/// The text that describes the error number `code`.
pub uninterp spec fn errno_text(code: i32) -> Seq<char>;

/// The constant `libc::EEXIST`. On Linux and Android, the systems that have a
/// tracing filesystem, the C library defines it as 17 for every processor.
#[verifier::external_body]
pub(crate) fn file_exists_code() -> (code: i32)
    ensures
        code == file_exists(),
{
    libc::EEXIST
}

/// The constant `libc::ENOENT`. On Linux and Android, the systems that have a
/// tracing filesystem, the C library defines it as 2 for every processor.
#[verifier::external_body]
pub(crate) fn no_such_file_code() -> (code: i32)
    ensures
        code == no_such_file(),
{
    libc::ENOENT
}

/// What `nix::errno::Errno` displays for the error number `code`, made by
/// `Errno::from_raw`. The text is looked up in a table that is fixed when the
/// program is built, so the same number always gives the same text; nothing
/// else is claimed of it.
#[verifier::external_body]
pub(crate) fn describe_errno(code: i32) -> (text: String)
    ensures
        text@ == errno_text(code),
{
    format!("{}", nix::errno::Errno::from_raw(code))
}

} // verus!
