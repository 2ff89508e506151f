//! Checks on what is about to be written: that a tracer is available and
//! that process ids are within the system's bound.

use crate::error::{Error, ParseFailure};
use crate::text::{
    decimal, parse_u32, parsed_u32, split_whitespace, texts, to_chars, trim, trim_bounds,
    u32_to_string, words,
};
use crate::RifResult;
use vstd::prelude::*;
use vstd::string::StringExecFns;

verus! {

/// Whether `name` is one of the words of `available`, the content of the
/// file that lists the available tracers.
pub open spec fn is_listed(name: Seq<char>, available: Seq<char>) -> bool {
    words(available).contains(name)
}

/// Tells whether `name` is one of the words of `available`.
pub fn tracer_is_available(name: &str, available: &str) -> (b: bool)
    ensures
        b == is_listed(name@, available@),
{
    let list = split_whitespace(available);
    let wanted = String::from_str(name);
    let mut i: usize = 0;
    while i < list.len()
        invariant
            i <= list.len(),
            wanted@ == name@,
            texts(list@) == words(available@),
            forall|k: int| 0 <= k < i ==> words(available@)[k] != name@,
        decreases list.len() - i,
    {
        assert(texts(list@)[i as int] == list@[i as int]@);
        if list[i] == wanted {
            assert(words(available@)[i as int] == name@);
            return true;
        }
        i += 1;
    }
    assert(texts(list@).len() == list@.len());
    false
}

/// Checks one process id against the system's maximum.
pub fn validate_pid(pid: u32, pid_max: u32) -> (r: RifResult<()>)
    ensures
        r == if pid <= pid_max {
            Ok::<(), Error>(())
        } else {
            Err::<(), Error>(Error::InvalidProcessID)
        },
{
    if pid > pid_max {
        Err(Error::InvalidProcessID)
    } else {
        Ok(())
    }
}

/// Whether no process id of `pids` exceeds `pid_max`.
pub open spec fn all_valid(pids: Seq<u32>, pid_max: u32) -> bool {
    forall|i: int| 0 <= i < pids.len() ==> #[trigger] pids[i] <= pid_max
}

/// The process ids as the filter files take them: their decimal numerals in
/// the given order, one space between neighbours.
pub open spec fn pids_wire(pids: Seq<u32>) -> Seq<char>
    decreases pids.len(),
{
    if pids.len() == 0 {
        Seq::empty()
    } else if pids.len() == 1 {
        decimal(pids[0] as nat)
    } else {
        pids_wire(pids.drop_last()) + seq![' '] + decimal(pids.last() as nat)
    }
}

/// The largest process id of the system, read off the content `pid_max` of
/// the file that holds it: the number that the content is once the white
/// space around it, such as the line feed at its end, is left out.
pub open spec fn pid_ceiling(pid_max: Seq<char>) -> Result<u32, ParseFailure> {
    parsed_u32(trim(pid_max))
}

/// Reads the largest process id of the system off the content of the file
/// that holds it. White space around the number is ignored.
pub fn parse_pid_max(pid_max: &str) -> (r: Result<u32, ParseFailure>)
    ensures
        r == pid_ceiling(pid_max@),
{
    let chars = to_chars(pid_max);
    let (from, to) = trim_bounds(&chars);
    parse_u32(pid_max.substring_char(from, to))
}

/// What checking and encoding `pids` gives, where `pid_max` is the content of
/// the file that holds the system's maximum: a parse failure where that
/// content, without the white space around it, is no number, an invalid
/// process id where one of `pids` exceeds it, and else the text of all of
/// them.
pub open spec fn pids_text(pids: Seq<u32>, pid_max: Seq<char>) -> Result<Seq<char>, Error> {
    match pid_ceiling(pid_max) {
        Err(failure) => Err(Error::Parse(failure)),
        Ok(max) => if all_valid(pids, max) {
            Ok(pids_wire(pids))
        } else {
            Err(Error::InvalidProcessID)
        },
    }
}

/// Checks every process id against the system's maximum, whose file holds
/// `pid_max`, and joins them into one text. Nothing is returned of a list
/// that holds an invalid id.
pub fn pids_as_string(pids: &[u32], pid_max: &str) -> (r: RifResult<String>)
    ensures
        match r {
            Ok(text) => pids_text(pids@, pid_max@) == Ok::<Seq<char>, Error>(text@),
            Err(e) => pids_text(pids@, pid_max@) == Err::<Seq<char>, Error>(e),
        },
{
    let max = match parse_pid_max(pid_max) {
        Ok(max) => max,
        Err(failure) => {
            return Err(Error::Parse(failure));
        },
    };
    let n = pids.len();
    let mut out = String::new();
    let mut i: usize = 0;
    assert(pids@.take(0) =~= Seq::<u32>::empty());
    while i < n
        invariant
            i <= n,
            n == pids.len(),
            pid_ceiling(pid_max@) == Ok::<u32, ParseFailure>(max),
            all_valid(pids@.take(i as int), max),
            out@ == pids_wire(pids@.take(i as int)),
        decreases n - i,
    {
        let pid = pids[i];
        match validate_pid(pid, max) {
            Ok(()) => {},
            Err(e) => {
                return Err(e);
            },
        }
        proof {
            reveal_strlit(" ");
            assert(pids@.take(i + 1).drop_last() == pids@.take(i as int));
        }
        if i > 0 {
            out.append(" ");
        }
        out.append(u32_to_string(pid).as_str());
        i += 1;
        assert(out@ =~= pids_wire(pids@.take(i as int)));
    }
    assert(pids@.take(n as int) == pids@);
    Ok(out)
}

} // verus!
