//! What holds of the operations taken together, proved over the control
//! files as the in-memory store has them.

use crate::errno::file_exists;
use crate::error::{Error, IoFailure};
use crate::instancectrl::{directory_stands, instance_dir, instance_request, INSTANCE_MODE};
use crate::memory::{write_all_outcome, write_outcome, written, written_all};
use crate::ops::{
    cleanup_writes, current_tracer, filter_write, marker_write, pid_write, select_tracer,
    switch_tracing, trace_source, tracing_is_on,
};
use crate::store::{joined, resolved, ControlFile, WriteOutcome, WriteView};
use crate::text::trim;
use crate::tracer::{Tracer, TracingStat};
use crate::validator::{all_valid, is_listed, pid_ceiling};
use vstd::prelude::*;

verus! {

/// The path of the control file `file` of the tracing directory `root`.
pub open spec fn file_of(root: Seq<char>, file: ControlFile) -> Seq<char> {
    joined(root, file.name())
}

/// Whether `files` holds the control files of the tracing directory `root`
/// that select the tracer and switch tracing.
pub open spec fn is_tracing_dir(files: Map<Seq<char>, Seq<char>>, root: Seq<char>) -> bool {
    &&& files.dom().contains(file_of(root, ControlFile::AvailableTracers))
    &&& files.dom().contains(file_of(root, ControlFile::CurrentTracer))
    &&& files.dom().contains(file_of(root, ControlFile::TracingOn))
}

/// What the files hold once the request of an operation has been carried
/// out; an operation that failed has asked for nothing.
pub open spec fn effect(files: Map<Seq<char>, Seq<char>>, request: Result<WriteView, Error>) -> Map<
    Seq<char>,
    Seq<char>,
> {
    match request {
        Ok(write) => written(files, write),
        Err(_) => files,
    }
}

/// What the files hold once the requests of an operation have been carried
/// out; an operation that failed has asked for nothing.
pub open spec fn effect_all(
    files: Map<Seq<char>, Seq<char>>,
    requests: Result<Seq<WriteView>, Error>,
) -> Map<Seq<char>, Seq<char>> {
    match requests {
        Ok(writes) => written_all(files, writes),
        Err(_) => files,
    }
}

/// Two control files with the same name are the same file.
pub proof fn lemma_names_distinct(a: ControlFile, b: ControlFile)
    ensures
        a.name() == b.name() ==> a == b,
{
    reveal_strlit("tracing_on");
    reveal_strlit("current_tracer");
    reveal_strlit("available_tracers");
    reveal_strlit("trace");
    reveal_strlit("set_ftrace_filter");
    reveal_strlit("set_ftrace_notrace");
    reveal_strlit("set_graph_function");
    reveal_strlit("set_ftrace_pid");
    reveal_strlit("set_ftrace_notrace_pid");
    reveal_strlit("trace_marker");
    reveal_strlit("trace_marker_raw");
    if a.name() == b.name() {
        assert(a.name().len() == b.name().len());
        assert(a.name()[0] == b.name()[0]);
        assert(a.name()[4] == b.name()[4]);
    }
}

/// Below one directory, different names give different paths.
pub proof fn lemma_joined_injective(root: Seq<char>, a: Seq<char>, b: Seq<char>)
    ensures
        joined(root, a) == joined(root, b) ==> a == b,
{
    if joined(root, a) == joined(root, b) {
        assert(joined(root, a).skip(root.len() as int + 1) == a);
        assert(joined(root, b).skip(root.len() as int + 1) == b);
    }
}

/// Different control files of one tracing directory have different paths.
pub proof fn lemma_files_distinct(root: Seq<char>, a: ControlFile, b: ControlFile)
    ensures
        file_of(root, a) == file_of(root, b) ==> a == b,
{
    lemma_joined_injective(root, a.name(), b.name());
    lemma_names_distinct(a, b);
}

/// The name of a tracer parses back to that tracer, with or without white
/// space around it.
pub proof fn tracer_name_reads_back(tracer: Tracer, text: Seq<char>)
    requires
        trim(text) == tracer.wire(),
    ensures
        Tracer::parsed(tracer.wire()) == Ok::<Tracer, Error>(tracer),
        Tracer::parsed(text) == Ok::<Tracer, Error>(tracer),
{
    Tracer::lemma_wire_distinct(tracer, tracer);
}

/// Without a tracing directory nothing is asked of the operating system:
/// the operations on the control files fail with an I/O failure, whatever
/// their arguments.
pub proof fn unresolved_root_fails(
    tracer: Tracer,
    stat: TracingStat,
    file: ControlFile,
    text: Seq<char>,
    append: bool,
)
    ensures
        current_tracer(None, text) == Err::<Tracer, Error>(Error::Io(IoFailure::NoTracefs)),
        select_tracer(None, tracer, text) == Err::<WriteView, Error>(
            Error::Io(IoFailure::NoTracefs),
        ),
        switch_tracing(None, stat) == Err::<WriteView, Error>(Error::Io(IoFailure::NoTracefs)),
        tracing_is_on(None, text) == Err::<bool, Error>(Error::Io(IoFailure::NoTracefs)),
        trace_source(None, text) == Err::<Seq<char>, Error>(Error::Io(IoFailure::NoTracefs)),
        filter_write(None, file, text, append) == Err::<WriteView, Error>(
            Error::Io(IoFailure::NoTracefs),
        ),
        marker_write(None, text) == Err::<WriteView, Error>(Error::Io(IoFailure::NoTracefs)),
        cleanup_writes(None, text) == Err::<Seq<WriteView>, Error>(
            Error::Io(IoFailure::NoTracefs),
        ),
        resolved(None, text) == Err::<Seq<char>, Error>(Error::Io(IoFailure::NoTracefs)),
{
}

/// Setting a tracer that is among the available ones and then asking for the
/// tracer in use gives that tracer.
pub proof fn set_then_get_tracer(root: Seq<char>, tracer: Tracer, files: Map<Seq<char>, Seq<char>>)
    requires
        files.dom().contains(file_of(root, ControlFile::AvailableTracers)),
        files.dom().contains(file_of(root, ControlFile::CurrentTracer)),
        is_listed(tracer.wire(), files[file_of(root, ControlFile::AvailableTracers)]),
    ensures
        ({
            let request = select_tracer(
                Some(root),
                tracer,
                files[file_of(root, ControlFile::AvailableTracers)],
            );
            &&& request is Ok
            &&& write_outcome(files, request->Ok_0) == WriteOutcome::Done
            &&& current_tracer(
                Some(root),
                written(files, request->Ok_0)[file_of(root, ControlFile::CurrentTracer)],
            ) == Ok::<Tracer, Error>(tracer)
        }),
{
    Tracer::lemma_wire_distinct(tracer, tracer);
}

/// Setting a tracer that is not among the available ones fails as an invalid
/// tracer and asks for nothing: every file, the one that holds the tracer in
/// use among them, stays as it is.
pub proof fn unavailable_tracer_changes_nothing(
    root: Seq<char>,
    tracer: Tracer,
    files: Map<Seq<char>, Seq<char>>,
    available: Seq<char>,
)
    requires
        !is_listed(tracer.wire(), available),
    ensures
        select_tracer(Some(root), tracer, available) == Err::<WriteView, Error>(
            Error::InvalidTracer,
        ),
        effect(files, select_tracer(Some(root), tracer, available)) == files,
{
}

/// Switching tracing on and then asking whether it is on gives yes;
/// switching it off and then asking gives no.
pub proof fn switch_then_query(root: Seq<char>, stat: TracingStat, files: Map<Seq<char>, Seq<char>>)
    requires
        files.dom().contains(file_of(root, ControlFile::TracingOn)),
    ensures
        ({
            let request = switch_tracing(Some(root), stat);
            &&& request is Ok
            &&& write_outcome(files, request->Ok_0) == WriteOutcome::Done
            &&& tracing_is_on(
                Some(root),
                written(files, request->Ok_0)[file_of(root, ControlFile::TracingOn)],
            ) == Ok::<bool, Error>(stat == TracingStat::On)
        }),
{
    lemma_switch_text(stat);
}

/// The text of a state of tracing reads back as that state.
pub proof fn lemma_switch_text(stat: TracingStat)
    ensures
        TracingStat::is_on(stat.wire()) == (stat == TracingStat::On),
{
    let text = stat.wire();
    assert(text.len() == 1);
    assert(!crate::text::is_space(text.first()));
    assert(!crate::text::is_space(text.last()));
    assert(crate::text::trim(text) == text);
    if stat == TracingStat::Off {
        assert(text[0] != seq!['1'][0]);
    }
}

/// While tracing is off the trace is refused, whatever the files hold.
pub proof fn trace_refused_while_off(root: Seq<char>, files: Map<Seq<char>, Seq<char>>)
    requires
        tracing_is_on(Some(root), files[file_of(root, ControlFile::TracingOn)]) == Ok::<
            bool,
            Error,
        >(false),
    ensures
        trace_source(Some(root), files[file_of(root, ControlFile::TracingOn)]) == Err::<
            Seq<char>,
            Error,
        >(Error::TracingDisabled),
{
}

/// Cleaning up twice ends as cleaning up once does: the second time the same
/// requests are made, they succeed as the first time, and the files stay as
/// the first time left them. Where the tracer that traces nothing is
/// available, that state is: this tracer in use, and tracing off.
pub proof fn cleanup_twice(root: Seq<char>, files: Map<Seq<char>, Seq<char>>)
    requires
        is_tracing_dir(files, root),
    ensures
        ({
            let available = file_of(root, ControlFile::AvailableTracers);
            let first = cleanup_writes(Some(root), files[available]);
            let after = effect_all(files, first);
            let second = cleanup_writes(Some(root), after[available]);
            &&& second == first
            &&& effect_all(after, second) == after
            &&& is_tracing_dir(after, root)
            &&& first matches Ok(writes) ==> {
                &&& write_all_outcome(files, writes) == WriteOutcome::Done
                &&& write_all_outcome(after, writes) == WriteOutcome::Done
                &&& current_tracer(Some(root), after[file_of(root, ControlFile::CurrentTracer)])
                    == Ok::<Tracer, Error>(Tracer::Nop)
                &&& tracing_is_on(Some(root), after[file_of(root, ControlFile::TracingOn)]) == Ok::<
                    bool,
                    Error,
                >(false)
            }
            &&& first is Ok <==> is_listed(Tracer::Nop.wire(), files[available])
        }),
{
    let available = file_of(root, ControlFile::AvailableTracers);
    let current = file_of(root, ControlFile::CurrentTracer);
    let switch = file_of(root, ControlFile::TracingOn);
    lemma_files_distinct(root, ControlFile::AvailableTracers, ControlFile::CurrentTracer);
    lemma_files_distinct(root, ControlFile::AvailableTracers, ControlFile::TracingOn);
    lemma_files_distinct(root, ControlFile::CurrentTracer, ControlFile::TracingOn);
    Tracer::lemma_wire_distinct(Tracer::Nop, Tracer::Nop);
    lemma_switch_text(TracingStat::Off);
    let first = cleanup_writes(Some(root), files[available]);
    match first {
        Ok(writes) => {
            let select = writes[0];
            let off = writes[1];
            let mid = written(files, select);
            let after = written(mid, off);
            lemma_two_writes(files, select, off);
            assert(writes =~= seq![select, off]);
            assert(after[available] == files[available]);
            let mid2 = written(after, select);
            assert(mid2 =~= after);
            let after2 = written(mid2, off);
            assert(after2 =~= after);
            lemma_two_writes(after, select, off);
        },
        Err(_) => {},
    }
}

/// Two requests carried out one after the other, where both files are there.
proof fn lemma_two_writes(files: Map<Seq<char>, Seq<char>>, first: WriteView, second: WriteView)
    requires
        files.dom().contains(first.path),
        files.dom().contains(second.path),
    ensures
        written_all(files, seq![first, second]) == written(written(files, first), second),
        write_all_outcome(files, seq![first, second]) == WriteOutcome::Done,
{
    let both = seq![first, second];
    assert(both.drop_first() =~= seq![second]);
    assert(both.drop_first().drop_first() =~= Seq::<WriteView>::empty());
    let mid = written(files, first);
    assert(written_all(mid, seq![second]) == written(mid, second)) by {
        assert(written_all(written(mid, second), Seq::<WriteView>::empty()) == written(
            mid,
            second,
        ));
    }
    assert(write_all_outcome(mid, seq![second]) == WriteOutcome::Done) by {
        assert(write_all_outcome(written(mid, second), Seq::<WriteView>::empty())
            == WriteOutcome::Done);
    }
}

/// Asking twice for the same instance asks twice for the same directory,
/// `instances/` and the name below the tracing directory; and the second
/// time, when the directory exists already, stands as the first.
pub proof fn instance_twice(root: Seq<char>, name: Seq<char>)
    ensures
        instance_request(Some(root), name) == Ok::<(Seq<char>, u32), Error>(
            (instance_dir(root, name), INSTANCE_MODE),
        ),
        instance_dir(root, name) == root + "/instances/"@ + name,
        directory_stands(Ok(())),
        directory_stands(Err(file_exists())),
{
    reveal_strlit("instances");
    reveal_strlit("/instances/");
    assert(instance_dir(root, name) =~= root + "/instances/"@ + name);
}

/// A list of process ids that holds one above the system's maximum is
/// refused as a whole, and nothing is asked to be written.
pub proof fn invalid_pid_writes_nothing(
    root: Option<Seq<char>>,
    file: ControlFile,
    pids: Seq<u32>,
    append: bool,
    pid_max: Seq<char>,
    files: Map<Seq<char>, Seq<char>>,
)
    requires
        pid_ceiling(pid_max) is Ok,
        !all_valid(pids, pid_ceiling(pid_max)->Ok_0),
    ensures
        pid_write(root, file, pids, append, pid_max) == Err::<WriteView, Error>(
            Error::InvalidProcessID,
        ),
        effect(files, pid_write(root, file, pids, append, pid_max)) == files,
{
}

/// A write that does not append takes the place of what the file held.
pub proof fn write_replaces(files: Map<Seq<char>, Seq<char>>, write: WriteView)
    requires
        files.dom().contains(write.path),
        !write.append,
    ensures
        written(files, write)[write.path] == write.text(),
        forall|other: Seq<char>|
            other != write.path ==> (written(files, write).dom().contains(other)
                == files.dom().contains(other) && written(files, write)[other] == files[other]),
{
}

/// A write that appends adds to what the file held and clears nothing: after
/// a first write and an appended second, the file holds the text of both.
pub proof fn write_appends(files: Map<Seq<char>, Seq<char>>, base: WriteView, more: WriteView)
    requires
        files.dom().contains(base.path),
        !base.append,
        more.append,
        more.path == base.path,
    ensures
        written(files, more)[more.path] == files[more.path] + more.text(),
        written(written(files, base), more)[base.path] == base.text() + more.text(),
{
}

} // verus!
