//! Control files held in memory: what a read finds and what a write leaves
//! behind, as the tracing filesystem would have it. The files of the kernel
//! cannot be created or removed by a write, and a write either takes the
//! place of what a file holds or is added to it.

use crate::errno::{no_such_file, no_such_file_code};
use crate::error::IoFailure;
use crate::store::{ConfigRead, ConfigWrite, WriteOutcome, WriteView};
use vstd::prelude::*;
use vstd::string::StringExecFns;

verus! {

/// What the files `files` hold after the request `write` has been carried
/// out. A file that is not there is not created, and nothing changes.
pub open spec fn written(files: Map<Seq<char>, Seq<char>>, write: WriteView) -> Map<
    Seq<char>,
    Seq<char>,
> {
    if files.dom().contains(write.path) {
        if write.append {
            files.insert(write.path, files[write.path] + write.text())
        } else {
            files.insert(write.path, write.text())
        }
    } else {
        files
    }
}

/// What the operating system answers to the request `write` on the files
/// `files`.
pub open spec fn write_outcome(files: Map<Seq<char>, Seq<char>>, write: WriteView) -> WriteOutcome {
    if files.dom().contains(write.path) {
        WriteOutcome::Done
    } else {
        WriteOutcome::OpenFailed
    }
}

/// What the files `files` hold after the requests `writes` have been carried
/// out one after the other, up to the first that fails.
pub open spec fn written_all(files: Map<Seq<char>, Seq<char>>, writes: Seq<WriteView>) -> Map<
    Seq<char>,
    Seq<char>,
>
    decreases writes.len(),
{
    if writes.len() == 0 {
        files
    } else if files.dom().contains(writes.first().path) {
        written_all(written(files, writes.first()), writes.drop_first())
    } else {
        files
    }
}

/// What the operating system answers to the requests `writes`, carried out
/// one after the other up to the first that fails.
pub open spec fn write_all_outcome(
    files: Map<Seq<char>, Seq<char>>,
    writes: Seq<WriteView>,
) -> WriteOutcome
    decreases writes.len(),
{
    if writes.len() == 0 {
        WriteOutcome::Done
    } else if files.dom().contains(writes.first().path) {
        write_all_outcome(written(files, writes.first()), writes.drop_first())
    } else {
        WriteOutcome::OpenFailed
    }
}

/// One file: its path and what it holds.
struct Entry {
    path: String,
    content: String,
}

/// The index of the first entry with the path `path`, if there is one.
spec fn position(entries: Seq<Entry>, path: Seq<char>) -> Option<int>
    decreases entries.len(),
{
    if entries.len() == 0 {
        None
    } else {
        match position(entries.drop_last(), path) {
            Some(i) => Some(i),
            None => if entries.last().path@ == path {
                Some(entries.len() - 1)
            } else {
                None
            },
        }
    }
}

/// The files that the entries stand for.
spec fn files_of(entries: Seq<Entry>) -> Map<Seq<char>, Seq<char>> {
    Map::new(
        |path: Seq<char>| position(entries, path) is Some,
        |path: Seq<char>| entries[position(entries, path)->0].content@,
    )
}

proof fn lemma_position(entries: Seq<Entry>, path: Seq<char>)
    ensures
        match position(entries, path) {
            Some(i) => 0 <= i < entries.len() && entries[i].path@ == path && forall|j: int|
                0 <= j < i ==> (#[trigger] entries[j]).path@ != path,
            None => forall|j: int| 0 <= j < entries.len() ==> (#[trigger] entries[j]).path@ != path,
        },
    decreases entries.len(),
{
    if entries.len() > 0 {
        lemma_position(entries.drop_last(), path);
        assert forall|j: int| 0 <= j < entries.len() - 1 implies entries.drop_last()[j]
            == entries[j] by {}
        match position(entries.drop_last(), path) {
            Some(i) => {
                assert(entries.drop_last()[i] == entries[i]);
                assert forall|j: int| 0 <= j < i implies (#[trigger] entries[j]).path@ != path by {
                    assert(entries.drop_last()[j] == entries[j]);
                }
            },
            None => {
                assert forall|j: int| 0 <= j < entries.len() - 1 implies (
                #[trigger] entries[j]).path@ != path by {
                    assert(entries.drop_last()[j] == entries[j]);
                }
            },
        }
    }
}

proof fn lemma_position_prefix(entries: Seq<Entry>, path: Seq<char>, k: int)
    requires
        0 <= k <= entries.len(),
        position(entries.take(k), path) is Some,
    ensures
        position(entries, path) == position(entries.take(k), path),
    decreases entries.len() - k,
{
    if k < entries.len() {
        assert(entries.take(k + 1).drop_last() == entries.take(k));
        lemma_position_prefix(entries, path, k + 1);
    } else {
        assert(entries.take(k) == entries);
    }
}

proof fn lemma_position_same_paths(a: Seq<Entry>, b: Seq<Entry>, path: Seq<char>)
    requires
        a.len() == b.len(),
        forall|i: int| 0 <= i < a.len() ==> (#[trigger] a[i]).path@ == b[i].path@,
    ensures
        position(a, path) == position(b, path),
    decreases a.len(),
{
    if a.len() > 0 {
        assert forall|i: int| 0 <= i < a.len() - 1 implies (#[trigger] a.drop_last()[i]).path@
            == b.drop_last()[i].path@ by {
            assert(a.drop_last()[i] == a[i]);
            assert(b.drop_last()[i] == b[i]);
        }
        lemma_position_same_paths(a.drop_last(), b.drop_last(), path);
        assert(a.last() == a[a.len() - 1]);
    }
}

/// Control files held in memory, each under its path.
pub struct MemoryStore {
    entries: Vec<Entry>,
}

impl View for MemoryStore {
    type V = Map<Seq<char>, Seq<char>>;

    closed spec fn view(&self) -> Map<Seq<char>, Seq<char>> {
        files_of(self.entries@)
    }
}

impl MemoryStore {
    /// A store without files.
    pub fn new() -> (store: Self)
        ensures
            store@ == Map::<Seq<char>, Seq<char>>::empty(),
    {
        let store = MemoryStore { entries: Vec::new() };
        assert(store@ =~= Map::<Seq<char>, Seq<char>>::empty());
        store
    }

    fn find(&self, path: &String) -> (found: Option<usize>)
        ensures
            match found {
                Some(i) => position(self.entries@, path@) == Some(i as int) && i
                    < self.entries.len(),
                None => position(self.entries@, path@) is None,
            },
    {
        let mut i: usize = 0;
        while i < self.entries.len()
            invariant
                i <= self.entries.len(),
                position(self.entries@.take(i as int), path@) is None,
            decreases self.entries.len() - i,
        {
            proof {
                assert(self.entries@.take(i + 1).drop_last() == self.entries@.take(i as int));
            }
            if self.entries[i].path == *path {
                proof {
                    lemma_position_prefix(self.entries@, path@, i + 1);
                }
                return Some(i);
            }
            i += 1;
        }
        assert(self.entries@.take(i as int) == self.entries@);
        None
    }

    /// Puts the file `path` into the store with the content `content`, in
    /// place of a file of that path that the store may hold.
    pub fn create(&mut self, path: &str, content: &str)
        ensures
            final(self)@ == old(self)@.insert(path@, content@),
    {
        let path = String::from_str(path);
        self.put(path, String::from_str(content));
    }

    fn put(&mut self, path: String, content: String)
        ensures
            final(self)@ == old(self)@.insert(path@, content@),
    {
        let ghost before = self.entries@;
        let ghost key = path@;
        let ghost value = content@;
        match self.find(&path) {
            Some(i) => {
                self.entries.set(i, Entry { path, content });
                proof {
                    let after = self.entries@;
                    lemma_position(before, key);
                    assert forall|q: Seq<char>| position(after, q) == position(before, q) by {
                        lemma_position_same_paths(after, before, q);
                    }
                    assert forall|q: Seq<char>| position(before, q) is Some && q != key implies (
                    #[trigger] before[position(before, q)->0]) == after[position(before, q)->0] by {
                        lemma_position(before, q);
                    }
                    assert(files_of(after) =~= files_of(before).insert(key, value));
                }
            },
            None => {
                self.entries.push(Entry { path, content });
                proof {
                    let after = self.entries@;
                    assert(after.drop_last() == before);
                    assert forall|q: Seq<char>| position(before, q) is Some implies (
                    #[trigger] before[position(before, q)->0]) == after[position(before, q)->0] by {
                        lemma_position(before, q);
                    }
                    assert(files_of(after) =~= files_of(before).insert(key, value));
                }
            },
        }
    }

    /// Tells whether the store holds the file `path`.
    pub fn contains(&self, path: &str) -> (b: bool)
        ensures
            b == self@.dom().contains(path@),
    {
        self.find(&String::from_str(path)).is_some()
    }

    /// Carries out a request to read: the content of the file, or the error
    /// of a missing file.
    pub fn read(&self, request: &ConfigRead) -> (r: Result<String, IoFailure>)
        ensures
            match r {
                Ok(text) => self@.dom().contains(request.path@) && text@ == self@[request.path@],
                Err(cause) => !self@.dom().contains(request.path@) && cause == IoFailure::Os(
                    no_such_file(),
                ),
            },
    {
        match self.find(&request.path) {
            Some(i) => Ok(self.entries[i].content.clone()),
            None => Err(IoFailure::Os(no_such_file_code())),
        }
    }

    /// Carries out a request to write.
    pub fn write(&mut self, request: &ConfigWrite) -> (outcome: WriteOutcome)
        ensures
            final(self)@ == written(old(self)@, request@),
            outcome == write_outcome(old(self)@, request@),
    {
        match self.find(&request.path) {
            Some(i) => {
                let mut content = if request.append {
                    self.entries[i].content.clone()
                } else {
                    String::new()
                };
                content.append(request.content.as_str());
                if request.newline {
                    proof {
                        reveal_strlit("\n");
                    }
                    content.append("\n");
                }
                assert(content@ =~= if request.append {
                    old(self)@[request.path@] + request@.text()
                } else {
                    request@.text()
                });
                self.put(request.path.clone(), content);
                WriteOutcome::Done
            },
            None => WriteOutcome::OpenFailed,
        }
    }

    /// Carries out requests to write one after the other, up to the first
    /// that fails.
    pub fn write_all(&mut self, requests: &Vec<ConfigWrite>) -> (outcome: WriteOutcome)
        ensures
            final(self)@ == written_all(old(self)@, crate::ops::write_views(requests@)),
            outcome == write_all_outcome(old(self)@, crate::ops::write_views(requests@)),
    {
        let ghost all = crate::ops::write_views(requests@);
        let mut i: usize = 0;
        assert(all.skip(0) == all);
        while i < requests.len()
            invariant
                i <= requests.len(),
                all == crate::ops::write_views(requests@),
                written_all(self@, all.skip(i as int)) == written_all(old(self)@, all),
                write_all_outcome(self@, all.skip(i as int)) == write_all_outcome(old(self)@, all),
            decreases requests.len() - i,
        {
            proof {
                assert(all.skip(i as int).first() == requests@[i as int]@);
                assert(all.skip(i as int).drop_first() == all.skip(i + 1));
            }
            match self.write(&requests[i]) {
                WriteOutcome::Done => {},
                failed => {
                    return failed;
                },
            }
            i += 1;
        }
        WriteOutcome::Done
    }
}

} // verus!
