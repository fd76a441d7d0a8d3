use crate::clock::{local_now, qualifies, spec_qualifies, Timestamp};
use vstd::prelude::*;

verus! {

/// What a directory entry is.
#[derive(Debug, Clone, Copy, PartialEq, Eq, Structural)]
pub enum EntryKind {
    Directory,
    /// A regular file, with its modification time.
    File(Timestamp),
}

/// One entry of a directory listing.
#[derive(Debug)]
pub struct DirEntry {
    pub path: String,
    pub file_name: String,
    pub kind: EntryKind,
}

pub struct DirEntryView {
    pub path: Seq<char>,
    pub file_name: Seq<char>,
    pub kind: EntryKind,
}

impl View for DirEntry {
    type V = DirEntryView;

    open spec fn view(&self) -> DirEntryView {
        DirEntryView { path: self.path@, file_name: self.file_name@, kind: self.kind }
    }
}

/// A regular file found by the walk, old enough to be archived.
#[derive(Debug)]
pub struct FileCandidate {
    pub path: String,
    pub file_name: String,
    pub modified: Timestamp,
}

pub struct FileCandidateView {
    pub path: Seq<char>,
    pub file_name: Seq<char>,
    pub modified: Timestamp,
}

impl View for FileCandidate {
    type V = FileCandidateView;

    open spec fn view(&self) -> FileCandidateView {
        FileCandidateView { path: self.path@, file_name: self.file_name@, modified: self.modified }
    }
}

pub open spec fn entries_view(es: Seq<DirEntry>) -> Seq<DirEntryView> {
    es.map_values(|e: DirEntry| e@)
}

pub open spec fn candidates_view(cs: Seq<FileCandidate>) -> Seq<FileCandidateView> {
    cs.map_values(|c: FileCandidate| c@)
}

/// The subdirectories of a listing, in listing order.
pub open spec fn subdirs(es: Seq<DirEntryView>) -> Seq<Seq<char>>
    decreases es.len(),
{
    if es.len() == 0 {
        Seq::empty()
    } else {
        let prev = subdirs(es.drop_last());
        if es.last().kind is Directory {
            prev.push(es.last().path)
        } else {
            prev
        }
    }
}

/// The files of a listing that are older than `days` days at `now`, in
/// listing order.
pub open spec fn candidates(now: Timestamp, days: u8, es: Seq<DirEntryView>) -> Seq<FileCandidateView>
    decreases es.len(),
{
    if es.len() == 0 {
        Seq::empty()
    } else {
        let prev = candidates(now, days, es.drop_last());
        let e = es.last();
        match e.kind {
            EntryKind::File(m) => if spec_qualifies(now, m, days) {
                prev.push(FileCandidateView { path: e.path, file_name: e.file_name, modified: m })
            } else {
                prev
            },
            EntryKind::Directory => prev,
        }
    }
}

/// A depth-first walk over a directory tree, kept as a stack of the
/// directories still to list.
pub struct Walker {
    pending: Vec<String>,
    now: Timestamp,
    time_limit: u8,
}

pub struct WalkerView {
    pub pending: Seq<Seq<char>>,
    pub now: Timestamp,
    pub time_limit: u8,
}

impl View for Walker {
    type V = WalkerView;

    closed spec fn view(&self) -> WalkerView {
        WalkerView {
            pending: self.pending@.map_values(|s: String| s@),
            now: self.now,
            time_limit: self.time_limit,
        }
    }
}

impl Walker {
    /// A walk of the tree under `root`, judging ages at the instant `now`.
    pub fn new(root: &str, time_limit: u8, now: Timestamp) -> (r: Walker)
        ensures
            r@.pending == seq![root@],
            r@.now == now,
            r@.time_limit == time_limit,
    {
        let mut pending: Vec<String> = Vec::new();
        pending.push(String::from_str(root));
        let r = Walker { pending, now, time_limit };
        assert(r@.pending =~= seq![root@]);
        r
    }

    /// A walk of the tree under `root`, judging ages at the current local time.
    pub fn start(root: &str, time_limit: u8) -> (r: Walker)
        ensures
            r@.pending == seq![root@],
            r@.time_limit == time_limit,
    {
        let now = local_now();
        Walker::new(root, time_limit, now)
    }

    /// The instant against which ages are judged.
    pub fn now(&self) -> (r: Timestamp)
        ensures
            r == self@.now,
    {
        self.now
    }

    /// No directory is left to list.
    pub fn is_done(&self) -> (r: bool)
        ensures
            r == (self@.pending.len() == 0),
    {
        self.pending.len() == 0
    }

    /// Takes the next directory to list, the one found last.
    pub fn next_directory(&mut self) -> (r: Option<String>)
        ensures
            old(self)@.pending.len() == 0 ==> r is None && final(self)@ == old(self)@,
            old(self)@.pending.len() > 0 ==> (r matches Some(d) && d@ == old(self)@.pending.last()
                && final(self)@.pending == old(self)@.pending.drop_last()),
            final(self)@.now == old(self)@.now,
            final(self)@.time_limit == old(self)@.time_limit,
    {
        let r = self.pending.pop();
        proof {
            if old(self)@.pending.len() > 0 {
                assert(self@.pending =~= old(self)@.pending.drop_last());
            }
        }
        r
    }

    /// Takes the listing of a directory: its subdirectories are queued to be
    /// listed, and the files older than the limit are returned. Younger files
    /// and the directories themselves are never returned.
    pub fn visit(&mut self, entries: &Vec<DirEntry>) -> (r: Vec<FileCandidate>)
        ensures
            final(self)@.pending == old(self)@.pending + subdirs(entries_view(entries@)),
            final(self)@.now == old(self)@.now,
            final(self)@.time_limit == old(self)@.time_limit,
            candidates_view(r@) == candidates(old(self)@.now, old(self)@.time_limit, entries_view(entries@)),
    {
        let ghost es = entries_view(entries@);
        let ghost start = self@.pending;
        let mut out: Vec<FileCandidate> = Vec::new();
        let mut i: usize = 0;
        while i < entries.len()
            invariant
                i <= entries@.len(),
                es == entries_view(entries@),
                self@.now == old(self)@.now,
                self@.time_limit == old(self)@.time_limit,
                start == old(self)@.pending,
                self@.pending == start + subdirs(es.take(i as int)),
                candidates_view(out@) == candidates(self@.now, self@.time_limit, es.take(i as int)),
            decreases entries@.len() - i,
        {
            let e = &entries[i];
            assert(es.take(i + 1).drop_last() =~= es.take(i as int));
            assert(es.take(i + 1).last() == e@);
            match e.kind {
                EntryKind::Directory => {
                    let ghost p0 = self@.pending;
                    self.pending.push(e.path.clone());
                    assert(self@.pending =~= p0.push(e@.path));
                    assert(self@.pending =~= start + subdirs(es.take(i + 1)));
                    assert(candidates_view(out@) =~= candidates(self@.now, self@.time_limit, es.take(i + 1)));
                },
                EntryKind::File(m) => {
                    let ghost before = out@;
                    if qualifies(self.now, m, self.time_limit) {
                        out.push(FileCandidate {
                            path: e.path.clone(),
                            file_name: e.file_name.clone(),
                            modified: m,
                        });
                        assert(candidates_view(out@) =~= candidates_view(before).push(out@.last()@));
                    }
                    assert(self@.pending =~= start + subdirs(es.take(i + 1)));
                    assert(candidates_view(out@) =~= candidates(self@.now, self@.time_limit, es.take(i + 1)));
                },
            }
            i = i + 1;
        }
        assert(es.take(entries@.len() as int) =~= es);
        out
    }
}

/// Each file handed out comes from an entry of the listing, with the same
/// path and modification time, and is older than the limit.
pub proof fn lemma_candidates_qualify(now: Timestamp, days: u8, es: Seq<DirEntryView>)
    ensures
        forall|k: int| 0 <= k < candidates(now, days, es).len() ==> {
            let c = #[trigger] candidates(now, days, es)[k];
            &&& spec_qualifies(now, c.modified, days)
            &&& exists|j: int| 0 <= j < es.len() && es[j].path == c.path
                && es[j].kind == EntryKind::File(c.modified)
        },
    decreases es.len(),
{
    if es.len() > 0 {
        let prev = es.drop_last();
        lemma_candidates_qualify(now, days, prev);
        let cs = candidates(now, days, es);
        let ps = candidates(now, days, prev);
        assert forall|k: int| 0 <= k < cs.len() implies {
            let c = #[trigger] cs[k];
            &&& spec_qualifies(now, c.modified, days)
            &&& exists|j: int| 0 <= j < es.len() && es[j].path == c.path
                && es[j].kind == EntryKind::File(c.modified)
        } by {
            if k < ps.len() {
                let c = ps[k];
                assert(cs[k] == c);
                let j = choose|j: int| 0 <= j < prev.len() && prev[j].path == c.path
                    && prev[j].kind == EntryKind::File(c.modified);
                assert(es[j] == prev[j]);
            } else {
                assert(es[es.len() - 1] == es.last());
            }
        }
    }
}

/// A file whose age does not exceed the limit is left where it is: no file
/// handed out for archiving has its path, however often the listing is
/// visited.
pub proof fn lemma_young_files_untouched(now: Timestamp, days: u8, es: Seq<DirEntryView>, i: int)
    requires
        0 <= i < es.len(),
        es[i].kind matches EntryKind::File(m) && !spec_qualifies(now, m, days),
        forall|j: int, k: int| 0 <= j < es.len() && 0 <= k < es.len() && j != k
            ==> es[j].path != es[k].path,
    ensures
        forall|k: int| 0 <= k < candidates(now, days, es).len()
            ==> (#[trigger] candidates(now, days, es)[k]).path != es[i].path,
{
    lemma_candidates_qualify(now, days, es);
    let cs = candidates(now, days, es);
    assert forall|k: int| 0 <= k < cs.len() implies (#[trigger] cs[k]).path != es[i].path by {
        let c = cs[k];
        if c.path == es[i].path {
            let j = choose|j: int| 0 <= j < es.len() && es[j].path == c.path
                && es[j].kind == EntryKind::File(c.modified);
            assert(j == i);
        }
    }
}

/// The listing holds a directory at `path`.
pub open spec fn lists_directory(es: Seq<DirEntryView>, path: Seq<char>) -> bool {
    exists|j: int| 0 <= j < es.len() && es[j].kind is Directory && es[j].path == path
}

/// Every subdirectory of a listing is queued to be listed in turn, and only
/// subdirectories are: no branch of the tree is skipped, however deep.
pub proof fn lemma_subdirs_complete(es: Seq<DirEntryView>)
    ensures
        forall|i: int| 0 <= i < es.len() && es[i].kind is Directory
            ==> subdirs(es).contains(#[trigger] es[i].path),
        forall|k: int| 0 <= k < subdirs(es).len() ==> lists_directory(es, #[trigger] subdirs(es)[k]),
    decreases es.len(),
{
    if es.len() > 0 {
        let prev = es.drop_last();
        lemma_subdirs_complete(prev);
        let ds = subdirs(es);
        let ps = subdirs(prev);
        assert forall|i: int| 0 <= i < es.len() && es[i].kind is Directory
            implies ds.contains(#[trigger] es[i].path) by {
            if i < es.len() - 1 {
                assert(prev[i] == es[i]);
                assert(prev[i].kind is Directory);
                assert(ps.contains(prev[i].path));
                let k = choose|k: int| 0 <= k < ps.len() && ps[k] == prev[i].path;
                assert(ds[k] == ps[k]);
            } else {
                assert(ds[ds.len() - 1] == es[i].path);
            }
        }
        assert forall|k: int| 0 <= k < ds.len() implies lists_directory(es, #[trigger] ds[k]) by {
            if k < ps.len() {
                assert(ds[k] == ps[k]);
                assert(lists_directory(prev, ps[k]));
                let j = choose|j: int| 0 <= j < prev.len() && prev[j].kind is Directory
                    && prev[j].path == ps[k];
                assert(es[j] == prev[j]);
            } else {
                assert(es.last().kind is Directory);
                assert(ds == ps.push(es.last().path));
                assert(ds[k] == es.last().path);
                assert(es[es.len() - 1] == es.last());
            }
        }
    }
}

} // verus!
