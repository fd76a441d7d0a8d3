use crate::clock::{local_date, CivilDate};
use crate::digest::{blake2b512_of, content_digest, digests_equal};
use crate::layout::{destination_dir, destination_dir_spec, join_path, join_spec};
use crate::station::Config;
use crate::walker::FileCandidate;
use vstd::prelude::*;

verus! {

/// How the relocation of one file ended.
#[derive(Debug, Clone, Copy, PartialEq, Eq, Structural)]
pub enum Outcome {
    /// Copied, verified, and the source removed.
    Moved,
    /// Copied and verified; the source kept.
    Copied,
    /// The copy's digest differed; the copy was removed and the source kept.
    ChecksumMismatch,
}

/// The step a relocation is at. Steps only move forward.
#[derive(Debug, Clone, Copy, PartialEq, Eq, Structural)]
pub enum Stage {
    PrepareDirectory,
    DigestSource,
    CopyFile,
    DigestDestination,
    RemoveSource,
    RemoveCopy,
    Finished(Outcome),
}

/// What the caller is asked to do on the file system next.
#[derive(Debug)]
pub enum Action {
    /// Create the folder and its missing ancestors.
    CreateDirAll { dir: String },
    /// Read the whole file and hand its bytes back.
    ReadFile { path: String },
    /// Copy the file, overwriting what is at the destination.
    CopyFile { from: String, to: String },
    RemoveFile { path: String },
    /// Nothing is left to do.
    Finish { outcome: Outcome },
}

pub enum ActionView {
    CreateDirAll(Seq<char>),
    ReadFile(Seq<char>),
    CopyFile(Seq<char>, Seq<char>),
    RemoveFile(Seq<char>),
    Finish(Outcome),
}

impl View for Action {
    type V = ActionView;

    open spec fn view(&self) -> ActionView {
        match self {
            Action::CreateDirAll { dir } => ActionView::CreateDirAll(dir@),
            Action::ReadFile { path } => ActionView::ReadFile(path@),
            Action::CopyFile { from, to } => ActionView::CopyFile(from@, to@),
            Action::RemoveFile { path } => ActionView::RemoveFile(path@),
            Action::Finish { outcome } => ActionView::Finish(*outcome),
        }
    }
}

/// What the caller reports back after performing an action.
#[derive(Debug)]
pub enum Event {
    /// The action succeeded.
    Done,
    /// The content of the file that was read.
    Content(Vec<u8>),
}

pub enum EventView {
    Done,
    Content(Seq<u8>),
}

impl View for Event {
    type V = EventView;

    open spec fn view(&self) -> EventView {
        match self {
            Event::Done => EventView::Done,
            Event::Content(b) => EventView::Content(b@),
        }
    }
}

/// The verified relocation of one file: create the destination folder, digest
/// the source, copy, digest the copy, then remove the source (or the bad copy).
pub struct Relocation {
    source: String,
    dest_dir: String,
    dest_file: String,
    only_copy: bool,
    stage: Stage,
    source_digest: Vec<u8>,
}

pub struct RelocationView {
    pub source: Seq<char>,
    pub dest_dir: Seq<char>,
    pub dest_file: Seq<char>,
    pub only_copy: bool,
    pub stage: Stage,
    pub source_digest: Seq<u8>,
}

impl View for Relocation {
    type V = RelocationView;

    closed spec fn view(&self) -> RelocationView {
        RelocationView {
            source: self.source@,
            dest_dir: self.dest_dir@,
            dest_file: self.dest_file@,
            only_copy: self.only_copy,
            stage: self.stage,
            source_digest: self.source_digest@,
        }
    }
}

/// A relocation that has not started: the file at `source`, named `name`,
/// modified on `date`, goes to the station's folder for that date under the
/// output folder.
pub open spec fn initial_state(
    config: Config,
    date: CivilDate,
    source: Seq<char>,
    name: Seq<char>,
) -> RelocationView {
    let dir = destination_dir_spec(config.output_dir@, config.station, date);
    RelocationView {
        source,
        dest_dir: dir,
        dest_file: join_spec(dir, name),
        only_copy: config.only_copy,
        stage: Stage::PrepareDirectory,
        source_digest: Seq::empty(),
    }
}

/// The action asked for at each step.
pub open spec fn action_of(r: RelocationView) -> ActionView {
    match r.stage {
        Stage::PrepareDirectory => ActionView::CreateDirAll(r.dest_dir),
        Stage::DigestSource => ActionView::ReadFile(r.source),
        Stage::CopyFile => ActionView::CopyFile(r.source, r.dest_file),
        Stage::DigestDestination => ActionView::ReadFile(r.dest_file),
        Stage::RemoveSource => ActionView::RemoveFile(r.source),
        Stage::RemoveCopy => ActionView::RemoveFile(r.dest_file),
        Stage::Finished(o) => ActionView::Finish(o),
    }
}

/// Whether an event is the answer that the current step waits for.
pub open spec fn accepts(r: RelocationView, e: EventView) -> bool {
    match r.stage {
        Stage::DigestSource | Stage::DigestDestination => e is Content,
        Stage::Finished(_) => false,
        _ => e is Done,
    }
}

/// The state after an event. An event that the step does not wait for
/// changes nothing.
pub open spec fn next_state(r: RelocationView, e: EventView) -> RelocationView {
    if !accepts(r, e) {
        r
    } else {
        match r.stage {
            Stage::PrepareDirectory => RelocationView { stage: Stage::DigestSource, ..r },
            Stage::DigestSource => match e {
                EventView::Content(c) => RelocationView {
                    stage: Stage::CopyFile,
                    source_digest: blake2b512_of(c),
                    ..r
                },
                EventView::Done => r,
            },
            Stage::CopyFile => RelocationView { stage: Stage::DigestDestination, ..r },
            Stage::DigestDestination => match e {
                EventView::Content(c) => if blake2b512_of(c) == r.source_digest {
                    if r.only_copy {
                        RelocationView { stage: Stage::Finished(Outcome::Copied), ..r }
                    } else {
                        RelocationView { stage: Stage::RemoveSource, ..r }
                    }
                } else {
                    RelocationView { stage: Stage::RemoveCopy, ..r }
                },
                EventView::Done => r,
            },
            Stage::RemoveSource => RelocationView { stage: Stage::Finished(Outcome::Moved), ..r },
            Stage::RemoveCopy => RelocationView {
                stage: Stage::Finished(Outcome::ChecksumMismatch),
                ..r
            },
            Stage::Finished(_) => r,
        }
    }
}

impl Relocation {
    /// Plans the relocation of the file at `source`, named `file_name`, that was
    /// modified on `date`.
    pub fn plan(config: &Config, source: &str, file_name: &str, date: CivilDate) -> (r: Relocation)
        ensures
            r@ == initial_state(*config, date, source@, file_name@),
    {
        let dir = destination_dir(config.output_dir.as_str(), &config.station, date);
        let file = join_path(dir.as_str(), file_name);
        Relocation {
            source: String::from_str(source),
            dest_dir: dir,
            dest_file: file,
            only_copy: config.only_copy,
            stage: Stage::PrepareDirectory,
            source_digest: Vec::new(),
        }
    }

    /// Plans the relocation of a file found by the walk, dated by its
    /// modification time in local time. `None` where that time has no
    /// calendar date.
    pub fn start(config: &Config, candidate: &FileCandidate) -> (r: Option<Relocation>)
        ensures
            r matches Some(x) ==> exists|d: CivilDate|
                d.wf() && x@ == #[trigger] initial_state(
                    *config,
                    d,
                    candidate.path@,
                    candidate.file_name@,
                ),
    {
        match local_date(candidate.modified) {
            Some(d) => Some(
                Relocation::plan(config, candidate.path.as_str(), candidate.file_name.as_str(), d),
            ),
            None => None,
        }
    }

    pub fn stage(&self) -> (r: Stage)
        ensures
            r == self@.stage,
    {
        self.stage
    }

    pub fn is_finished(&self) -> (r: bool)
        ensures
            r == (self@.stage is Finished),
    {
        match self.stage {
            Stage::Finished(_) => true,
            _ => false,
        }
    }

    pub fn source(&self) -> (r: &str)
        ensures
            r@ == self@.source,
    {
        self.source.as_str()
    }

    pub fn destination_dir(&self) -> (r: &str)
        ensures
            r@ == self@.dest_dir,
    {
        self.dest_dir.as_str()
    }

    pub fn destination_file(&self) -> (r: &str)
        ensures
            r@ == self@.dest_file,
    {
        self.dest_file.as_str()
    }

    /// The action that the current step asks for.
    pub fn action(&self) -> (a: Action)
        ensures
            a@ == action_of(self@),
    {
        match self.stage {
            Stage::PrepareDirectory => Action::CreateDirAll { dir: self.dest_dir.clone() },
            Stage::DigestSource => Action::ReadFile { path: self.source.clone() },
            Stage::CopyFile => Action::CopyFile {
                from: self.source.clone(),
                to: self.dest_file.clone(),
            },
            Stage::DigestDestination => Action::ReadFile { path: self.dest_file.clone() },
            Stage::RemoveSource => Action::RemoveFile { path: self.source.clone() },
            Stage::RemoveCopy => Action::RemoveFile { path: self.dest_file.clone() },
            Stage::Finished(o) => Action::Finish { outcome: o },
        }
    }

    /// Takes the result of the last action and moves to the next step.
    /// Returns whether the event was the one the step waited for; if not,
    /// nothing changes.
    pub fn advance(&mut self, event: Event) -> (accepted: bool)
        ensures
            accepted == accepts(old(self)@, event@),
            final(self)@ == next_state(old(self)@, event@),
    {
        match (self.stage, event) {
            (Stage::PrepareDirectory, Event::Done) => {
                self.stage = Stage::DigestSource;
                true
            },
            (Stage::DigestSource, Event::Content(bytes)) => {
                self.source_digest = content_digest(bytes.as_slice());
                self.stage = Stage::CopyFile;
                true
            },
            (Stage::CopyFile, Event::Done) => {
                self.stage = Stage::DigestDestination;
                true
            },
            (Stage::DigestDestination, Event::Content(bytes)) => {
                let d = content_digest(bytes.as_slice());
                if digests_equal(d.as_slice(), self.source_digest.as_slice()) {
                    if self.only_copy {
                        self.stage = Stage::Finished(Outcome::Copied);
                    } else {
                        self.stage = Stage::RemoveSource;
                    }
                } else {
                    self.stage = Stage::RemoveCopy;
                }
                true
            },
            (Stage::RemoveSource, Event::Done) => {
                self.stage = Stage::Finished(Outcome::Moved);
                true
            },
            (Stage::RemoveCopy, Event::Done) => {
                self.stage = Stage::Finished(Outcome::ChecksumMismatch);
                true
            },
            _ => false,
        }
    }
}

/// Files by path, with their contents.
pub type FsModel = Map<Seq<char>, Seq<u8>>;

/// What an action does to the files, where a copy writes `written` at its
/// destination (a faithful copy writes the source's content).
pub open spec fn apply(fs: FsModel, a: ActionView, written: Seq<u8>) -> FsModel {
    match a {
        ActionView::CopyFile(_, to) => fs.insert(to, written),
        ActionView::RemoveFile(p) => fs.remove(p),
        _ => fs,
    }
}

/// The answer to an action that succeeded on `fs`.
pub open spec fn respond(fs: FsModel, a: ActionView) -> EventView {
    match a {
        ActionView::ReadFile(p) => EventView::Content(fs[p]),
        _ => EventView::Done,
    }
}

/// Runs a relocation for at most `steps` actions against the files `fs`, each
/// action succeeding; the copy writes `written`.
pub open spec fn run(r: RelocationView, fs: FsModel, written: Seq<u8>, steps: nat) -> (RelocationView, FsModel)
    decreases steps,
{
    if steps == 0 || r.stage is Finished {
        (r, fs)
    } else {
        let a = action_of(r);
        let fs2 = apply(fs, a, written);
        run(next_state(r, respond(fs2, a)), fs2, written, (steps - 1) as nat)
    }
}

/// A relocation whose copy is byte-correct ends in success. Without
/// `only_copy` the source is gone and the destination holds its content;
/// with it, both hold that content. No other file changes.
pub proof fn lemma_verified_move(r: RelocationView, fs: FsModel)
    requires
        r.stage == Stage::PrepareDirectory,
        r.source != r.dest_file,
        fs.contains_key(r.source),
    ensures
        ({
            let (r2, fs2) = run(r, fs, fs[r.source], 5);
            &&& r.only_copy ==> r2.stage == Stage::Finished(Outcome::Copied)
                && fs2 == fs.insert(r.dest_file, fs[r.source])
            &&& !r.only_copy ==> r2.stage == Stage::Finished(Outcome::Moved)
                && fs2 == fs.insert(r.dest_file, fs[r.source]).remove(r.source)
            &&& fs2.contains_key(r.dest_file) && fs2[r.dest_file] == fs[r.source]
            &&& (r.only_copy <==> fs2.contains_key(r.source))
        }),
{
    reveal_with_fuel(run, 6);
    let c = fs[r.source];
    let fs3 = fs.insert(r.dest_file, c);
    assert(fs3[r.dest_file] == c);
    if !r.only_copy {
        assert(fs3.remove(r.source)[r.dest_file] == c);
    }
}

/// A copy whose digest differs from the source's is removed again, and the
/// source is left as it was: the files end as they were, less whatever
/// stood at the destination.
pub proof fn lemma_mismatch_cleanup(r: RelocationView, fs: FsModel, written: Seq<u8>)
    requires
        r.stage == Stage::PrepareDirectory,
        r.source != r.dest_file,
        fs.contains_key(r.source),
        blake2b512_of(written) != blake2b512_of(fs[r.source]),
    ensures
        ({
            let (r2, fs2) = run(r, fs, written, 5);
            &&& r2.stage == Stage::Finished(Outcome::ChecksumMismatch)
            &&& fs2 == fs.remove(r.dest_file)
            &&& fs2.contains_key(r.source) && fs2[r.source] == fs[r.source]
            &&& !fs2.contains_key(r.dest_file)
        }),
{
    reveal_with_fuel(run, 6);
    let fs3 = fs.insert(r.dest_file, written);
    assert(fs3[r.dest_file] == written);
    assert(fs3.remove(r.dest_file) =~= fs.remove(r.dest_file));
}

/// The destination of a file depends on the output folder, the station, the
/// modification date and the file name alone: two runs, with any other
/// settings and from any source folder, send it to the same place.
pub proof fn lemma_destination_determined(
    c1: Config,
    c2: Config,
    date: CivilDate,
    s1: Seq<char>,
    s2: Seq<char>,
    name: Seq<char>,
)
    requires
        c1.output_dir@ == c2.output_dir@,
        c1.station == c2.station,
    ensures
        initial_state(c1, date, s1, name).dest_dir
            == initial_state(c2, date, s2, name).dest_dir,
        initial_state(c1, date, s1, name).dest_file
            == initial_state(c2, date, s2, name).dest_file,
{
}

} // verus!
