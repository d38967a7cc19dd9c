use vstd::prelude::*;

use crate::error::AppError;
use crate::vectors::{text_or, Embedding, NoteVector};

verus! {

broadcast use {vstd::std_specs::vec::group_vec_axioms, vstd::seq::group_seq_axioms};

/// The final component of a path without its extension, when the path has a
/// final component.
pub uninterp spec fn path_file_stem(path: Seq<char>) -> Option<Seq<char>>;

pub open spec fn opt_text_view(o: Option<String>) -> Option<Seq<char>> {
    match o {
        Some(t) => Some(t@),
        None => None,
    }
}

/// Relies on std::path::Path::file_stem: the file name of the path without
/// its extension. The path is UTF-8, so the stem is too.
#[verifier::external_body]
fn file_stem(path: &str) -> (r: Option<String>)
    ensures
        opt_text_view(r) == path_file_stem(path@),
{
    match std::path::Path::new(path).file_stem() {
        Some(stem) => Some(stem.to_string_lossy().into_owned()),
        None => None,
    }
}

/// The title of the note at a path: its file name without the extension,
/// or `Untitled` when the path has no file name.
pub open spec fn title_of_path(path: Seq<char>) -> Seq<char> {
    text_or(path_file_stem(path), "Untitled"@)
}

/// Derives a note's title from its path.
pub fn note_title(path: &str) -> (r: String)
    ensures
        r@ == title_of_path(path@),
{
    match file_stem(path) {
        Some(t) => t,
        None => "Untitled".to_owned(),
    }
}

/// How the indexing of one note ended.
#[derive(Debug, Clone, Copy, PartialEq, Eq, Structural)]
pub enum NoteOutcome {
    /// The file could not be read; nothing was asked of the services.
    Unreadable,
    /// The embedding could not be made; nothing was written.
    EmbeddingFailed,
    /// The note's vectors were written.
    Stored,
    /// The note's vectors were handed to the store, which refused them.
    StoreFailed,
}

/// What the indexing asks of the outside world next.
#[derive(Debug)]
pub enum IndexTask {
    ReadFile(String),
    Embed(String),
    Store(NoteVector),
    Finished,
}

/// What the outside world answered.
#[derive(Debug)]
pub enum IndexEvent {
    FileRead(Result<String, AppError>),
    Embedded(Result<Embedding, AppError>),
    Stored(Result<(), AppError>),
}

/// Where the note at hand stands.
#[derive(Debug)]
pub enum IndexStage {
    Reading,
    Embedding { title: String, content: String },
    Storing,
    Finished,
}

/// A batch of notes being indexed, one after the other, in list order. A
/// note that fails at any step is recorded and skipped; the batch always
/// runs to its end.
#[derive(Debug)]
pub struct IndexingRun {
    pub files: Vec<String>,
    pub position: usize,
    pub stage: IndexStage,
    pub outcomes: Vec<NoteOutcome>,
}

/// The run went on from the note at hand, which ended with `outcome`: to the
/// next file, or to the end of the batch.
pub open spec fn moved_on(old: IndexingRun, new: IndexingRun, outcome: NoteOutcome, task: IndexTask) -> bool {
    &&& new.files == old.files
    &&& new.position == old.position + 1
    &&& new.outcomes@ == old.outcomes@.push(outcome)
    &&& if new.position < new.files@.len() {
        &&& new.stage is Reading
        &&& task matches IndexTask::ReadFile(p) && p@ == new.files@[new.position as int]@
    } else {
        new.stage is Finished && task is Finished
    }
}

/// One step of the indexing, from the answer to the pending task.
pub open spec fn index_step(old: IndexingRun, event: IndexEvent, new: IndexingRun, task: IndexTask) -> bool {
    match (old.stage, event) {
        (IndexStage::Finished, _) => new == old && task is Finished,
        (IndexStage::Reading, IndexEvent::FileRead(Ok(content))) => {
            &&& new.files == old.files
            &&& new.position == old.position
            &&& new.outcomes == old.outcomes
            &&& new.stage matches IndexStage::Embedding { title, content: kept }
            &&& title@ == title_of_path(old.files@[old.position as int]@)
            &&& kept == content
            &&& task matches IndexTask::Embed(t) && t@ == content@
        },
        (IndexStage::Reading, _) => moved_on(old, new, NoteOutcome::Unreadable, task),
        (IndexStage::Embedding { title, content }, IndexEvent::Embedded(Ok(e))) => {
            &&& new.files == old.files
            &&& new.position == old.position
            &&& new.outcomes == old.outcomes
            &&& new.stage is Storing
            &&& task matches IndexTask::Store(note) && {
                &&& note.payload.title@ == title@
                &&& note.payload.content@ == content@
                &&& note.payload.file_path@ == old.files@[old.position as int]@
                &&& note.embedding == e
                &&& note.payload.created_at == note.payload.updated_at
                &&& note.id@.len() == 36
            }
        },
        (IndexStage::Embedding { .. }, _) => moved_on(old, new, NoteOutcome::EmbeddingFailed, task),
        (IndexStage::Storing, IndexEvent::Stored(Ok(()))) => moved_on(old, new, NoteOutcome::Stored, task),
        (IndexStage::Storing, _) => moved_on(old, new, NoteOutcome::StoreFailed, task),
    }
}

impl IndexingRun {
    /// One outcome per note behind the current one, and the run is finished
    /// exactly when every note has one.
    pub open spec fn wf(self) -> bool {
        &&& self.position <= self.files@.len()
        &&& self.outcomes@.len() == self.position
        &&& (self.stage is Finished <==> self.position == self.files@.len())
    }

    /// Starts indexing the given files: the first one is read, or the batch
    /// is over at once when there are none.
    pub fn start(files: Vec<String>) -> (r: (Self, IndexTask))
        ensures
            r.0.wf(),
            r.0.files == files,
            r.0.position == 0,
            files@.len() > 0 ==> r.0.stage is Reading && (r.1 matches IndexTask::ReadFile(p) && p@
                == files@[0]@),
            files@.len() == 0 ==> r.0.stage is Finished && r.1 is Finished,
    {
        if files.len() > 0 {
            let first = files[0].clone();
            (
                IndexingRun { files, position: 0, stage: IndexStage::Reading, outcomes: Vec::new() },
                IndexTask::ReadFile(first),
            )
        } else {
            (
                IndexingRun { files, position: 0, stage: IndexStage::Finished, outcomes: Vec::new() },
                IndexTask::Finished,
            )
        }
    }

    fn move_on(&mut self, outcome: NoteOutcome) -> (task: IndexTask)
        requires
            old(self).wf(),
            !(old(self).stage is Finished),
        ensures
            final(self).wf(),
            moved_on(*old(self), *final(self), outcome, task),
    {
        let n = self.files.len();
        self.outcomes.push(outcome);
        self.position = self.position + 1;
        if self.position < n {
            self.stage = IndexStage::Reading;
            IndexTask::ReadFile(self.files[self.position].clone())
        } else {
            self.stage = IndexStage::Finished;
            IndexTask::Finished
        }
    }

    /// Takes the answer to the pending task and says what to do next. A
    /// failure, or an answer to some other task, ends the note at hand and
    /// the run goes on with the next file.
    pub fn advance(&mut self, event: IndexEvent) -> (task: IndexTask)
        requires
            old(self).wf(),
        ensures
            final(self).wf(),
            index_step(*old(self), event, *final(self), task),
    {
        match (&self.stage, event) {
            (IndexStage::Finished, _) => IndexTask::Finished,
            (IndexStage::Reading, IndexEvent::FileRead(Ok(content))) => {
                let title = note_title(self.files[self.position].as_str());
                let text = content.clone();
                self.stage = IndexStage::Embedding { title, content };
                IndexTask::Embed(text)
            },
            (IndexStage::Reading, _) => self.move_on(NoteOutcome::Unreadable),
            (IndexStage::Embedding { title, content }, IndexEvent::Embedded(Ok(e))) => {
                let note = NoteVector::new(
                    title.clone(),
                    content.clone(),
                    self.files[self.position].clone(),
                    e,
                );
                self.stage = IndexStage::Storing;
                IndexTask::Store(note)
            },
            (IndexStage::Embedding { .. }, _) => self.move_on(NoteOutcome::EmbeddingFailed),
            (IndexStage::Storing, IndexEvent::Stored(Ok(()))) => self.move_on(NoteOutcome::Stored),
            (IndexStage::Storing, _) => self.move_on(NoteOutcome::StoreFailed),
        }
    }
}

/// A failed embedding costs only its own note: the note is recorded as
/// failed and the batch goes on with the next file, whose vectors can then
/// still be stored, or ends normally when no file is left.
pub proof fn lemma_embedding_failure_skips_one_note(
    old: IndexingRun,
    err: AppError,
    new: IndexingRun,
    task: IndexTask,
)
    requires
        old.wf(),
        old.stage is Embedding,
        index_step(old, IndexEvent::Embedded(Err(err)), new, task),
    ensures
        new.outcomes@ == old.outcomes@.push(NoteOutcome::EmbeddingFailed),
        old.position + 1 < old.files@.len() ==> (task matches IndexTask::ReadFile(p) && p@
            == old.files@[old.position + 1]@),
        old.position + 1 == old.files@.len() ==> task is Finished,
{
}

/// How the outside world answers a task in a batch where every file reads,
/// the embedding of the note at position `failing` fails, and every other
/// embedding succeeds; the store may answer either way.
pub open spec fn answers_with_one_failure(run: IndexingRun, task: IndexTask, event: IndexEvent, failing: int) -> bool {
    match task {
        IndexTask::ReadFile(_) => event matches IndexEvent::FileRead(Ok(_)),
        IndexTask::Embed(_) => if run.position == failing {
            event matches IndexEvent::Embedded(Err(_))
        } else {
            event matches IndexEvent::Embedded(Ok(_))
        },
        IndexTask::Store(_) => event is Stored,
        IndexTask::Finished => true,
    }
}

/// The task at step `j` hands the note at `path` to the store.
pub open spec fn stores_path(tasks: Seq<IndexTask>, j: int, path: Seq<char>) -> bool {
    tasks[j] matches IndexTask::Store(note) && note.payload.file_path@ == path
}

/// Some task up to step `upto` hands the note at `path` to the store.
pub open spec fn stored_by(tasks: Seq<IndexTask>, upto: int, path: Seq<char>) -> bool {
    exists|s: int| 0 <= s <= upto && #[trigger] stores_path(tasks, s, path)
}

/// The pending task is the one the stage calls for.
pub open spec fn task_fits_stage(run: IndexingRun, task: IndexTask) -> bool {
    match run.stage {
        IndexStage::Reading => task is ReadFile,
        IndexStage::Embedding { .. } => task is Embed,
        IndexStage::Storing => task matches IndexTask::Store(note) && note.payload.file_path@
            == run.files@[run.position as int]@,
        IndexStage::Finished => task is Finished,
    }
}

/// A run of the batch: states and tasks before and after each answer.
pub open spec fn is_trace(
    runs: Seq<IndexingRun>,
    tasks: Seq<IndexTask>,
    events: Seq<IndexEvent>,
    failing: int,
) -> bool {
    &&& runs.len() == events.len() + 1
    &&& tasks.len() == events.len() + 1
    &&& forall|j: int|
        #![trigger events[j]]
        0 <= j < events.len() ==> answers_with_one_failure(runs[j], tasks[j], events[j], failing)
            && index_step(runs[j], events[j], runs[j + 1], tasks[j + 1])
}

proof fn lemma_trace_invariant(
    runs: Seq<IndexingRun>,
    tasks: Seq<IndexTask>,
    events: Seq<IndexEvent>,
    failing: int,
    j: int,
)
    requires
        is_trace(runs, tasks, events, failing),
        runs[0].wf(),
        runs[0].position == 0,
        task_fits_stage(runs[0], tasks[0]),
        !(runs[0].stage is Embedding),
        !(runs[0].stage is Storing),
        0 <= failing,
        0 <= j <= events.len(),
    ensures
        runs[j].wf(),
        runs[j].files == runs[0].files,
        task_fits_stage(runs[j], tasks[j]),
        forall|i: int|
            0 <= i < runs[j].position && i != failing ==> #[trigger] stored_by(
                tasks,
                j,
                runs[0].files@[i]@,
            ),
        runs[j].stage is Storing ==> runs[j].position != failing,
        failing < runs[j].position ==> runs[j].outcomes@[failing] == NoteOutcome::EmbeddingFailed,
    decreases j,
{
    if j > 0 {
        let p = j - 1;
        lemma_trace_invariant(runs, tasks, events, failing, p);
        let before = runs[p];
        let after = runs[j];
        let files = runs[0].files@;
        assert(answers_with_one_failure(before, tasks[p], events[p], failing) && index_step(
            before,
            events[p],
            after,
            tasks[j],
        ));
        match before.stage {
            IndexStage::Finished => {
                assert(after == before);
            },
            IndexStage::Reading => {
                assert(tasks[p] is ReadFile);
                assert(events[p] matches IndexEvent::FileRead(Ok(_)));
                assert(after.position == before.position);
                assert(after.outcomes == before.outcomes);
            },
            IndexStage::Embedding { .. } => {
                assert(tasks[p] is Embed);
                if before.position == failing {
                    assert(events[p] matches IndexEvent::Embedded(Err(_)));
                    assert(after.outcomes@ == before.outcomes@.push(NoteOutcome::EmbeddingFailed));
                } else {
                    assert(events[p] matches IndexEvent::Embedded(Ok(_)));
                    assert(after.position == before.position);
                    assert(after.outcomes == before.outcomes);
                }
            },
            IndexStage::Storing => {
                assert(stores_path(tasks, p, files[before.position as int]@));
                assert(events[p] is Stored);
                assert(after.position == before.position + 1);
                assert(after.outcomes@.subrange(0, before.position as int) =~= before.outcomes@);
            },
        }
        assert forall|i: int|
            0 <= i < runs[j].position && i != failing implies #[trigger] stored_by(
                tasks,
                j,
                runs[0].files@[i]@,
            ) by {
            if i < before.position {
                assert(stored_by(tasks, p, files[i]@));
                let s = choose|s: int| 0 <= s <= p && #[trigger] stores_path(tasks, s, files[i]@);
                assert(0 <= s <= j && stores_path(tasks, s, files[i]@));
            } else {
                assert(before.stage is Storing);
                assert(stores_path(tasks, p, files[i]@));
            }
        }
        if failing < after.position && failing < before.position {
            assert(after.outcomes@[failing] == before.outcomes@[failing]);
        }
    }
}

/// A batch in which exactly one note's embedding fails still hands every
/// other note's vectors to the store, and records that one note as failed:
/// over any complete run of the batch, every file but the failing one is
/// the subject of a store task.
pub proof fn lemma_one_embedding_failure_stores_the_rest(
    runs: Seq<IndexingRun>,
    tasks: Seq<IndexTask>,
    events: Seq<IndexEvent>,
    failing: int,
)
    requires
        is_trace(runs, tasks, events, failing),
        runs[0].files@.len() > 0,
        runs[0].position == 0,
        runs[0].wf(),
        runs[0].stage is Reading,
        tasks[0] is ReadFile,
        0 <= failing < runs[0].files@.len(),
        tasks.last() is Finished,
    ensures
        forall|i: int|
            0 <= i < runs[0].files@.len() && i != failing ==> #[trigger] stored_by(
                tasks,
                events.len() as int,
                runs[0].files@[i]@,
            ),
        runs.last().outcomes@[failing] == NoteOutcome::EmbeddingFailed,
{
    let n = events.len() as int;
    lemma_trace_invariant(runs, tasks, events, failing, n);
    assert(tasks[n] is Finished);
    assert(runs[n].stage is Finished);
    assert(runs[n].position == runs[0].files@.len());
}

} // verus!
