use raggy_notes::error::AppError;
use raggy_notes::indexing::{note_title, IndexEvent, IndexTask, IndexingRun, NoteOutcome};
use raggy_notes::vectors::EMBEDDING_SIZE;

fn files(names: &[&str]) -> Vec<String> {
    names.iter().map(|s| s.to_string()).collect()
}

/// Runs a batch where each note reads as its path, embeds unless `failing`
/// holds its path, and stores fine; returns the paths handed to the store.
fn run(names: &[&str], failing: &[&str]) -> (Vec<String>, Vec<NoteOutcome>) {
    let (mut run, mut task) = IndexingRun::start(files(names));
    let mut stored = Vec::new();
    loop {
        let event = match task {
            IndexTask::ReadFile(p) => IndexEvent::FileRead(Ok(p)),
            IndexTask::Embed(content) => {
                if failing.contains(&content.as_str()) {
                    IndexEvent::Embedded(Err(AppError::OllamaError("bad note".into())))
                } else {
                    IndexEvent::Embedded(Ok(vec![vec![0; EMBEDDING_SIZE]]))
                }
            }
            IndexTask::Store(note) => {
                stored.push(note.payload.file_path.clone());
                IndexEvent::Stored(Ok(()))
            }
            IndexTask::Finished => break,
        };
        task = run.advance(event);
    }
    (stored, run.outcomes)
}

#[test]
fn one_failed_embedding_skips_only_that_note() {
    let (stored, outcomes) = run(&["a.md", "b.md", "c.md"], &["b.md"]);
    assert_eq!(stored, files(&["a.md", "c.md"]));
    assert_eq!(
        outcomes,
        vec![NoteOutcome::Stored, NoteOutcome::EmbeddingFailed, NoteOutcome::Stored]
    );
}

#[test]
fn failure_of_first_or_last_note() {
    let (stored, _) = run(&["a.md", "b.md"], &["a.md"]);
    assert_eq!(stored, files(&["b.md"]));
    let (stored, outcomes) = run(&["a.md", "b.md"], &["b.md"]);
    assert_eq!(stored, files(&["a.md"]));
    assert_eq!(outcomes.len(), 2);
}

#[test]
fn empty_batch_is_finished_at_once() {
    let (_, task) = IndexingRun::start(Vec::new());
    assert!(matches!(task, IndexTask::Finished));
}

#[test]
fn store_and_read_failures_do_not_stop_the_batch() {
    let (mut run, task) = IndexingRun::start(files(&["notes/x.md", "notes/y.md"]));
    assert!(matches!(task, IndexTask::ReadFile(ref p) if p == "notes/x.md"));
    let task = run.advance(IndexEvent::FileRead(Err(AppError::IOError("denied".into()))));
    assert!(matches!(task, IndexTask::ReadFile(ref p) if p == "notes/y.md"));
    let task = run.advance(IndexEvent::FileRead(Ok("body".into())));
    assert!(matches!(task, IndexTask::Embed(ref c) if c == "body"));
    let task = run.advance(IndexEvent::Embedded(Ok(vec![vec![1; EMBEDDING_SIZE]])));
    match task {
        IndexTask::Store(note) => {
            assert_eq!(note.payload.title, "y");
            assert_eq!(note.payload.content, "body");
            assert_eq!(note.payload.file_path, "notes/y.md");
        }
        other => panic!("unexpected {:?}", other),
    }
    let task = run.advance(IndexEvent::Stored(Err(AppError::QdrantError("full".into()))));
    assert!(matches!(task, IndexTask::Finished));
    assert_eq!(run.outcomes, vec![NoteOutcome::Unreadable, NoteOutcome::StoreFailed]);
}

#[test]
fn titles_come_from_file_names() {
    assert_eq!(note_title("notes/a/Groceries.md"), "Groceries");
    assert_eq!(note_title("plain"), "plain");
    assert_eq!(note_title("dir/archive.tar.md"), "archive.tar");
    assert_eq!(note_title(".hidden"), ".hidden");
    assert_eq!(note_title("/"), "Untitled");
    assert_eq!(note_title(""), "Untitled");
}
