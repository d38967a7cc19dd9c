use raggy_notes::error::AppError;
use raggy_notes::rag::{
    build_context, build_prompt, RagCompletion, RagRequest, RagResponse, RagStage,
    NO_NOTES_MARKER,
};
use raggy_notes::session::{App, Command, Key};
use raggy_notes::vectors::StoreHit;

fn hit(title: &str, content: &str, score: &str) -> StoreHit {
    StoreHit {
        id: None,
        score: score.to_string(),
        payload: vec![
            ("title".to_string(), Some(title.to_string())),
            ("content".to_string(), Some(content.to_string())),
        ],
    }
}

#[test]
fn empty_results_give_the_marker() {
    assert_eq!(build_context(&Vec::new()), "No relevant notes found.");
    let prompt = build_prompt(&build_context(&Vec::new()), "q");
    assert!(prompt.contains(NO_NOTES_MARKER));
}

#[test]
fn context_lists_each_hit_in_order() {
    let ctx = build_context(&vec![hit("A", "alpha", "0.91"), hit("B", "beta", "0.50")]);
    assert_eq!(
        ctx,
        "Here are some relevant notes from your knowledge base:\n\n\
         Note 1: A (relevance: 0.91)\nalpha\n\n\
         Note 2: B (relevance: 0.50)\nbeta\n\n"
    );
}

#[test]
fn long_content_is_cut_at_five_hundred_characters() {
    let long: String = "é".repeat(600);
    let ctx = build_context(&vec![hit("L", &long, "0.10")]);
    let expected_snippet = format!("{}...", "é".repeat(500));
    assert!(ctx.contains(&expected_snippet));
    assert!(!ctx.contains(&"é".repeat(501)));
    let exact: String = "x".repeat(500);
    let ctx = build_context(&vec![hit("E", &exact, "0.10")]);
    assert!(ctx.contains(&format!("{}\n\n", exact)));
    assert!(!ctx.contains("..."));
}

#[test]
fn prompt_layout() {
    let prompt = build_prompt("CTX", "Why?");
    assert_eq!(
        prompt,
        "You are a helpful AI assistant with access to the user's notes. Answer the following question using the provided notes when relevant. If the notes don't contain relevant information, just answer based on your knowledge.\n\nCTX\n\nUser question: Why?\nHelpful answer:"
    );
}

#[test]
fn prompt_holds_titles_and_snippets() {
    let hits = vec![hit("First", "one", "0.99"), hit("Second", &"y".repeat(700), "0.42")];
    let prompt = build_prompt(&build_context(&hits), "q");
    assert!(prompt.contains("First"));
    assert!(prompt.contains("one"));
    assert!(prompt.contains("Second"));
    assert!(prompt.contains(&format!("{}...", "y".repeat(500))));
}

#[test]
fn engine_runs_embed_search_complete() {
    let (mut rag, first) = RagCompletion::start("What?");
    assert!(matches!(first, RagRequest::Embed(ref t) if t == "What?"));
    let next = rag.resume(RagResponse::Embedded(Ok(vec![vec![1, 2], vec![3]])));
    match next {
        RagRequest::Search(q) => {
            assert_eq!(q.vector, vec![1, 2]);
            assert_eq!(q.limit, 5);
        }
        other => panic!("unexpected {:?}", other),
    }
    let next = rag.resume(RagResponse::Searched(Ok(vec![hit("T", "c", "0.80")])));
    match next {
        RagRequest::Complete(p) => {
            assert!(p.contains("Note 1: T (relevance: 0.80)\nc"));
            assert!(p.ends_with("User question: What?\nHelpful answer:"));
        }
        other => panic!("unexpected {:?}", other),
    }
    let done = rag.resume(RagResponse::Completed(Ok("Because.".to_string())));
    assert!(matches!(done, RagRequest::Finished(Ok(ref a)) if a == "Because."));
    assert_eq!(rag.stage, RagStage::Done);
}

#[test]
fn engine_stops_at_first_failure() {
    let (mut rag, _) = RagCompletion::start("q");
    let r = rag.resume(RagResponse::Embedded(Err(AppError::OllamaError("down".into()))));
    assert!(matches!(r, RagRequest::Finished(Err(AppError::OllamaError(_)))));

    let (mut rag, _) = RagCompletion::start("q");
    let r = rag.resume(RagResponse::Embedded(Ok(Vec::new())));
    assert!(matches!(r, RagRequest::Finished(Err(AppError::VectorDBError(_)))));

    let (mut rag, _) = RagCompletion::start("q");
    let r = rag.resume(RagResponse::Completed(Ok("early".into())));
    assert!(matches!(r, RagRequest::Finished(Err(AppError::UnexpectedError(_)))));
}

#[test]
fn chat_without_notes_asks_with_the_marker() {
    let mut app = App::start();
    for c in "What is X?".chars() {
        assert_eq!(app.handle_key(Key::Char(c), false), Command::Continue);
    }
    let question = match app.handle_key(Key::Enter, false) {
        Command::Chat(q) => q,
        other => panic!("unexpected {:?}", other),
    };
    assert_eq!(question, "What is X?");
    let (mut rag, _) = RagCompletion::start(&question);
    rag.resume(RagResponse::Embedded(Ok(vec![vec![5; 4]])));
    let prompt = match rag.resume(RagResponse::Searched(Ok(Vec::new()))) {
        RagRequest::Complete(p) => p,
        other => panic!("unexpected {:?}", other),
    };
    assert!(prompt.contains("No relevant notes found."));
    assert!(prompt.contains("User question: What is X?"));
}
