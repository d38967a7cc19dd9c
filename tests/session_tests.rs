use raggy_notes::error::AppError;
use raggy_notes::session::{App, Command, Key, Tab, STARTUP_STATUS};
use raggy_notes::vectors::{PointKey, StoreHit};

fn hit(id: u64, title: &str) -> StoreHit {
    StoreHit {
        id: Some(PointKey::Num(id)),
        score: "0.75".to_string(),
        payload: vec![
            ("title".to_string(), Some(title.to_string())),
            ("content".to_string(), Some(format!("content of {}", title))),
            ("file_path".to_string(), Some(format!("{}.md", title))),
        ],
    }
}

fn type_text(app: &mut App, text: &str) {
    for c in text.chars() {
        app.handle_key(Key::Char(c), false);
    }
}

fn with_results(n: usize) -> App {
    let mut app = App::new();
    for i in 0..n {
        app.add_search_result(i.to_string(), format!("t{}", i), "c".into(), "0.10".into(), "p".into());
    }
    app
}

#[test]
fn next_result_selects_first_then_second_then_stays() {
    let mut app = with_results(3);
    assert_eq!(app.selected_result, None);
    app.next_result();
    assert_eq!(app.selected_result, Some(0));
    app.next_result();
    assert_eq!(app.selected_result, Some(1));
    app.next_result();
    assert_eq!(app.selected_result, Some(2));
    app.next_result();
    assert_eq!(app.selected_result, Some(2));
}

#[test]
fn next_result_with_no_results_selects_nothing() {
    let mut app = App::new();
    app.next_result();
    assert_eq!(app.selected_result, None);
}

#[test]
fn previous_result_moves_up_and_stops() {
    let mut app = with_results(2);
    app.previous_result();
    assert_eq!(app.selected_result, Some(1));
    app.previous_result();
    assert_eq!(app.selected_result, Some(0));
    app.previous_result();
    assert_eq!(app.selected_result, Some(0));
}

#[test]
fn empty_search_submit_changes_nothing() {
    let mut app = App::start();
    app.handle_key(Key::Tab, false);
    assert_eq!(app.selected_tab, Tab::Search);
    let before_messages = app.messages.clone();
    let before_status = app.status_message.clone();
    assert_eq!(app.handle_key(Key::Enter, false), Command::Continue);
    assert_eq!(app.messages, before_messages);
    assert_eq!(app.status_message, before_status);
    assert!(app.search_results.is_empty());
}

#[test]
fn editing_the_input() {
    let mut app = App::new();
    type_text(&mut app, "hllo");
    assert_eq!(app.cursor_position, 4);
    for _ in 0..3 {
        app.handle_key(Key::Left, false);
    }
    app.handle_key(Key::Char('e'), false);
    assert_eq!(app.input, "hello");
    assert_eq!(app.cursor_position, 2);
    app.handle_key(Key::Backspace, false);
    assert_eq!(app.input, "hllo");
    assert_eq!(app.cursor_position, 1);
    for _ in 0..10 {
        app.handle_key(Key::Right, false);
    }
    assert_eq!(app.cursor_position, 4);
    for _ in 0..10 {
        app.handle_key(Key::Left, false);
    }
    assert_eq!(app.cursor_position, 0);
    app.handle_key(Key::Backspace, false);
    assert_eq!(app.input, "hllo");
}

#[test]
fn multibyte_input_is_edited_by_character() {
    let mut app = App::new();
    type_text(&mut app, "ñü");
    app.handle_key(Key::Left, false);
    app.handle_key(Key::Char('é'), false);
    assert_eq!(app.input, "ñéü");
    app.handle_key(Key::Backspace, false);
    assert_eq!(app.input, "ñü");
}

#[test]
fn control_q_and_c_quit_plain_letters_type() {
    let mut app = App::new();
    assert_eq!(app.handle_key(Key::Char('q'), true), Command::Quit);
    assert_eq!(app.handle_key(Key::Char('c'), true), Command::Quit);
    assert_eq!(app.input, "");
    app.handle_key(Key::Char('q'), false);
    app.handle_key(Key::Char('c'), false);
    assert_eq!(app.input, "qc");
}

#[test]
fn views_cycle_in_a_ring() {
    let mut app = App::new();
    app.next_tab();
    assert_eq!(app.selected_tab, Tab::Search);
    app.next_tab();
    assert_eq!(app.selected_tab, Tab::Settings);
    app.next_tab();
    assert_eq!(app.selected_tab, Tab::Chat);
    app.previous_tab();
    assert_eq!(app.selected_tab, Tab::Settings);
    app.handle_key(Key::BackTab, false);
    assert_eq!(app.selected_tab, Tab::Search);
}

#[test]
fn chat_submit_and_answer() {
    let mut app = App::start();
    type_text(&mut app, "hi");
    assert_eq!(app.handle_key(Key::Enter, false), Command::Chat("hi".into()));
    assert_eq!(app.input, "");
    assert_eq!(app.cursor_position, 0);
    assert_eq!(app.status_message.as_deref(), Some("Thinking..."));
    assert_eq!(app.messages.last().unwrap(), "You: hi");
    app.finish_chat(Ok("hello".into()));
    assert_eq!(app.messages.last().unwrap(), "AI: hello");
    assert_eq!(app.status_message, None);
    app.finish_chat(Err(AppError::OllamaError("refused".into())));
    assert_eq!(
        app.messages.last().unwrap(),
        "AI: Error generating response: Ollama API error: refused"
    );
}

#[test]
fn search_flow_fills_results_and_selects_first() {
    let mut app = App::start();
    app.handle_key(Key::Tab, false);
    type_text(&mut app, "milk");
    assert_eq!(app.handle_key(Key::Enter, false), Command::Search("milk".into()));
    assert_eq!(app.status_message.as_deref(), Some("Searching..."));
    let request = app.search_embedded(Ok(vec![vec![1, 2, 3]])).unwrap();
    assert_eq!(request.limit, 10);
    assert_eq!(request.vector, vec![1, 2, 3]);
    app.finish_search(Ok(vec![hit(7, "Groceries"), hit(8, "Shops")]));
    assert_eq!(app.messages.last().unwrap(), "AI: Found 2 relevant notes.");
    assert_eq!(app.search_results.len(), 2);
    assert_eq!(app.selected_result, Some(0));
    assert_eq!(app.search_results[0].id, "7");
    assert_eq!(app.search_results[0].title, "Groceries");
    assert_eq!(app.search_results[0].file_path, "Groceries.md");
    assert_eq!(app.search_results[1].score, "0.75");
    assert_eq!(app.status_message, None);
    app.handle_key(Key::Down, false);
    assert_eq!(app.selected_result, Some(1));
    assert_eq!(
        app.view_full_content().unwrap(),
        "# Shops\n\nPath: Shops.md\n\ncontent of Shops"
    );
}

#[test]
fn new_search_replaces_old_results() {
    let mut app = with_results(3);
    app.selected_result = Some(2);
    app.selected_tab = Tab::Search;
    type_text(&mut app, "q");
    app.handle_key(Key::Enter, false);
    assert!(app.search_results.is_empty());
    assert_eq!(app.selected_result, None);
    app.finish_search(Ok(vec![hit(1, "Only")]));
    assert_eq!(app.search_results.len(), 1);
    assert_eq!(app.messages.last().unwrap(), "AI: Found 1 relevant notes.");
}

#[test]
fn search_failures_go_to_the_log() {
    let mut app = App::new();
    assert!(app.search_embedded(Err(AppError::OllamaError("x".into()))).is_none());
    assert_eq!(app.messages.last().unwrap(), "AI: Error generating embedding: Ollama API error: x");
    assert!(app.search_embedded(Ok(Vec::new())).is_none());
    assert_eq!(
        app.messages.last().unwrap(),
        "AI: Error searching notes: Vector database error: Empty query embedding provided"
    );
    app.finish_search(Err(AppError::QdrantError("gone".into())));
    assert_eq!(app.messages.last().unwrap(), "AI: Error searching notes: Qdrant client error: gone");
    assert!(app.search_results.is_empty());
    app.finish_search(Ok(Vec::new()));
    assert_eq!(app.messages.last().unwrap(), "AI: No relevant notes found for your query.");
}

#[test]
fn startup_status_and_timer() {
    let mut app = App::start();
    assert_eq!(app.messages, vec!["AI: Welcome to Raggy Notes! How can I help you today?".to_string()]);
    assert_eq!(app.status_message.as_deref(), Some(STARTUP_STATUS));
    app.on_status_timeout();
    assert_eq!(app.status_message, None);

    let mut app = App::start();
    app.set_status("Searching...");
    app.on_status_timeout();
    assert_eq!(app.status_message.as_deref(), Some("Searching..."));
}

#[test]
fn preview_is_cut_at_one_hundred_characters() {
    let mut app = App::new();
    app.add_search_result("i".into(), "t".into(), "z".repeat(150), "0.1".into(), "p".into());
    assert_eq!(app.search_results[0].content_preview, format!("{}...", "z".repeat(100)));
    app.add_search_result("i".into(), "t".into(), "z".repeat(100), "0.1".into(), "p".into());
    assert_eq!(app.search_results[1].content_preview, "z".repeat(100));
    app.clear_search_results();
    assert!(app.search_results.is_empty());
    assert_eq!(app.view_full_content(), None);
}

#[test]
fn arrows_move_selection_only_on_search_view() {
    let mut app = with_results(2);
    app.handle_key(Key::Down, false);
    assert_eq!(app.selected_result, None);
    app.selected_tab = Tab::Search;
    app.handle_key(Key::Up, false);
    assert_eq!(app.selected_result, Some(1));
}
