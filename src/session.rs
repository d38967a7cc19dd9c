use vstd::prelude::*;
use vstd::string::*;

use crate::error::{error_message, AppError};
use crate::text::{decimal, decimal_text, join, push_char, snippet, truncate_with_ellipsis};
use crate::vectors::{query_usable, search_request, Embedding, SearchRequest, StoreHit, id_text_of};

verus! {

broadcast use {vstd::std_specs::vec::group_vec_axioms, vstd::seq::group_seq_axioms};

/// The first line of every session's log.
pub const WELCOME_MESSAGE: &'static str = "AI: Welcome to Raggy Notes! How can I help you today?";

/// The status shown when a session starts, until the timer clears it.
pub const STARTUP_STATUS: &'static str = "Connected to Ollama and Qdrant";

/// The status while a question is being answered.
pub const THINKING_STATUS: &'static str = "Thinking...";

/// The status while a search runs.
pub const SEARCHING_STATUS: &'static str = "Searching...";

/// How many notes a search shows at most.
pub const SEARCH_RESULT_LIMIT: u64 = 10;

/// How many characters of a result's content its preview keeps.
pub const PREVIEW_CHARS: usize = 100;

/// The views of a session, in the order the view switch cycles through them.
#[derive(Debug, Clone, Copy, PartialEq, Eq, Structural)]
pub enum Tab {
    Chat,
    Search,
    Settings,
}

/// The view after `t` in the ring Chat, Search, Settings.
pub open spec fn tab_after(t: Tab) -> Tab {
    match t {
        Tab::Chat => Tab::Search,
        Tab::Search => Tab::Settings,
        Tab::Settings => Tab::Chat,
    }
}

/// The view before `t` in the ring Chat, Search, Settings.
pub open spec fn tab_before(t: Tab) -> Tab {
    match t {
        Tab::Chat => Tab::Settings,
        Tab::Search => Tab::Chat,
        Tab::Settings => Tab::Search,
    }
}

/// A note found by a search, as the session shows it.
#[derive(Debug)]
pub struct SearchResult {
    pub id: String,
    pub title: String,
    pub content: String,
    pub content_preview: String,
    pub score: String,
    pub file_path: String,
}

/// A search result as plain text values.
pub ghost struct SearchResultView {
    pub id: Seq<char>,
    pub title: Seq<char>,
    pub content: Seq<char>,
    pub content_preview: Seq<char>,
    pub score: Seq<char>,
    pub file_path: Seq<char>,
}

impl View for SearchResult {
    type V = SearchResultView;

    open spec fn view(&self) -> SearchResultView {
        SearchResultView {
            id: self.id@,
            title: self.title@,
            content: self.content@,
            content_preview: self.content_preview@,
            score: self.score@,
            file_path: self.file_path@,
        }
    }
}

/// The result shown for a note with these fields: its preview is the first
/// hundred characters of its content, marked with `...` when cut.
pub open spec fn result_view(
    id: Seq<char>,
    title: Seq<char>,
    content: Seq<char>,
    score: Seq<char>,
    file_path: Seq<char>,
) -> SearchResultView {
    SearchResultView {
        id,
        title,
        content,
        content_preview: snippet(content, PREVIEW_CHARS as nat),
        score,
        file_path,
    }
}

/// The result shown for a hit of the store.
pub open spec fn hit_result_view(hit: StoreHit) -> SearchResultView {
    result_view(
        id_text_of(hit.id),
        hit.field_text("title"@, "Untitled"@),
        hit.field_text("content"@, "No content"@),
        hit.score@,
        hit.field_text("file_path"@, "Unknown path"@),
    )
}

pub open spec fn results_view(v: Seq<SearchResult>) -> Seq<SearchResultView> {
    v.map_values(|r: SearchResult| r@)
}

pub open spec fn log_view(v: Seq<String>) -> Seq<Seq<char>> {
    v.map_values(|s: String| s@)
}

pub open spec fn status_view(s: Option<String>) -> Option<Seq<char>> {
    match s {
        Some(t) => Some(t@),
        None => None,
    }
}

/// The selection after "next result": the first entry when nothing is
/// selected, one further down otherwise, staying on the last entry; with no
/// results there is nothing to select.
pub open spec fn selection_after_next(sel: Option<usize>, count: nat) -> Option<usize> {
    if count == 0 {
        sel
    } else {
        match sel {
            None => Some(0),
            Some(i) => if i + 1 < count {
                Some((i + 1) as usize)
            } else {
                sel
            },
        }
    }
}

/// The selection after "previous result": the last entry when nothing is
/// selected, one further up otherwise, staying on the first entry.
pub open spec fn selection_after_previous(sel: Option<usize>, count: nat) -> Option<usize> {
    if count == 0 {
        sel
    } else {
        match sel {
            None => Some((count - 1) as usize),
            Some(i) => if i > 0 {
                Some((i - 1) as usize)
            } else {
                sel
            },
        }
    }
}

/// Pressing "next result" from no selection picks the first entry, pressing
/// it again moves to the second when there are two or more, and at the last
/// entry it stays there instead of wrapping around.
pub proof fn lemma_next_result_walk(count: nat)
    requires
        count >= 1,
        count < usize::MAX,
    ensures
        selection_after_next(None, count) == Some(0usize),
        count >= 2 ==> selection_after_next(selection_after_next(None, count), count) == Some(
            1usize,
        ),
        selection_after_next(Some((count - 1) as usize), count) == Some((count - 1) as usize),
{
}

/// A key as the session reads it.
#[derive(Debug, Clone, Copy, PartialEq, Eq)]
pub enum Key {
    Char(char),
    Backspace,
    Left,
    Right,
    Up,
    Down,
    Tab,
    BackTab,
    Enter,
    Other,
}

/// What the session asks of its driver after a key.
#[derive(Debug, PartialEq, Eq)]
pub enum Command {
    /// Redraw and read the next key.
    Continue,
    /// Leave the session.
    Quit,
    /// Answer this question from the notes, then call `finish_chat`.
    Chat(String),
    /// Embed this query, then call `search_embedded`.
    Search(String),
}

/// The input with `c` typed at position `at`.
pub open spec fn typed(input: Seq<char>, at: nat, c: char) -> Seq<char> {
    input.subrange(0, at as int) + seq![c] + input.subrange(at as int, input.len() as int)
}

/// The input with the character before position `at` removed.
pub open spec fn erased(input: Seq<char>, at: nat) -> Seq<char> {
    input.subrange(0, at - 1) + input.subrange(at as int, input.len() as int)
}

/// The log line for the answer to a question.
pub open spec fn chat_reply(answer: Result<String, AppError>) -> Seq<char> {
    match answer {
        Ok(t) => "AI: "@ + t@,
        Err(e) => "AI: "@ + ("Error generating response: "@ + error_message(e)),
    }
}

/// The log line that reports a search that found `n` notes.
pub open spec fn found_line(n: nat) -> Seq<char> {
    "AI: "@ + ("Found "@ + decimal_text(n) + " relevant notes."@)
}

impl App {
    /// Everything but the input and the cursor is as in `o`.
    pub open spec fn same_but_input(self, o: App) -> bool {
        &&& self.messages == o.messages
        &&& self.selected_tab == o.selected_tab
        &&& self.search_results == o.search_results
        &&& self.selected_result == o.selected_result
        &&& self.status_message == o.status_message
    }

    /// Everything but the selection is as in `o`.
    pub open spec fn same_but_selection(self, o: App) -> bool {
        &&& self.input == o.input
        &&& self.cursor_position == o.cursor_position
        &&& self.messages == o.messages
        &&& self.selected_tab == o.selected_tab
        &&& self.search_results == o.search_results
        &&& self.status_message == o.status_message
    }

    /// Everything but the view is as in `o`.
    pub open spec fn same_but_tab(self, o: App) -> bool {
        &&& self.input == o.input
        &&& self.cursor_position == o.cursor_position
        &&& self.messages == o.messages
        &&& self.search_results == o.search_results
        &&& self.selected_result == o.selected_result
        &&& self.status_message == o.status_message
    }
}

/// What Enter does: with an empty input, or on the settings view, nothing.
/// On the chat view the input becomes the user's message and a question to
/// answer, under the thinking status. On the search view it becomes the
/// user's message and a query, under the searching status, with the old
/// results gone.
pub open spec fn enter_step(old: App, new: App, r: Command) -> bool {
    if old.input@.len() == 0 || old.selected_tab == Tab::Settings {
        r == Command::Continue && new == old
    } else {
        &&& new.input@ == Seq::<char>::empty()
        &&& new.cursor_position == 0
        &&& new.selected_tab == old.selected_tab
        &&& log_view(new.messages@) == log_view(old.messages@).push("You: "@ + old.input@)
        &&& if old.selected_tab == Tab::Chat {
            &&& r matches Command::Chat(q) && q@ == old.input@
            &&& status_view(new.status_message) == Some(THINKING_STATUS@)
            &&& new.search_results == old.search_results
            &&& new.selected_result == old.selected_result
        } else {
            &&& r matches Command::Search(q) && q@ == old.input@
            &&& status_view(new.status_message) == Some(SEARCHING_STATUS@)
            &&& new.search_results@.len() == 0
            &&& new.selected_result is None
        }
    }
}

/// What one key does to the session, and what it asks of the driver.
pub open spec fn key_step(old: App, key: Key, control: bool, new: App, r: Command) -> bool {
    match key {
        Key::Char(c) => if control && (c == 'q' || c == 'c') {
            r == Command::Quit && new == old
        } else {
            &&& r == Command::Continue
            &&& new.input@ == typed(old.input@, old.cursor_position as nat, c)
            &&& new.cursor_position == old.cursor_position + 1
            &&& new.same_but_input(old)
        },
        Key::Backspace => {
            &&& r == Command::Continue
            &&& new.same_but_input(old)
            &&& if old.cursor_position > 0 {
                &&& new.input@ == erased(old.input@, old.cursor_position as nat)
                &&& new.cursor_position == old.cursor_position - 1
            } else {
                new == old
            }
        },
        Key::Left => {
            &&& r == Command::Continue
            &&& new.input == old.input
            &&& new.same_but_input(old)
            &&& new.cursor_position == if old.cursor_position > 0 {
                (old.cursor_position - 1) as usize
            } else {
                0
            }
        },
        Key::Right => {
            &&& r == Command::Continue
            &&& new.input == old.input
            &&& new.same_but_input(old)
            &&& new.cursor_position == if old.cursor_position < old.input@.len() {
                (old.cursor_position + 1) as usize
            } else {
                old.cursor_position
            }
        },
        Key::Up => r == Command::Continue && if old.selected_tab == Tab::Search {
            new.same_but_selection(old) && new.selected_result == selection_after_previous(
                old.selected_result,
                old.search_results@.len(),
            )
        } else {
            new == old
        },
        Key::Down => r == Command::Continue && if old.selected_tab == Tab::Search {
            new.same_but_selection(old) && new.selected_result == selection_after_next(
                old.selected_result,
                old.search_results@.len(),
            )
        } else {
            new == old
        },
        Key::Tab => r == Command::Continue && new.same_but_tab(old) && new.selected_tab
            == tab_after(old.selected_tab),
        Key::BackTab => r == Command::Continue && new.same_but_tab(old) && new.selected_tab
            == tab_before(old.selected_tab),
        Key::Enter => enter_step(old, new, r),
        Key::Other => r == Command::Continue && new == old,
    }
}

/// The state of an interactive session.
#[derive(Debug)]
pub struct App {
    pub input: String,
    pub cursor_position: usize,
    pub messages: Vec<String>,
    pub selected_tab: Tab,
    pub search_results: Vec<SearchResult>,
    pub selected_result: Option<usize>,
    pub status_message: Option<String>,
}

impl App {
    /// The cursor lies within the input and the selection within the results.
    pub open spec fn wf(self) -> bool {
        &&& self.cursor_position <= self.input@.len()
        &&& self.input@.len() < usize::MAX
        &&& (self.selected_result matches Some(i) ==> i < self.search_results@.len())
    }

    /// An empty session on the chat view.
    pub fn new() -> (r: Self)
        ensures
            r.wf(),
            r.input@ == Seq::<char>::empty(),
            r.cursor_position == 0,
            r.messages@.len() == 0,
            r.selected_tab == Tab::Chat,
            r.search_results@.len() == 0,
            r.selected_result is None,
            r.status_message is None,
    {
        App {
            input: String::new(),
            cursor_position: 0,
            messages: Vec::new(),
            selected_tab: Tab::Chat,
            search_results: Vec::new(),
            selected_result: None,
            status_message: None,
        }
    }

    /// A session as it starts: the welcome line in the log and the
    /// connection status shown.
    pub fn start() -> (r: Self)
        ensures
            r.wf(),
            r.input@ == Seq::<char>::empty(),
            r.cursor_position == 0,
            log_view(r.messages@) == seq![WELCOME_MESSAGE@],
            r.selected_tab == Tab::Chat,
            r.search_results@.len() == 0,
            r.selected_result is None,
            status_view(r.status_message) == Some(STARTUP_STATUS@),
    {
        let mut app = App::new();
        app.messages.push(WELCOME_MESSAGE.to_owned());
        app.set_status(STARTUP_STATUS);
        proof {
            assert(log_view(app.messages@) =~= seq![WELCOME_MESSAGE@]);
        }
        app
    }

    /// Shows a status text.
    pub fn set_status(&mut self, message: &str)
        ensures
            status_view(final(self).status_message) == Some(message@),
            final(self).input == old(self).input,
            final(self).cursor_position == old(self).cursor_position,
            final(self).messages == old(self).messages,
            final(self).selected_tab == old(self).selected_tab,
            final(self).search_results == old(self).search_results,
            final(self).selected_result == old(self).selected_result,
    {
        self.status_message = Some(message.to_owned());
    }

    /// Hides the status text.
    pub fn clear_status(&mut self)
        ensures
            final(self).status_message is None,
            final(self).input == old(self).input,
            final(self).cursor_position == old(self).cursor_position,
            final(self).messages == old(self).messages,
            final(self).selected_tab == old(self).selected_tab,
            final(self).search_results == old(self).search_results,
            final(self).selected_result == old(self).selected_result,
    {
        self.status_message = None;
    }

    /// The startup timer fired: the connection status goes away, unless the
    /// status has changed since the session started.
    pub fn on_status_timeout(&mut self)
        ensures
            status_view(old(self).status_message) == Some(STARTUP_STATUS@)
                ==> final(self).status_message is None,
            status_view(old(self).status_message) != Some(STARTUP_STATUS@)
                ==> final(self).status_message == old(self).status_message,
            final(self).input == old(self).input,
            final(self).cursor_position == old(self).cursor_position,
            final(self).messages == old(self).messages,
            final(self).selected_tab == old(self).selected_tab,
            final(self).search_results == old(self).search_results,
            final(self).selected_result == old(self).selected_result,
    {
        let banner = STARTUP_STATUS.to_owned();
        let shown = match &self.status_message {
            Some(s) => *s == banner,
            None => false,
        };
        if shown {
            self.status_message = None;
        }
    }

    /// Moves the selection one result down, stopping at the last.
    pub fn next_result(&mut self)
        requires
            old(self).wf(),
        ensures
            final(self).wf(),
            final(self).selected_result == selection_after_next(
                old(self).selected_result,
                old(self).search_results@.len(),
            ),
            final(self).input == old(self).input,
            final(self).cursor_position == old(self).cursor_position,
            final(self).messages == old(self).messages,
            final(self).selected_tab == old(self).selected_tab,
            final(self).search_results == old(self).search_results,
            final(self).status_message == old(self).status_message,
    {
        if self.search_results.len() > 0 {
            match self.selected_result {
                Some(idx) => {
                    if idx < self.search_results.len() - 1 {
                        self.selected_result = Some(idx + 1);
                    }
                },
                None => {
                    self.selected_result = Some(0);
                },
            }
        }
    }

    /// Moves the selection one result up, stopping at the first.
    pub fn previous_result(&mut self)
        requires
            old(self).wf(),
        ensures
            final(self).wf(),
            final(self).selected_result == selection_after_previous(
                old(self).selected_result,
                old(self).search_results@.len(),
            ),
            final(self).input == old(self).input,
            final(self).cursor_position == old(self).cursor_position,
            final(self).messages == old(self).messages,
            final(self).selected_tab == old(self).selected_tab,
            final(self).search_results == old(self).search_results,
            final(self).status_message == old(self).status_message,
    {
        if self.search_results.len() > 0 {
            match self.selected_result {
                Some(idx) => {
                    if idx > 0 {
                        self.selected_result = Some(idx - 1);
                    }
                },
                None => {
                    self.selected_result = Some(self.search_results.len() - 1);
                },
            }
        }
    }

    /// The selected result written out: its title, its path and its preview.
    pub fn view_full_content(&self) -> (r: Option<String>)
        ensures
            r is Some <==> (self.selected_result matches Some(i) && i
                < self.search_results@.len()),
            r matches Some(t) ==> {
                let res = self.search_results@[self.selected_result->Some_0 as int]@;
                t@ == "# "@ + res.title + "\n\nPath: "@ + res.file_path + "\n\n"@
                    + res.content_preview
            },
    {
        match self.selected_result {
            Some(idx) => {
                if idx < self.search_results.len() {
                    let result = &self.search_results[idx];
                    let mut t = join("# ", result.title.as_str());
                    t.append("\n\nPath: ");
                    t.append(result.file_path.as_str());
                    t.append("\n\n");
                    t.append(result.content_preview.as_str());
                    Some(t)
                } else {
                    None
                }
            },
            None => None,
        }
    }

    /// Adds a result at the end of the list, with a preview of its content.
    pub fn add_search_result(
        &mut self,
        id: String,
        title: String,
        content: String,
        score: String,
        file_path: String,
    )
        requires
            old(self).wf(),
        ensures
            final(self).wf(),
            final(self).search_results@.len() == old(self).search_results@.len() + 1,
            results_view(final(self).search_results@) == results_view(
                old(self).search_results@,
            ).push(result_view(id@, title@, content@, score@, file_path@)),
            final(self).input == old(self).input,
            final(self).cursor_position == old(self).cursor_position,
            final(self).messages == old(self).messages,
            final(self).selected_tab == old(self).selected_tab,
            final(self).selected_result == old(self).selected_result,
            final(self).status_message == old(self).status_message,
    {
        let content_preview = truncate_with_ellipsis(content.as_str(), PREVIEW_CHARS);
        self.search_results.push(
            SearchResult { id, title, content, content_preview, score, file_path },
        );
        proof {
            assert(results_view(self.search_results@) =~= results_view(
                old(self).search_results@,
            ).push(result_view(id@, title@, content@, score@, file_path@)));
        }
    }

    /// Empties the result list and drops the selection.
    pub fn clear_search_results(&mut self)
        ensures
            final(self).search_results@.len() == 0,
            final(self).selected_result is None,
            final(self).input == old(self).input,
            final(self).cursor_position == old(self).cursor_position,
            final(self).messages == old(self).messages,
            final(self).selected_tab == old(self).selected_tab,
            final(self).status_message == old(self).status_message,
    {
        self.search_results.clear();
        self.selected_result = None;
    }

    /// Moves the cursor one character left, stopping at the start.
    pub fn move_cursor_left(&mut self)
        ensures
            final(self).cursor_position == if old(self).cursor_position > 0 {
                (old(self).cursor_position - 1) as usize
            } else {
                0
            },
            final(self).input == old(self).input,
            final(self).messages == old(self).messages,
            final(self).selected_tab == old(self).selected_tab,
            final(self).search_results == old(self).search_results,
            final(self).selected_result == old(self).selected_result,
            final(self).status_message == old(self).status_message,
    {
        if self.cursor_position > 0 {
            self.cursor_position -= 1;
        }
    }

    /// Moves the cursor one character right, stopping at the end of the input.
    pub fn move_cursor_right(&mut self)
        requires
            old(self).wf(),
        ensures
            final(self).wf(),
            final(self).cursor_position == if old(self).cursor_position < old(self).input@.len() {
                (old(self).cursor_position + 1) as usize
            } else {
                old(self).cursor_position
            },
            final(self).input == old(self).input,
            final(self).messages == old(self).messages,
            final(self).selected_tab == old(self).selected_tab,
            final(self).search_results == old(self).search_results,
            final(self).selected_result == old(self).selected_result,
            final(self).status_message == old(self).status_message,
    {
        if self.cursor_position < self.input.as_str().unicode_len() {
            self.cursor_position += 1;
        }
    }

    /// Types a character at the cursor and moves the cursor past it.
    pub fn insert_char(&mut self, c: char)
        requires
            old(self).wf(),
            old(self).input@.len() + 1 < usize::MAX,
        ensures
            final(self).wf(),
            final(self).input@ == old(self).input@.subrange(0, old(self).cursor_position as int)
                + seq![c] + old(self).input@.subrange(
                old(self).cursor_position as int,
                old(self).input@.len() as int,
            ),
            final(self).cursor_position == old(self).cursor_position + 1,
            final(self).messages == old(self).messages,
            final(self).selected_tab == old(self).selected_tab,
            final(self).search_results == old(self).search_results,
            final(self).selected_result == old(self).selected_result,
            final(self).status_message == old(self).status_message,
    {
        let n = self.input.as_str().unicode_len();
        let mut s = self.input.as_str().substring_char(0, self.cursor_position).to_owned();
        push_char(&mut s, c);
        s.append(self.input.as_str().substring_char(self.cursor_position, n));
        self.input = s;
        self.cursor_position += 1;
    }

    /// Removes the character before the cursor, if there is one.
    pub fn delete_char(&mut self)
        requires
            old(self).wf(),
        ensures
            final(self).wf(),
            old(self).cursor_position > 0 ==> {
                &&& final(self).input@ == old(self).input@.subrange(
                    0,
                    old(self).cursor_position - 1,
                ) + old(self).input@.subrange(
                    old(self).cursor_position as int,
                    old(self).input@.len() as int,
                )
                &&& final(self).cursor_position == old(self).cursor_position - 1
            },
            old(self).cursor_position == 0 ==> final(self).input == old(self).input
                && final(self).cursor_position == 0,
            final(self).messages == old(self).messages,
            final(self).selected_tab == old(self).selected_tab,
            final(self).search_results == old(self).search_results,
            final(self).selected_result == old(self).selected_result,
            final(self).status_message == old(self).status_message,
    {
        if self.cursor_position > 0 {
            let n = self.input.as_str().unicode_len();
            let mut s = self.input.as_str().substring_char(0, self.cursor_position - 1).to_owned();
            s.append(self.input.as_str().substring_char(self.cursor_position, n));
            self.input = s;
            self.cursor_position -= 1;
        }
    }

    /// Takes the input as a message: the input is emptied and the message
    /// goes to the log as the user's.
    pub fn submit_message(&mut self) -> (r: String)
        requires
            old(self).wf(),
        ensures
            final(self).wf(),
            r@ == old(self).input@,
            final(self).input@ == Seq::<char>::empty(),
            final(self).cursor_position == 0,
            log_view(final(self).messages@) == log_view(old(self).messages@).push(
                "You: "@ + r@,
            ),
            final(self).selected_tab == old(self).selected_tab,
            final(self).search_results == old(self).search_results,
            final(self).selected_result == old(self).selected_result,
            final(self).status_message == old(self).status_message,
    {
        let message = self.input.clone();
        self.input = String::new();
        self.cursor_position = 0;
        self.messages.push(join("You: ", message.as_str()));
        proof {
            assert(log_view(self.messages@) =~= log_view(old(self).messages@).push(
                "You: "@ + message@,
            ));
        }
        message
    }

    /// Adds an answer to the log.
    pub fn add_ai_response(&mut self, response: String)
        requires
            old(self).wf(),
        ensures
            final(self).wf(),
            log_view(final(self).messages@) == log_view(old(self).messages@).push(
                "AI: "@ + response@,
            ),
            final(self).input == old(self).input,
            final(self).cursor_position == old(self).cursor_position,
            final(self).selected_tab == old(self).selected_tab,
            final(self).search_results == old(self).search_results,
            final(self).selected_result == old(self).selected_result,
            final(self).status_message == old(self).status_message,
    {
        self.messages.push(join("AI: ", response.as_str()));
        proof {
            assert(log_view(self.messages@) =~= log_view(old(self).messages@).push(
                "AI: "@ + response@,
            ));
        }
    }

    /// Reacts to one key. Ctrl+Q and Ctrl+C leave; characters, Backspace,
    /// Left and Right edit the input; Up and Down move through the results on
    /// the search view; Tab and BackTab switch views; Enter submits the input
    /// on the chat and search views, and does nothing when the input is empty.
    pub fn handle_key(&mut self, key: Key, control: bool) -> (r: Command)
        requires
            old(self).wf(),
            old(self).input@.len() + 1 < usize::MAX,
        ensures
            final(self).wf(),
            key_step(*old(self), key, control, *final(self), r),
    {
        match key {
            Key::Char(c) => {
                if control && (c == 'q' || c == 'c') {
                    Command::Quit
                } else {
                    self.insert_char(c);
                    Command::Continue
                }
            },
            Key::Backspace => {
                self.delete_char();
                Command::Continue
            },
            Key::Left => {
                self.move_cursor_left();
                Command::Continue
            },
            Key::Right => {
                self.move_cursor_right();
                Command::Continue
            },
            Key::Up => {
                if self.selected_tab == Tab::Search {
                    self.previous_result();
                }
                Command::Continue
            },
            Key::Down => {
                if self.selected_tab == Tab::Search {
                    self.next_result();
                }
                Command::Continue
            },
            Key::Tab => {
                self.next_tab();
                Command::Continue
            },
            Key::BackTab => {
                self.previous_tab();
                Command::Continue
            },
            Key::Enter => self.submit(),
            Key::Other => Command::Continue,
        }
    }

    fn submit(&mut self) -> (r: Command)
        requires
            old(self).wf(),
        ensures
            final(self).wf(),
            enter_step(*old(self), *final(self), r),
    {
        if self.input.as_str().unicode_len() == 0 {
            return Command::Continue;
        }
        match self.selected_tab {
            Tab::Chat => {
                let question = self.submit_message();
                self.set_status(THINKING_STATUS);
                Command::Chat(question)
            },
            Tab::Search => {
                let query = self.submit_message();
                self.set_status(SEARCHING_STATUS);
                self.clear_search_results();
                Command::Search(query)
            },
            Tab::Settings => Command::Continue,
        }
    }

    /// Takes the answer to a question: the answer, or the error that stopped
    /// it, goes to the log, and the status is cleared.
    pub fn finish_chat(&mut self, answer: Result<String, AppError>)
        requires
            old(self).wf(),
        ensures
            final(self).wf(),
            log_view(final(self).messages@) == log_view(old(self).messages@).push(
                chat_reply(answer),
            ),
            final(self).status_message is None,
            final(self).input == old(self).input,
            final(self).cursor_position == old(self).cursor_position,
            final(self).selected_tab == old(self).selected_tab,
            final(self).search_results == old(self).search_results,
            final(self).selected_result == old(self).selected_result,
    {
        match answer {
            Ok(t) => self.add_ai_response(t),
            Err(e) => self.add_ai_response(join("Error generating response: ", e.message().as_str())),
        }
        self.clear_status();
    }

    /// Takes the embedding of a search query. When it can be searched with,
    /// the search to run is returned and nothing else changes; otherwise the
    /// failure goes to the log, the status is cleared and there is no search.
    pub fn search_embedded(&mut self, embedding: Result<Embedding, AppError>) -> (r: Option<
        SearchRequest,
    >)
        requires
            old(self).wf(),
        ensures
            final(self).wf(),
            final(self).input == old(self).input,
            final(self).cursor_position == old(self).cursor_position,
            final(self).selected_tab == old(self).selected_tab,
            final(self).search_results == old(self).search_results,
            final(self).selected_result == old(self).selected_result,
            match embedding {
                Err(e) => {
                    &&& r is None
                    &&& log_view(final(self).messages@) == log_view(old(self).messages@).push(
                        "AI: "@ + ("Error generating embedding: "@ + error_message(e)),
                    )
                    &&& final(self).status_message is None
                },
                Ok(emb) => if query_usable(emb@) {
                    &&& r matches Some(q) && q.vector@ == emb@[0]@ && q.limit
                        == SEARCH_RESULT_LIMIT && q.with_payload && q.with_vectors
                        && q.collection_name@ == crate::vectors::NOTES_QDRANT_COLLECTION_NAME@
                    &&& final(self).messages == old(self).messages
                    &&& final(self).status_message == old(self).status_message
                } else {
                    &&& r is None
                    &&& log_view(final(self).messages@) == log_view(old(self).messages@).push(
                        "AI: "@ + ("Error searching notes: "@ + ("Vector database error: "@
                            + "Empty query embedding provided"@)),
                    )
                    &&& final(self).status_message is None
                },
            },
    {
        match embedding {
            Err(e) => {
                self.add_ai_response(join("Error generating embedding: ", e.message().as_str()));
                self.clear_status();
                None
            },
            Ok(emb) => match search_request(&emb, SEARCH_RESULT_LIMIT) {
                Ok(q) => Some(q),
                Err(e) => {
                    self.add_ai_response(join("Error searching notes: ", e.message().as_str()));
                    self.clear_status();
                    None
                },
            },
        }
    }

    /// Takes what a search returned. The results replace the old ones, the
    /// first is selected, and the log says how many were found; a search
    /// that found nothing, or failed, leaves no results and says so in the
    /// log. The status is cleared.
    pub fn finish_search(&mut self, hits: Result<Vec<StoreHit>, AppError>)
        requires
            old(self).wf(),
        ensures
            final(self).wf(),
            final(self).status_message is None,
            final(self).input == old(self).input,
            final(self).cursor_position == old(self).cursor_position,
            final(self).selected_tab == old(self).selected_tab,
            match hits {
                Err(e) => {
                    &&& log_view(final(self).messages@) == log_view(old(self).messages@).push(
                        "AI: "@ + ("Error searching notes: "@ + error_message(e)),
                    )
                    &&& final(self).search_results@.len() == 0
                    &&& final(self).selected_result is None
                },
                Ok(h) => if h@.len() == 0 {
                    &&& log_view(final(self).messages@) == log_view(old(self).messages@).push(
                        "AI: "@ + "No relevant notes found for your query."@,
                    )
                    &&& final(self).search_results@.len() == 0
                    &&& final(self).selected_result is None
                } else {
                    &&& log_view(final(self).messages@) == log_view(old(self).messages@).push(
                        found_line(h@.len()),
                    )
                    &&& final(self).search_results@.len() == h@.len()
                    &&& results_view(final(self).search_results@) == h@.map_values(
                        |x: StoreHit| hit_result_view(x),
                    )
                    &&& final(self).selected_result == Some(0usize)
                },
            },
    {
        self.clear_search_results();
        match hits {
            Err(e) => {
                self.add_ai_response(join("Error searching notes: ", e.message().as_str()));
            },
            Ok(h) => {
                if h.len() == 0 {
                    self.add_ai_response("No relevant notes found for your query.".to_owned());
                } else {
                    let mut line = join("Found ", decimal(h.len() as u64).as_str());
                    line.append(" relevant notes.");
                    self.add_ai_response(line);
                    let ghost log = self.messages;
                    let mut i: usize = 0;
                    while i < h.len()
                        invariant
                            self.wf(),
                            i <= h@.len(),
                            self.input == old(self).input,
                            self.cursor_position == old(self).cursor_position,
                            self.selected_tab == old(self).selected_tab,
                            self.messages == log,
                            self.selected_result is None,
                            self.status_message == old(self).status_message,
                            self.search_results@.len() == i,
                            results_view(self.search_results@) == h@.subrange(0, i as int).map_values(
                                |x: StoreHit| hit_result_view(x),
                            ),
                        decreases h.len() - i,
                    {
                        let hit = &h[i];
                        self.add_search_result(
                            hit.id_text(),
                            hit.title(),
                            hit.content(),
                            hit.score.clone(),
                            hit.file_path(),
                        );
                        proof {
                            assert(h@.subrange(0, i + 1).map_values(|x: StoreHit| hit_result_view(x))
                                =~= h@.subrange(0, i as int).map_values(
                                |x: StoreHit| hit_result_view(x),
                            ).push(hit_result_view(h@[i as int])));
                        }
                        i = i + 1;
                    }
                    proof {
                        assert(h@.subrange(0, i as int) =~= h@);
                    }
                    self.selected_result = Some(0);
                }
            },
        }
        self.clear_status();
    }

    /// Switches to the next view.
    pub fn next_tab(&mut self)
        ensures
            final(self).selected_tab == tab_after(old(self).selected_tab),
            final(self).input == old(self).input,
            final(self).cursor_position == old(self).cursor_position,
            final(self).messages == old(self).messages,
            final(self).search_results == old(self).search_results,
            final(self).selected_result == old(self).selected_result,
            final(self).status_message == old(self).status_message,
    {
        self.selected_tab = match self.selected_tab {
            Tab::Chat => Tab::Search,
            Tab::Search => Tab::Settings,
            Tab::Settings => Tab::Chat,
        };
    }

    /// Switches to the previous view.
    pub fn previous_tab(&mut self)
        ensures
            final(self).selected_tab == tab_before(old(self).selected_tab),
            final(self).input == old(self).input,
            final(self).cursor_position == old(self).cursor_position,
            final(self).messages == old(self).messages,
            final(self).search_results == old(self).search_results,
            final(self).selected_result == old(self).selected_result,
            final(self).status_message == old(self).status_message,
    {
        self.selected_tab = match self.selected_tab {
            Tab::Chat => Tab::Settings,
            Tab::Search => Tab::Chat,
            Tab::Settings => Tab::Search,
        };
    }
}

} // verus!
