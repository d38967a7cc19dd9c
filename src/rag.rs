use vstd::prelude::*;

use crate::error::AppError;
use crate::text::{decimal, decimal_text, snippet, truncate_with_ellipsis};
use crate::vectors::{query_usable, search_request, Embedding, SearchRequest, StoreHit};

verus! {

broadcast use {vstd::std_specs::vec::group_vec_axioms, vstd::seq::group_seq_axioms};

/// Stands in the prompt when the search found nothing.
pub const NO_NOTES_MARKER: &'static str = "No relevant notes found.";

/// Opens the context when the search found notes.
pub const CONTEXT_INTRO: &'static str = "Here are some relevant notes from your knowledge base:\n\n";

/// Opens every prompt.
pub const PROMPT_PREAMBLE: &'static str =
    "You are a helpful AI assistant with access to the user's notes. Answer the following question using the provided notes when relevant. If the notes don't contain relevant information, just answer based on your knowledge.\n\n";

/// How many notes a question is answered from.
pub const RAG_RESULT_LIMIT: u64 = 5;

/// How many characters of a note's content go into the context.
pub const CONTEXT_SNIPPET_CHARS: usize = 500;

/// The context entry for the hit at position `i` of the ranking.
pub open spec fn note_entry(i: nat, hit: StoreHit) -> Seq<char> {
    "Note "@ + decimal_text(i + 1) + ": "@ + hit.field_text("title"@, "Untitled"@)
        + " (relevance: "@ + hit.score@ + ")\n"@ + snippet(
        hit.field_text("content"@, "No content"@),
        CONTEXT_SNIPPET_CHARS as nat,
    ) + "\n\n"@
}

/// The entries of all hits, in ranked order.
pub open spec fn entries_text(hits: Seq<StoreHit>) -> Seq<char>
    decreases hits.len(),
{
    if hits.len() == 0 {
        seq![]
    } else {
        entries_text(hits.drop_last()) + note_entry((hits.len() - 1) as nat, hits.last())
    }
}

/// The context block for a ranking of hits.
pub open spec fn context_of(hits: Seq<StoreHit>) -> Seq<char> {
    if hits.len() == 0 {
        NO_NOTES_MARKER@
    } else {
        CONTEXT_INTRO@ + entries_text(hits)
    }
}

/// The prompt for a question, given its context block.
pub open spec fn prompt_of(context: Seq<char>, query: Seq<char>) -> Seq<char> {
    PROMPT_PREAMBLE@ + context + "\n\nUser question: "@ + query + "\nHelpful answer:"@
}

fn note_entry_text(i: usize, hit: &StoreHit) -> (r: String)
    requires
        i < usize::MAX,
    ensures
        r@ == note_entry(i as nat, *hit),
{
    let mut r = "Note ".to_owned();
    r.append(decimal((i + 1) as u64).as_str());
    r.append(": ");
    r.append(hit.title().as_str());
    r.append(" (relevance: ");
    r.append(hit.score.as_str());
    r.append(")\n");
    r.append(truncate_with_ellipsis(hit.content().as_str(), CONTEXT_SNIPPET_CHARS).as_str());
    r.append("\n\n");
    r
}

/// The context block: the no-notes marker when nothing was found, otherwise
/// every hit in ranked order with its title, score and the start of its
/// content.
pub fn build_context(hits: &Vec<StoreHit>) -> (r: String)
    ensures
        r@ == context_of(hits@),
{
    if hits.len() == 0 {
        return NO_NOTES_MARKER.to_owned();
    }
    let mut r = CONTEXT_INTRO.to_owned();
    let mut i: usize = 0;
    while i < hits.len()
        invariant
            i <= hits@.len(),
            r@ == CONTEXT_INTRO@ + entries_text(hits@.subrange(0, i as int)),
        decreases hits.len() - i,
    {
        let entry = note_entry_text(i, &hits[i]);
        r.append(entry.as_str());
        proof {
            assert(hits@.subrange(0, i + 1).drop_last() =~= hits@.subrange(0, i as int));
            assert(r@ =~= CONTEXT_INTRO@ + entries_text(hits@.subrange(0, i + 1)));
        }
        i = i + 1;
    }
    proof {
        assert(hits@.subrange(0, i as int) =~= hits@);
    }
    r
}

/// The prompt: the fixed instruction, the context block, then the question.
pub fn build_prompt(context: &str, user_query: &str) -> (r: String)
    ensures
        r@ == prompt_of(context@, user_query@),
{
    let mut r = PROMPT_PREAMBLE.to_owned();
    r.append(context);
    r.append("\n\nUser question: ");
    r.append(user_query);
    r.append("\nHelpful answer:");
    r
}

/// Whether `t` stands somewhere inside `s`.
pub open spec fn contains_text(s: Seq<char>, t: Seq<char>) -> bool {
    exists|k: int| 0 <= k && k + t.len() <= s.len() && #[trigger] s.subrange(k, k + t.len()) == t
}

proof fn lemma_contains_middle(a: Seq<char>, t: Seq<char>, b: Seq<char>)
    ensures
        contains_text(a + t + b, t),
{
    let s = a + t + b;
    assert(s.subrange(a.len() as int, (a.len() + t.len()) as int) =~= t);
}

proof fn lemma_contains_trans(s: Seq<char>, m: Seq<char>, t: Seq<char>)
    requires
        contains_text(s, m),
        contains_text(m, t),
    ensures
        contains_text(s, t),
{
    let k1 = choose|k: int| 0 <= k && k + m.len() <= s.len() && #[trigger] s.subrange(k, k + m.len()) == m;
    let k2 = choose|k: int| 0 <= k && k + t.len() <= m.len() && #[trigger] m.subrange(k, k + t.len()) == t;
    assert(s.subrange(k1 + k2, k1 + k2 + t.len()) =~= t);
}

proof fn lemma_entries_contain(hits: Seq<StoreHit>, i: int)
    requires
        0 <= i < hits.len(),
    ensures
        contains_text(entries_text(hits), note_entry(i as nat, hits[i])),
    decreases hits.len(),
{
    let rest = entries_text(hits.drop_last());
    let last = note_entry((hits.len() - 1) as nat, hits.last());
    if i == hits.len() - 1 {
        lemma_contains_middle(rest, last, seq![]);
        assert(rest + last + seq![] =~= entries_text(hits));
    } else {
        lemma_entries_contain(hits.drop_last(), i);
        lemma_contains_middle(seq![], rest, last);
        assert(seq![] + rest + last =~= entries_text(hits));
        lemma_contains_trans(entries_text(hits), rest, note_entry(i as nat, hits[i]));
    }
}

/// What reaches the model from the notes: with no results the prompt holds
/// the no-notes marker; with results it holds, for each of them, its title
/// and its content cut to at most 500 characters, followed by `...` where
/// it was cut.
pub proof fn lemma_prompt_carries_context(hits: Seq<StoreHit>, query: Seq<char>)
    ensures
        hits.len() == 0 ==> contains_text(prompt_of(context_of(hits), query), NO_NOTES_MARKER@),
        forall|i: int|
            #![trigger hits[i]]
            0 <= i < hits.len() ==> {
                let content = hits[i].field_text("content"@, "No content"@);
                let cut = snippet(content, CONTEXT_SNIPPET_CHARS as nat);
                &&& contains_text(
                    prompt_of(context_of(hits), query),
                    hits[i].field_text("title"@, "Untitled"@),
                )
                &&& contains_text(prompt_of(context_of(hits), query), cut)
                &&& cut.len() <= CONTEXT_SNIPPET_CHARS + 3
                &&& (content.len() > CONTEXT_SNIPPET_CHARS ==> cut == content.subrange(0, 500)
                    + "..."@)
            },
{
    let context = context_of(hits);
    let prompt = prompt_of(context, query);
    let tail = "\n\nUser question: "@ + query + "\nHelpful answer:"@;
    assert(prompt =~= PROMPT_PREAMBLE@ + context + tail);
    lemma_contains_middle(PROMPT_PREAMBLE@, context, tail);
    reveal_strlit("...");
    assert forall|i: int| #![trigger hits[i]] 0 <= i < hits.len() implies {
        let content = hits[i].field_text("content"@, "No content"@);
        let cut = snippet(content, CONTEXT_SNIPPET_CHARS as nat);
        &&& contains_text(prompt, hits[i].field_text("title"@, "Untitled"@))
        &&& contains_text(prompt, cut)
        &&& cut.len() <= CONTEXT_SNIPPET_CHARS + 3
        &&& (content.len() > CONTEXT_SNIPPET_CHARS ==> cut == content.subrange(0, 500) + "..."@)
    } by {
        let hit = hits[i];
        let title = hit.field_text("title"@, "Untitled"@);
        let content = hit.field_text("content"@, "No content"@);
        let cut = snippet(content, CONTEXT_SNIPPET_CHARS as nat);
        let entry = note_entry(i as nat, hit);
        let head = "Note "@ + decimal_text(i as nat + 1) + ": "@;
        let after_title = " (relevance: "@ + hit.score@ + ")\n"@ + cut + "\n\n"@;
        assert(entry =~= head + title + after_title);
        lemma_contains_middle(head, title, after_title);
        let before_cut = head + title + " (relevance: "@ + hit.score@ + ")\n"@;
        assert(entry =~= before_cut + cut + "\n\n"@);
        lemma_contains_middle(before_cut, cut, "\n\n"@);
        lemma_entries_contain(hits, i);
        lemma_contains_middle(CONTEXT_INTRO@, entries_text(hits), seq![]);
        assert(CONTEXT_INTRO@ + entries_text(hits) + seq![] =~= context);
        lemma_contains_trans(context, entries_text(hits), entry);
        lemma_contains_trans(prompt, context, entry);
        lemma_contains_trans(prompt, entry, title);
        lemma_contains_trans(prompt, entry, cut);
    }
}

/// Where a question stands on its way to an answer.
#[derive(Debug, PartialEq, Eq)]
pub enum RagStage {
    Embedding,
    Searching,
    Completing,
    Done,
}

/// What the engine asks the outside world for next, or its final answer.
#[derive(Debug)]
pub enum RagRequest {
    Embed(String),
    Search(SearchRequest),
    Complete(String),
    Finished(Result<String, AppError>),
}

/// What the outside world answered.
#[derive(Debug)]
pub enum RagResponse {
    Embedded(Result<Embedding, AppError>),
    Searched(Result<Vec<StoreHit>, AppError>),
    Completed(Result<String, AppError>),
}

/// One step of answering a question, from the stage and the answer to the
/// pending request, to the next stage and what is asked for next.
pub open spec fn rag_step(
    stage: RagStage,
    query: Seq<char>,
    response: RagResponse,
    next: RagStage,
    r: RagRequest,
) -> bool {
    match (stage, response) {
        (RagStage::Embedding, RagResponse::Embedded(Ok(e))) => if query_usable(e@) {
            &&& next == RagStage::Searching
            &&& match r {
                RagRequest::Search(q) => {
                    &&& q.vector@ == e@[0]@
                    &&& q.limit == RAG_RESULT_LIMIT
                    &&& q.with_payload
                    &&& q.with_vectors
                    &&& q.collection_name@ == crate::vectors::NOTES_QDRANT_COLLECTION_NAME@
                },
                _ => false,
            }
        } else {
            &&& next == RagStage::Done
            &&& match r {
                RagRequest::Finished(Err(AppError::VectorDBError(m))) => m@
                    == "Empty query embedding provided"@,
                _ => false,
            }
        },
        (RagStage::Embedding, RagResponse::Embedded(Err(err))) => next == RagStage::Done && r
            == RagRequest::Finished(Err(err)),
        (RagStage::Searching, RagResponse::Searched(Ok(hits))) => {
            &&& next == RagStage::Completing
            &&& match r {
                RagRequest::Complete(p) => p@ == prompt_of(context_of(hits@), query),
                _ => false,
            }
        },
        (RagStage::Searching, RagResponse::Searched(Err(err))) => next == RagStage::Done && r
            == RagRequest::Finished(Err(err)),
        (RagStage::Completing, RagResponse::Completed(a)) => next == RagStage::Done && r
            == RagRequest::Finished(a),
        _ => {
            &&& next == RagStage::Done
            &&& match r {
                RagRequest::Finished(Err(AppError::UnexpectedError(m))) => m@
                    == "the answer does not match the pending request"@,
                _ => false,
            }
        },
    }
}

/// One question being answered from the notes: embed it, search with its
/// first vector, build the prompt from what was found, and ask for the
/// completion. No step is retried; the first failure is the answer.
#[derive(Debug)]
pub struct RagCompletion {
    pub query: String,
    pub stage: RagStage,
}

impl RagCompletion {
    /// Starts on a question by asking for its embedding.
    pub fn start(user_query: &str) -> (r: (Self, RagRequest))
        ensures
            r.0.query@ == user_query@,
            r.0.stage == RagStage::Embedding,
            r.1 matches RagRequest::Embed(t) && t@ == user_query@,
    {
        (
            RagCompletion { query: user_query.to_owned(), stage: RagStage::Embedding },
            RagRequest::Embed(user_query.to_owned()),
        )
    }

    /// Takes the answer to the pending request and says what comes next.
    /// An answer to some other request ends the question with an error.
    pub fn resume(&mut self, response: RagResponse) -> (r: RagRequest)
        ensures
            final(self).query == old(self).query,
            rag_step(old(self).stage, old(self).query@, response, final(self).stage, r),
    {
        match (&self.stage, response) {
            (RagStage::Embedding, RagResponse::Embedded(Ok(e))) => {
                match search_request(&e, RAG_RESULT_LIMIT) {
                    Ok(q) => {
                        self.stage = RagStage::Searching;
                        RagRequest::Search(q)
                    },
                    Err(err) => {
                        self.stage = RagStage::Done;
                        RagRequest::Finished(Err(err))
                    },
                }
            },
            (RagStage::Embedding, RagResponse::Embedded(Err(err))) => {
                self.stage = RagStage::Done;
                RagRequest::Finished(Err(err))
            },
            (RagStage::Searching, RagResponse::Searched(Ok(hits))) => {
                let context = build_context(&hits);
                let prompt = build_prompt(context.as_str(), self.query.as_str());
                self.stage = RagStage::Completing;
                RagRequest::Complete(prompt)
            },
            (RagStage::Searching, RagResponse::Searched(Err(err))) => {
                self.stage = RagStage::Done;
                RagRequest::Finished(Err(err))
            },
            (RagStage::Completing, RagResponse::Completed(a)) => {
                self.stage = RagStage::Done;
                RagRequest::Finished(a)
            },
            _ => {
                self.stage = RagStage::Done;
                RagRequest::Finished(
                    Err(
                        AppError::UnexpectedError(
                            "the answer does not match the pending request".to_owned(),
                        ),
                    ),
                )
            },
        }
    }
}

} // verus!
