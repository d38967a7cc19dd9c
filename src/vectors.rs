use vstd::prelude::*;

use crate::error::AppError;
use crate::text::decimal;

verus! {

broadcast use {vstd::std_specs::vec::group_vec_axioms, vstd::seq::group_seq_axioms};

/// The model that answers questions.
pub const AI_MODEL: &'static str = "deepseek-r1:7b";

/// The model that turns text into embedding vectors.
pub const EMBEDDING_MODEL: &'static str = "nomic-embed-text";

/// How many components every embedding vector has.
pub const EMBEDDING_SIZE: usize = 768;

/// The store collection that holds the notes.
pub const NOTES_QDRANT_COLLECTION_NAME: &'static str = "private_notes";

/// An embedding: one or more vectors, each component held as the bit pattern
/// of an IEEE 754 single-precision number.
pub type Embedding = Vec<Vec<u32>>;

/// What is stored beside a note's vectors. The two instants are RFC 3339 text.
#[derive(Debug)]
pub struct NotePayload {
    pub title: String,
    pub content: String,
    pub file_path: String,
    pub created_at: String,
    pub updated_at: String,
}

/// A note ready for the store: its identity, its vectors and its payload.
#[derive(Debug)]
pub struct NoteVector {
    pub id: String,
    pub embedding: Embedding,
    pub payload: NotePayload,
}

/// One record as written to the store: an id, one vector, and the payload
/// as (key, text) pairs.
#[derive(Debug)]
pub struct PointRecord {
    pub id: String,
    pub vector: Vec<u32>,
    pub payload: Vec<(String, String)>,
}

/// The similarity measure of a collection.
#[derive(Debug, PartialEq, Eq)]
pub enum Distance {
    Cosine,
    Euclid,
    Dot,
    Manhattan,
}

/// A collection to be created: its name, the size of its vectors, and how
/// they are compared. Vectors are kept in memory, not on disk.
#[derive(Debug)]
pub struct CollectionSpec {
    pub name: String,
    pub size: u64,
    pub distance: Distance,
    pub on_disk: bool,
}

/// A similarity search to run on the store.
#[derive(Debug)]
pub struct SearchRequest {
    pub collection_name: String,
    pub vector: Vec<u32>,
    pub limit: u64,
    pub with_payload: bool,
    pub with_vectors: bool,
}

/// The identity of a stored record, as the store reports it.
#[derive(Debug, PartialEq, Eq)]
pub enum PointKey {
    Num(u64),
    Uuid(String),
}

/// One record that a search returned: its identity if reported, its score
/// written with two decimals, and its payload, where each value is its text
/// or `None` when the value is not text.
#[derive(Debug)]
pub struct StoreHit {
    pub id: Option<PointKey>,
    pub score: String,
    pub payload: Vec<(String, Option<String>)>,
}

pub open spec fn pairs_view(v: Seq<(String, String)>) -> Seq<(Seq<char>, Seq<char>)> {
    v.map_values(|p: (String, String)| (p.0@, p.1@))
}

pub open spec fn hit_payload_view(v: Seq<(String, Option<String>)>) -> Seq<
    (Seq<char>, Option<Seq<char>>),
> {
    v.map_values(
        |p: (String, Option<String>)|
            (
                p.0@,
                match p.1 {
                    Some(t) => Some(t@),
                    None => None,
                },
            ),
    )
}

/// The payload of a note as the store keeps it, key by key.
pub open spec fn payload_view(p: NotePayload) -> Seq<(Seq<char>, Seq<char>)> {
    seq![
        ("title"@, p.title@),
        ("content"@, p.content@),
        ("file_path"@, p.file_path@),
        ("created_at"@, p.created_at@),
        ("updated_at"@, p.updated_at@),
    ]
}

/// Every vector of an embedding has `EMBEDDING_SIZE` components.
pub open spec fn vectors_fit(e: Seq<Vec<u32>>) -> bool {
    forall|i: int| 0 <= i < e.len() ==> (#[trigger] e[i])@.len() == EMBEDDING_SIZE
}

/// Relies on uuid::Uuid::new_v4, written in its hyphenated form: a random
/// identity of 36 characters.
#[verifier::external_body]
fn new_note_id() -> (r: String)
    ensures
        r@.len() == 36,
{
    uuid::Uuid::new_v4().to_string()
}

/// Relies on chrono::Utc::now, written as RFC 3339 text: the current instant.
#[verifier::external_body]
fn utc_now_rfc3339() -> (r: String) {
    chrono::Utc::now().to_rfc3339()
}

impl NoteVector {
    /// A new note with a fresh identity, created and updated now.
    pub fn new(title: String, content: String, file_path: String, embedding: Embedding) -> (r:
        Self)
        ensures
            r.id@.len() == 36,
            r.embedding == embedding,
            r.payload.title == title,
            r.payload.content == content,
            r.payload.file_path == file_path,
            r.payload.created_at == r.payload.updated_at,
    {
        let now = utc_now_rfc3339();
        NoteVector {
            id: new_note_id(),
            embedding,
            payload: NotePayload {
                title,
                content,
                file_path,
                created_at: now.clone(),
                updated_at: now,
            },
        }
    }

    /// The records to write for this note: one per vector, each under the
    /// note's id with the whole payload. A vector of the wrong size is
    /// refused before anything is written.
    pub fn to_point_structs(&self) -> (r: Result<Vec<PointRecord>, AppError>)
        ensures
            r is Ok <==> vectors_fit(self.embedding@),
            r matches Ok(points) ==> {
                &&& points@.len() == self.embedding@.len()
                &&& forall|i: int|
                    0 <= i < points@.len() ==> {
                        &&& (#[trigger] points@[i]).id@ == self.id@
                        &&& points@[i].vector@ == self.embedding@[i]@
                        &&& pairs_view(points@[i].payload@) == payload_view(self.payload)
                    }
            },
            r matches Err(e) ==> e matches AppError::VectorDBError(m) && m@
                == "embedding vector does not have the collection's size"@,
    {
        let mut points: Vec<PointRecord> = Vec::new();
        let mut i: usize = 0;
        while i < self.embedding.len()
            invariant
                i <= self.embedding@.len(),
                vectors_fit(self.embedding@.subrange(0, i as int)),
                points@.len() == i,
                forall|k: int|
                    0 <= k < i ==> {
                        &&& (#[trigger] points@[k]).id@ == self.id@
                        &&& points@[k].vector@ == self.embedding@[k]@
                        &&& pairs_view(points@[k].payload@) == payload_view(self.payload)
                    },
            decreases self.embedding.len() - i,
        {
            if self.embedding[i].len() != EMBEDDING_SIZE {
                proof {
                    assert(!vectors_fit(self.embedding@));
                }
                return Err(
                    AppError::VectorDBError(
                        "embedding vector does not have the collection's size".to_owned(),
                    ),
                );
            }
            let vector = self.embedding[i].clone();
            proof {
                assert(vector@ =~= self.embedding@[i as int]@);
            }
            points.push(
                PointRecord {
                    id: self.id.clone(),
                    vector,
                    payload: payload_entries(&self.payload),
                },
            );
            proof {
                assert(self.embedding@.subrange(0, i + 1) =~= self.embedding@.subrange(
                    0,
                    i as int,
                ).push(self.embedding@[i as int]));
            }
            i = i + 1;
        }
        proof {
            assert(self.embedding@.subrange(0, i as int) =~= self.embedding@);
        }
        Ok(points)
    }
}

/// Whether a name is among the given collection names.
pub open spec fn names_contain(names: Seq<String>, name: Seq<char>) -> bool {
    exists|i: int| 0 <= i < names.len() && (#[trigger] names[i])@ == name
}

/// The collection to create, given the names of those that exist: none when
/// the notes' collection is already there (it is left as it is), otherwise
/// the notes' collection with vectors of `EMBEDDING_SIZE` compared by cosine.
pub fn collection_to_create(existing: &Vec<String>) -> (r: Option<CollectionSpec>)
    ensures
        r is None <==> names_contain(existing@, NOTES_QDRANT_COLLECTION_NAME@),
        r matches Some(c) ==> {
            &&& c.name@ == NOTES_QDRANT_COLLECTION_NAME@
            &&& c.size == EMBEDDING_SIZE
            &&& c.distance == Distance::Cosine
            &&& !c.on_disk
        },
{
    let wanted = NOTES_QDRANT_COLLECTION_NAME.to_owned();
    let mut i: usize = 0;
    while i < existing.len()
        invariant
            i <= existing@.len(),
            wanted@ == NOTES_QDRANT_COLLECTION_NAME@,
            forall|k: int| 0 <= k < i ==> (#[trigger] existing@[k])@ != wanted@,
        decreases existing.len() - i,
    {
        if existing[i] == wanted {
            return None;
        }
        i = i + 1;
    }
    Some(
        CollectionSpec {
            name: wanted,
            size: EMBEDDING_SIZE as u64,
            distance: Distance::Cosine,
            on_disk: false,
        },
    )
}

/// An embedding can be searched with when its first vector exists and is not
/// empty.
pub open spec fn query_usable(e: Seq<Vec<u32>>) -> bool {
    e.len() > 0 && e[0]@.len() > 0
}

/// The similarity search for a query embedding: the first vector of the
/// embedding, up to `limit` records, with payloads and vectors. An empty
/// embedding is refused, and then there is nothing to send.
pub fn search_request(query_embedding: &Embedding, limit: u64) -> (r: Result<
    SearchRequest,
    AppError,
>)
    ensures
        r is Ok <==> query_usable(query_embedding@),
        r matches Ok(q) ==> {
            &&& q.collection_name@ == NOTES_QDRANT_COLLECTION_NAME@
            &&& q.vector@ == query_embedding@[0]@
            &&& q.limit == limit
            &&& q.with_payload
            &&& q.with_vectors
        },
        r matches Err(e) ==> e matches AppError::VectorDBError(m) && m@
            == "Empty query embedding provided"@,
{
    if query_embedding.len() == 0 || query_embedding[0].len() == 0 {
        return Err(AppError::VectorDBError("Empty query embedding provided".to_owned()));
    }
    let vector = query_embedding[0].clone();
    proof {
        assert(vector@ =~= query_embedding@[0]@);
    }
    Ok(
        SearchRequest {
            collection_name: NOTES_QDRANT_COLLECTION_NAME.to_owned(),
            vector,
            limit,
            with_payload: true,
            with_vectors: true,
        },
    )
}

/// The text under a key of a returned payload: that of the first entry with
/// the key, when it is text.
pub open spec fn payload_lookup(p: Seq<(Seq<char>, Option<Seq<char>>)>, key: Seq<char>) -> Option<
    Seq<char>,
>
    decreases p.len(),
{
    if p.len() == 0 {
        None
    } else if p[0].0 == key {
        p[0].1
    } else {
        payload_lookup(p.drop_first(), key)
    }
}

pub open spec fn text_or(v: Option<Seq<char>>, default: Seq<char>) -> Seq<char> {
    match v {
        Some(t) => t,
        None => default,
    }
}

/// How a record's identity is written: its number in decimal, its UUID as it
/// is, or `Unknown ID` when the store gave none.
pub open spec fn id_text_of(id: Option<PointKey>) -> Seq<char> {
    match id {
        None => "Unknown ID"@,
        Some(PointKey::Num(n)) => crate::text::decimal_text(n as nat),
        Some(PointKey::Uuid(u)) => u@,
    }
}

impl StoreHit {
    /// A payload field read as text, with a default when absent or not text.
    pub open spec fn field_text(self, key: Seq<char>, default: Seq<char>) -> Seq<char> {
        text_or(payload_lookup(hit_payload_view(self.payload@), key), default)
    }

    /// The note's title, or `Untitled`.
    pub fn title(&self) -> (r: String)
        ensures
            r@ == self.field_text("title"@, "Untitled"@),
    {
        payload_text(&self.payload, "title", "Untitled")
    }

    /// The note's content, or `No content`.
    pub fn content(&self) -> (r: String)
        ensures
            r@ == self.field_text("content"@, "No content"@),
    {
        payload_text(&self.payload, "content", "No content")
    }

    /// The note's file path, or `Unknown path`.
    pub fn file_path(&self) -> (r: String)
        ensures
            r@ == self.field_text("file_path"@, "Unknown path"@),
    {
        payload_text(&self.payload, "file_path", "Unknown path")
    }

    /// The record's identity as text.
    pub fn id_text(&self) -> (r: String)
        ensures
            r@ == id_text_of(self.id),
    {
        match &self.id {
            None => "Unknown ID".to_owned(),
            Some(PointKey::Num(n)) => decimal(*n),
            Some(PointKey::Uuid(u)) => u.clone(),
        }
    }
}

fn payload_text(payload: &Vec<(String, Option<String>)>, key: &str, default: &str) -> (r: String)
    ensures
        r@ == text_or(payload_lookup(hit_payload_view(payload@), key@), default@),
{
    let wanted = key.to_owned();
    let ghost whole = hit_payload_view(payload@);
    let mut i: usize = 0;
    proof {
        assert(whole.subrange(0, whole.len() as int) =~= whole);
    }
    while i < payload.len()
        invariant
            i <= payload@.len(),
            wanted@ == key@,
            whole == hit_payload_view(payload@),
            payload_lookup(whole, key@) == payload_lookup(whole.subrange(i as int, whole.len() as int), key@),
        decreases payload.len() - i,
    {
        proof {
            assert(whole.subrange(i as int, whole.len() as int).drop_first() =~= whole.subrange(i + 1, whole.len() as int));
        }
        if payload[i].0 == wanted {
            return match &payload[i].1 {
                Some(t) => t.clone(),
                None => default.to_owned(),
            };
        }
        i = i + 1;
    }
    default.to_owned()
}

/// What the store keeps of a written payload: every value as text.
pub open spec fn stored_payload(p: Seq<(Seq<char>, Seq<char>)>) -> Seq<(Seq<char>, Option<Seq<char>>)> {
    p.map_values(|e: (Seq<char>, Seq<char>)| (e.0, Some(e.1)))
}

/// A returned hit is a written record as the store keeps it.
pub open spec fn hit_of_record(hit: StoreHit, rec: PointRecord) -> bool {
    &&& hit.id matches Some(PointKey::Uuid(u)) && u@ == rec.id@
    &&& hit_payload_view(hit.payload@) == stored_payload(pairs_view(rec.payload@))
}

/// A note written to the store comes back whole from a search with its own
/// embedding: the search asks for exactly the vector of the note's first
/// record, so a store that answers by exact nearest neighbour finds that
/// record at the top, and that record, returned as written, reads back with
/// the note's identity, title, content and path.
pub proof fn lemma_note_round_trip(
    note: NoteVector,
    points: Seq<PointRecord>,
    request: SearchRequest,
    hit: StoreHit,
)
    requires
        query_usable(note.embedding@),
        points.len() == note.embedding@.len(),
        forall|i: int|
            0 <= i < points.len() ==> {
                &&& (#[trigger] points[i]).id@ == note.id@
                &&& points[i].vector@ == note.embedding@[i]@
                &&& pairs_view(points[i].payload@) == payload_view(note.payload)
            },
        request.vector@ == note.embedding@[0]@,
        hit_of_record(hit, points[0]),
    ensures
        request.vector@ == points[0].vector@,
        id_text_of(hit.id) == note.id@,
        hit.field_text("title"@, "Untitled"@) == note.payload.title@,
        hit.field_text("content"@, "No content"@) == note.payload.content@,
        hit.field_text("file_path"@, "Unknown path"@) == note.payload.file_path@,
{
    let p = stored_payload(payload_view(note.payload));
    assert(points[0].id@ == note.id@);
    reveal_strlit("title");
    reveal_strlit("content");
    reveal_strlit("file_path");
    assert(p[0] == ("title"@, Some(note.payload.title@)));
    assert(payload_lookup(p, "title"@) == Some(note.payload.title@));
    assert(p.drop_first()[0] == ("content"@, Some(note.payload.content@)));
    assert("title"@ != "content"@) by {
        assert("title"@[0] != "content"@[0]);
    }
    assert(payload_lookup(p.drop_first(), "content"@) == Some(note.payload.content@));
    assert(payload_lookup(p, "content"@) == Some(note.payload.content@));
    assert(p.drop_first().drop_first()[0] == ("file_path"@, Some(note.payload.file_path@)));
    assert("title"@ != "file_path"@) by {
        assert("title"@.len() != "file_path"@.len());
    }
    assert("content"@ != "file_path"@) by {
        assert("content"@.len() != "file_path"@.len());
    }
    assert(payload_lookup(p.drop_first().drop_first(), "file_path"@) == Some(
        note.payload.file_path@,
    ));
    assert(payload_lookup(p.drop_first(), "file_path"@) == Some(note.payload.file_path@));
    assert(payload_lookup(p, "file_path"@) == Some(note.payload.file_path@));
}

fn payload_entries(p: &NotePayload) -> (r: Vec<(String, String)>)
    ensures
        pairs_view(r@) == payload_view(*p),
{
    let r = vec![
        ("title".to_owned(), p.title.clone()),
        ("content".to_owned(), p.content.clone()),
        ("file_path".to_owned(), p.file_path.clone()),
        ("created_at".to_owned(), p.created_at.clone()),
        ("updated_at".to_owned(), p.updated_at.clone()),
    ];
    proof {
        assert(pairs_view(r@) =~= payload_view(*p));
    }
    r
}

} // verus!
