use vstd::prelude::*;
use vstd::string::*;

verus! {

broadcast use {vstd::std_specs::vec::group_vec_axioms, vstd::seq::group_seq_axioms};

/// One entry of a notes tree, as read from disk: a file with its name and
/// full path, or a directory with its path and its own entries.
#[derive(Debug)]
pub enum DirNode {
    File { name: String, path: String },
    Directory { path: String, entries: Vec<DirNode> },
}

/// A file name marks a note when its extension (what follows the last dot,
/// where that dot is not the first character) is `md`.
pub open spec fn is_note_name(name: Seq<char>) -> bool {
    &&& name.len() >= 4
    &&& name[name.len() - 3] == '.'
    &&& name[name.len() - 2] == 'm'
    &&& name[name.len() - 1] == 'd'
}

/// Paths of the notes in one entry, in the order of the walk.
pub open spec fn notes_in(node: DirNode) -> Seq<Seq<char>>
    decreases node,
{
    match node {
        DirNode::File { name, path } => if is_note_name(name@) {
            seq![path@]
        } else {
            seq![]
        },
        DirNode::Directory { path, entries } => notes_in_entries(entries@),
    }
}

/// Paths of the notes in a list of entries, in the order of the walk.
pub open spec fn notes_in_entries(entries: Seq<DirNode>) -> Seq<Seq<char>>
    decreases entries,
{
    if entries.len() == 0 {
        seq![]
    } else {
        notes_in_entries(entries.drop_last()) + notes_in(entries.last())
    }
}

/// Every file in one entry, as (path, name), at any depth.
pub open spec fn files_in(node: DirNode) -> Seq<(Seq<char>, Seq<char>)>
    decreases node,
{
    match node {
        DirNode::File { name, path } => seq![(path@, name@)],
        DirNode::Directory { path, entries } => files_in_entries(entries@),
    }
}

/// Every file in a list of entries, as (path, name), at any depth.
pub open spec fn files_in_entries(entries: Seq<DirNode>) -> Seq<(Seq<char>, Seq<char>)>
    decreases entries,
{
    if entries.len() == 0 {
        seq![]
    } else {
        files_in_entries(entries.drop_last()) + files_in(entries.last())
    }
}

/// The paths of the note files among a list of (path, name) files.
pub open spec fn note_paths(files: Seq<(Seq<char>, Seq<char>)>) -> Seq<Seq<char>> {
    files.filter(|f: (Seq<char>, Seq<char>)| is_note_name(f.1)).map_values(
        |f: (Seq<char>, Seq<char>)| f.0,
    )
}

proof fn lemma_note_paths_add(a: Seq<(Seq<char>, Seq<char>)>, b: Seq<(Seq<char>, Seq<char>)>)
    ensures
        note_paths(a + b) == note_paths(a) + note_paths(b),
{
    let pred = |f: (Seq<char>, Seq<char>)| is_note_name(f.1);
    Seq::filter_distributes_over_add(a, b, pred);
    assert(note_paths(a + b) =~= note_paths(a) + note_paths(b));
}

proof fn lemma_notes_of_node(node: DirNode)
    ensures
        notes_in(node) == note_paths(files_in(node)),
    decreases node,
{
    match node {
        DirNode::File { name, path } => {
            let pred = |f: (Seq<char>, Seq<char>)| is_note_name(f.1);
            let e = Seq::<(Seq<char>, Seq<char>)>::empty();
            reveal(Seq::filter);
            assert(e.filter(pred) =~= e);
            e.lemma_filter_push((path@, name@), pred);
            assert(e.push((path@, name@)) =~= files_in(node));
            assert(notes_in(node) =~= note_paths(files_in(node)));
        },
        DirNode::Directory { path, entries } => {
            assert(decreases_to!(node => entries));
            lemma_notes_of_entries(entries@);
        },
    }
}

proof fn lemma_notes_of_entries(entries: Seq<DirNode>)
    ensures
        notes_in_entries(entries) == note_paths(files_in_entries(entries)),
    decreases entries,
{
    if entries.len() == 0 {
        reveal(Seq::filter);
        assert(note_paths(files_in_entries(entries)) =~= seq![]);
    } else {
        lemma_notes_of_entries(entries.drop_last());
        lemma_notes_of_node(entries.last());
        lemma_note_paths_add(files_in_entries(entries.drop_last()), files_in(entries.last()));
    }
}

/// A scan reports exactly the note files under the entries, at any depth:
/// its result is the list of all files, kept in walk order, narrowed to those
/// whose extension is `md`; so a path is reported if and only if some file
/// with that path and a note name lies somewhere under the entries.
pub proof fn lemma_scan_finds_exactly_notes(entries: Seq<DirNode>, p: Seq<char>)
    ensures
        notes_in_entries(entries) == note_paths(files_in_entries(entries)),
        notes_in_entries(entries).contains(p) <==> exists|f: (Seq<char>, Seq<char>)|
            #![trigger files_in_entries(entries).contains(f)]
            files_in_entries(entries).contains(f) && f.0 == p && is_note_name(f.1),
{
    lemma_notes_of_entries(entries);
    let files = files_in_entries(entries);
    let pred = |f: (Seq<char>, Seq<char>)| is_note_name(f.1);
    let kept = files.filter(pred);
    if notes_in_entries(entries).contains(p) {
        let paths = kept.map_values(|f: (Seq<char>, Seq<char>)| f.0);
        let k = choose|k: int| 0 <= k < paths.len() && #[trigger] paths[k] == p;
        files.lemma_filter_contains_rev(pred, kept[k]);
        files.lemma_filter_pred(pred, k);
        assert(files.contains(kept[k]));
    }
    if exists|f: (Seq<char>, Seq<char>)| files.contains(f) && f.0 == p && is_note_name(f.1) {
        let f = choose|f: (Seq<char>, Seq<char>)| files.contains(f) && f.0 == p && is_note_name(f.1);
        let i = choose|i: int| 0 <= i < files.len() && files[i] == f;
        files.lemma_filter_contains(pred, i);
        let k = choose|k: int| 0 <= k < kept.len() && kept[k] == f;
        assert(kept.map_values(|f: (Seq<char>, Seq<char>)| f.0)[k] == p);
    }
}

pub open spec fn paths_view(v: Seq<String>) -> Seq<Seq<char>> {
    v.map_values(|s: String| s@)
}

/// Whether a file name marks a note.
pub fn has_note_extension(name: &str) -> (r: bool)
    ensures
        r == is_note_name(name@),
{
    let n = name.unicode_len();
    if n < 4 {
        return false;
    }
    name.get_char(n - 3) == '.' && name.get_char(n - 2) == 'm' && name.get_char(n - 1) == 'd'
}

/// The notes found in one entry, descending into directories to any depth.
pub fn extract_markdown_files(entry: &DirNode) -> (r: Vec<String>)
    ensures
        paths_view(r@) == notes_in(*entry),
    decreases entry,
{
    match entry {
        DirNode::File { name, path } => {
            let mut r: Vec<String> = Vec::new();
            if has_note_extension(name.as_str()) {
                r.push(path.clone());
            }
            proof {
                assert(paths_view(r@) =~= notes_in(*entry));
            }
            r
        },
        DirNode::Directory { path, entries } => {
            assert(decreases_to!(entry => entries));
            get_markdown_files(entries)
        },
    }
}

/// The notes found under a directory, given its entries: every file whose
/// extension is `md`, at any depth, in the order of the walk.
pub fn get_markdown_files(entries: &Vec<DirNode>) -> (r: Vec<String>)
    ensures
        paths_view(r@) == notes_in_entries(entries@),
    decreases entries,
{
    let mut r: Vec<String> = Vec::new();
    let mut i: usize = 0;
    while i < entries.len()
        invariant
            i <= entries.len(),
            paths_view(r@) == notes_in_entries(entries@.subrange(0, i as int)),
        decreases entries.len() - i,
    {
        assert(decreases_to!(entries => entries[i as int]));
        let found = extract_markdown_files(&entries[i]);
        let ghost before = r@;
        let mut j: usize = 0;
        while j < found.len()
            invariant
                j <= found.len(),
                paths_view(r@) == paths_view(before) + paths_view(found@.subrange(0, j as int)),
            decreases found.len() - j,
        {
            let ghost prev = r@;
            r.push(found[j].clone());
            proof {
                assert(paths_view(r@) =~= paths_view(prev).push(found@[j as int]@));
                assert(paths_view(found@.subrange(0, j + 1)) =~= paths_view(
                    found@.subrange(0, j as int),
                ).push(found@[j as int]@));
                assert(paths_view(r@) =~= paths_view(before) + paths_view(
                    found@.subrange(0, j + 1),
                ));
            }
            j = j + 1;
        }
        proof {
            assert(found@.subrange(0, j as int) =~= found@);
            assert(entries@.subrange(0, i + 1).drop_last() =~= entries@.subrange(0, i as int));
        }
        i = i + 1;
    }
    proof {
        assert(entries@.subrange(0, i as int) =~= entries@);
    }
    r
}

} // verus!
