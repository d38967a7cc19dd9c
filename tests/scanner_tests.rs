use raggy_notes::scanner::{extract_markdown_files, get_markdown_files, has_note_extension, DirNode};

fn file(path: &str) -> DirNode {
    let name = path.rsplit('/').next().unwrap().to_string();
    DirNode::File { name, path: path.to_string() }
}

fn dir(path: &str, entries: Vec<DirNode>) -> DirNode {
    DirNode::Directory { path: path.to_string(), entries }
}

#[test]
fn scan_returns_only_the_markdown_file() {
    let root = vec![dir("a", vec![file("a/b.md"), file("a/note.txt")])];
    assert_eq!(get_markdown_files(&root), vec!["a/b.md".to_string()]);
}

#[test]
fn scan_descends_into_nested_directories() {
    let root = vec![
        file("top.md"),
        dir(
            "x",
            vec![dir("x/y", vec![dir("x/y/z", vec![file("x/y/z/deep.md"), file("x/y/z/deep.rs")])]), file("x/mid.md")],
        ),
        file("readme.txt"),
    ];
    assert_eq!(
        get_markdown_files(&root),
        vec!["top.md".to_string(), "x/y/z/deep.md".to_string(), "x/mid.md".to_string()]
    );
}

#[test]
fn scan_of_empty_tree_is_empty() {
    assert!(get_markdown_files(&Vec::new()).is_empty());
    assert!(extract_markdown_files(&dir("empty", Vec::new())).is_empty());
}

#[test]
fn extension_rule() {
    assert!(has_note_extension("a.md"));
    assert!(has_note_extension("notes.v2.md"));
    assert!(!has_note_extension(".md"));
    assert!(!has_note_extension("md"));
    assert!(!has_note_extension("a.md.txt"));
    assert!(!has_note_extension("a.MD"));
    assert!(!has_note_extension("a.markdown"));
    assert!(has_note_extension("é.md"));
}

#[test]
fn single_file_entry() {
    assert_eq!(extract_markdown_files(&file("n.md")), vec!["n.md".to_string()]);
    assert!(extract_markdown_files(&file("n.txt")).is_empty());
}
