use lgpl_docs::engine::{
    file_ignored, record_lookup, rewrite_tree, strip_tree, Decl, DocRecord, FileTree, SourceFile,
};

fn decl(symbol: &str, code: &str, doc: Option<&str>) -> Decl {
    Decl { symbol: symbol.to_string(), code: code.to_string(), doc: doc.map(|s| s.to_string()) }
}

fn record(symbol: &str, text: &str) -> DocRecord {
    DocRecord { symbol: symbol.to_string(), text: text.to_string() }
}

fn two_file_tree() -> FileTree {
    FileTree {
        files: vec![
            SourceFile {
                path: "a.src".to_string(),
                decls: vec![decl("foo", "fn foo() {}", Some("stale foo docs"))],
            },
            SourceFile {
                path: "b.src".to_string(),
                decls: vec![decl("bar", "fn bar() {}", None)],
            },
        ],
    }
}

fn two_records() -> Vec<DocRecord> {
    vec![record("foo", "Fresh docs for foo."), record("bar", "Fresh docs for bar.")]
}

#[test]
fn rewrite_updates_and_inserts_comments() {
    let tree = two_file_tree();
    let out = rewrite_tree(&tree, &two_records(), &vec![]);
    assert_eq!(out.files[0].decls[0].doc, Some("Fresh docs for foo.".to_string()));
    assert_eq!(out.files[1].decls[0].doc, Some("Fresh docs for bar.".to_string()));
    // Non-comment code is byte-identical.
    assert_eq!(out.files[0].decls[0].code, "fn foo() {}");
    assert_eq!(out.files[1].decls[0].code, "fn bar() {}");
}

#[test]
fn rewrite_skips_ignored_file_and_still_updates_the_rest() {
    let tree = two_file_tree();
    let out = rewrite_tree(&tree, &two_records(), &vec!["a.src".to_string()]);
    // The ignored file keeps its stale comment, untouched.
    assert_eq!(out.files[0], tree.files[0]);
    // The other file is still updated.
    assert_eq!(out.files[1].decls[0].doc, Some("Fresh docs for bar.".to_string()));
}

#[test]
fn rewrite_preserves_comments_of_unknown_symbols() {
    let tree = two_file_tree();
    let out = rewrite_tree(&tree, &vec![record("baz", "Docs for baz.")], &vec![]);
    assert_eq!(out.files[0].decls[0].doc, Some("stale foo docs".to_string()));
    assert_eq!(out.files[1].decls[0].doc, None);
}

#[test]
fn rewrite_twice_changes_nothing_further() {
    let tree = two_file_tree();
    let records = two_records();
    let ignores = vec!["a.src".to_string()];
    let once = rewrite_tree(&tree, &records, &ignores);
    let twice = rewrite_tree(&once, &records, &ignores);
    assert_eq!(twice, once);
}

#[test]
fn both_passes_twice_change_nothing_further() {
    let tree = FileTree {
        files: vec![SourceFile {
            path: "c.src".to_string(),
            decls: vec![
                decl("foo", "fn foo() {}", None),
                decl("shared", "fn shared() {}", Some("stale shared docs")),
                decl("bar", "fn bar() {}", None),
            ],
        }],
    };
    let primary = vec![record("foo", "Primary foo."), record("shared", "Primary shared.")];
    let vendor = vec![record("shared", "Vendor shared."), record("bar", "Vendor bar.")];
    let ignores: Vec<String> = vec![];
    let once = rewrite_tree(&rewrite_tree(&tree, &primary, &ignores), &vendor, &ignores);
    // The vendor pass overrides what the primary pass established.
    assert_eq!(once.files[0].decls[0].doc, Some("Primary foo.".to_string()));
    assert_eq!(once.files[0].decls[1].doc, Some("Vendor shared.".to_string()));
    assert_eq!(once.files[0].decls[2].doc, Some("Vendor bar.".to_string()));
    let twice = rewrite_tree(&rewrite_tree(&once, &primary, &ignores), &vendor, &ignores);
    assert_eq!(twice, once);
}

#[test]
fn strip_twice_changes_nothing_further() {
    let tree = two_file_tree();
    let once = strip_tree(&tree, &vec![]);
    let twice = strip_tree(&once, &vec![]);
    assert_eq!(twice, once);
    assert_eq!(once.files[0].decls[0].doc, None);
    assert_eq!(once.files[1].decls[0].doc, None);
}

#[test]
fn strip_removes_exactly_what_rewrite_added() {
    let tree = two_file_tree();
    let ignores = vec!["a.src".to_string()];
    let embedded = rewrite_tree(&tree, &two_records(), &ignores);
    assert_eq!(strip_tree(&embedded, &ignores), strip_tree(&tree, &ignores));
}

#[test]
fn record_lookup_takes_the_last_record_for_a_symbol() {
    let records =
        vec![record("foo", "First wins?"), record("bar", "Other."), record("foo", "Last wins.")];
    assert_eq!(record_lookup(&records, &"foo".to_string()), Some("Last wins.".to_string()));
    assert_eq!(record_lookup(&records, &"bar".to_string()), Some("Other.".to_string()));
    assert_eq!(record_lookup(&records, &"baz".to_string()), None);
}

#[test]
fn file_ignored_matches_listed_paths_only() {
    let ignores = vec!["a.src".to_string(), "sub/b.src".to_string()];
    assert!(file_ignored(&ignores, &"a.src".to_string()));
    assert!(file_ignored(&ignores, &"sub/b.src".to_string()));
    assert!(!file_ignored(&ignores, &"c.src".to_string()));
    assert!(!file_ignored(&vec![], &"a.src".to_string()));
}
