use auto_import::assist::{compute_auto_import, GroupedAction};
use auto_import::import_path::{render, ImportPath, PathKind};
use auto_import::syntax::{SyntaxKind, SyntaxNode, SyntaxTree};

fn node(kind: SyntaxKind, parent: Option<usize>) -> SyntaxNode {
    SyntaxNode { kind, parent }
}

fn plain_path(segments: &[&str]) -> ImportPath {
    ImportPath {
        kind: PathKind::Plain,
        segments: segments.iter().map(|s| s.to_string()).collect(),
    }
}

/// The tree of a file holding `fn main() {}` followed by the bare unresolved
/// reference `Debug`, with the cursor on the name reference (node 3).
fn bare_reference_tree() -> SyntaxTree {
    SyntaxTree::new(vec![
        node(SyntaxKind::SourceFile, None),
        node(SyntaxKind::Other, Some(0)),
        node(SyntaxKind::Path, Some(0)),
        node(SyntaxKind::NameRef, Some(2)),
    ])
    .unwrap()
}

fn debug_candidates() -> Vec<Option<ImportPath>> {
    vec![Some(plain_path(&["std", "ops", "Debug"]))]
}

#[test]
fn applicable_when_found_an_import() {
    let tree = bare_reference_tree();
    let candidates = debug_candidates();
    let group: GroupedAction = compute_auto_import(&tree, 3, true, false, &candidates).unwrap();
    assert_eq!(group.id, "auto_import");
    assert_eq!(group.group_label, "auto import");
    assert_eq!(group.alternatives.len(), 1);
    let alternative = &group.alternatives[0];
    assert_eq!(alternative.label, "Import `std::ops::Debug`");
    // The new import is inserted at the file root, for the reference at node 2.
    assert_eq!(alternative.edit.anchor, 0);
    assert_eq!(alternative.edit.reference, 2);
    assert!(alternative.edit.path.kind == PathKind::Plain);
    assert_eq!(
        alternative.edit.path.segments,
        vec!["std".to_string(), "ops".to_string(), "Debug".to_string()]
    );
}

#[test]
fn not_applicable_when_no_imports_found() {
    let tree = bare_reference_tree();
    let candidates: Vec<Option<ImportPath>> = vec![];
    assert!(compute_auto_import(&tree, 3, true, false, &candidates).is_none());
}

#[test]
fn not_applicable_in_import_statements() {
    // `use Debug<|>;` with the cursor on the name reference inside the import.
    let tree = SyntaxTree::new(vec![
        node(SyntaxKind::SourceFile, None),
        node(SyntaxKind::UseItem, Some(0)),
        node(SyntaxKind::Path, Some(1)),
        node(SyntaxKind::NameRef, Some(2)),
    ])
    .unwrap();
    let candidates = debug_candidates();
    assert!(compute_auto_import(&tree, 3, true, false, &candidates).is_none());
}

#[test]
fn already_resolved_reference_gets_no_suggestion() {
    let tree = bare_reference_tree();
    let candidates = debug_candidates();
    assert!(compute_auto_import(&tree, 3, true, true, &candidates).is_none());
}

#[test]
fn unknown_module_scope_gives_no_suggestion() {
    let tree = bare_reference_tree();
    let candidates = debug_candidates();
    assert!(compute_auto_import(&tree, 3, false, false, &candidates).is_none());
}

#[test]
fn render_equal_candidates_collapse() {
    let tree = bare_reference_tree();
    let candidates = vec![
        Some(plain_path(&["std", "ops", "Debug"])),
        Some(plain_path(&["core", "fmt", "Debug"])),
        Some(plain_path(&["std", "ops", "Debug"])),
    ];
    let group = compute_auto_import(&tree, 3, true, false, &candidates).unwrap();
    assert_eq!(group.alternatives.len(), 2);
    assert_eq!(group.alternatives[0].label, "Import `std::ops::Debug`");
    assert_eq!(group.alternatives[1].label, "Import `core::fmt::Debug`");
}

#[test]
fn render_equal_paths_of_different_kinds_collapse() {
    // A plain path starting with the segment `crate` renders exactly like a
    // crate-relative path of the remaining segments; only the first survives.
    let tree = bare_reference_tree();
    let candidates = vec![
        Some(plain_path(&["crate", "util", "Debug"])),
        Some(ImportPath {
            kind: PathKind::CrateRelative,
            segments: vec!["util".to_string(), "Debug".to_string()],
        }),
    ];
    let group = compute_auto_import(&tree, 3, true, false, &candidates).unwrap();
    assert_eq!(group.alternatives.len(), 1);
    assert_eq!(group.alternatives[0].label, "Import `crate::util::Debug`");
}

#[test]
fn more_than_twenty_candidates_are_capped() {
    let tree = bare_reference_tree();
    let mut candidates: Vec<Option<ImportPath>> = Vec::new();
    for i in 0..25 {
        let tail = format!("Debug{}", i);
        candidates.push(Some(ImportPath {
            kind: PathKind::Plain,
            segments: vec!["deps".to_string(), tail],
        }));
    }
    let group = compute_auto_import(&tree, 3, true, false, &candidates).unwrap();
    assert_eq!(group.alternatives.len(), 20);
    assert_eq!(group.alternatives[0].label, "Import `deps::Debug0`");
    assert_eq!(group.alternatives[19].label, "Import `deps::Debug19`");
}

#[test]
fn unimportable_candidates_are_dropped() {
    let tree = bare_reference_tree();
    let candidates = vec![None, Some(plain_path(&["std", "ops", "Debug"])), None];
    let group = compute_auto_import(&tree, 3, true, false, &candidates).unwrap();
    assert_eq!(group.alternatives.len(), 1);
    assert_eq!(group.alternatives[0].label, "Import `std::ops::Debug`");
}

#[test]
fn no_importable_candidate_gives_no_suggestion() {
    let tree = bare_reference_tree();
    let candidates: Vec<Option<ImportPath>> = vec![None, None];
    assert!(compute_auto_import(&tree, 3, true, false, &candidates).is_none());
}

#[test]
fn empty_segment_path_is_dropped() {
    let tree = bare_reference_tree();
    let candidates = vec![Some(ImportPath { kind: PathKind::Plain, segments: vec![] })];
    assert!(compute_auto_import(&tree, 3, true, false, &candidates).is_none());
}

#[test]
fn nested_module_hosts_its_own_import() {
    // A reference inside `mod m { ... }` anchors the import at the module's
    // item list (node 2), not at the file root.
    let tree = SyntaxTree::new(vec![
        node(SyntaxKind::SourceFile, None),
        node(SyntaxKind::Module, Some(0)),
        node(SyntaxKind::ItemList, Some(1)),
        node(SyntaxKind::Path, Some(2)),
        node(SyntaxKind::NameRef, Some(3)),
    ])
    .unwrap();
    let candidates = debug_candidates();
    let group = compute_auto_import(&tree, 4, true, false, &candidates).unwrap();
    assert_eq!(group.alternatives[0].edit.anchor, 2);
    assert_eq!(group.alternatives[0].edit.reference, 3);
}

#[test]
fn module_without_item_list_falls_back_to_file() {
    let tree = SyntaxTree::new(vec![
        node(SyntaxKind::SourceFile, None),
        node(SyntaxKind::Module, Some(0)),
        node(SyntaxKind::Path, Some(1)),
        node(SyntaxKind::NameRef, Some(2)),
    ])
    .unwrap();
    let candidates = debug_candidates();
    let group = compute_auto_import(&tree, 3, true, false, &candidates).unwrap();
    assert_eq!(group.alternatives[0].edit.anchor, 0);
}

#[test]
fn cursor_on_child_of_name_ref_applies() {
    // The covering element is a token whose parent is the name reference.
    let tree = SyntaxTree::new(vec![
        node(SyntaxKind::SourceFile, None),
        node(SyntaxKind::Path, Some(0)),
        node(SyntaxKind::NameRef, Some(1)),
        node(SyntaxKind::Other, Some(2)),
    ])
    .unwrap();
    let candidates = debug_candidates();
    let group = compute_auto_import(&tree, 3, true, false, &candidates).unwrap();
    assert_eq!(group.alternatives.len(), 1);
}

#[test]
fn cursor_off_any_identifier_gives_no_suggestion() {
    // The covering element is neither a name reference nor a child of one.
    let tree = SyntaxTree::new(vec![
        node(SyntaxKind::SourceFile, None),
        node(SyntaxKind::Path, Some(0)),
        node(SyntaxKind::Other, Some(1)),
        node(SyntaxKind::Other, Some(2)),
    ])
    .unwrap();
    let candidates = debug_candidates();
    assert!(compute_auto_import(&tree, 3, true, false, &candidates).is_none());
}

#[test]
fn detached_tree_gives_no_suggestion() {
    // No containing source file at all: a malformed input, answered with
    // no suggestion.
    let tree = SyntaxTree::new(vec![
        node(SyntaxKind::Other, None),
        node(SyntaxKind::Path, Some(0)),
        node(SyntaxKind::NameRef, Some(1)),
    ])
    .unwrap();
    let candidates = debug_candidates();
    assert!(compute_auto_import(&tree, 2, true, false, &candidates).is_none());
}

#[test]
fn tree_builder_rejects_forward_parent_links() {
    assert!(SyntaxTree::new(vec![node(SyntaxKind::Other, Some(0))]).is_none());
    assert!(SyntaxTree::new(vec![
        node(SyntaxKind::SourceFile, None),
        node(SyntaxKind::Path, Some(2)),
        node(SyntaxKind::NameRef, Some(1)),
    ])
    .is_none());
}

#[test]
fn paths_render_with_their_kind_prefix() {
    let plain = plain_path(&["std", "ops", "Debug"]);
    assert_eq!(render(&plain), "std::ops::Debug");
    let crate_relative = ImportPath {
        kind: PathKind::CrateRelative,
        segments: vec!["util".to_string(), "Debug".to_string()],
    };
    assert_eq!(render(&crate_relative), "crate::util::Debug");
    let absolute = ImportPath {
        kind: PathKind::Absolute,
        segments: vec!["dep".to_string(), "Debug".to_string()],
    };
    assert_eq!(render(&absolute), "::dep::Debug");
    let single = plain_path(&["Debug"]);
    assert_eq!(render(&single), "Debug");
}
