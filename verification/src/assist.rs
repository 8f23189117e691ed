//! The assist pipeline: from a cursor position and the host's semantic
//! answers to a grouped action of alternative import fixes.
//!
//! The host hands the pipeline its syntax tree, the element under the cursor,
//! and the answers of its semantic resolver: whether the anchor node lies in a
//! known module scope, whether the path under the cursor already resolves, and
//! the shortest import path for each definition the symbol index found under
//! the referenced name. The pipeline either gives up without a suggestion or
//! returns one grouped action with one alternative per surviving candidate
//! path. No edit is computed here: each alternative carries the data from
//! which the host's edit engine builds the insertion, only if that
//! alternative is the one the user picks.

use crate::import_path::{
    collect_candidates, models_of, render, rendered, selected_paths, ImportPath, PathModel,
};
use crate::syntax::{
    ancestor_of_kind, anchor_of, applicable_name_ref, tree_wf, SyntaxKind, SyntaxTree,
};
use vstd::prelude::*;

verus! {

/// The deferred input of the host's edit engine: insert an import of `path`
/// at `anchor`, for the reference at `reference`. Building the textual edit,
/// and merging it with existing import declarations, is the edit engine's
/// work and happens only for the alternative the user picks.
pub struct PendingImportEdit {
    /// The node that hosts the new import declaration.
    pub anchor: usize,
    /// The path expression whose name the import is to resolve.
    pub reference: usize,
    /// The import path to insert.
    pub path: ImportPath,
}

/// One alternative fix of a grouped action: a human-readable label and the
/// pending edit that realises the fix.
pub struct AlternativeAction {
    pub label: String,
    pub edit: PendingImportEdit,
}

/// A set of mutually exclusive alternative fixes, at most one of which the
/// user applies, wrapped under a stable kind identifier.
pub struct GroupedAction {
    /// The stable identifier that tells this assist kind from others.
    pub id: String,
    /// The short name of the whole group.
    pub group_label: String,
    /// One entry per surviving candidate path.
    pub alternatives: Vec<AlternativeAction>,
}

/// The label an alternative carries for a candidate path.
pub open spec fn action_label(path: PathModel) -> Seq<char> {
    "Import `"@ + rendered(path) + "`"@
}

/// Whether the structural guards of the pipeline let a suggestion through:
/// the cursor lies on a path expression, the tree yields an insertion anchor,
/// the anchor lies in a known module scope, the path does not already
/// resolve, and the cursor element is an applicable name reference.
pub open spec fn guards_pass(
    nodes: Seq<crate::syntax::SyntaxNode>,
    cursor: usize,
    module_scope_found: bool,
    path_resolves: bool,
) -> bool {
    match ancestor_of_kind(nodes, cursor, SyntaxKind::Path) {
        Some(path_node) => anchor_of(nodes, path_node) is Some && module_scope_found
            && !path_resolves && applicable_name_ref(nodes, cursor) is Some,
        None => false,
    }
}

/// Whether the pipeline produces a suggestion: every structural guard passes
/// and at least one importable candidate survives selection.
pub open spec fn suggestion_available(
    nodes: Seq<crate::syntax::SyntaxNode>,
    cursor: usize,
    module_scope_found: bool,
    path_resolves: bool,
    candidates: Seq<Option<ImportPath>>,
) -> bool {
    guards_pass(nodes, cursor, module_scope_found, path_resolves) && selected_paths(
        candidates,
    ).len() > 0
}

/// Wrap one candidate path as an alternative action.
pub fn import_to_action(import: ImportPath, position: usize, path_node: usize) -> (result:
    AlternativeAction)
    ensures
        result.label@ == action_label(import@),
        result.edit.path@ == import@,
        result.edit.anchor == position,
        result.edit.reference == path_node,
{
    let rendered_text = render(&import);
    let mut label = String::from_str("Import `");
    label.append(rendered_text.as_str());
    label.append("`");
    AlternativeAction {
        label,
        edit: PendingImportEdit { anchor: position, reference: path_node, path: import },
    }
}

/// Compute the grouped auto-import action for the element under the cursor,
/// or nothing if no suggestion applies.
///
/// `module_scope_found` and `path_resolves` are the resolver's answers for
/// this invocation: whether the insertion anchor lies in a known module
/// scope, and whether the path under the cursor already resolves.
/// `candidates` holds, per definition the symbol index found under the
/// referenced name, the resolver's shortest import path, or `None` where the
/// definition cannot be imported.
pub fn compute_auto_import(
    tree: &SyntaxTree,
    cursor: usize,
    module_scope_found: bool,
    path_resolves: bool,
    candidates: &Vec<Option<ImportPath>>,
) -> (result: Option<GroupedAction>)
    requires
        tree_wf(tree@),
        cursor < tree@.len(),
    ensures
        result is Some <==> suggestion_available(
            tree@,
            cursor,
            module_scope_found,
            path_resolves,
            candidates@,
        ),
        result matches Some(group) ==> ({
            let selection = selected_paths(candidates@);
            let path_node = ancestor_of_kind(tree@, cursor, SyntaxKind::Path)->Some_0;
            let anchor = anchor_of(tree@, path_node)->Some_0;
            &&& group.id@ == "auto_import"@
            &&& group.group_label@ == "auto import"@
            &&& group.alternatives@.len() == selection.len()
            &&& forall|k: int|
                0 <= k < selection.len() ==> {
                    &&& (#[trigger] group.alternatives@[k]).label@ == action_label(selection[k])
                    &&& group.alternatives@[k].edit.path@ == selection[k]
                    &&& group.alternatives@[k].edit.anchor == anchor
                    &&& group.alternatives@[k].edit.reference == path_node
                }
        }),
{
    let path_node = match tree.find_ancestor_of_kind(cursor, SyntaxKind::Path) {
        Some(p) => p,
        None => {
            return None;
        },
    };
    let position = match tree.find_anchor(path_node) {
        Some(a) => a,
        None => {
            return None;
        },
    };
    if !module_scope_found {
        return None;
    }
    if path_resolves {
        return None;
    }
    if tree.find_applicable_name_ref(cursor).is_none() {
        return None;
    }
    let proposed_imports = collect_candidates(candidates);
    if proposed_imports.len() == 0 {
        return None;
    }
    let ghost selection = selected_paths(candidates@);
    let mut alternatives: Vec<AlternativeAction> = Vec::new();
    let mut k: usize = 0;
    while k < proposed_imports.len()
        invariant
            k <= proposed_imports.len(),
            models_of(proposed_imports@) == selection,
            alternatives@.len() == k,
            forall|j: int|
                0 <= j < k ==> {
                    &&& (#[trigger] alternatives@[j]).label@ == action_label(selection[j])
                    &&& alternatives@[j].edit.path@ == selection[j]
                    &&& alternatives@[j].edit.anchor == position
                    &&& alternatives@[j].edit.reference == path_node
                },
        decreases proposed_imports.len() - k,
    {
        proof {
            assert(models_of(proposed_imports@)[k as int]
                == proposed_imports@[k as int]@);
        }
        alternatives.push(import_to_action(proposed_imports[k].clone(), position, path_node));
        k += 1;
    }
    Some(
        GroupedAction {
            id: String::from_str("auto_import"),
            group_label: String::from_str("auto import"),
            alternatives,
        },
    )
}

} // verus!
