//! The guarantees of the pipeline, stated and proved once for all inputs.
//!
//! Each public proof function here states one property of
//! [`crate::assist::compute_auto_import`] over the same spec functions its
//! contract uses, so the property holds of every result the pipeline can
//! return.

use crate::assist::suggestion_available;
use crate::import_path::{
    candidate_models, dedup_by_render, importable_paths, rendered, rendered_all, selected_paths,
    ImportPath, PathModel, MAX_CANDIDATES,
};
use crate::syntax::{within_use_item, SyntaxNode};
use vstd::prelude::*;

verus! {

proof fn lemma_dedup_element(paths: Seq<PathModel>, k: int)
    requires
        0 <= k < dedup_by_render(paths).len(),
    ensures
        exists|j: int| 0 <= j < paths.len() && paths[j] == dedup_by_render(paths)[k],
    decreases paths.len(),
{
    if paths.len() == 0 {
    } else {
        let prefix = dedup_by_render(paths.drop_last());
        if rendered_all(prefix).contains(rendered(paths.last())) || k < prefix.len() {
            lemma_dedup_element(paths.drop_last(), k);
            let j = choose|j: int|
                0 <= j < paths.drop_last().len() && paths.drop_last()[j] == dedup_by_render(
                    paths.drop_last(),
                )[k];
            assert(paths[j] == dedup_by_render(paths)[k]);
        } else {
            assert(paths[paths.len() - 1] == dedup_by_render(paths)[k]);
        }
    }
}

proof fn lemma_importable_element(cands: Seq<Option<PathModel>>, k: int)
    requires
        0 <= k < importable_paths(cands).len(),
    ensures
        importable_paths(cands)[k].segments.len() > 0,
        exists|j: int| 0 <= j < cands.len() && cands[j] == Some(importable_paths(cands)[k]),
    decreases cands.len(),
{
    if cands.len() == 0 {
    } else {
        let prefix = importable_paths(cands.drop_last());
        let pushed = match cands.last() {
            Some(path) => path.segments.len() > 0,
            None => false,
        };
        if pushed && k == prefix.len() {
            assert(cands[cands.len() - 1] == Some(importable_paths(cands)[k]));
        } else {
            lemma_importable_element(cands.drop_last(), k);
            let j = choose|j: int|
                0 <= j < cands.drop_last().len() && cands.drop_last()[j] == Some(
                    importable_paths(cands.drop_last())[k],
                );
            assert(cands[j] == Some(importable_paths(cands)[k]));
        }
    }
}

proof fn lemma_dedup_distinct(paths: Seq<PathModel>, i: int, j: int)
    requires
        0 <= i < j < dedup_by_render(paths).len(),
    ensures
        rendered(dedup_by_render(paths)[i]) != rendered(dedup_by_render(paths)[j]),
    decreases paths.len(),
{
    if paths.len() == 0 {
    } else {
        let prefix = dedup_by_render(paths.drop_last());
        if rendered_all(prefix).contains(rendered(paths.last())) || j < prefix.len() {
            lemma_dedup_distinct(paths.drop_last(), i, j);
        } else {
            assert(rendered(prefix[i]) != rendered(paths.last())) by {
                if rendered(prefix[i]) == rendered(paths.last()) {
                    assert(rendered_all(prefix)[i] == rendered(paths.last()));
                    assert(rendered_all(prefix).contains(rendered(paths.last())));
                }
            }
        }
    }
}

proof fn lemma_dedup_covers(paths: Seq<PathModel>, j: int)
    requires
        0 <= j < paths.len(),
    ensures
        exists|k: int|
            0 <= k < dedup_by_render(paths).len() && rendered(
                #[trigger] dedup_by_render(paths)[k],
            ) == rendered(paths[j]),
    decreases paths.len(),
{
    let prefix = dedup_by_render(paths.drop_last());
    if j == paths.len() - 1 {
        if rendered_all(prefix).contains(rendered(paths.last())) {
            let k = choose|k: int|
                0 <= k < rendered_all(prefix).len() && rendered_all(prefix)[k] == rendered(
                    paths.last(),
                );
            assert(rendered(dedup_by_render(paths)[k]) == rendered(paths[j]));
        } else {
            assert(rendered(dedup_by_render(paths)[prefix.len() as int]) == rendered(paths[j]));
        }
    } else {
        lemma_dedup_covers(paths.drop_last(), j);
        let k = choose|k: int|
            0 <= k < prefix.len() && rendered(#[trigger] prefix[k]) == rendered(
                paths.drop_last()[j],
            );
        assert(rendered(dedup_by_render(paths)[k]) == rendered(paths[j]));
    }
}

proof fn lemma_dedup_of_distinct(paths: Seq<PathModel>)
    requires
        forall|i: int, j: int|
            0 <= i < j < paths.len() ==> rendered(#[trigger] paths[i]) != rendered(
                #[trigger] paths[j],
            ),
    ensures
        dedup_by_render(paths) == paths,
    decreases paths.len(),
{
    if paths.len() == 0 {
        assert(dedup_by_render(paths) =~= paths);
    } else {
        let shorter = paths.drop_last();
        assert forall|i: int, j: int| 0 <= i < j < shorter.len() implies rendered(
            #[trigger] shorter[i],
        ) != rendered(#[trigger] shorter[j]) by {
            assert(shorter[i] == paths[i]);
            assert(shorter[j] == paths[j]);
        }
        lemma_dedup_of_distinct(shorter);
        let prefix = dedup_by_render(shorter);
        if rendered_all(prefix).contains(rendered(paths.last())) {
            let k = choose|k: int|
                0 <= k < rendered_all(prefix).len() && rendered_all(prefix)[k] == rendered(
                    paths.last(),
                );
            assert(rendered(paths[k]) == rendered(paths[paths.len() - 1]));
            assert(false);
        }
        assert(dedup_by_render(paths) =~= paths);
    }
}

/// Idempotence: a reference that already resolves gets no suggestion,
/// whatever the symbol index would return.
pub proof fn lemma_resolved_reference_no_suggestion(
    nodes: Seq<SyntaxNode>,
    cursor: usize,
    module_scope_found: bool,
    candidates: Seq<Option<ImportPath>>,
)
    ensures
        !suggestion_available(nodes, cursor, module_scope_found, true, candidates),
{
}

/// Suppression inside imports: an element that sits inside an import
/// declaration gets no suggestion, whatever the resolver and the index
/// answer.
pub proof fn lemma_inside_import_no_suggestion(
    nodes: Seq<SyntaxNode>,
    cursor: usize,
    module_scope_found: bool,
    path_resolves: bool,
    candidates: Seq<Option<ImportPath>>,
)
    requires
        within_use_item(nodes, cursor),
    ensures
        !suggestion_available(nodes, cursor, module_scope_found, path_resolves, candidates),
{
}

/// Candidate validity, as far as it rests with this engine: every selected
/// path is one the resolver itself handed back for a definition the index
/// found, and it has at least one segment. That inserting a path the
/// resolver computed makes the reference resolve to that definition is the
/// resolver's own guarantee.
pub proof fn lemma_selection_comes_from_resolver(candidates: Seq<Option<ImportPath>>, k: int)
    requires
        0 <= k < selected_paths(candidates).len(),
    ensures
        selected_paths(candidates)[k].segments.len() > 0,
        exists|j: int|
            0 <= j < candidates.len() && #[trigger] candidate_models(candidates)[j] == Some(
                selected_paths(candidates)[k],
            ),
{
    let cms = candidate_models(candidates);
    let deduped = dedup_by_render(importable_paths(cms));
    assert(selected_paths(candidates)[k] == deduped[k]);
    lemma_dedup_element(importable_paths(cms), k);
    let j1 = choose|j1: int|
        0 <= j1 < importable_paths(cms).len() && importable_paths(cms)[j1] == deduped[k];
    lemma_importable_element(cms, j1);
    let j = choose|j: int| 0 <= j < cms.len() && cms[j] == Some(importable_paths(cms)[j1]);
    assert(candidate_models(candidates)[j] == Some(selected_paths(candidates)[k]));
}

/// Deduplication: two distinct alternatives never carry render-equal paths.
pub proof fn lemma_alternatives_render_distinct(
    candidates: Seq<Option<ImportPath>>,
    i: int,
    j: int,
)
    requires
        0 <= i < j < selected_paths(candidates).len(),
    ensures
        rendered(selected_paths(candidates)[i]) != rendered(selected_paths(candidates)[j]),
{
    let deduped = dedup_by_render(importable_paths(candidate_models(candidates)));
    assert(selected_paths(candidates)[i] == deduped[i]);
    assert(selected_paths(candidates)[j] == deduped[j]);
    lemma_dedup_distinct(importable_paths(candidate_models(candidates)), i, j);
}

/// Deduplication: when the deduplicated candidate list fits the cap, the
/// rendered text of every importable candidate appears on some alternative;
/// together with [`lemma_alternatives_render_distinct`], on exactly one.
pub proof fn lemma_render_kept(candidates: Seq<Option<ImportPath>>, j: int)
    requires
        0 <= j < importable_paths(candidate_models(candidates)).len(),
        dedup_by_render(importable_paths(candidate_models(candidates))).len() <= MAX_CANDIDATES,
    ensures
        exists|k: int|
            0 <= k < selected_paths(candidates).len() && rendered(
                #[trigger] selected_paths(candidates)[k],
            ) == rendered(importable_paths(candidate_models(candidates))[j]),
{
    let imp = importable_paths(candidate_models(candidates));
    let deduped = dedup_by_render(imp);
    lemma_dedup_covers(imp, j);
    let k = choose|k: int|
        0 <= k < deduped.len() && rendered(#[trigger] deduped[k]) == rendered(imp[j]);
    assert(selected_paths(candidates) == deduped);
    assert(rendered(selected_paths(candidates)[k]) == rendered(imp[j]));
}

/// Bounding: a grouped action never offers more than [`MAX_CANDIDATES`]
/// alternatives.
pub proof fn lemma_selection_bounded(candidates: Seq<Option<ImportPath>>)
    ensures
        selected_paths(candidates).len() <= MAX_CANDIDATES,
{
}

/// Bounding: with [`MAX_CANDIDATES`] or more importable candidates of
/// pairwise distinct rendered texts, exactly [`MAX_CANDIDATES`] alternatives
/// survive.
pub proof fn lemma_cap_reached(candidates: Seq<Option<ImportPath>>)
    requires
        importable_paths(candidate_models(candidates)).len() >= MAX_CANDIDATES,
        forall|i: int, j: int|
            0 <= i < j < importable_paths(candidate_models(candidates)).len() ==> rendered(
                #[trigger] importable_paths(candidate_models(candidates))[i],
            ) != rendered(#[trigger] importable_paths(candidate_models(candidates))[j]),
    ensures
        selected_paths(candidates).len() == MAX_CANDIDATES,
{
    lemma_dedup_of_distinct(importable_paths(candidate_models(candidates)));
}

/// Emptiness: an index that returns no definitions yields no suggestion.
pub proof fn lemma_empty_index_no_suggestion(
    nodes: Seq<SyntaxNode>,
    cursor: usize,
    module_scope_found: bool,
    path_resolves: bool,
    candidates: Seq<Option<ImportPath>>,
)
    requires
        candidates.len() == 0,
    ensures
        !suggestion_available(nodes, cursor, module_scope_found, path_resolves, candidates),
{
    assert(importable_paths(candidate_models(candidates)).len() == 0);
}

/// Emptiness: when no candidate is importable, there is no suggestion.
pub proof fn lemma_no_importable_no_suggestion(
    nodes: Seq<SyntaxNode>,
    cursor: usize,
    module_scope_found: bool,
    path_resolves: bool,
    candidates: Seq<Option<ImportPath>>,
)
    requires
        importable_paths(candidate_models(candidates)).len() == 0,
    ensures
        !suggestion_available(nodes, cursor, module_scope_found, path_resolves, candidates),
{
}

} // verus!
