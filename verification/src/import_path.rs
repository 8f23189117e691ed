//! Import paths and the selection of candidate paths.
//!
//! The semantic resolver answers, per definition the symbol index found, with
//! the shortest import path that would make the definition visible, or with
//! nothing when the definition cannot be imported. This module models those
//! paths, renders them to their text form, and turns the resolver's answers
//! into the final candidate list: unimportable answers and degenerate empty
//! paths are dropped, paths with equal rendered text collapse to the first,
//! and the list is cut off at [`MAX_CANDIDATES`] entries.

use vstd::prelude::*;

verus! {

/// How many candidate paths a grouped action may carry at most.
pub const MAX_CANDIDATES: usize = 20;

/// How the first segment of an import path is anchored.
#[derive(Clone, Copy, PartialEq, Eq, Structural, Debug)]
pub enum PathKind {
    /// The path starts at whatever its first segment names in scope.
    Plain,
    /// The path starts at the root of the current crate.
    CrateRelative,
    /// The path starts at the extern root.
    Absolute,
}

/// An import path: an anchoring kind and the ordered segment names.
#[derive(Debug)]
pub struct ImportPath {
    pub kind: PathKind,
    pub segments: Vec<String>,
}

/// The mathematical shape of an import path: the kind and the segments as
/// character sequences.
pub struct PathModel {
    pub kind: PathKind,
    pub segments: Seq<Seq<char>>,
}

impl View for ImportPath {
    type V = PathModel;

    open spec fn view(&self) -> PathModel {
        PathModel { kind: self.kind, segments: self.segments@.map_values(|s: String| s@) }
    }
}

impl Clone for ImportPath {
    /// A clone carries the same kind and the same segment texts.
    fn clone(&self) -> (result: Self)
        ensures
            result@ == self@,
    {
        let mut segments: Vec<String> = Vec::new();
        let mut i: usize = 0;
        while i < self.segments.len()
            invariant
                i <= self.segments.len(),
                segments@.len() == i,
                forall|k: int| 0 <= k < i ==> segments@[k] == self.segments@[k],
            decreases self.segments.len() - i,
        {
            segments.push(self.segments[i].clone());
            i += 1;
        }
        let result = ImportPath { kind: self.kind, segments };
        proof {
            assert(result@.segments =~= self@.segments);
        }
        result
    }
}

/// The text the path kind puts in front of the first segment.
pub open spec fn kind_prefix(kind: PathKind) -> Seq<char> {
    match kind {
        PathKind::Plain => Seq::empty(),
        PathKind::CrateRelative => "crate::"@,
        PathKind::Absolute => "::"@,
    }
}

/// The segments joined with `::` between each two.
pub open spec fn joined_segments(segments: Seq<Seq<char>>) -> Seq<char>
    decreases segments.len(),
{
    if segments.len() == 0 {
        Seq::empty()
    } else if segments.len() == 1 {
        segments[0]
    } else {
        joined_segments(segments.drop_last()) + "::"@ + segments.last()
    }
}

/// The rendered text form of a path: its kind's prefix, then its joined
/// segments. Candidate paths count as equal exactly when they render equally.
pub open spec fn rendered(path: PathModel) -> Seq<char> {
    kind_prefix(path.kind) + joined_segments(path.segments)
}

proof fn lemma_joined_take_succ(segments: Seq<Seq<char>>, i: int)
    requires
        0 <= i < segments.len(),
    ensures
        joined_segments(segments.take(i + 1)) == if i == 0 {
            segments[0]
        } else {
            joined_segments(segments.take(i)) + "::"@ + segments[i]
        },
{
    let t = segments.take(i + 1);
    assert(t.drop_last() =~= segments.take(i));
    assert(t.last() == segments[i]);
}

/// Render a path to the text by which it is compared and labeled.
pub fn render(path: &ImportPath) -> (result: String)
    ensures
        result@ == rendered(path@),
{
    let mut text = match path.kind {
        PathKind::Plain => String::new(),
        PathKind::CrateRelative => String::from_str("crate::"),
        PathKind::Absolute => String::from_str("::"),
    };
    proof {
        assert(text@ =~= kind_prefix(path@.kind) + joined_segments(path@.segments.take(0)));
    }
    let mut i: usize = 0;
    while i < path.segments.len()
        invariant
            i <= path.segments.len(),
            path@.segments.len() == path.segments.len(),
            text@ == kind_prefix(path@.kind) + joined_segments(path@.segments.take(i as int)),
        decreases path.segments.len() - i,
    {
        if i > 0 {
            text.append("::");
        }
        text.append(path.segments[i].as_str());
        proof {
            lemma_joined_take_succ(path@.segments, i as int);
            assert(path@.segments[i as int] == path.segments@[i as int]@);
            assert(text@ =~= kind_prefix(path@.kind) + joined_segments(
                path@.segments.take(i as int + 1),
            ));
        }
        i += 1;
    }
    proof {
        assert(path@.segments.take(path.segments.len() as int) =~= path@.segments);
    }
    text
}

/// The models of the resolver's answers: one entry per definition the index
/// returned, `None` where the definition cannot be imported.
pub open spec fn candidate_models(candidates: Seq<Option<ImportPath>>) -> Seq<Option<PathModel>> {
    candidates.map_values(
        |c: Option<ImportPath>|
            match c {
                Some(path) => Some(path@),
                None => None,
            },
    )
}

/// The importable candidates in index order: the answers that carry a path
/// with at least one segment.
pub open spec fn importable_paths(candidates: Seq<Option<PathModel>>) -> Seq<PathModel>
    decreases candidates.len(),
{
    if candidates.len() == 0 {
        Seq::empty()
    } else {
        let prefix = importable_paths(candidates.drop_last());
        match candidates.last() {
            Some(path) => if path.segments.len() > 0 {
                prefix.push(path)
            } else {
                prefix
            },
            None => prefix,
        }
    }
}

/// The rendered text of each path in the sequence.
pub open spec fn rendered_all(paths: Seq<PathModel>) -> Seq<Seq<char>> {
    paths.map_values(|p: PathModel| rendered(p))
}

/// The paths with the first occurrence of each rendered text kept and every
/// later render-equal path dropped.
pub open spec fn dedup_by_render(paths: Seq<PathModel>) -> Seq<PathModel>
    decreases paths.len(),
{
    if paths.len() == 0 {
        Seq::empty()
    } else {
        let prefix = dedup_by_render(paths.drop_last());
        if rendered_all(prefix).contains(rendered(paths.last())) {
            prefix
        } else {
            prefix.push(paths.last())
        }
    }
}

/// The first [`MAX_CANDIDATES`] entries; shorter sequences stay whole.
pub open spec fn capped(paths: Seq<PathModel>) -> Seq<PathModel> {
    if paths.len() <= MAX_CANDIDATES {
        paths
    } else {
        paths.take(MAX_CANDIDATES as int)
    }
}

/// What the assist finally offers for the given resolver answers.
pub open spec fn selected_paths(candidates: Seq<Option<ImportPath>>) -> Seq<PathModel> {
    capped(dedup_by_render(importable_paths(candidate_models(candidates))))
}

/// The models of a vector of paths.
pub open spec fn models_of(paths: Seq<ImportPath>) -> Seq<PathModel> {
    paths.map_values(|p: ImportPath| p@)
}

/// Whether `text` is among the texts of `seen`.
fn contains_text(seen: &Vec<String>, text: &String) -> (result: bool)
    ensures
        result == seen@.map_values(|s: String| s@).contains(text@),
{
    let texts = Ghost(seen@.map_values(|s: String| s@));
    let mut k: usize = 0;
    while k < seen.len()
        invariant
            k <= seen.len(),
            texts@ == seen@.map_values(|s: String| s@),
            forall|j: int| 0 <= j < k ==> texts@[j] != text@,
        decreases seen.len() - k,
    {
        if seen[k].eq(text) {
            proof {
                assert(texts@[k as int] == text@);
            }
            return true;
        }
        k += 1;
    }
    false
}

/// Select the paths the assist will offer: drop unimportable and empty
/// answers, collapse render-equal paths to the first, and cut the list off at
/// [`MAX_CANDIDATES`] entries.
pub fn collect_candidates(candidates: &Vec<Option<ImportPath>>) -> (result: Vec<ImportPath>)
    ensures
        models_of(result@) == selected_paths(candidates@),
{
    let mut kept: Vec<ImportPath> = Vec::new();
    let mut kept_texts: Vec<String> = Vec::new();
    let mut i: usize = 0;
    while i < candidates.len()
        invariant
            i <= candidates.len(),
            models_of(kept@) == dedup_by_render(
                importable_paths(candidate_models(candidates@.take(i as int))),
            ),
            kept_texts@.map_values(|s: String| s@) == rendered_all(models_of(kept@)),
        decreases candidates.len() - i,
    {
        let ghost before = candidate_models(candidates@.take(i as int));
        let ghost after = candidate_models(candidates@.take(i as int + 1));
        proof {
            assert(after.drop_last() =~= before);
        }
        match &candidates[i] {
            Some(path) => {
                if path.segments.len() > 0 {
                    let ghost s = importable_paths(before);
                    let ghost m = path@;
                    proof {
                        assert(importable_paths(after) =~= s.push(m));
                        assert(s.push(m).drop_last() =~= s);
                        assert(s.push(m).last() == m);
                    }
                    let text = render(path);
                    let ghost kept0 = kept@;
                    if !contains_text(&kept_texts, &text) {
                        proof {
                            assert(!rendered_all(dedup_by_render(s)).contains(rendered(m)));
                            assert(dedup_by_render(s.push(m)) == dedup_by_render(s).push(m));
                        }
                        kept.push(path.clone());
                        kept_texts.push(text);
                        proof {
                            assert(models_of(kept@) =~= models_of(kept0).push(m));
                            assert(models_of(kept@) == dedup_by_render(importable_paths(after)));
                            assert(kept_texts@.map_values(|s2: String| s2@) =~= rendered_all(
                                models_of(kept0),
                            ).push(rendered(m)));
                            assert(rendered_all(models_of(kept@)) =~= rendered_all(
                                models_of(kept0),
                            ).push(rendered(m)));
                        }
                    } else {
                        proof {
                            assert(rendered_all(dedup_by_render(s)).contains(rendered(m)));
                            assert(dedup_by_render(s.push(m)) == dedup_by_render(s));
                            assert(models_of(kept@) == dedup_by_render(importable_paths(after)));
                        }
                    }
                } else {
                    proof {
                        assert(importable_paths(after) =~= importable_paths(before));
                    }
                }
            },
            None => {
                proof {
                    assert(importable_paths(after) =~= importable_paths(before));
                }
            },
        }
        i += 1;
    }
    proof {
        assert(candidates@.take(candidates@.len() as int) =~= candidates@);
    }
    let mut result: Vec<ImportPath> = Vec::new();
    let limit: usize = if kept.len() < MAX_CANDIDATES {
        kept.len()
    } else {
        MAX_CANDIDATES
    };
    let mut j: usize = 0;
    while j < limit
        invariant
            j <= limit,
            limit <= kept.len(),
            limit == if kept@.len() < MAX_CANDIDATES {
                kept@.len() as int
            } else {
                MAX_CANDIDATES as int
            },
            models_of(kept@) == dedup_by_render(
                importable_paths(candidate_models(candidates@)),
            ),
            models_of(result@) == models_of(kept@).take(j as int),
        decreases limit - j,
    {
        let ghost result0 = result@;
        let entry = kept[j].clone();
        proof {
            assert(entry@ == kept@[j as int]@);
            assert(models_of(kept@)[j as int] == kept@[j as int]@);
        }
        result.push(entry);
        proof {
            assert(models_of(result@) =~= models_of(result0).push(kept@[j as int]@));
            assert(models_of(result@) =~= models_of(kept@).take(j as int + 1));
        }
        j += 1;
    }
    proof {
        assert(models_of(result@) =~= capped(models_of(kept@)));
    }
    result
}

} // verus!
