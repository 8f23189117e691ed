//! A model of the host editor's syntax tree.
//!
//! The assist only ever walks from a node towards the root and only ever asks
//! for a node's kind, so a tree is a table of nodes in which every node names
//! its parent by an index smaller than its own. The host hands the assist such
//! a table together with the index of the element under the cursor.

use vstd::prelude::*;

verus! {

/// The closed set of node shapes the assist distinguishes. Every node kind of
/// the host tree outside this set is reported as `Other`.
#[derive(Clone, Copy, PartialEq, Eq, Structural, Debug)]
pub enum SyntaxKind {
    /// The root node of a parsed source file.
    SourceFile,
    /// A module declaration.
    Module,
    /// The braced list of items inside a module declaration.
    ItemList,
    /// An import declaration.
    UseItem,
    /// A path expression.
    Path,
    /// A reference to a name.
    NameRef,
    /// Any other node or token.
    Other,
}

/// One node of the host's syntax tree: its kind and the index of its parent
/// node, or `None` for a root.
#[derive(Clone, Copy, Debug)]
pub struct SyntaxNode {
    pub kind: SyntaxKind,
    pub parent: Option<usize>,
}

/// Every parent link points strictly backwards, so ancestor walks terminate.
pub open spec fn tree_wf(nodes: Seq<SyntaxNode>) -> bool {
    forall|i: int|
        0 <= i < nodes.len() ==> match (#[trigger] nodes[i]).parent {
            Some(p) => p < i,
            None => true,
        }
}

/// The nearest node of the given kind on the ancestor chain of `start`,
/// `start` itself included.
pub open spec fn ancestor_of_kind(nodes: Seq<SyntaxNode>, start: usize, kind: SyntaxKind) -> Option<
    usize,
>
    recommends
        tree_wf(nodes),
        start < nodes.len(),
    decreases start,
{
    if start >= nodes.len() {
        None
    } else if nodes[start as int].kind == kind {
        Some(start)
    } else {
        match nodes[start as int].parent {
            Some(p) => if p < start {
                ancestor_of_kind(nodes, p, kind)
            } else {
                None
            },
            None => None,
        }
    }
}

/// Whether `element` sits syntactically inside an import declaration.
pub open spec fn within_use_item(nodes: Seq<SyntaxNode>, element: usize) -> bool {
    ancestor_of_kind(nodes, element, SyntaxKind::UseItem) is Some
}

/// The first item-list child of `module` at index `from` or beyond.
pub open spec fn item_list_child_from(nodes: Seq<SyntaxNode>, module: usize, from: int) -> Option<
    usize,
>
    decreases nodes.len() - from,
{
    if from < 0 || from >= nodes.len() {
        None
    } else if nodes[from].kind == SyntaxKind::ItemList && nodes[from].parent == Some(module) {
        Some(from as usize)
    } else {
        item_list_child_from(nodes, module, from + 1)
    }
}

/// The item list of the nearest enclosing module that has one, walking outward
/// from `start`. A module declaration without an item list is passed over.
pub open spec fn module_item_list_above(nodes: Seq<SyntaxNode>, start: usize) -> Option<usize>
    recommends
        tree_wf(nodes),
        start < nodes.len(),
    decreases start,
{
    if start >= nodes.len() {
        None
    } else if nodes[start as int].kind == SyntaxKind::Module && item_list_child_from(
        nodes,
        start,
        0,
    ) is Some {
        item_list_child_from(nodes, start, 0)
    } else {
        match nodes[start as int].parent {
            Some(p) => if p < start {
                module_item_list_above(nodes, p)
            } else {
                None
            },
            None => None,
        }
    }
}

/// The node that will host a new import for a path at `path_node`: the item
/// list of the nearest enclosing module that has one, or the containing source
/// file. `None` marks a detached tree, on which the assist gives up.
pub open spec fn anchor_of(nodes: Seq<SyntaxNode>, path_node: usize) -> Option<usize>
    recommends
        tree_wf(nodes),
        path_node < nodes.len(),
{
    match module_item_list_above(nodes, path_node) {
        Some(item_list) => Some(item_list),
        None => ancestor_of_kind(nodes, path_node, SyntaxKind::SourceFile),
    }
}

/// The name reference the assist applies to: none inside an import
/// declaration; otherwise the element itself if it is a name reference, or
/// else its parent if that is one.
pub open spec fn applicable_name_ref(nodes: Seq<SyntaxNode>, element: usize) -> Option<usize>
    recommends
        tree_wf(nodes),
        element < nodes.len(),
{
    if within_use_item(nodes, element) {
        None
    } else if nodes[element as int].kind == SyntaxKind::NameRef {
        Some(element)
    } else {
        match nodes[element as int].parent {
            Some(p) => if nodes[p as int].kind == SyntaxKind::NameRef {
                Some(p)
            } else {
                None
            },
            None => None,
        }
    }
}

/// A host syntax tree, as the table of its nodes. Construction through
/// [`SyntaxTree::new`] checks that every parent link points backwards.
pub struct SyntaxTree {
    nodes: Vec<SyntaxNode>,
}

impl View for SyntaxTree {
    type V = Seq<SyntaxNode>;

    closed spec fn view(&self) -> Seq<SyntaxNode> {
        self.nodes@
    }
}

impl SyntaxTree {
    /// Wrap a node table, checking that every parent index is smaller than the
    /// index of the node that carries it.
    pub fn new(nodes: Vec<SyntaxNode>) -> (result: Option<SyntaxTree>)
        ensures
            result matches Some(tree) ==> tree@ == nodes@ && tree_wf(nodes@),
            result is None ==> !tree_wf(nodes@),
    {
        let mut i: usize = 0;
        while i < nodes.len()
            invariant
                i <= nodes.len(),
                forall|k: int|
                    0 <= k < i ==> match (#[trigger] nodes@[k]).parent {
                        Some(p) => p < k,
                        None => true,
                    },
            decreases nodes.len() - i,
        {
            match nodes[i].parent {
                Some(p) => if p >= i {
                    return None;
                },
                None => (),
            }
            i += 1;
        }
        Some(SyntaxTree { nodes })
    }

    /// How many nodes the tree holds.
    pub fn node_count(&self) -> (n: usize)
        ensures
            n == self@.len(),
    {
        self.nodes.len()
    }

    /// The nearest ancestor of `start` (itself included) of the given kind.
    pub fn find_ancestor_of_kind(&self, start: usize, kind: SyntaxKind) -> (result: Option<usize>)
        requires
            tree_wf(self@),
            start < self@.len(),
        ensures
            result == ancestor_of_kind(self@, start, kind),
            result matches Some(found) ==> found < self@.len(),
    {
        let mut cur: usize = start;
        loop
            invariant
                tree_wf(self@),
                cur < self@.len(),
                ancestor_of_kind(self@, cur, kind) == ancestor_of_kind(self@, start, kind),
            decreases cur,
        {
            if self.nodes[cur].kind == kind {
                return Some(cur);
            }
            match self.nodes[cur].parent {
                Some(p) => {
                    proof {
                        assert(self@[cur as int].parent == Some(p));
                    }
                    cur = p;
                },
                None => {
                    return None;
                },
            }
        }
    }

    /// Whether `element` sits inside an import declaration.
    pub fn in_use_item(&self, element: usize) -> (result: bool)
        requires
            tree_wf(self@),
            element < self@.len(),
        ensures
            result == within_use_item(self@, element),
    {
        self.find_ancestor_of_kind(element, SyntaxKind::UseItem).is_some()
    }

    /// The first item-list child of `module`, if any.
    pub fn find_item_list_child(&self, module: usize) -> (result: Option<usize>)
        ensures
            result == item_list_child_from(self@, module, 0),
    {
        let mut j: usize = 0;
        while j < self.nodes.len()
            invariant
                j <= self@.len(),
                item_list_child_from(self@, module, j as int) == item_list_child_from(
                    self@,
                    module,
                    0,
                ),
            decreases self@.len() - j,
        {
            let n = self.nodes[j];
            let hit = match n.parent {
                Some(p) => p == module && n.kind == SyntaxKind::ItemList,
                None => false,
            };
            if hit {
                return Some(j);
            }
            j += 1;
        }
        None
    }

    /// The item list of the nearest enclosing module that has one.
    pub fn find_module_item_list(&self, start: usize) -> (result: Option<usize>)
        requires
            tree_wf(self@),
            start < self@.len(),
        ensures
            result == module_item_list_above(self@, start),
    {
        let mut cur: usize = start;
        loop
            invariant
                tree_wf(self@),
                cur < self@.len(),
                module_item_list_above(self@, cur) == module_item_list_above(self@, start),
            decreases cur,
        {
            if self.nodes[cur].kind == SyntaxKind::Module {
                let item_list = self.find_item_list_child(cur);
                if item_list.is_some() {
                    return item_list;
                }
            }
            match self.nodes[cur].parent {
                Some(p) => {
                    proof {
                        assert(self@[cur as int].parent == Some(p));
                    }
                    cur = p;
                },
                None => {
                    return None;
                },
            }
        }
    }

    /// The node that will host a new import for a path at `path_node`.
    pub fn find_anchor(&self, path_node: usize) -> (result: Option<usize>)
        requires
            tree_wf(self@),
            path_node < self@.len(),
        ensures
            result == anchor_of(self@, path_node),
    {
        match self.find_module_item_list(path_node) {
            Some(item_list) => Some(item_list),
            None => self.find_ancestor_of_kind(path_node, SyntaxKind::SourceFile),
        }
    }

    /// The name reference the assist applies to, mirroring
    /// [`applicable_name_ref`].
    pub fn find_applicable_name_ref(&self, element: usize) -> (result: Option<usize>)
        requires
            tree_wf(self@),
            element < self@.len(),
        ensures
            result == applicable_name_ref(self@, element),
    {
        if self.in_use_item(element) {
            None
        } else if self.nodes[element].kind == SyntaxKind::NameRef {
            Some(element)
        } else {
            match self.nodes[element].parent {
                Some(p) => {
                    proof {
                        assert(self@[element as int].parent == Some(p));
                    }
                    if self.nodes[p].kind == SyntaxKind::NameRef {
                        Some(p)
                    } else {
                        None
                    }
                },
                None => None,
            }
        }
    }
}

} // verus!
