//! Folding parsed schema files into the package forest.
//!
//! The merge walks the forest one package segment at a time.  Where a package
//! node with the current segment already exists the merge descends into the
//! first such node; otherwise it appends a fresh chain of package nodes ending
//! in the schema leaf.  Merging is therefore additive: every merge adds
//! exactly one schema leaf and leaves every leaf that was reachable before
//! reachable at the same path.

use vstd::prelude::*;

verus! {

use crate::ast::AST;
use crate::ast::ASTNode;
use crate::ast::ASTNodeV;
use crate::ast::PackageNode;
use crate::ast::PackageNodeV;
use crate::ast::SchemaFile;
use crate::ast::SchemaFileV;
use crate::ast::view_ast_node;
use crate::ast::view_ast_node_seq;
use crate::ast::view_ast_nodes;
use crate::ast::view_schema_file;
use crate::ast::view_strings;
use crate::ast::lemma_view_ast_node_seq;

broadcast use vstd::seq::group_seq_axioms, vstd::std_specs::vec::group_vec_axioms;

/// Why a schema file could not be merged.
#[derive(Debug, PartialEq, Eq, Clone, Copy, Structural)]
pub enum MergeError {
    /// The schema file's package path was empty; every schema must live under
    /// at least one package segment.
    EmptyPackagePath,
}

// ---------------------------------------------------------------------------
// Specification: counting, reachability, and the merge itself
// ---------------------------------------------------------------------------

/// How many schema leaves one node holds.
pub open spec fn count_schemas_node(n: ASTNodeV) -> nat
    decreases n, 1int,
    via count_schemas_node_decreases
{
    match n {
        ASTNodeV::SchemaNode(_) => 1,
        ASTNodeV::PackageNode(p) => count_schemas(p.inner),
    }
}

/// How many schema leaves a forest holds.
pub open spec fn count_schemas(ns: Seq<ASTNodeV>) -> nat
    decreases ns, 0int,
    via count_schemas_decreases
{
    if ns.len() == 0 {
        0
    } else {
        count_schemas_node(ns[0]) + count_schemas(ns.skip(1))
    }
}

#[via_fn]
proof fn count_schemas_node_decreases(n: ASTNodeV) {
    if let ASTNodeV::PackageNode(p) = n {
        assert(decreases_to!(n => p.inner));
    }
}

#[via_fn]
proof fn count_schemas_decreases(ns: Seq<ASTNodeV>) {
    if ns.len() != 0 {
        assert(decreases_to!(ns => ns[0]));
        assert(decreases_to!(ns => ns.skip(1)));
    }
}

/// The schema `sf` is reachable from `ns` by following the package segments
/// of `path` and then finding `sf` as a direct leaf.
pub open spec fn forest_contains(ns: Seq<ASTNodeV>, path: Seq<Seq<char>>, sf: SchemaFileV) -> bool
    decreases path.len(),
{
    if path.len() == 0 {
        exists|i: int| 0 <= i < ns.len() && ns[i] == ASTNodeV::SchemaNode(sf)
    } else {
        exists|i: int|
            0 <= i < ns.len() && #[trigger] ns[i] is PackageNode
                && ns[i]->PackageNode_0.name == path[0]
                && forest_contains(ns[i]->PackageNode_0.inner, path.skip(1), sf)
    }
}

/// A fresh chain of package nodes for the remaining segments, ending in the
/// schema leaf.
pub open spec fn spec_package_chain(path: Seq<Seq<char>>, sf: SchemaFileV) -> ASTNodeV
    decreases path.len(),
{
    if path.len() == 0 {
        ASTNodeV::SchemaNode(sf)
    } else {
        ASTNodeV::PackageNode(
            PackageNodeV { name: path[0], inner: seq![spec_package_chain(path.skip(1), sf)] },
        )
    }
}

/// Merging into a node already known to carry the first segment's name.
pub open spec fn spec_merge_node(n: ASTNodeV, path: Seq<Seq<char>>, sf: SchemaFileV) -> ASTNodeV
    decreases path.len(), 0int, 1int,
{
    if path.len() <= 1 {
        ASTNodeV::PackageNode(
            PackageNodeV {
                name: n->PackageNode_0.name,
                inner: n->PackageNode_0.inner.push(ASTNodeV::SchemaNode(sf)),
            },
        )
    } else {
        ASTNodeV::PackageNode(
            PackageNodeV {
                name: n->PackageNode_0.name,
                inner: spec_merge_nodes(n->PackageNode_0.inner, path.skip(1), sf),
            },
        )
    }
}

/// Merging a schema into a node list: the first package node named after the
/// first segment receives it; without one, a fresh chain is appended.
pub open spec fn spec_merge_nodes(
    ns: Seq<ASTNodeV>,
    path: Seq<Seq<char>>,
    sf: SchemaFileV,
) -> Seq<ASTNodeV>
    decreases path.len(), ns.len(), 0int,
{
    if ns.len() == 0 {
        seq![spec_package_chain(path, sf)]
    } else if ns[0] is PackageNode && ns[0]->PackageNode_0.name == path[0] {
        seq![spec_merge_node(ns[0], path, sf)] + ns.skip(1)
    } else {
        seq![ns[0]] + spec_merge_nodes(ns.skip(1), path, sf)
    }
}

// ---------------------------------------------------------------------------
// The merge laws
// ---------------------------------------------------------------------------

proof fn lemma_chain_count(path: Seq<Seq<char>>, sf: SchemaFileV)
    ensures
        count_schemas_node(spec_package_chain(path, sf)) == 1,
    decreases path.len(),
{
    if path.len() != 0 {
        lemma_chain_count(path.skip(1), sf);
        let inner = seq![spec_package_chain(path.skip(1), sf)];
        assert(inner.skip(1) =~= Seq::<ASTNodeV>::empty());
        assert(count_schemas(inner.skip(1)) == 0);
    }
}

proof fn lemma_chain_contains(path: Seq<Seq<char>>, sf: SchemaFileV)
    ensures
        forest_contains(seq![spec_package_chain(path, sf)], path, sf),
    decreases path.len(),
{
    let ns = seq![spec_package_chain(path, sf)];
    if path.len() == 0 {
        assert(ns[0] == ASTNodeV::SchemaNode(sf));
    } else {
        lemma_chain_contains(path.skip(1), sf);
        assert(ns[0] is PackageNode && ns[0]->PackageNode_0.name == path[0]);
    }
}

/// Every merge adds exactly one schema leaf to the forest.
pub proof fn lemma_merge_count(ns: Seq<ASTNodeV>, path: Seq<Seq<char>>, sf: SchemaFileV)
    requires
        path.len() > 0,
    ensures
        count_schemas(spec_merge_nodes(ns, path, sf)) == count_schemas(ns) + 1,
    decreases path.len(), ns.len(),
{
    let r = spec_merge_nodes(ns, path, sf);
    assert(count_schemas(r) == count_schemas_node(r[0]) + count_schemas(r.skip(1)));
    if ns.len() == 0 {
        lemma_chain_count(path, sf);
        assert(r[0] == spec_package_chain(path, sf));
        assert(r.skip(1) =~= Seq::<ASTNodeV>::empty());
        assert(count_schemas(r.skip(1)) == 0);
        assert(count_schemas(ns) == 0);
    } else if ns[0] is PackageNode && ns[0]->PackageNode_0.name == path[0] {
        let m = spec_merge_node(ns[0], path, sf);
        assert(count_schemas(ns) == count_schemas_node(ns[0]) + count_schemas(ns.skip(1)));
        assert(count_schemas_node(ns[0]) == count_schemas(ns[0]->PackageNode_0.inner));
        assert(count_schemas_node(m) == count_schemas(m->PackageNode_0.inner));
        if path.len() <= 1 {
            let inner0 = ns[0]->PackageNode_0.inner;
            lemma_count_push_schema(inner0, sf);
            assert(m->PackageNode_0.inner == inner0.push(ASTNodeV::SchemaNode(sf)));
        } else {
            lemma_merge_count(ns[0]->PackageNode_0.inner, path.skip(1), sf);
        }
        assert(r.skip(1) =~= ns.skip(1));
        assert(r[0] == m);
    } else {
        lemma_merge_count(ns.skip(1), path, sf);
        assert(count_schemas(ns) == count_schemas_node(ns[0]) + count_schemas(ns.skip(1)));
        assert(r.skip(1) =~= spec_merge_nodes(ns.skip(1), path, sf));
        assert(r[0] == ns[0]);
    }
}

proof fn lemma_count_push_schema(ns: Seq<ASTNodeV>, sf: SchemaFileV)
    ensures
        count_schemas(ns.push(ASTNodeV::SchemaNode(sf))) == count_schemas(ns) + 1,
    decreases ns.len(),
{
    let p = ns.push(ASTNodeV::SchemaNode(sf));
    assert(count_schemas(p) == count_schemas_node(p[0]) + count_schemas(p.skip(1)));
    if ns.len() == 0 {
        assert(p[0] == ASTNodeV::SchemaNode(sf));
        assert(p.skip(1) =~= Seq::<ASTNodeV>::empty());
        assert(count_schemas(p.skip(1)) == 0);
        assert(count_schemas(ns) == 0);
    } else {
        lemma_count_push_schema(ns.skip(1), sf);
        assert(p.skip(1) =~= ns.skip(1).push(ASTNodeV::SchemaNode(sf)));
        assert(p[0] == ns[0]);
        assert(count_schemas(ns) == count_schemas_node(ns[0]) + count_schemas(ns.skip(1)));
    }
}

/// After a merge, the merged schema is reachable along its package path.
pub proof fn lemma_merge_contains_new(ns: Seq<ASTNodeV>, path: Seq<Seq<char>>, sf: SchemaFileV)
    requires
        path.len() > 0,
    ensures
        forest_contains(spec_merge_nodes(ns, path, sf), path, sf),
    decreases path.len(), ns.len(),
{
    let r = spec_merge_nodes(ns, path, sf);
    if ns.len() == 0 {
        lemma_chain_contains(path, sf);
        let c = seq![spec_package_chain(path, sf)];
        assert(r =~= c);
    } else if ns[0] is PackageNode && ns[0]->PackageNode_0.name == path[0] {
        let m = spec_merge_node(ns[0], path, sf);
        if path.len() <= 1 {
            let inner1 = ns[0]->PackageNode_0.inner.push(ASTNodeV::SchemaNode(sf));
            assert(inner1[inner1.len() - 1] == ASTNodeV::SchemaNode(sf));
            assert(forest_contains(inner1, path.skip(1), sf));
        } else {
            lemma_merge_contains_new(ns[0]->PackageNode_0.inner, path.skip(1), sf);
        }
        assert(r[0] == m && m is PackageNode && m->PackageNode_0.name == path[0]);
    } else {
        lemma_merge_contains_new(ns.skip(1), path, sf);
        let rt = spec_merge_nodes(ns.skip(1), path, sf);
        let j = choose|j: int|
            0 <= j < rt.len() && #[trigger] rt[j] is PackageNode
                && rt[j]->PackageNode_0.name == path[0]
                && forest_contains(rt[j]->PackageNode_0.inner, path.skip(1), sf);
        assert(r[j + 1] == rt[j]);
    }
}

/// Whatever was reachable before a merge stays reachable, at the same path.
pub proof fn lemma_merge_preserves(
    ns: Seq<ASTNodeV>,
    path: Seq<Seq<char>>,
    sf: SchemaFileV,
    path2: Seq<Seq<char>>,
    sf2: SchemaFileV,
)
    requires
        path.len() > 0,
        forest_contains(ns, path2, sf2),
    ensures
        forest_contains(spec_merge_nodes(ns, path, sf), path2, sf2),
    decreases path.len(), ns.len(), 1int,
{
    let r = spec_merge_nodes(ns, path, sf);
    if ns.len() == 0 {
        // nothing was reachable from an empty forest
        if path2.len() == 0 {
            assert(forall|i: int| 0 <= i < ns.len() ==> ns[i] != ASTNodeV::SchemaNode(sf2));
        }
    } else if ns[0] is PackageNode && ns[0]->PackageNode_0.name == path[0] {
        let m = spec_merge_node(ns[0], path, sf);
        if path2.len() == 0 {
            let i = choose|i: int| 0 <= i < ns.len() && ns[i] == ASTNodeV::SchemaNode(sf2);
            // a schema leaf is never the merged package node, so i > 0
            assert(r[i] == ns[i]);
        } else {
            let i = choose|i: int|
                0 <= i < ns.len() && #[trigger] ns[i] is PackageNode
                    && ns[i]->PackageNode_0.name == path2[0]
                    && forest_contains(ns[i]->PackageNode_0.inner, path2.skip(1), sf2);
            if i == 0 {
                if path.len() <= 1 {
                    lemma_contains_push(
                        ns[0]->PackageNode_0.inner,
                        path2.skip(1),
                        sf2,
                        ASTNodeV::SchemaNode(sf),
                    );
                } else {
                    lemma_merge_preserves(
                        ns[0]->PackageNode_0.inner,
                        path.skip(1),
                        sf,
                        path2.skip(1),
                        sf2,
                    );
                }
                assert(r[0] == m && m is PackageNode && m->PackageNode_0.name == path2[0]);
                assert(forest_contains(m->PackageNode_0.inner, path2.skip(1), sf2));
            } else {
                assert(r[i] == ns[i]);
            }
        }
    } else {
        if path2.len() == 0 {
            let i = choose|i: int| 0 <= i < ns.len() && ns[i] == ASTNodeV::SchemaNode(sf2);
            if i == 0 {
                assert(r[0] == ns[0]);
            } else {
                lemma_merge_skip_first_contains(ns, path, sf, path2, sf2, i);
            }
        } else {
            let i = choose|i: int|
                0 <= i < ns.len() && #[trigger] ns[i] is PackageNode
                    && ns[i]->PackageNode_0.name == path2[0]
                    && forest_contains(ns[i]->PackageNode_0.inner, path2.skip(1), sf2);
            if i == 0 {
                assert(r[0] == ns[0]);
            } else {
                lemma_merge_skip_first_contains(ns, path, sf, path2, sf2, i);
            }
        }
    }
}

/// Helper: a witness at index `i > 0` survives a merge that recursed past the
/// first element.
proof fn lemma_merge_skip_first_contains(
    ns: Seq<ASTNodeV>,
    path: Seq<Seq<char>>,
    sf: SchemaFileV,
    path2: Seq<Seq<char>>,
    sf2: SchemaFileV,
    i: int,
)
    requires
        path.len() > 0,
        ns.len() > 0,
        !(ns[0] is PackageNode && ns[0]->PackageNode_0.name == path[0]),
        1 <= i < ns.len(),
        if path2.len() == 0 {
            ns[i] == ASTNodeV::SchemaNode(sf2)
        } else {
            ns[i] is PackageNode && ns[i]->PackageNode_0.name == path2[0]
                && forest_contains(ns[i]->PackageNode_0.inner, path2.skip(1), sf2)
        },
    ensures
        forest_contains(spec_merge_nodes(ns, path, sf), path2, sf2),
    decreases path.len(), ns.len(), 0int,
{
    let tail = ns.skip(1);
    assert(tail[i - 1] == ns[i]);
    assert(forest_contains(tail, path2, sf2));
    lemma_merge_preserves(tail, path, sf, path2, sf2);
    let rt = spec_merge_nodes(tail, path, sf);
    let r = spec_merge_nodes(ns, path, sf);
    if path2.len() == 0 {
        let j = choose|j: int| 0 <= j < rt.len() && rt[j] == ASTNodeV::SchemaNode(sf2);
        assert(r[j + 1] == rt[j]);
    } else {
        let j = choose|j: int|
            0 <= j < rt.len() && #[trigger] rt[j] is PackageNode
                && rt[j]->PackageNode_0.name == path2[0]
                && forest_contains(rt[j]->PackageNode_0.inner, path2.skip(1), sf2);
        assert(r[j + 1] == rt[j]);
    }
}

/// Helper: reachability in a node list survives appending one more node.
proof fn lemma_contains_push(
    ns: Seq<ASTNodeV>,
    path: Seq<Seq<char>>,
    sf: SchemaFileV,
    extra: ASTNodeV,
)
    requires
        forest_contains(ns, path, sf),
    ensures
        forest_contains(ns.push(extra), path, sf),
{
    let p = ns.push(extra);
    if path.len() == 0 {
        let i = choose|i: int| 0 <= i < ns.len() && ns[i] == ASTNodeV::SchemaNode(sf);
        assert(p[i] == ns[i]);
    } else {
        let i = choose|i: int|
            0 <= i < ns.len() && #[trigger] ns[i] is PackageNode
                && ns[i]->PackageNode_0.name == path[0]
                && forest_contains(ns[i]->PackageNode_0.inner, path.skip(1), sf);
        assert(p[i] == ns[i]);
    }
}

// ---------------------------------------------------------------------------
// Executable merge
// ---------------------------------------------------------------------------

impl PackageNode {
    /// Appends one node to this package level.
    pub fn add_node(self, node: ASTNode) -> (r: Self)
        ensures
            r@.name == self@.name,
            r@.inner == self@.inner.push(node@),
    {
        let mut inner = self.inner;
        let ghost old_inner = inner@;
        inner.push(node);
        proof {
            lemma_view_ast_node_seq(old_inner.push(node));
            lemma_view_ast_node_seq(old_inner);
            assert(view_ast_nodes(inner) =~= view_ast_node_seq(old_inner).push(view_ast_node(node)));
        }
        PackageNode { name: self.name, inner }
    }

    /// Does a direct child package with the given name exist?
    pub fn has_path(&self, path: &String) -> (r: bool)
        ensures
            r == exists|i: int|
                0 <= i < self@.inner.len() && #[trigger] self@.inner[i] is PackageNode
                    && self@.inner[i]->PackageNode_0.name == path@,
    {
        proof {
            lemma_view_ast_node_seq(self.inner@);
        }
        let n = self.inner.len();
        let mut k: usize = 0;
        while k < n
            invariant
                n == self.inner.len(),
                0 <= k <= n,
                forall|i: int|
                    0 <= i < k ==> !(#[trigger] self@.inner[i] is PackageNode
                        && self@.inner[i]->PackageNode_0.name == path@),
            decreases n - k,
        {
            proof {
                lemma_view_ast_node_seq(self.inner@);
            }
            match &self.inner[k] {
                ASTNode::PackageNode(pn) => {
                    if pn.name.eq(path) {
                        assert(self@.inner[k as int] is PackageNode
                            && self@.inner[k as int]->PackageNode_0.name == path@);
                        return true;
                    }
                },
                ASTNode::SchemaNode(_) => {},
            }
            k = k + 1;
        }
        false
    }

    /// The names this node exports for module nesting: its own name only.
    pub fn get_exports(&self) -> (r: Vec<String>)
        ensures
            r@.len() == 1,
            r@[0]@ == self@.name,
    {
        let mut v: Vec<String> = Vec::new();
        v.push(self.name.clone());
        v
    }
}

impl ASTNode {
    /// Builds the chain of package nodes for the path segments from `from`
    /// on, ending in the schema leaf.
    pub fn package_schema(schema: SchemaFile, path: &Vec<String>, from: usize) -> (r: Self)
        requires
            from <= path@.len(),
        ensures
            r@ == spec_package_chain(view_strings(*path).skip(from as int), view_schema_file(schema)),
        decreases path@.len() - from,
    {
        let ghost p = view_strings(*path).skip(from as int);
        if from < path.len() {
            let child = Self::package_schema(schema, path, from + 1);
            let mut inner: Vec<ASTNode> = Vec::new();
            let ghost ch = child@;
            inner.push(child);
            let r = ASTNode::PackageNode(PackageNode { name: path[from].clone(), inner });
            proof {
                lemma_view_ast_node_seq(r->PackageNode_0.inner@);
                assert(view_ast_nodes(r->PackageNode_0.inner) =~= seq![ch]);
                assert(view_strings(*path).skip(from as int + 1) =~= p.skip(1));
                assert(p[0] == path@[from as int]@);
            }
            r
        } else {
            assert(p.len() == 0);
            assert(p =~= Seq::<Seq<char>>::empty());
            ASTNode::SchemaNode(schema)
        }
    }

    /// Merges the schema into this node, which must be a package node named
    /// after segment `from` of the path.
    pub fn merge_schema(self, schema: SchemaFile, path: &Vec<String>, from: usize) -> (r: Self)
        requires
            from < path@.len(),
            self is PackageNode,
            view_ast_node(self)->PackageNode_0.name == path@[from as int]@,
        ensures
            r@ == spec_merge_node(
                view_ast_node(self),
                view_strings(*path).skip(from as int),
                view_schema_file(schema),
            ),
        decreases path@.len() - from, 0int, 1int,
    {
        let ghost p = view_strings(*path).skip(from as int);
        let len = path.len();
        match self {
            ASTNode::PackageNode(pn) => {
                if from + 1 < len {
                    let PackageNode { name, inner } = pn;
                    let ghost old_inner = view_ast_nodes(inner);
                    let inner = merge_into_nodes(inner, schema, path, from + 1);
                    let r = ASTNode::PackageNode(PackageNode { name, inner });
                    proof {
                        assert(view_strings(*path).skip(from as int + 1) =~= p.skip(1));
                        assert(p.len() > 1);
                    }
                    r
                } else {
                    let r = ASTNode::PackageNode(pn.add_node(ASTNode::SchemaNode(schema)));
                    proof {
                        assert(p.len() == 1);
                    }
                    r
                }
            },
            ASTNode::SchemaNode(_) => {
                proof {
                    assert(false);
                }
                self
            },
        }
    }
}

/// Merges the schema into a node list at segment `from` of the path: the
/// first package node carrying that segment's name receives it, and without
/// one a fresh chain is appended.
pub fn merge_into_nodes(
    nodes: Vec<ASTNode>,
    schema: SchemaFile,
    path: &Vec<String>,
    from: usize,
) -> (r: Vec<ASTNode>)
    requires
        from < path@.len(),
    ensures
        view_ast_nodes(r) == spec_merge_nodes(
            view_ast_nodes(nodes),
            view_strings(*path).skip(from as int),
            view_schema_file(schema),
        ),
    decreases path@.len() - from, 1int,
{
    let ghost ns = view_ast_nodes(nodes);
    let ghost p = view_strings(*path).skip(from as int);
    let ghost sfv = view_schema_file(schema);
    proof {
        lemma_view_ast_node_seq(nodes@);
        assert(p[0] == path@[from as int]@);
    }
    let n = nodes.len();
    let mut j: usize = 0;
    let mut found = false;
    while j < n && !found
        invariant
            n == nodes.len(),
            0 <= j <= n,
            ns == view_ast_nodes(nodes),
            ns.len() == n,
            p[0] == path@[from as int]@,
            from < path@.len(),
            forall|i: int|
                0 <= i < ns.len() ==> ns[i] == view_ast_node(nodes@[i]),
            forall|i: int|
                0 <= i < j ==> !(#[trigger] ns[i] is PackageNode
                    && ns[i]->PackageNode_0.name == p[0]),
            found ==> j < n && ns[j as int] is PackageNode
                && ns[j as int]->PackageNode_0.name == p[0],
        decreases n - j + (if found { 0int } else { 1int }),
    {
        match &nodes[j] {
            ASTNode::PackageNode(pn) => {
                if pn.name.eq(&path[from]) {
                    found = true;
                } else {
                    j = j + 1;
                }
            },
            ASTNode::SchemaNode(_) => {
                j = j + 1;
            },
        }
    }
    let mut nodes = nodes;
    if found {
        let node = nodes.remove(j);
        let node = node.merge_schema(schema, path, from);
        nodes.insert(j, node);
        proof {
            lemma_merge_first_match(ns, p, sfv, j as int);
            lemma_view_ast_node_seq(nodes@);
            assert(view_ast_nodes(nodes) =~= ns.update(
                j as int,
                spec_merge_node(ns[j as int], p, sfv),
            ));
        }
        nodes
    } else {
        let chain = ASTNode::package_schema(schema, path, from);
        let ghost chv = chain@;
        nodes.push(chain);
        proof {
            lemma_merge_no_match(ns, p, sfv);
            lemma_view_ast_node_seq(nodes@);
            assert(view_ast_nodes(nodes) =~= ns.push(chv));
        }
        nodes
    }
}

/// When the first matching package node sits at index `j`, the merge result
/// is the list with only that element replaced.
proof fn lemma_merge_first_match(ns: Seq<ASTNodeV>, path: Seq<Seq<char>>, sf: SchemaFileV, j: int)
    requires
        path.len() > 0,
        0 <= j < ns.len(),
        ns[j] is PackageNode && ns[j]->PackageNode_0.name == path[0],
        forall|i: int|
            0 <= i < j ==> !(#[trigger] ns[i] is PackageNode
                && ns[i]->PackageNode_0.name == path[0]),
    ensures
        spec_merge_nodes(ns, path, sf) == ns.update(j, spec_merge_node(ns[j], path, sf)),
    decreases j,
{
    let r = spec_merge_nodes(ns, path, sf);
    if j == 0 {
        assert(r =~= ns.update(0, spec_merge_node(ns[0], path, sf)));
    } else {
        let tail = ns.skip(1);
        assert(tail[j - 1] == ns[j]);
        assert(forall|i: int|
            0 <= i < j - 1 ==> !(#[trigger] tail[i] is PackageNode
                && tail[i]->PackageNode_0.name == path[0]));
        lemma_merge_first_match(tail, path, sf, j - 1);
        assert(r =~= ns.update(j, spec_merge_node(ns[j], path, sf)));
    }
}

/// Without a matching package node the merge appends the fresh chain.
proof fn lemma_merge_no_match(ns: Seq<ASTNodeV>, path: Seq<Seq<char>>, sf: SchemaFileV)
    requires
        path.len() > 0,
        forall|i: int|
            0 <= i < ns.len() ==> !(#[trigger] ns[i] is PackageNode
                && ns[i]->PackageNode_0.name == path[0]),
    ensures
        spec_merge_nodes(ns, path, sf) == ns.push(spec_package_chain(path, sf)),
    decreases ns.len(),
{
    let r = spec_merge_nodes(ns, path, sf);
    if ns.len() == 0 {
        assert(r =~= ns.push(spec_package_chain(path, sf)));
    } else {
        let tail = ns.skip(1);
        lemma_merge_no_match(tail, path, sf);
        assert(r =~= ns.push(spec_package_chain(path, sf)));
    }
}

/// The forest after merging a whole sequence of schema files, in order.
pub open spec fn spec_merge_all(ns: Seq<ASTNodeV>, schemas: Seq<SchemaFileV>) -> Seq<ASTNodeV>
    decreases schemas.len(),
{
    if schemas.len() == 0 {
        ns
    } else {
        spec_merge_nodes(
            spec_merge_all(ns, schemas.drop_last()),
            schemas.last().package_name,
            schemas.last(),
        )
    }
}

/// Merge completeness: folding any number of schema files with non-empty
/// package paths into a forest adds exactly one schema leaf per file, and
/// every merged file is reachable by following its own package path.
pub proof fn lemma_merge_completeness(ns: Seq<ASTNodeV>, schemas: Seq<SchemaFileV>)
    requires
        forall|k: int| 0 <= k < schemas.len() ==> (#[trigger] schemas[k].package_name).len() > 0,
    ensures
        count_schemas(spec_merge_all(ns, schemas)) == count_schemas(ns) + schemas.len(),
        forall|k: int|
            0 <= k < schemas.len() ==> forest_contains(
                spec_merge_all(ns, schemas),
                (#[trigger] schemas[k]).package_name,
                schemas[k],
            ),
    decreases schemas.len(),
{
    if schemas.len() > 0 {
        let prefix = schemas.drop_last();
        let last = schemas.last();
        lemma_merge_completeness(ns, prefix);
        let before = spec_merge_all(ns, prefix);
        lemma_merge_count(before, last.package_name, last);
        lemma_merge_contains_new(before, last.package_name, last);
        assert forall|k: int| 0 <= k < schemas.len() implies forest_contains(
            spec_merge_all(ns, schemas),
            (#[trigger] schemas[k]).package_name,
            schemas[k],
        ) by {
            if k < schemas.len() - 1 {
                assert(prefix[k] == schemas[k]);
                lemma_merge_preserves(
                    before,
                    last.package_name,
                    last,
                    schemas[k].package_name,
                    schemas[k],
                );
            }
        }
    }
}

impl AST {
    /// Folds one parsed schema file into the forest at the path given by its
    /// package segments.  A schema with an empty package path is refused:
    /// every schema must live under at least one package segment.
    pub fn merge_schema(self, schema: SchemaFile) -> (r: Result<AST, MergeError>)
        ensures
            schema@.package_name.len() == 0 <==> r is Err,
            r is Err ==> r->Err_0 == MergeError::EmptyPackagePath,
            r is Ok ==> r->Ok_0@.inner == spec_merge_nodes(
                self@.inner,
                schema@.package_name,
                schema@,
            ),
            // every merge adds exactly one schema leaf,
            r is Ok ==> count_schemas(r->Ok_0@.inner) == count_schemas(self@.inner) + 1,
            // the merged schema is reachable along its package path,
            r is Ok ==> forest_contains(r->Ok_0@.inner, schema@.package_name, schema@),
            // and whatever was reachable before stays reachable.
            r is Ok ==> forall|path2: Seq<Seq<char>>, sf2: SchemaFileV|
                forest_contains(self@.inner, path2, sf2) ==> #[trigger] forest_contains(
                    r->Ok_0@.inner,
                    path2,
                    sf2,
                ),
    {
        if schema.package_name.len() == 0 {
            return Err(MergeError::EmptyPackagePath);
        }
        let path = clone_strings(&schema.package_name);
        let ghost sfv = schema@;
        let ghost ns = self@.inner;
        let inner = merge_into_nodes(self.inner, schema, &path, 0);
        proof {
            assert(view_strings(path).skip(0) =~= sfv.package_name);
            lemma_merge_count(ns, sfv.package_name, sfv);
            lemma_merge_contains_new(ns, sfv.package_name, sfv);
            assert forall|path2: Seq<Seq<char>>, sf2: SchemaFileV|
                forest_contains(ns, path2, sf2) implies #[trigger] forest_contains(
                spec_merge_nodes(ns, sfv.package_name, sfv),
                path2,
                sf2,
            ) by {
                lemma_merge_preserves(ns, sfv.package_name, sfv, path2, sf2);
            }
        }
        Ok(AST { inner })
    }
}

/// A deep copy of a list of strings.
fn clone_strings(v: &Vec<String>) -> (r: Vec<String>)
    ensures
        view_strings(r) == view_strings(*v),
        r@.len() == v@.len(),
{
    let mut r: Vec<String> = Vec::new();
    let n = v.len();
    let mut k: usize = 0;
    while k < n
        invariant
            n == v@.len(),
            0 <= k <= n,
            r@.len() == k,
            forall|i: int| 0 <= i < k ==> r@[i]@ == v@[i]@,
        decreases n - k,
    {
        r.push(v[k].clone());
        k = k + 1;
    }
    proof {
        assert(view_strings(r) =~= view_strings(*v));
    }
    r
}

} // verus!
