//! The syntax-tree adapter.
//!
//! An external incremental parser turns raw Java source bytes into a concrete
//! syntax tree. The library sees that tree only as a flat sequence of plain
//! records — a node-kind tag, a byte range into the original buffer, and the
//! index of the parent node — and re-checks every structural property it
//! relies on, so nothing about the tree's shape is taken on trust.

use vstd::prelude::*;

use crate::errors::LibError;

verus! {

/// One node of the concrete syntax tree, as plain values: its kind tag, its
/// byte range `[start, end)` into the source buffer, the index of its parent
/// in the flattened preorder sequence (the root points at itself), and
/// whether the parser marked the node as erroneous or missing.
pub struct RawNode {
    pub kind: String,
    pub start: usize,
    pub end: usize,
    pub parent: usize,
    pub error: bool,
}

/// The flattened concrete syntax tree that the Java grammar produces for
/// these bytes, or nothing when the parser refuses to run. The grammar is
/// fixed at build time, so the parse is a function of the source alone.
pub uninterp spec fn java_parse(src: Seq<u8>) -> Option<Seq<RawNode>>;

/// Relies on tree_sitter::Parser::parse with the grammar of
/// tree_sitter_java::LANGUAGE: parses the bytes into a concrete syntax tree,
/// which is handed back flattened in preorder, each node as its kind tag,
/// byte range, parent index, and error-or-missing marker. `None` when the
/// parser refuses to run. The parse depends on the source bytes alone, so
/// its result is the named `java_parse` of the input.
#[verifier::external_body]
fn parse_java_bytes(src: &Vec<u8>) -> (r: Option<Vec<RawNode>>)
    ensures
        r is Some <==> java_parse(src@) is Some,
        r is Some ==> r->0@ == java_parse(src@)->0,
{
    let mut ps = tree_sitter::Parser::new();
    ps.set_language(&tree_sitter_java::LANGUAGE.into()).ok()?;
    let tree = ps.parse(src, None)?;
    let mut out = Vec::new();
    let mut st = vec![(tree.root_node(), 0usize)];
    while let Some((n, parent)) = st.pop() {
        let i = out.len();
        out.push(RawNode { kind: n.kind().to_string(), start: n.start_byte(), end: n.end_byte(), parent, error: n.is_error() || n.is_missing() });
        for c in (0..n.child_count()).rev() {
            st.extend(n.child(c).map(|x| (x, i)));
        }
    }
    Some(out)
}

/// A parsed source file: the flattened concrete syntax tree. Node indices
/// serve as anchors; index 0 is the root of the file.
pub struct SyntaxTree {
    pub nodes: Vec<RawNode>,
}

/// A node is clean when the parser attached no error or missing marker to it.
pub open spec fn node_clean(n: RawNode) -> bool {
    !n.error
}

/// Structural well-formedness of a flattened tree against a buffer of length
/// `len`: there is a root, every byte range lies inside the buffer, every
/// non-root node's parent precedes it, and no node carries an error marker.
pub open spec fn wf_tree(ns: Seq<RawNode>, len: nat) -> bool {
    &&& ns.len() > 0
    &&& ns[0].parent == 0
    &&& forall|i: int| 0 <= i < ns.len() ==> (#[trigger] ns[i].start) <= ns[i].end <= len
    &&& forall|i: int| 1 <= i < ns.len() ==> (#[trigger] ns[i].parent) < i
    &&& forall|i: int| 0 <= i < ns.len() ==> node_clean(#[trigger] ns[i])
}

/// Document order of a flattened tree: every node's range lies inside its
/// parent's, and siblings hold disjoint ranges in index order.
#[verifier::opaque]
pub open spec fn wf_order(ns: Seq<RawNode>) -> bool {
    &&& forall|i: int|
        1 <= i < ns.len() ==> ns[(#[trigger] ns[i].parent) as int].start <= ns[i].start && ns[i].end
            <= ns[ns[i].parent as int].end
    &&& forall|i: int, j: int|
        1 <= i < j < ns.len() && (#[trigger] ns[i]).parent == (#[trigger] ns[j]).parent ==> ns[i].end
            <= ns[j].start
}

/// Every nonempty node begins at a byte that is not a space or a tab: the
/// grammar's tokens never start inside the blank run before them.
#[verifier::opaque]
pub open spec fn wf_starts(ns: Seq<RawNode>, src: Seq<u8>) -> bool {
    forall|i: int|
        0 <= i < ns.len() && (#[trigger] ns[i]).start < ns[i].end && ns[i].end <= src.len() ==> src[
            ns[i].start as int
        ] != 32 && src[ns[i].start as int] != 9
}

impl SyntaxTree {
    /// Well-formedness of this tree against a buffer of length `len`.
    pub open spec fn wf(&self, len: nat) -> bool {
        wf_tree(self.nodes@, len)
    }

    /// Number of nodes.
    pub fn len(&self) -> (r: usize)
        ensures
            r == self.nodes@.len(),
    {
        self.nodes.len()
    }
}

fn validate_nodes(nodes: &Vec<RawNode>, src: &Vec<u8>) -> (r: bool)
    ensures
        r == (wf_tree(nodes@, src@.len()) && wf_order(nodes@) && wf_starts(nodes@, src@)),
{
    let len = src.len();
    let n = nodes.len();
    if n == 0 {
        return false;
    }
    if nodes[0].parent != 0 {
        return false;
    }
    let mut i: usize = 0;
    while i < n
        invariant
            i <= n,
            n == nodes@.len(),
            len == src@.len(),
            nodes@[0].parent == 0,
            forall|j: int| 0 <= j < i ==> (#[trigger] nodes@[j].start) <= nodes@[j].end <= len,
            forall|j: int| 1 <= j < i ==> (#[trigger] nodes@[j].parent) < j,
            forall|j: int|
                1 <= j < i ==> nodes@[(#[trigger] nodes@[j].parent) as int].start
                    <= nodes@[j].start && nodes@[j].end <= nodes@[nodes@[j].parent as int].end,
            forall|j: int| 0 <= j < i ==> node_clean(#[trigger] nodes@[j]),
            forall|j: int|
                0 <= j < i && (#[trigger] nodes@[j]).start < nodes@[j].end && nodes@[j].end
                    <= src@.len() ==> src@[nodes@[j].start as int] != 32 && src@[nodes@[j].start as int]
                    != 9,
        decreases n - i,
    {
        let nd_start = nodes[i].start;
        let nd_end = nodes[i].end;
        let nd_parent = nodes[i].parent;
        let nd_error = nodes[i].error;
        proof {
            assert(nd_start == nodes@[i as int].start);
            assert(nd_end == nodes@[i as int].end);
            assert(nd_parent == nodes@[i as int].parent);
            assert(nd_error == nodes@[i as int].error);
        }
        if !(nd_start <= nd_end && nd_end <= len) {
            proof {
                assert(!((nodes@[i as int].start) <= nodes@[i as int].end <= len));
            }
            return false;
        }
        if i >= 1 {
            if nd_parent >= i {
                proof {
                    assert((nodes@[i as int].parent) >= i);
                }
                return false;
            }
            if !(nodes[nd_parent].start <= nd_start && nd_end <= nodes[nd_parent].end) {
                proof {
                    assert(!wf_order(nodes@)) by {
                        reveal(wf_order);
                        if wf_order(nodes@) {
                            assert(nodes@[(nodes@[i as int].parent) as int].start
                                <= nodes@[i as int].start && nodes@[i as int].end
                                <= nodes@[nodes@[i as int].parent as int].end);
                        }
                    }
                }
                return false;
            }
        }
        if nd_error {
            proof {
                assert(!wf_tree(nodes@, src@.len())) by {
                    if wf_tree(nodes@, src@.len()) {
                        assert(node_clean(nodes@[i as int]));
                    }
                }
            }
            return false;
        }
        if nd_start < nd_end {
            if src[nd_start] == 32 || src[nd_start] == 9 {
                proof {
                    assert(!wf_starts(nodes@, src@)) by {
                        reveal(wf_starts);
                        if wf_starts(nodes@, src@) {
                            assert(src@[nodes@[i as int].start as int] != 32
                                && src@[nodes@[i as int].start as int] != 9);
                        }
                    }
                }
                return false;
            }
        }
        proof {
            assert(node_clean(nodes@[i as int]));
        }
        i = i + 1;
    }
    let mut a: usize = 1;
    while a < n
        invariant
            1 <= a,
            n == nodes@.len(),
            forall|x: int, y: int|
                1 <= x < y < n && x < a && (#[trigger] nodes@[x]).parent == (
                #[trigger] nodes@[y]).parent ==> nodes@[x].end <= nodes@[y].start,
        decreases n - a,
    {
        let mut b: usize = a + 1;
        while b < n
            invariant
                1 <= a,
                a < b,
                a < n,
                n == nodes@.len(),
                forall|x: int, y: int|
                    1 <= x < y < n && x < a && (#[trigger] nodes@[x]).parent == (
                    #[trigger] nodes@[y]).parent ==> nodes@[x].end <= nodes@[y].start,
                forall|y: int|
                    a < y < b && (#[trigger] nodes@[y]).parent == nodes@[a as int].parent
                        ==> nodes@[a as int].end <= nodes@[y].start,
            decreases n - b,
        {
            if nodes[a].parent == nodes[b].parent && nodes[a].end > nodes[b].start {
                proof {
                    assert(!wf_order(nodes@)) by {
                        reveal(wf_order);
                        if wf_order(nodes@) {
                            assert((nodes@[a as int]).parent == (nodes@[b as int]).parent);
                            assert(nodes@[a as int].end <= nodes@[b as int].start);
                        }
                    }
                }
                return false;
            }
            b = b + 1;
        }
        a = a + 1;
    }
    proof {
        assert(wf_order(nodes@)) by {
            reveal(wf_order);
        }
        assert(wf_starts(nodes@, src@)) by {
            reveal(wf_starts);
        }
    }
    true
}

/// The named parse of these bytes yields a tree and that tree is
/// structurally sound: this is exactly when parsing succeeds.
pub open spec fn spec_parse_ok(src: Seq<u8>) -> bool {
    java_parse(src) is Some && wf_tree(java_parse(src)->0, src.len()) && wf_order(
        java_parse(src)->0,
    ) && wf_starts(java_parse(src)->0, src)
}

/// The named parse tree of these bytes.
pub open spec fn spec_parse_tree(src: Seq<u8>) -> Seq<RawNode> {
    java_parse(src)->0
}

/// Parses raw Java source bytes into a checked syntax tree.
///
/// Succeeds exactly when the named parse of the bytes yields a structurally
/// sound tree — no error or missing node anywhere, every range in bounds,
/// children inside their parents, siblings disjoint in document order, and
/// no token starting on a blank — and then returns exactly that tree;
/// everything else is the parse failure error. Every one of these facts is
/// re-checked here, not taken on trust.
pub fn parse_source(src: &Vec<u8>) -> (r: Result<SyntaxTree, LibError>)
    ensures
        r is Ok <==> spec_parse_ok(src@),
        r is Ok ==> r->Ok_0.nodes@ == spec_parse_tree(src@),
        r is Ok ==> r->Ok_0.wf(src@.len()),
        r is Ok ==> wf_order(r->Ok_0.nodes@),
        r is Ok ==> wf_starts(r->Ok_0.nodes@, src@),
        r is Err ==> r->Err_0 == LibError::ParseFailure,
{
    match parse_java_bytes(src) {
        None => Err(LibError::ParseFailure),
        Some(nodes) => {
            if validate_nodes(&nodes, src) {
                Ok(SyntaxTree { nodes })
            } else {
                Err(LibError::ParseFailure)
            }
        },
    }
}

} // verus!
