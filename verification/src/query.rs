//! Structural queries over a parsed Java syntax tree.
//!
//! Anchors — the package clause, the import list, the single top-level type
//! declaration, its body, field declarations, annotations — are node indices
//! found by kind-tag matching. Every query is characterized exactly: which
//! node is returned (always the first or the unique match, in preorder
//! index order) and what holds when none is returned.

use vstd::prelude::*;

use crate::errors::LibError;
use crate::text::bytes_eq;
use crate::text::subrange_vec;
use crate::tree::RawNode;
use crate::tree::SyntaxTree;
use crate::tree::wf_tree;

verus! {

/// Node `j` is a child of node `i` with kind `k`.
pub open spec fn matches_child(ns: Seq<RawNode>, i: int, k: Seq<char>, j: int) -> bool {
    1 <= j < ns.len() && ns[j].parent == i && ns[j].kind@ == k
}

/// Node `j` is the first child of `i` with kind `k`.
pub open spec fn is_first_child_kind(ns: Seq<RawNode>, i: int, k: Seq<char>, j: int) -> bool {
    matches_child(ns, i, k, j) && forall|m: int| 1 <= m < j ==> !matches_child(ns, i, k, m)
}

/// Node `i` has no child of kind `k`.
pub open spec fn no_child_kind(ns: Seq<RawNode>, i: int, k: Seq<char>) -> bool {
    forall|j: int| !matches_child(ns, i, k, j)
}

/// Kind tags of top-level type declarations.
pub open spec fn is_type_decl_kind(k: Seq<char>) -> bool {
    ||| k == "class_declaration"@
    ||| k == "interface_declaration"@
    ||| k == "enum_declaration"@
    ||| k == "record_declaration"@
    ||| k == "annotation_type_declaration"@
}

/// Kind tags of type bodies.
pub open spec fn is_body_kind(k: Seq<char>) -> bool {
    ||| k == "class_body"@
    ||| k == "interface_body"@
    ||| k == "enum_body"@
    ||| k == "record_body"@
    ||| k == "annotation_type_body"@
}

/// Kind tags of plain or qualified names.
pub open spec fn is_name_kind(k: Seq<char>) -> bool {
    k == "identifier"@ || k == "scoped_identifier"@
}

/// Kind tags of annotation uses.
pub open spec fn is_annotation_kind(k: Seq<char>) -> bool {
    k == "marker_annotation"@ || k == "annotation"@
}

/// Node `j` is a top-level type declaration (a child of the root).
pub open spec fn is_top_type_decl(ns: Seq<RawNode>, j: int) -> bool {
    1 <= j < ns.len() && ns[j].parent == 0 && is_type_decl_kind(ns[j].kind@)
}

/// Number of top-level type declarations among nodes below index `upto`.
pub open spec fn top_type_decl_count(ns: Seq<RawNode>, upto: int) -> nat
    decreases upto,
{
    if upto <= 1 {
        0
    } else {
        top_type_decl_count(ns, upto - 1) + if is_top_type_decl(ns, upto - 1) {
            1nat
        } else {
            0nat
        }
    }
}

/// Node `a` is an annotation attached to declaration `d`: its parent is a
/// modifiers node whose parent is `d`.
pub open spec fn is_annotation_of(ns: Seq<RawNode>, d: int, a: int) -> bool {
    &&& 1 <= a < ns.len()
    &&& is_annotation_kind(ns[a].kind@)
    &&& 1 <= ns[a].parent < ns.len()
    &&& ns[ns[a].parent as int].kind@ == "modifiers"@
    &&& ns[ns[a].parent as int].parent == d
}

/// Node `j` is the first name child of `a` (the annotation's type name).
pub open spec fn is_first_name_child(ns: Seq<RawNode>, a: int, j: int) -> bool {
    &&& 1 <= j < ns.len()
    &&& ns[j].parent == a
    &&& is_name_kind(ns[j].kind@)
    &&& forall|m: int|
        1 <= m < j ==> !(ns[m].parent == a && is_name_kind((#[trigger] ns[m]).kind@))
}

/// The bytes of the source range covered by node `j`.
pub open spec fn node_text(ns: Seq<RawNode>, src: Seq<u8>, j: int) -> Seq<u8> {
    src.subrange(ns[j].start as int, ns[j].end as int)
}

/// Annotation `a` of declaration `d` is named `name` (the bytes of its name
/// node equal `name`).
pub open spec fn spec_annotation_named(
    ns: Seq<RawNode>,
    src: Seq<u8>,
    d: int,
    a: int,
    name: Seq<u8>,
) -> bool {
    &&& is_annotation_of(ns, d, a)
    &&& exists|j: int| is_first_name_child(ns, a, j) && node_text(ns, src, j) == name
}

/// Declaration `d` carries an annotation named `name`.
pub open spec fn spec_has_annotation(
    ns: Seq<RawNode>,
    src: Seq<u8>,
    d: int,
    name: Seq<u8>,
) -> bool {
    exists|a: int| spec_annotation_named(ns, src, d, a, name)
}

/// Node `f` is a field declaration in body `body`.
pub open spec fn is_field_decl(ns: Seq<RawNode>, body: int, f: int) -> bool {
    matches_child(ns, body, "field_declaration"@, f)
}

/// Node `nm` is the name node of field declaration `f`: the first identifier
/// child of the first variable-declarator child of `f`.
pub open spec fn is_field_name_node(ns: Seq<RawNode>, f: int, nm: int) -> bool {
    exists|d: int|
        #[trigger] is_first_child_kind(ns, f, "variable_declarator"@, d) && is_first_child_kind(
            ns,
            d,
            "identifier"@,
            nm,
        )
}

/// Node `ty` is the declared-type node of field declaration `f`: the first
/// child that is not a modifiers node.
pub open spec fn is_field_type_node(ns: Seq<RawNode>, f: int, ty: int) -> bool {
    &&& 1 <= ty < ns.len()
    &&& ns[ty].parent == f
    &&& ns[ty].kind@ != "modifiers"@
    &&& forall|m: int|
        1 <= m < ty ==> !(ns[m].parent == f && (#[trigger] ns[m]).kind@ != "modifiers"@)
}

/// Field `f` of `body` is named `name`.
pub open spec fn spec_field_named(
    ns: Seq<RawNode>,
    src: Seq<u8>,
    body: int,
    f: int,
    name: Seq<u8>,
) -> bool {
    &&& is_field_decl(ns, body, f)
    &&& exists|nm: int| #[trigger] is_field_name_node(ns, f, nm) && node_text(ns, src, nm) == name
}

/// Some field of `body` is named `name`.
pub open spec fn spec_has_field_named(
    ns: Seq<RawNode>,
    src: Seq<u8>,
    body: int,
    name: Seq<u8>,
) -> bool {
    exists|f: int| spec_field_named(ns, src, body, f, name)
}

/// Whether the node's kind tag equals `k`.
pub fn kind_is(n: &RawNode, k: &str) -> (r: bool)
    ensures
        r == (n.kind@ == k@),
{
    let ks: String = k.to_owned();
    n.kind == ks
}

/// The first child of `i` whose kind is `kind`, in preorder index order.
pub fn first_child_of_kind(t: &SyntaxTree, i: usize, kind: &str) -> (r: Option<usize>)
    ensures
        match r {
            Some(j) => is_first_child_kind(t.nodes@, i as int, kind@, j as int),
            None => no_child_kind(t.nodes@, i as int, kind@),
        },
{
    let n = t.nodes.len();
    let mut j: usize = 1;
    while j < n
        invariant
            1 <= j,
            n == t.nodes@.len(),
            forall|m: int| 1 <= m < j ==> !matches_child(t.nodes@, i as int, kind@, m),
        decreases n - j,
    {
        let nd = &t.nodes[j];
        if nd.parent == i && kind_is(nd, kind) {
            return Some(j);
        }
        proof {
            assert(!matches_child(t.nodes@, i as int, kind@, j as int));
        }
        j = j + 1;
    }
    proof {
        assert forall|m: int| !matches_child(t.nodes@, i as int, kind@, m) by {
            if 1 <= m < n {
            }
        }
    }
    None
}

/// The package clause of the file, when one exists.
pub fn find_package_clause(t: &SyntaxTree) -> (r: Option<usize>)
    ensures
        match r {
            Some(j) => is_first_child_kind(t.nodes@, 0, "package_declaration"@, j as int),
            None => no_child_kind(t.nodes@, 0, "package_declaration"@),
        },
{
    first_child_of_kind(t, 0, "package_declaration")
}

/// The single top-level type declaration of the file.
///
/// Succeeds exactly when the file holds one top-level class, interface,
/// enum, record or annotation declaration; zero or several yield the
/// anchor-not-found error.
pub fn find_type_declaration(t: &SyntaxTree) -> (r: Result<usize, LibError>)
    ensures
        r is Ok <==> top_type_decl_count(t.nodes@, t.nodes@.len() as int) == 1,
        r is Ok ==> is_top_type_decl(t.nodes@, r->Ok_0 as int),
        r is Err ==> r->Err_0 == LibError::AnchorNotFound,
{
    let n = t.nodes.len();
    if n == 0 {
        proof {
            assert(top_type_decl_count(t.nodes@, 0) == 0);
        }
        return Err(LibError::AnchorNotFound);
    }
    let mut j: usize = 1;
    let mut found: usize = 0;
    let mut count: usize = 0;
    while j < n
        invariant
            1 <= j <= n,
            n == t.nodes@.len(),
            count == top_type_decl_count(t.nodes@, j as int),
            count <= j,
            count >= 1 ==> is_top_type_decl(t.nodes@, found as int),
        decreases n - j,
    {
        let nd = &t.nodes[j];
        let is_decl = nd.parent == 0 && (kind_is(nd, "class_declaration") || kind_is(
            nd,
            "interface_declaration",
        ) || kind_is(nd, "enum_declaration") || kind_is(nd, "record_declaration") || kind_is(
            nd,
            "annotation_type_declaration",
        ));
        proof {
            assert(is_decl == is_top_type_decl(t.nodes@, j as int));
        }
        if is_decl {
            found = j;
            count = count + 1;
        }
        j = j + 1;
    }
    if count == 1 {
        Ok(found)
    } else {
        Err(LibError::AnchorNotFound)
    }
}

/// The body of a type declaration.
pub fn find_body(t: &SyntaxTree, decl: usize) -> (r: Option<usize>)
    ensures
        match r {
            Some(j) => {
                &&& 1 <= j < t.nodes@.len()
                &&& t.nodes@[j as int].parent == decl
                &&& is_body_kind(t.nodes@[j as int].kind@)
                &&& forall|m: int|
                    1 <= m < j ==> !(t.nodes@[m].parent == decl && is_body_kind(
                        (#[trigger] t.nodes@[m]).kind@,
                    ))
            },
            None => forall|m: int|
                1 <= m < t.nodes@.len() ==> !(t.nodes@[m].parent == decl && is_body_kind(
                    (#[trigger] t.nodes@[m]).kind@,
                )),
        },
{
    let n = t.nodes.len();
    let mut j: usize = 1;
    while j < n
        invariant
            1 <= j,
            n == t.nodes@.len(),
            forall|m: int|
                1 <= m < j ==> !(t.nodes@[m].parent == decl && is_body_kind(
                    (#[trigger] t.nodes@[m]).kind@,
                )),
        decreases n - j,
    {
        let nd = &t.nodes[j];
        if nd.parent == decl && (kind_is(nd, "class_body") || kind_is(nd, "interface_body")
            || kind_is(nd, "enum_body") || kind_is(nd, "record_body") || kind_is(
            nd,
            "annotation_type_body",
        )) {
            return Some(j);
        }
        j = j + 1;
    }
    None
}

/// The first name child of node `a` — for an annotation, its type name.
pub fn first_name_child(t: &SyntaxTree, a: usize) -> (r: Option<usize>)
    ensures
        match r {
            Some(j) => is_first_name_child(t.nodes@, a as int, j as int),
            None => forall|m: int|
                1 <= m < t.nodes@.len() ==> !(t.nodes@[m].parent == a && is_name_kind(
                    (#[trigger] t.nodes@[m]).kind@,
                )),
        },
{
    let n = t.nodes.len();
    let mut j: usize = 1;
    while j < n
        invariant
            1 <= j,
            n == t.nodes@.len(),
            forall|m: int|
                1 <= m < j ==> !(t.nodes@[m].parent == a && is_name_kind(
                    (#[trigger] t.nodes@[m]).kind@,
                )),
        decreases n - j,
    {
        let nd = &t.nodes[j];
        if nd.parent == a && (kind_is(nd, "identifier") || kind_is(nd, "scoped_identifier")) {
            return Some(j);
        }
        j = j + 1;
    }
    None
}

/// The bytes covered by node `j`.
pub fn node_bytes(t: &SyntaxTree, src: &Vec<u8>, j: usize) -> (r: Vec<u8>)
    requires
        t.wf(src@.len()),
        j < t.nodes@.len(),
    ensures
        r@ == node_text(t.nodes@, src@, j as int),
{
    let nd = &t.nodes[j];
    subrange_vec(src, nd.start, nd.end)
}

/// Whether declaration `d` carries an annotation whose name reads exactly as
/// the bytes of `name`.
pub fn has_annotation(t: &SyntaxTree, src: &Vec<u8>, d: usize, name: &Vec<u8>) -> (r: bool)
    requires
        t.wf(src@.len()),
    ensures
        r == spec_has_annotation(t.nodes@, src@, d as int, name@),
{
    match find_annotation_named(t, src, d, name) {
        Some(_) => true,
        None => false,
    }
}

/// The first annotation of declaration `d` whose name reads exactly as the
/// bytes of `name`.
pub fn find_annotation_named(t: &SyntaxTree, src: &Vec<u8>, d: usize, name: &Vec<u8>) -> (r: Option<
    usize,
>)
    requires
        t.wf(src@.len()),
    ensures
        match r {
            Some(a) => spec_annotation_named(t.nodes@, src@, d as int, a as int, name@),
            None => !spec_has_annotation(t.nodes@, src@, d as int, name@),
        },
{
    let n = t.nodes.len();
    let mut a: usize = 1;
    while a < n
        invariant
            1 <= a,
            n == t.nodes@.len(),
            t.wf(src@.len()),
            forall|m: int|
                1 <= m < a ==> !spec_annotation_named(t.nodes@, src@, d as int, m, name@),
        decreases n - a,
    {
        let nd = &t.nodes[a];
        if (kind_is(nd, "marker_annotation") || kind_is(nd, "annotation")) && nd.parent >= 1 {
            let p = nd.parent;
            let pn = &t.nodes[p];
            if kind_is(pn, "modifiers") && pn.parent == d {
                proof {
                    assert(is_annotation_of(t.nodes@, d as int, a as int));
                }
                match first_name_child(t, a) {
                    Some(nm) => {
                        let txt = node_bytes(t, src, nm);
                        if bytes_eq(txt.as_slice(), name.as_slice()) {
                            return Some(a);
                        }
                        proof {
                            assert forall|j: int|
                                is_first_name_child(t.nodes@, a as int, j) implies node_text(
                                t.nodes@,
                                src@,
                                j,
                            ) != name@ by {
                                assert(j == nm as int);
                            }
                        }
                    },
                    None => {
                        proof {
                            assert forall|j: int|
                                is_first_name_child(t.nodes@, a as int, j) implies node_text(
                                t.nodes@,
                                src@,
                                j,
                            ) != name@ by {
                                assert(t.nodes@[j].parent == a as int && is_name_kind(
                                    t.nodes@[j].kind@,
                                ));
                            }
                        }
                    },
                }
            }
        }
        proof {
            assert(!spec_annotation_named(t.nodes@, src@, d as int, a as int, name@));
        }
        a = a + 1;
    }
    proof {
        assert forall|m: int| !spec_annotation_named(t.nodes@, src@, d as int, m, name@) by {
            if 1 <= m < n {
            }
        }
    }
    None
}

/// All field declarations of body `body`, in preorder index order: the
/// returned indices are exactly the field-declaration children of the body,
/// ascending.
pub fn collect_field_decls(t: &SyntaxTree, body: usize) -> (r: Vec<usize>)
    ensures
        forall|k: int|
            0 <= k < r@.len() ==> is_field_decl(t.nodes@, body as int, (#[trigger] r@[k]) as int),
        forall|k1: int, k2: int| 0 <= k1 < k2 < r@.len() ==> r@[k1] < r@[k2],
        forall|f: int|
            #[trigger] is_field_decl(t.nodes@, body as int, f) ==> r@.contains(f as usize),
{
    let n = t.nodes.len();
    let mut out: Vec<usize> = Vec::new();
    let mut j: usize = 1;
    while j < n
        invariant
            1 <= j,
            n == t.nodes@.len(),
            forall|k: int|
                0 <= k < out@.len() ==> is_field_decl(
                    t.nodes@,
                    body as int,
                    (#[trigger] out@[k]) as int,
                ),
            forall|k: int| 0 <= k < out@.len() ==> (#[trigger] out@[k]) < j,
            forall|k1: int, k2: int| 0 <= k1 < k2 < out@.len() ==> out@[k1] < out@[k2],
            forall|f: int|
                1 <= f < j && #[trigger] is_field_decl(t.nodes@, body as int, f) ==> out@.contains(
                    f as usize,
                ),
        decreases n - j,
    {
        let nd = &t.nodes[j];
        if nd.parent == body && kind_is(nd, "field_declaration") {
            let ghost prev = out@;
            out.push(j);
            proof {
                assert(out@ == prev.push(j));
                assert forall|f: int|
                    1 <= f < j + 1 && #[trigger] is_field_decl(t.nodes@, body as int, f)
                    implies out@.contains(f as usize) by {
                    if f < j {
                        assert(prev.contains(f as usize));
                        let k = choose|k: int| 0 <= k < prev.len() && prev[k] == f as usize;
                        assert(out@[k] == f as usize);
                    } else {
                        assert(out@[out@.len() - 1] == f as usize);
                    }
                }
            }
        } else {
            proof {
                assert(!is_field_decl(t.nodes@, body as int, j as int));
            }
        }
        j = j + 1;
    }
    proof {
        assert forall|f: int| #[trigger] is_field_decl(t.nodes@, body as int, f) implies
            out@.contains(f as usize) by {
            assert(1 <= f < n);
        }
    }
    out
}

/// The name node of field declaration `f`, with its byte range.
pub fn field_name_range(t: &SyntaxTree, f: usize) -> (r: Option<usize>)
    ensures
        match r {
            Some(nm) => is_field_name_node(t.nodes@, f as int, nm as int),
            None => forall|nm: int| !is_field_name_node(t.nodes@, f as int, nm),
        },
{
    match first_child_of_kind(t, f, "variable_declarator") {
        Some(d) => {
            match first_child_of_kind(t, d, "identifier") {
                Some(nm) => {
                    proof {
                        assert(is_field_name_node(t.nodes@, f as int, nm as int));
                    }
                    Some(nm)
                },
                None => {
                    proof {
                        assert forall|nm: int| !is_field_name_node(t.nodes@, f as int, nm) by {
                            if is_field_name_node(t.nodes@, f as int, nm) {
                                let d2 = choose|d2: int|
                                    is_first_child_kind(t.nodes@, f as int, "variable_declarator"@, d2)
                                        && is_first_child_kind(t.nodes@, d2, "identifier"@, nm);
                                assert(d2 == d as int);
                                assert(matches_child(t.nodes@, d as int, "identifier"@, nm));
                            }
                        }
                    }
                    None
                },
            }
        },
        None => {
            proof {
                assert forall|nm: int| !is_field_name_node(t.nodes@, f as int, nm) by {
                    if is_field_name_node(t.nodes@, f as int, nm) {
                        let d2 = choose|d2: int|
                            is_first_child_kind(t.nodes@, f as int, "variable_declarator"@, d2)
                                && is_first_child_kind(t.nodes@, d2, "identifier"@, nm);
                        assert(matches_child(t.nodes@, f as int, "variable_declarator"@, d2));
                    }
                }
            }
            None
        },
    }
}

/// The declared-type node of field declaration `f`: its first child that is
/// not the modifiers node.
pub fn field_type_node(t: &SyntaxTree, f: usize) -> (r: Option<usize>)
    ensures
        match r {
            Some(ty) => is_field_type_node(t.nodes@, f as int, ty as int),
            None => forall|ty: int| !is_field_type_node(t.nodes@, f as int, ty),
        },
{
    let n = t.nodes.len();
    let mut j: usize = 1;
    while j < n
        invariant
            1 <= j,
            n == t.nodes@.len(),
            forall|m: int|
                1 <= m < j ==> !(t.nodes@[m].parent == f && (#[trigger] t.nodes@[m]).kind@
                    != "modifiers"@),
        decreases n - j,
    {
        let nd = &t.nodes[j];
        if nd.parent == f && !kind_is(nd, "modifiers") {
            return Some(j);
        }
        j = j + 1;
    }
    proof {
        assert forall|ty: int| !is_field_type_node(t.nodes@, f as int, ty) by {
            if is_field_type_node(t.nodes@, f as int, ty) {
            }
        }
    }
    None
}

/// Whether some field of `body` is named exactly as the bytes of `name`.
pub fn has_field_named(t: &SyntaxTree, src: &Vec<u8>, body: usize, name: &Vec<u8>) -> (r: bool)
    requires
        t.wf(src@.len()),
    ensures
        r == spec_has_field_named(t.nodes@, src@, body as int, name@),
{
    let n = t.nodes.len();
    let mut j: usize = 1;
    while j < n
        invariant
            1 <= j,
            n == t.nodes@.len(),
            t.wf(src@.len()),
            forall|m: int| 1 <= m < j ==> !spec_field_named(t.nodes@, src@, body as int, m, name@),
        decreases n - j,
    {
        let nd = &t.nodes[j];
        if nd.parent == body && kind_is(nd, "field_declaration") {
            match field_name_range(t, j) {
                Some(nm) => {
                    let txt = node_bytes(t, src, nm);
                    if bytes_eq(txt.as_slice(), name.as_slice()) {
                        proof {
                            assert(spec_field_named(t.nodes@, src@, body as int, j as int, name@));
                        }
                        return true;
                    }
                    proof {
                        assert forall|nm2: int|
                            is_field_name_node(t.nodes@, j as int, nm2) implies node_text(
                            t.nodes@,
                            src@,
                            nm2,
                        ) != name@ by {
                            lemma_field_name_node_unique(t.nodes@, j as int, nm as int, nm2);
                        }
                    }
                },
                None => {},
            }
        }
        proof {
            assert(!spec_field_named(t.nodes@, src@, body as int, j as int, name@));
        }
        j = j + 1;
    }
    proof {
        assert forall|m: int| !spec_field_named(t.nodes@, src@, body as int, m, name@) by {
            if 1 <= m < n {
            }
        }
    }
    false
}

/// Node `body` is the first body child of declaration `decl`.
pub open spec fn is_first_body_of(ns: Seq<RawNode>, decl: int, body: int) -> bool {
    &&& 1 <= body < ns.len()
    &&& ns[body].parent == decl
    &&& is_body_kind(ns[body].kind@)
    &&& forall|m: int|
        1 <= m < body ==> !(ns[m].parent == decl && is_body_kind((#[trigger] ns[m]).kind@))
}

/// The first body child of a declaration is unique.
pub proof fn lemma_first_body_determinism(ns: Seq<RawNode>, decl: int, b1: int, b2: int)
    requires
        is_first_body_of(ns, decl, b1),
        is_first_body_of(ns, decl, b2),
    ensures
        b1 == b2,
{
    if b1 < b2 {
        assert(ns[b1].parent == decl && is_body_kind(ns[b1].kind@));
    } else if b2 < b1 {
        assert(ns[b2].parent == decl && is_body_kind(ns[b2].kind@));
    }
}

/// Node `j` is the last child of `i` with kind `k`.
pub open spec fn is_last_child_kind(ns: Seq<RawNode>, i: int, k: Seq<char>, j: int) -> bool {
    matches_child(ns, i, k, j) && forall|m: int| j < m ==> !matches_child(ns, i, k, m)
}

/// The last child of `i` whose kind is `kind`, in preorder index order.
pub fn find_last_child_of_kind(t: &SyntaxTree, i: usize, kind: &str) -> (r: Option<usize>)
    ensures
        match r {
            Some(j) => is_last_child_kind(t.nodes@, i as int, kind@, j as int),
            None => no_child_kind(t.nodes@, i as int, kind@),
        },
{
    let n = t.nodes.len();
    let mut j: usize = 1;
    let mut last: usize = 0;
    let mut seen: bool = false;
    while j < n
        invariant
            1 <= j,
            n == t.nodes@.len(),
            seen ==> matches_child(t.nodes@, i as int, kind@, last as int) && last < j,
            seen ==> forall|m: int|
                last < m < j ==> !matches_child(t.nodes@, i as int, kind@, m),
            !seen ==> forall|m: int| 1 <= m < j ==> !matches_child(t.nodes@, i as int, kind@, m),
        decreases n - j,
    {
        let nd = &t.nodes[j];
        if nd.parent == i && kind_is(nd, kind) {
            last = j;
            seen = true;
        } else {
            proof {
                assert(!matches_child(t.nodes@, i as int, kind@, j as int));
            }
        }
        j = j + 1;
    }
    if seen {
        proof {
            assert forall|m: int| (last as int) < m implies !matches_child(
                t.nodes@,
                i as int,
                kind@,
                m,
            ) by {
                if 1 <= m < n {
                }
            }
        }
        Some(last)
    } else {
        proof {
            assert forall|m: int| !matches_child(t.nodes@, i as int, kind@, m) by {
                if 1 <= m < n {
                }
            }
        }
        None
    }
}

/// Kind tags that stand for a member of a type body rather than its
/// punctuation: anything but the braces, the semicolon and the comma.
pub open spec fn is_member_kind(k: Seq<char>) -> bool {
    k != "{"@ && k != "}"@ && k != ";"@ && k != ","@
}

/// Node `j` is the last member of body `i`.
pub open spec fn is_last_member(ns: Seq<RawNode>, i: int, j: int) -> bool {
    &&& 1 <= j < ns.len()
    &&& ns[j].parent == i
    &&& is_member_kind(ns[j].kind@)
    &&& forall|m: int|
        j < m < ns.len() ==> !(ns[m].parent == i && is_member_kind((#[trigger] ns[m]).kind@))
}

/// Body `i` has no members at all.
pub open spec fn no_members(ns: Seq<RawNode>, i: int) -> bool {
    forall|m: int|
        1 <= m < ns.len() ==> !(ns[m].parent == i && is_member_kind((#[trigger] ns[m]).kind@))
}

/// The last member of body `i`, in preorder index order.
pub fn find_last_member(t: &SyntaxTree, i: usize) -> (r: Option<usize>)
    ensures
        match r {
            Some(j) => is_last_member(t.nodes@, i as int, j as int),
            None => no_members(t.nodes@, i as int),
        },
{
    let n = t.nodes.len();
    let mut j: usize = 1;
    let mut last: usize = 0;
    let mut seen: bool = false;
    while j < n
        invariant
            1 <= j,
            n == t.nodes@.len(),
            seen ==> j <= n,
            seen ==> 1 <= last < j && t.nodes@[last as int].parent == i as int && is_member_kind(
                t.nodes@[last as int].kind@,
            ),
            seen ==> forall|m: int|
                last < m < j ==> !(t.nodes@[m].parent == i && is_member_kind(
                    (#[trigger] t.nodes@[m]).kind@,
                )),
            !seen ==> forall|m: int|
                1 <= m < j ==> !(t.nodes@[m].parent == i && is_member_kind(
                    (#[trigger] t.nodes@[m]).kind@,
                )),
        decreases n - j,
    {
        let nd = &t.nodes[j];
        let member = nd.parent == i && !kind_is(nd, "{") && !kind_is(nd, "}") && !kind_is(nd, ";")
            && !kind_is(nd, ",");
        if member {
            last = j;
            seen = true;
        }
        j = j + 1;
    }
    if seen {
        Some(last)
    } else {
        None
    }
}

/// The name node of a field declaration is unique.
pub proof fn lemma_field_name_node_unique(ns: Seq<RawNode>, f: int, nm1: int, nm2: int)
    requires
        is_field_name_node(ns, f, nm1),
        is_field_name_node(ns, f, nm2),
    ensures
        nm1 == nm2,
{
    let d1 = choose|d: int|
        #[trigger] is_first_child_kind(ns, f, "variable_declarator"@, d) && is_first_child_kind(
            ns,
            d,
            "identifier"@,
            nm1,
        );
    let d2 = choose|d: int|
        #[trigger] is_first_child_kind(ns, f, "variable_declarator"@, d) && is_first_child_kind(
            ns,
            d,
            "identifier"@,
            nm2,
        );
    assert(d1 == d2) by {
        if d1 < d2 {
            assert(matches_child(ns, f, "variable_declarator"@, d1));
        } else if d2 < d1 {
            assert(matches_child(ns, f, "variable_declarator"@, d2));
        }
    }
    if nm1 < nm2 {
        assert(matches_child(ns, d1, "identifier"@, nm1));
    } else if nm2 < nm1 {
        assert(matches_child(ns, d1, "identifier"@, nm2));
    }
}

/// The first name child of a node is unique.
pub proof fn lemma_anchor_determinism_name(ns: Seq<RawNode>, a: int, j1: int, j2: int)
    requires
        is_first_name_child(ns, a, j1),
        is_first_name_child(ns, a, j2),
    ensures
        j1 == j2,
{
    if j1 < j2 {
        assert(ns[j1].parent == a && is_name_kind(ns[j1].kind@));
    } else if j2 < j1 {
        assert(ns[j2].parent == a && is_name_kind(ns[j2].kind@));
    }
}

/// The declared-type node of a field declaration is unique.
pub proof fn lemma_field_type_node_unique(ns: Seq<RawNode>, f: int, t1: int, t2: int)
    requires
        is_field_type_node(ns, f, t1),
        is_field_type_node(ns, f, t2),
    ensures
        t1 == t2,
{
    if t1 < t2 {
        assert(ns[t1].parent == f && ns[t1].kind@ != "modifiers"@);
    } else if t2 < t1 {
        assert(ns[t2].parent == f && ns[t2].kind@ != "modifiers"@);
    }
}

/// A top-level type declaration's kind tag is neither the import nor the
/// package kind.
pub proof fn lemma_structural_kinds_distinct(k: Seq<char>)
    requires
        is_type_decl_kind(k),
    ensures
        k != "import_declaration"@,
        k != "package_declaration"@,
{
    reveal_strlit("class_declaration");
    reveal_strlit("interface_declaration");
    reveal_strlit("enum_declaration");
    reveal_strlit("record_declaration");
    reveal_strlit("annotation_type_declaration");
    reveal_strlit("import_declaration");
    reveal_strlit("package_declaration");
    assert(("class_declaration"@).len() == 17);
    assert(("interface_declaration"@).len() == 21);
    assert(("enum_declaration"@).len() == 16);
    assert(("record_declaration"@).len() == 18);
    assert(("annotation_type_declaration"@).len() == 27);
    assert(("import_declaration"@).len() == 18);
    assert(("package_declaration"@).len() == 19);
    if k == "record_declaration"@ {
        assert(("record_declaration"@)[0] == 'r');
        assert(("import_declaration"@)[0] == 'i');
        assert(k != "import_declaration"@);
    }
}

/// Anchor determinism: any two results that meet the first-match
/// characterization of a child query are the same node, so repeating a query
/// on one tree always yields one anchor.
pub proof fn lemma_anchor_determinism(ns: Seq<RawNode>, i: int, k: Seq<char>, j1: int, j2: int)
    requires
        is_first_child_kind(ns, i, k, j1),
        is_first_child_kind(ns, i, k, j2),
    ensures
        j1 == j2,
{
    if j1 < j2 {
        assert(matches_child(ns, i, k, j1));
    } else if j2 < j1 {
        assert(matches_child(ns, i, k, j2));
    }
}

/// The unique top-level type declaration is determined: any two nodes that
/// are top-level type declarations of a tree holding exactly one are equal.
pub proof fn lemma_type_decl_determinism(ns: Seq<RawNode>, j1: int, j2: int)
    requires
        top_type_decl_count(ns, ns.len() as int) == 1,
        is_top_type_decl(ns, j1),
        is_top_type_decl(ns, j2),
    ensures
        j1 == j2,
{
    if j1 != j2 {
        let lo = if j1 < j2 {
            j1
        } else {
            j2
        };
        let hi = if j1 < j2 {
            j2
        } else {
            j1
        };
        lemma_count_two(ns, lo, hi, ns.len() as int);
    }
}

proof fn lemma_count_at_least_one(ns: Seq<RawNode>, j: int, upto: int)
    requires
        is_top_type_decl(ns, j),
        j < upto <= ns.len(),
    ensures
        top_type_decl_count(ns, upto) >= 1,
    decreases upto,
{
    if upto - 1 > j {
        lemma_count_at_least_one(ns, j, upto - 1);
    }
}

proof fn lemma_count_two(ns: Seq<RawNode>, lo: int, hi: int, upto: int)
    requires
        is_top_type_decl(ns, lo),
        is_top_type_decl(ns, hi),
        lo < hi < upto <= ns.len(),
    ensures
        top_type_decl_count(ns, upto) >= 2,
    decreases upto,
{
    if upto - 1 > hi {
        lemma_count_two(ns, lo, hi, upto - 1);
    } else {
        lemma_count_at_least_one(ns, lo, upto - 1);
    }
}

} // verus!
