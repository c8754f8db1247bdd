//! Classification of a parsed source file: whether it declares an entity or
//! a mapped superclass, and the descriptor — package, simple name,
//! superclass, identifier field, declared fields — that repository
//! generation and discovery work from.
//!
//! Classification is a pure function of one file's tree and bytes; no state
//! crosses files.

use vstd::prelude::*;
use vstd::string::StringSliceAdditionalSpecFns;

use crate::errors::LibError;
use crate::query::collect_field_decls;
use crate::query::field_name_range;
use crate::query::field_type_node;
use crate::query::find_annotation_named;
use crate::query::find_body;
use crate::query::find_package_clause;
use crate::query::find_type_declaration;
use crate::query::first_child_of_kind;
use crate::query::first_name_child;
use crate::query::is_field_decl;
use crate::query::is_field_name_node;
use crate::query::is_field_type_node;
use crate::query::is_first_child_kind;
use crate::query::is_first_name_child;
use crate::query::node_bytes;
use crate::query::node_text;
use crate::query::spec_has_annotation;
use crate::query::top_type_decl_count;
use crate::responses::EntityField;
use crate::responses::GetJpaEntityInfoResponse;
use crate::responses::JpaTypeDescriptor;
use crate::responses::SourceFile;
use crate::tree::parse_source;
use crate::text::str_bytes;
use crate::tree::SyntaxTree;
use crate::tree::RawNode;

verus! {

/// The annotation name that marks an entity.
pub open spec fn spec_entity_marker() -> Seq<u8> {
    "Entity".spec_bytes()
}

/// The annotation name that marks a mapped superclass.
pub open spec fn spec_mapped_superclass_marker() -> Seq<u8> {
    "MappedSuperclass".spec_bytes()
}

/// The annotation name that marks an identifier field.
pub open spec fn spec_id_marker() -> Seq<u8> {
    "Id".spec_bytes()
}

/// Field `f` of `body` is the identifier field: a field declaration marked
/// with the identifier annotation.
pub open spec fn spec_is_id_field(ns: Seq<RawNode>, src: Seq<u8>, body: int, f: int) -> bool {
    is_field_decl(ns, body, f) && spec_has_annotation(ns, src, f, spec_id_marker())
}

/// The first identifier field of `body`.
pub fn find_id_field(t: &SyntaxTree, src: &Vec<u8>, body: usize) -> (r: Option<usize>)
    requires
        t.wf(src@.len()),
    ensures
        match r {
            Some(f) => spec_is_id_field(t.nodes@, src@, body as int, f as int) && forall|m: int|
                1 <= m < f ==> !spec_is_id_field(t.nodes@, src@, body as int, m),
            None => forall|m: int| !spec_is_id_field(t.nodes@, src@, body as int, m),
        },
{
    let n = t.nodes.len();
    let marker = str_bytes("Id");
    let mut j: usize = 1;
    while j < n
        invariant
            1 <= j,
            n == t.nodes@.len(),
            t.wf(src@.len()),
            marker@ == spec_id_marker(),
            forall|m: int| 1 <= m < j ==> !spec_is_id_field(t.nodes@, src@, body as int, m),
        decreases n - j,
    {
        let nd = &t.nodes[j];
        if nd.parent == body && crate::query::kind_is(nd, "field_declaration") {
            if crate::query::has_annotation(t, src, j, &marker) {
                return Some(j);
            }
        }
        proof {
            assert(!spec_is_id_field(t.nodes@, src@, body as int, j as int));
        }
        j = j + 1;
    }
    proof {
        assert forall|m: int| !spec_is_id_field(t.nodes@, src@, body as int, m) by {
            if 1 <= m < n {
            }
        }
    }
    None
}

/// The simple name of declaration `decl`: the bytes of its first identifier
/// child.
pub fn decl_name(t: &SyntaxTree, src: &Vec<u8>, decl: usize) -> (r: Option<Vec<u8>>)
    requires
        t.wf(src@.len()),
    ensures
        match r {
            Some(nm) => exists|j: int|
                #[trigger] is_first_child_kind(t.nodes@, decl as int, "identifier"@, j) && nm@
                    == node_text(t.nodes@, src@, j),
            None => crate::query::no_child_kind(t.nodes@, decl as int, "identifier"@),
        },
{
    match first_child_of_kind(t, decl, "identifier") {
        Some(j) => Some(node_bytes(t, src, j)),
        None => None,
    }
}

/// The file has a readable package name: a package clause whose first
/// name child names it.
pub open spec fn spec_has_package_name(ns: Seq<RawNode>) -> bool {
    exists|p: int, j: int|
        #![auto]
        is_first_child_kind(ns, 0, "package_declaration"@, p) && is_first_name_child(ns, p, j)
}

/// The package name of the file: the bytes of the name inside the package
/// clause. Some exactly when the file has a package clause with a name.
pub fn package_name_of(t: &SyntaxTree, src: &Vec<u8>) -> (r: Option<Vec<u8>>)
    requires
        t.wf(src@.len()),
    ensures
        r is Some <==> spec_has_package_name(t.nodes@),
        match r {
            Some(nm) => exists|p: int, j: int|
                #[trigger] is_first_child_kind(t.nodes@, 0, "package_declaration"@, p)
                    && #[trigger] is_first_name_child(t.nodes@, p, j) && nm@ == node_text(
                    t.nodes@,
                    src@,
                    j,
                ),
            None => true,
        },
{
    match find_package_clause(t) {
        Some(p) => {
            match first_name_child(t, p) {
                Some(j) => {
                    proof {
                        assert(spec_has_package_name(t.nodes@));
                    }
                    Some(node_bytes(t, src, j))
                },
                None => {
                    proof {
                        assert(!spec_has_package_name(t.nodes@)) by {
                            if spec_has_package_name(t.nodes@) {
                                let (p2, j2) = choose|p2: int, j2: int|
                                    #![auto]
                                    is_first_child_kind(
                                        t.nodes@,
                                        0,
                                        "package_declaration"@,
                                        p2,
                                    ) && is_first_name_child(t.nodes@, p2, j2);
                                crate::query::lemma_anchor_determinism(
                                    t.nodes@,
                                    0,
                                    "package_declaration"@,
                                    p2,
                                    p as int,
                                );
                                assert(t.nodes@[j2].parent == p as int
                                    && crate::query::is_name_kind(t.nodes@[j2].kind@));
                            }
                        }
                    }
                    None
                },
            }
        },
        None => {
            proof {
                assert(!spec_has_package_name(t.nodes@)) by {
                    if spec_has_package_name(t.nodes@) {
                        let (p2, j2) = choose|p2: int, j2: int|
                            #![auto]
                            is_first_child_kind(t.nodes@, 0, "package_declaration"@, p2)
                                && is_first_name_child(t.nodes@, p2, j2);
                        assert(crate::query::matches_child(
                            t.nodes@,
                            0,
                            "package_declaration"@,
                            p2,
                        ));
                    }
                }
            }
            None
        },
    }
}

/// Declaration `decl` has a readable superclass name: a superclass clause
/// whose first type identifier names it.
pub open spec fn spec_has_superclass_name(ns: Seq<RawNode>, decl: int) -> bool {
    exists|s: int, j: int|
        #![auto]
        is_first_child_kind(ns, decl, "superclass"@, s) && is_first_child_kind(
            ns,
            s,
            "type_identifier"@,
            j,
        )
}

/// The superclass name of declaration `decl`: the type inside its
/// superclass clause. Some exactly when the declaration has a superclass
/// clause with a type identifier.
pub fn superclass_of(t: &SyntaxTree, src: &Vec<u8>, decl: usize) -> (r: Option<Vec<u8>>)
    requires
        t.wf(src@.len()),
    ensures
        r is Some <==> spec_has_superclass_name(t.nodes@, decl as int),
        match r {
            Some(nm) => exists|s: int, j: int|
                #[trigger] is_first_child_kind(t.nodes@, decl as int, "superclass"@, s)
                    && #[trigger] is_first_child_kind(t.nodes@, s, "type_identifier"@, j) && nm@
                    == node_text(t.nodes@, src@, j),
            None => true,
        },
{
    match first_child_of_kind(t, decl, "superclass") {
        Some(s) => {
            match first_child_of_kind(t, s, "type_identifier") {
                Some(j) => {
                    proof {
                        assert(spec_has_superclass_name(t.nodes@, decl as int));
                    }
                    Some(node_bytes(t, src, j))
                },
                None => {
                    proof {
                        assert(!spec_has_superclass_name(t.nodes@, decl as int)) by {
                            if spec_has_superclass_name(t.nodes@, decl as int) {
                                let (s2, j2) = choose|s2: int, j2: int|
                                    #![auto]
                                    is_first_child_kind(t.nodes@, decl as int, "superclass"@, s2)
                                        && is_first_child_kind(
                                        t.nodes@,
                                        s2,
                                        "type_identifier"@,
                                        j2,
                                    );
                                crate::query::lemma_anchor_determinism(
                                    t.nodes@,
                                    decl as int,
                                    "superclass"@,
                                    s2,
                                    s as int,
                                );
                                assert(crate::query::matches_child(
                                    t.nodes@,
                                    s as int,
                                    "type_identifier"@,
                                    j2,
                                ));
                            }
                        }
                    }
                    None
                },
            }
        },
        None => {
            proof {
                assert(!spec_has_superclass_name(t.nodes@, decl as int)) by {
                    if spec_has_superclass_name(t.nodes@, decl as int) {
                        let (s2, j2) = choose|s2: int, j2: int|
                            #![auto]
                            is_first_child_kind(t.nodes@, decl as int, "superclass"@, s2)
                                && is_first_child_kind(t.nodes@, s2, "type_identifier"@, j2);
                        assert(crate::query::matches_child(
                            t.nodes@,
                            decl as int,
                            "superclass"@,
                            s2,
                        ));
                    }
                }
            }
            None
        },
    }
}

/// The first body of declaration `decl` is unique.
pub proof fn lemma_body_determinism(ns: Seq<RawNode>, decl: int, b1: int, b2: int)
    requires
        1 <= b1 < ns.len() && ns[b1].parent == decl && crate::query::is_body_kind(ns[b1].kind@)
            && forall|m: int|
            1 <= m < b1 ==> !(ns[m].parent == decl && crate::query::is_body_kind(
                (#[trigger] ns[m]).kind@,
            )),
        1 <= b2 < ns.len() && ns[b2].parent == decl && crate::query::is_body_kind(ns[b2].kind@)
            && forall|m: int|
            1 <= m < b2 ==> !(ns[m].parent == decl && crate::query::is_body_kind(
                (#[trigger] ns[m]).kind@,
            )),
    ensures
        b1 == b2,
{
    if b1 < b2 {
        assert(ns[b1].parent == decl && crate::query::is_body_kind(ns[b1].kind@));
    } else if b2 < b1 {
        assert(ns[b2].parent == decl && crate::query::is_body_kind(ns[b2].kind@));
    }
}

/// The file's single declaration has a local identifier field whose
/// declared type can be read: the chain from the unique top-level
/// declaration through its first body to an identifier-marked field with a
/// type node.
pub open spec fn spec_has_local_id_type(ns: Seq<RawNode>, src: Seq<u8>) -> bool {
    exists|decl: int, body: int, f: int, ty: int|
        #![auto]
        spec_local_id_chain(ns, src, decl, body, f, ty)
}

/// The chain that identifies a local identifier field's type node.
pub open spec fn spec_local_id_chain(
    ns: Seq<RawNode>,
    src: Seq<u8>,
    decl: int,
    body: int,
    f: int,
    ty: int,
) -> bool {
    &&& top_type_decl_count(ns, ns.len() as int) == 1
    &&& crate::query::is_top_type_decl(ns, decl)
    &&& 1 <= body < ns.len() && ns[body].parent == decl && crate::query::is_body_kind(
        ns[body].kind@,
    )
    &&& forall|m: int|
        1 <= m < body ==> !(ns[m].parent == decl && crate::query::is_body_kind(
            (#[trigger] ns[m]).kind@,
        ))
    &&& spec_is_id_field(ns, src, body, f)
    &&& forall|m: int| 1 <= m < f ==> !spec_is_id_field(ns, src, body, m)
    &&& is_field_type_node(ns, f, ty)
}

/// The declared type of the file's local identifier field, when the single
/// declaration has one.
pub fn local_id_type_bytes(t: &SyntaxTree, src: &Vec<u8>) -> (r: Option<Vec<u8>>)
    requires
        t.wf(src@.len()),
    ensures
        r is Some <==> spec_has_local_id_type(t.nodes@, src@),
        r is Some ==> exists|decl: int, body: int, f: int, ty: int|
            #![auto]
            spec_local_id_chain(t.nodes@, src@, decl, body, f, ty) && r->0@ == node_text(
                t.nodes@,
                src@,
                ty,
            ),
{
    let decl = match find_type_declaration(t) {
        Ok(d) => d,
        Err(_) => {
            proof {
                assert(!spec_has_local_id_type(t.nodes@, src@));
            }
            return None;
        },
    };
    let body = match find_body(t, decl) {
        Some(b) => b,
        None => {
            proof {
                assert forall|d2: int, b2: int, f2: int, ty2: int|
                    !spec_local_id_chain(t.nodes@, src@, d2, b2, f2, ty2) by {
                    if spec_local_id_chain(t.nodes@, src@, d2, b2, f2, ty2) {
                        crate::query::lemma_type_decl_determinism(t.nodes@, d2, decl as int);
                        assert(t.nodes@[b2].parent == decl as int && crate::query::is_body_kind(
                            t.nodes@[b2].kind@,
                        ));
                    }
                }
            }
            return None;
        },
    };
    let f = match find_id_field(t, src, body) {
        Some(f) => f,
        None => {
            proof {
                assert forall|d2: int, b2: int, f2: int, ty2: int|
                    !spec_local_id_chain(t.nodes@, src@, d2, b2, f2, ty2) by {
                    if spec_local_id_chain(t.nodes@, src@, d2, b2, f2, ty2) {
                        crate::query::lemma_type_decl_determinism(t.nodes@, d2, decl as int);
                        lemma_body_determinism(t.nodes@, decl as int, b2, body as int);
                        assert(spec_is_id_field(t.nodes@, src@, body as int, f2));
                    }
                }
            }
            return None;
        },
    };
    match field_type_node(t, f) {
        Some(ty) => {
            proof {
                assert(spec_local_id_chain(
                    t.nodes@,
                    src@,
                    decl as int,
                    body as int,
                    f as int,
                    ty as int,
                ));
            }
            Some(node_bytes(t, src, ty))
        },
        None => {
            proof {
                assert forall|d2: int, b2: int, f2: int, ty2: int|
                    !spec_local_id_chain(t.nodes@, src@, d2, b2, f2, ty2) by {
                    if spec_local_id_chain(t.nodes@, src@, d2, b2, f2, ty2) {
                        crate::query::lemma_type_decl_determinism(t.nodes@, d2, decl as int);
                        lemma_body_determinism(t.nodes@, decl as int, b2, body as int);
                        lemma_id_field_first_determinism(
                            t.nodes@,
                            src@,
                            body as int,
                            f as int,
                            f2,
                        );
                        assert(is_field_type_node(t.nodes@, f as int, ty2));
                    }
                }
            }
            None
        },
    }
}

/// The first identifier field of a body is unique.
proof fn lemma_id_field_first_determinism(
    ns: Seq<RawNode>,
    src: Seq<u8>,
    body: int,
    f1: int,
    f2: int,
)
    requires
        spec_is_id_field(ns, src, body, f1),
        forall|m: int| 1 <= m < f1 ==> !spec_is_id_field(ns, src, body, m),
        spec_is_id_field(ns, src, body, f2),
        forall|m: int| 1 <= m < f2 ==> !spec_is_id_field(ns, src, body, m),
    ensures
        f1 == f2,
{
    if f1 < f2 {
        assert(spec_is_id_field(ns, src, body, f1));
    } else if f2 < f1 {
        assert(spec_is_id_field(ns, src, body, f2));
    }
}

/// Every listed field is a real field declaration of `body`, with its name
/// and declared-type bytes read from the source.
pub open spec fn spec_fields_of(
    ns: Seq<RawNode>,
    src: Seq<u8>,
    body: int,
    flds: Seq<EntityField>,
) -> bool {
    forall|k: int|
        0 <= k < flds.len() ==> exists|f: int, nm: int, ty: int|
            #![auto]
            is_field_decl(ns, body, f) && is_field_name_node(ns, f, nm) && is_field_type_node(
                ns,
                f,
                ty,
            ) && (#[trigger] flds[k]).field_name@ == node_text(ns, src, nm) && flds[k].field_type@
                == node_text(ns, src, ty)
}

/// Every field declaration of `body` that has both a name and a declared
/// type appears in the list, by its texts.
pub open spec fn spec_fields_complete(
    ns: Seq<RawNode>,
    src: Seq<u8>,
    body: int,
    flds: Seq<EntityField>,
) -> bool {
    forall|f: int, nm: int, ty: int|
        #![auto]
        is_field_decl(ns, body, f) && is_field_name_node(ns, f, nm) && is_field_type_node(
            ns,
            f,
            ty,
        ) ==> exists|k: int|
            0 <= k < flds.len() && flds[k].field_name@ == node_text(ns, src, nm)
                && flds[k].field_type@ == node_text(ns, src, ty)
}

/// The file's single declaration has a first identifier-marked field with
/// both a readable name and a readable declared type.
pub open spec fn spec_readable_local_id(ns: Seq<RawNode>, src: Seq<u8>) -> bool {
    exists|decl: int, body: int, f: int, ty: int, nm: int|
        #![auto]
        spec_local_id_chain(ns, src, decl, body, f, ty) && is_field_name_node(ns, f, nm)
}

/// The file holds exactly one top-level type declaration and that
/// declaration has an identifier child naming it.
pub open spec fn spec_named_decl(ns: Seq<RawNode>) -> bool {
    &&& top_type_decl_count(ns, ns.len() as int) == 1
    &&& exists|d: int, j: int|
        #![auto]
        crate::query::is_top_type_decl(ns, d) && is_first_child_kind(ns, d, "identifier"@, j)
}

/// Reads the name and declared type of the body's first identifier field,
/// when both are present: Some exactly when the file's readable local
/// identifier exists.
fn read_id_field(t: &SyntaxTree, src: &Vec<u8>, decl: usize, body: usize) -> (r: (
    Option<Vec<u8>>,
    Option<Vec<u8>>,
))
    requires
        t.wf(src@.len()),
        top_type_decl_count(t.nodes@, t.nodes@.len() as int) == 1,
        crate::query::is_top_type_decl(t.nodes@, decl as int),
        crate::query::is_first_body_of(t.nodes@, decl as int, body as int),
    ensures
        r.0 is Some <==> r.1 is Some,
        r.0 is Some <==> spec_readable_local_id(t.nodes@, src@),
        r.0 is Some ==> exists|f: int, nm: int, ty: int|
            #![auto]
            spec_is_id_field(t.nodes@, src@, body as int, f) && is_field_name_node(
                t.nodes@,
                f,
                nm,
            ) && is_field_type_node(t.nodes@, f, ty) && r.0->0@ == node_text(t.nodes@, src@, nm)
                && r.1->0@ == node_text(t.nodes@, src@, ty),
{
    match find_id_field(t, src, body) {
        Some(idf) => {
            let name_node_id = field_name_range(t, idf);
            let type_node_id = field_type_node(t, idf);
            match (name_node_id, type_node_id) {
                (Some(nm), Some(ty)) => {
                    let id_field_name = node_bytes(t, src, nm);
                    let id_field_type = node_bytes(t, src, ty);
                    proof {
                        assert(spec_local_id_chain(
                            t.nodes@,
                            src@,
                            decl as int,
                            body as int,
                            idf as int,
                            ty as int,
                        ));
                        assert(spec_readable_local_id(t.nodes@, src@));
                    }
                    (Some(id_field_name), Some(id_field_type))
                },
                _ => {
                    proof {
                        assert(!spec_readable_local_id(t.nodes@, src@)) by {
                            if spec_readable_local_id(t.nodes@, src@) {
                                let (d2, b2, f2, ty2, nm2) = choose|
                                    d2: int,
                                    b2: int,
                                    f2: int,
                                    ty2: int,
                                    nm2: int,
                                |
                                    #![auto]
                                    spec_local_id_chain(t.nodes@, src@, d2, b2, f2, ty2)
                                        && is_field_name_node(t.nodes@, f2, nm2);
                                crate::query::lemma_type_decl_determinism(
                                    t.nodes@,
                                    d2,
                                    decl as int,
                                );
                                lemma_body_determinism(t.nodes@, decl as int, b2, body as int);
                                lemma_id_field_first_determinism(
                                    t.nodes@,
                                    src@,
                                    body as int,
                                    idf as int,
                                    f2,
                                );
                                match name_node_id {
                                    Some(nm0) => {
                                        assert(is_field_type_node(t.nodes@, idf as int, ty2));
                                    },
                                    None => {
                                        assert(is_field_name_node(t.nodes@, idf as int, nm2));
                                    },
                                }
                            }
                        }
                    }
                    (None, None)
                },
            }
        },
        None => {
            proof {
                assert(!spec_readable_local_id(t.nodes@, src@)) by {
                    if spec_readable_local_id(t.nodes@, src@) {
                        let (d2, b2, f2, ty2, nm2) = choose|
                            d2: int,
                            b2: int,
                            f2: int,
                            ty2: int,
                            nm2: int,
                        |
                            #![auto]
                            spec_local_id_chain(t.nodes@, src@, d2, b2, f2, ty2)
                                && is_field_name_node(t.nodes@, f2, nm2);
                        crate::query::lemma_type_decl_determinism(t.nodes@, d2, decl as int);
                        lemma_body_determinism(t.nodes@, decl as int, b2, body as int);
                        assert(spec_is_id_field(t.nodes@, src@, body as int, f2));
                    }
                }
            }
            (None, None)
        },
    }
}

/// Collects the fields of `body` that have both a name and a declared
/// type: the list is sound and complete for that body.
fn read_fields(t: &SyntaxTree, src: &Vec<u8>, body: usize) -> (r: Vec<EntityField>)
    requires
        t.wf(src@.len()),
    ensures
        spec_fields_of(t.nodes@, src@, body as int, r@),
        spec_fields_complete(t.nodes@, src@, body as int, r@),
{
    let mut fields: Vec<EntityField> = Vec::new();
    let decls = collect_field_decls(t, body);
    let mut k: usize = 0;
    while k < decls.len()
        invariant
            t.wf(src@.len()),
            k <= decls@.len(),
            forall|i: int|
                0 <= i < decls@.len() ==> is_field_decl(
                    t.nodes@,
                    body as int,
                    (#[trigger] decls@[i]) as int,
                ),
            forall|f2: int|
                #[trigger] is_field_decl(t.nodes@, body as int, f2) ==> decls@.contains(
                    f2 as usize,
                ),
            spec_fields_of(t.nodes@, src@, body as int, fields@),
            forall|kk: int, nm2: int, ty2: int|
                #![auto]
                0 <= kk < k && is_field_name_node(t.nodes@, decls@[kk] as int, nm2)
                    && is_field_type_node(t.nodes@, decls@[kk] as int, ty2) ==> exists|q: int|
                    0 <= q < fields@.len() && fields@[q].field_name@ == node_text(
                        t.nodes@,
                        src@,
                        nm2,
                    ) && fields@[q].field_type@ == node_text(t.nodes@, src@, ty2),
        decreases decls.len() - k,
    {
        let f = decls[k];
        proof {
            assert(is_field_decl(t.nodes@, body as int, f as int));
        }
        let name_node = field_name_range(t, f);
        let type_node = field_type_node(t, f);
        if let (Some(nm), Some(ty)) = (name_node, type_node) {
            proof {
                assert(is_field_name_node(t.nodes@, f as int, nm as int));
                assert(is_field_type_node(t.nodes@, f as int, ty as int));
            }
            let field_name = node_bytes(t, src, nm);
            let field_type = node_bytes(t, src, ty);
            let ghost prev = fields@;
            fields.push(EntityField { field_name, field_type });
            proof {
                assert forall|q: int|
                    0 <= q < fields@.len() implies exists|f2: int, nm2: int, ty2: int|
                    #![auto]
                    is_field_decl(t.nodes@, body as int, f2) && is_field_name_node(
                        t.nodes@,
                        f2,
                        nm2,
                    ) && is_field_type_node(t.nodes@, f2, ty2) && (
                    #[trigger] fields@[q]).field_name@ == node_text(t.nodes@, src@, nm2)
                        && fields@[q].field_type@ == node_text(t.nodes@, src@, ty2) by {
                    if q < prev.len() {
                        assert(fields@[q] == prev[q]);
                        assert(spec_fields_of(t.nodes@, src@, body as int, prev));
                    } else {
                        assert(fields@[q].field_name@ == node_text(t.nodes@, src@, nm as int));
                        assert(fields@[q].field_type@ == node_text(t.nodes@, src@, ty as int));
                    }
                }
                assert forall|kk: int, nm2: int, ty2: int|
                    #![auto]
                    0 <= kk < k + 1 && is_field_name_node(t.nodes@, decls@[kk] as int, nm2)
                        && is_field_type_node(t.nodes@, decls@[kk] as int, ty2) implies exists|
                    q: int,
                |
                    0 <= q < fields@.len() && fields@[q].field_name@ == node_text(
                        t.nodes@,
                        src@,
                        nm2,
                    ) && fields@[q].field_type@ == node_text(t.nodes@, src@, ty2) by {
                    if kk < k {
                        let q0 = choose|q0: int|
                            0 <= q0 < prev.len() && prev[q0].field_name@ == node_text(
                                t.nodes@,
                                src@,
                                nm2,
                            ) && prev[q0].field_type@ == node_text(t.nodes@, src@, ty2);
                        assert(fields@[q0] == prev[q0]);
                    } else {
                        crate::query::lemma_field_name_node_unique(
                            t.nodes@,
                            f as int,
                            nm as int,
                            nm2,
                        );
                        crate::query::lemma_field_type_node_unique(
                            t.nodes@,
                            f as int,
                            ty as int,
                            ty2,
                        );
                        assert(fields@[fields@.len() - 1].field_name@ == node_text(
                            t.nodes@,
                            src@,
                            nm2,
                        ));
                    }
                }
            }
        } else {
            proof {
                assert forall|kk: int, nm2: int, ty2: int|
                    #![auto]
                    0 <= kk < k + 1 && is_field_name_node(t.nodes@, decls@[kk] as int, nm2)
                        && is_field_type_node(t.nodes@, decls@[kk] as int, ty2) implies exists|
                    q: int,
                |
                    0 <= q < fields@.len() && fields@[q].field_name@ == node_text(
                        t.nodes@,
                        src@,
                        nm2,
                    ) && fields@[q].field_type@ == node_text(t.nodes@, src@, ty2) by {
                    if kk == k {
                        match name_node {
                            Some(nm0) => {
                                assert(forall|ty0: int|
                                    !is_field_type_node(t.nodes@, f as int, ty0));
                            },
                            None => {
                                assert(forall|nm0: int|
                                    !is_field_name_node(t.nodes@, f as int, nm0));
                            },
                        }
                    }
                }
            }
        }
        k = k + 1;
    }
    proof {
        assert(spec_fields_complete(t.nodes@, src@, body as int, fields@)) by {
            assert forall|f2: int, nm2: int, ty2: int|
                #![auto]
                is_field_decl(t.nodes@, body as int, f2) && is_field_name_node(
                    t.nodes@,
                    f2,
                    nm2,
                ) && is_field_type_node(t.nodes@, f2, ty2) implies exists|q: int|
                0 <= q < fields@.len() && fields@[q].field_name@ == node_text(
                    t.nodes@,
                    src@,
                    nm2,
                ) && fields@[q].field_type@ == node_text(t.nodes@, src@, ty2) by {
                assert(decls@.contains(f2 as usize));
                let kk = choose|kk: int| 0 <= kk < decls@.len() && decls@[kk] == f2 as usize;
            }
        }
    }
    fields
}

/// The unique named top-level declaration and its name bytes: succeeds
/// exactly when the file holds one, failing with the anchor-not-found
/// error otherwise.
fn resolve_named_decl(t: &SyntaxTree, src: &Vec<u8>) -> (r: Result<(usize, Vec<u8>), LibError>)
    requires
        t.wf(src@.len()),
    ensures
        r is Ok <==> spec_named_decl(t.nodes@),
        r is Err ==> r->Err_0 == LibError::AnchorNotFound,
        r is Ok ==> {
            let (decl, nm) = r->Ok_0;
            &&& top_type_decl_count(t.nodes@, t.nodes@.len() as int) == 1
            &&& crate::query::is_top_type_decl(t.nodes@, decl as int)
            &&& exists|j: int|
                #[trigger] is_first_child_kind(t.nodes@, decl as int, "identifier"@, j) && nm@
                    == node_text(t.nodes@, src@, j)
        },
{
    let decl = match find_type_declaration(t) {
        Ok(d) => d,
        Err(e) => {
            proof {
                assert(!spec_named_decl(t.nodes@));
            }
            return Err(e);
        },
    };
    match decl_name(t, src, decl) {
        Some(nm) => {
            proof {
                assert(spec_named_decl(t.nodes@));
            }
            Ok((decl, nm))
        },
        None => {
            proof {
                assert(!spec_named_decl(t.nodes@)) by {
                    if spec_named_decl(t.nodes@) {
                        let (d2, j2) = choose|d2: int, j2: int|
                            #![auto]
                            crate::query::is_top_type_decl(t.nodes@, d2) && is_first_child_kind(
                                t.nodes@,
                                d2,
                                "identifier"@,
                                j2,
                            );
                        crate::query::lemma_type_decl_determinism(t.nodes@, d2, decl as int);
                        assert(crate::query::matches_child(
                            t.nodes@,
                            decl as int,
                            "identifier"@,
                            j2,
                        ));
                    }
                }
            }
            Err(LibError::AnchorNotFound)
        },
    }
}

/// The head of a descriptor: the unique named declaration with its marker
/// verdicts, package name and superclass name.
struct DeclSummary {
    decl: usize,
    entity_name: Vec<u8>,
    is_entity: bool,
    is_mapped_superclass: bool,
    package_name: Option<Vec<u8>>,
    superclass_name: Option<Vec<u8>>,
}

/// Reads the descriptor head: succeeds exactly when the file holds one
/// named top-level declaration, and then reports that declaration's
/// markers, name, package and superclass exactly.
fn read_decl_summary(t: &SyntaxTree, src: &Vec<u8>) -> (r: Result<DeclSummary, LibError>)
    requires
        t.wf(src@.len()),
    ensures
        r is Ok <==> spec_named_decl(t.nodes@),
        r is Err ==> r->Err_0 == LibError::AnchorNotFound,
        r is Ok ==> {
            let s = r->Ok_0;
            &&& top_type_decl_count(t.nodes@, t.nodes@.len() as int) == 1
            &&& crate::query::is_top_type_decl(t.nodes@, s.decl as int)
            &&& s.is_entity == spec_has_annotation(
                t.nodes@,
                src@,
                s.decl as int,
                spec_entity_marker(),
            )
            &&& s.is_mapped_superclass == spec_has_annotation(
                t.nodes@,
                src@,
                s.decl as int,
                spec_mapped_superclass_marker(),
            )
            &&& exists|j: int|
                #[trigger] is_first_child_kind(t.nodes@, s.decl as int, "identifier"@, j)
                    && s.entity_name@ == node_text(t.nodes@, src@, j)
            &&& (s.package_name is Some <==> spec_has_package_name(t.nodes@))
            &&& s.package_name is Some ==> exists|p: int, j: int|
                #![auto]
                is_first_child_kind(t.nodes@, 0, "package_declaration"@, p)
                    && is_first_name_child(t.nodes@, p, j) && s.package_name->0@ == node_text(
                    t.nodes@,
                    src@,
                    j,
                )
            &&& (s.superclass_name is Some <==> spec_has_superclass_name(
                t.nodes@,
                s.decl as int,
            ))
            &&& s.superclass_name is Some ==> exists|sc: int, j: int|
                #![auto]
                is_first_child_kind(t.nodes@, s.decl as int, "superclass"@, sc)
                    && is_first_child_kind(t.nodes@, sc, "type_identifier"@, j)
                    && s.superclass_name->0@ == node_text(t.nodes@, src@, j)
        },
{
    let (decl, entity_name) = match resolve_named_decl(t, src) {
        Ok(p) => p,
        Err(e) => {
            return Err(e);
        },
    };
    let entity_marker = str_bytes("Entity");
    let ms_marker = str_bytes("MappedSuperclass");
    let is_entity = crate::query::has_annotation(t, src, decl, &entity_marker);
    let is_mapped_superclass = crate::query::has_annotation(t, src, decl, &ms_marker);
    let package_name = package_name_of(t, src);
    let superclass_name = superclass_of(t, src, decl);
    Ok(
        DeclSummary {
            decl,
            entity_name,
            is_entity,
            is_mapped_superclass,
            package_name,
            superclass_name,
        },
    )
}

/// The descriptor of the file's single type declaration.
///
/// Succeeds exactly when the file holds one top-level type declaration
/// with a named identifier; everything else is the anchor-not-found error.
/// The entity and mapped-superclass verdicts follow the marker annotations
/// of that declaration; the field list holds exactly the field
/// declarations of its body that have both a name and a declared type; the
/// identifier entries describe the body's first identifier-marked field,
/// when it has a name and a type.
pub fn entity_info(t: &SyntaxTree, src: &Vec<u8>) -> (r: Result<GetJpaEntityInfoResponse, LibError>)
    requires
        t.wf(src@.len()),
    ensures
        r is Ok <==> spec_named_decl(t.nodes@),
        r is Err ==> r->Err_0 == LibError::AnchorNotFound,
        r is Ok ==> exists|decl: int|
            #![auto]
            {
                &&& crate::query::is_top_type_decl(t.nodes@, decl)
                &&& r->Ok_0.is_entity == spec_has_annotation(
                    t.nodes@,
                    src@,
                    decl,
                    spec_entity_marker(),
                )
                &&& r->Ok_0.is_mapped_superclass == spec_has_annotation(
                    t.nodes@,
                    src@,
                    decl,
                    spec_mapped_superclass_marker(),
                )
                &&& exists|j: int|
                    is_first_child_kind(t.nodes@, decl, "identifier"@, j)
                        && r->Ok_0.entity_name@ == node_text(t.nodes@, src@, j)
                &&& (r->Ok_0.superclass_name is Some <==> spec_has_superclass_name(
                    t.nodes@,
                    decl,
                ))
                &&& r->Ok_0.superclass_name is Some ==> exists|s: int, j: int|
                    #![auto]
                    is_first_child_kind(t.nodes@, decl, "superclass"@, s) && is_first_child_kind(
                        t.nodes@,
                        s,
                        "type_identifier"@,
                        j,
                    ) && r->Ok_0.superclass_name->0@ == node_text(t.nodes@, src@, j)
            },
        r is Ok ==> (r->Ok_0.package_name is Some <==> spec_has_package_name(t.nodes@)),
        r is Ok && r->Ok_0.package_name is Some ==> exists|p: int, j: int|
            #![auto]
            is_first_child_kind(t.nodes@, 0, "package_declaration"@, p) && is_first_name_child(
                t.nodes@,
                p,
                j,
            ) && r->Ok_0.package_name->0@ == node_text(t.nodes@, src@, j),
        r is Ok ==> (exists|decl: int, body: int|
            #![auto]
            crate::query::is_top_type_decl(t.nodes@, decl) && crate::query::is_first_body_of(
                t.nodes@,
                decl,
                body,
            ) && spec_fields_of(t.nodes@, src@, body, r->Ok_0.fields@) && spec_fields_complete(
                t.nodes@,
                src@,
                body,
                r->Ok_0.fields@,
            )) || (!(exists|decl: int, body: int|
            #![auto]
            crate::query::is_top_type_decl(t.nodes@, decl) && crate::query::is_first_body_of(
                t.nodes@,
                decl,
                body,
            )) && r->Ok_0.fields@.len() == 0),
        r is Ok ==> (r->Ok_0.id_field_name is Some <==> r->Ok_0.id_field_type is Some),
        r is Ok ==> (r->Ok_0.id_field_name is Some <==> spec_readable_local_id(t.nodes@, src@)),
        r is Ok && r->Ok_0.id_field_name is Some ==> exists|body: int, f: int, nm: int, ty: int|
            #![auto]
            {
                &&& spec_is_id_field(t.nodes@, src@, body, f)
                &&& is_field_name_node(t.nodes@, f, nm)
                &&& is_field_type_node(t.nodes@, f, ty)
                &&& r->Ok_0.id_field_name->0@ == node_text(t.nodes@, src@, nm)
                &&& r->Ok_0.id_field_type->0@ == node_text(t.nodes@, src@, ty)
            },
{
    let summary = match read_decl_summary(t, src) {
        Ok(s) => s,
        Err(e) => {
            return Err(e);
        },
    };
    let decl = summary.decl;
    let mut id_field_name: Option<Vec<u8>> = None;
    let mut id_field_type: Option<Vec<u8>> = None;
    let mut fields: Vec<EntityField> = Vec::new();
    let mut id_field_name: Option<Vec<u8>> = None;
    let mut id_field_type: Option<Vec<u8>> = None;
    let ghost mut have_body: bool = false;
    let ghost mut fields_body: int = 0;
    if let Some(body) = find_body(t, decl) {
        proof {
            have_body = true;
            fields_body = body as int;
            assert(crate::query::is_first_body_of(t.nodes@, decl as int, body as int));
        }
        fields = read_fields(t, src, body);
        let ids = read_id_field(t, src, decl, body);
        id_field_name = ids.0;
        id_field_type = ids.1;
    } else {
        proof {
            assert(!(exists|d2: int, b2: int|
                #![auto]
                crate::query::is_top_type_decl(t.nodes@, d2) && crate::query::is_first_body_of(
                    t.nodes@,
                    d2,
                    b2,
                ))) by {
                if exists|d2: int, b2: int|
                    #![auto]
                    crate::query::is_top_type_decl(t.nodes@, d2)
                        && crate::query::is_first_body_of(t.nodes@, d2, b2) {
                    let (d2, b2) = choose|d2: int, b2: int|
                        #![auto]
                        crate::query::is_top_type_decl(t.nodes@, d2)
                            && crate::query::is_first_body_of(t.nodes@, d2, b2);
                    crate::query::lemma_type_decl_determinism(t.nodes@, d2, decl as int);
                    assert(t.nodes@[b2].parent == decl as int && crate::query::is_body_kind(
                        t.nodes@[b2].kind@,
                    ));
                }
            }
            assert(!spec_readable_local_id(t.nodes@, src@)) by {
                if spec_readable_local_id(t.nodes@, src@) {
                    let (d2, b2, f2, ty2, nm2) = choose|
                        d2: int,
                        b2: int,
                        f2: int,
                        ty2: int,
                        nm2: int,
                    |
                        #![auto]
                        spec_local_id_chain(t.nodes@, src@, d2, b2, f2, ty2)
                            && is_field_name_node(t.nodes@, f2, nm2);
                    crate::query::lemma_type_decl_determinism(t.nodes@, d2, decl as int);
                    assert(t.nodes@[b2].parent == decl as int && crate::query::is_body_kind(
                        t.nodes@[b2].kind@,
                    ));
                }
            }
        }
    }
    let resp = GetJpaEntityInfoResponse {
        package_name: summary.package_name,
        entity_name: summary.entity_name,
        superclass_name: summary.superclass_name,
        id_field_name,
        id_field_type,
        fields,
        is_entity: summary.is_entity,
        is_mapped_superclass: summary.is_mapped_superclass,
    };
    proof {
        let ns = t.nodes@;
        let d0 = decl as int;
        assert(exists|dd: int|
            #![auto]
            {
                &&& crate::query::is_top_type_decl(ns, dd)
                &&& resp.is_entity == spec_has_annotation(ns, src@, dd, spec_entity_marker())
                &&& resp.is_mapped_superclass == spec_has_annotation(
                    ns,
                    src@,
                    dd,
                    spec_mapped_superclass_marker(),
                )
                &&& exists|j: int|
                    is_first_child_kind(ns, dd, "identifier"@, j) && resp.entity_name@
                        == node_text(ns, src@, j)
                &&& (resp.superclass_name is Some <==> spec_has_superclass_name(ns, dd))
                &&& resp.superclass_name is Some ==> exists|sc: int, j: int|
                    #![auto]
                    is_first_child_kind(ns, dd, "superclass"@, sc) && is_first_child_kind(
                        ns,
                        sc,
                        "type_identifier"@,
                        j,
                    ) && resp.superclass_name->0@ == node_text(ns, src@, j)
            }) by {
            assert(crate::query::is_top_type_decl(ns, d0));
            assert(resp.is_entity == spec_has_annotation(ns, src@, d0, spec_entity_marker()));
            assert(resp.is_mapped_superclass == spec_has_annotation(
                ns,
                src@,
                d0,
                spec_mapped_superclass_marker(),
            ));
            assert(resp.superclass_name is Some <==> spec_has_superclass_name(ns, d0));
        }
        assert((exists|dd: int, bb: int|
            #![auto]
            crate::query::is_top_type_decl(ns, dd) && crate::query::is_first_body_of(
                ns,
                dd,
                bb,
            ) && spec_fields_of(ns, src@, bb, resp.fields@) && spec_fields_complete(
                ns,
                src@,
                bb,
                resp.fields@,
            )) || (!(exists|dd: int, bb: int|
            #![auto]
            crate::query::is_top_type_decl(ns, dd) && crate::query::is_first_body_of(
                ns,
                dd,
                bb,
            )) && resp.fields@.len() == 0)) by {
            if have_body {
                assert(crate::query::is_top_type_decl(ns, d0));
                assert(crate::query::is_first_body_of(ns, d0, fields_body));
                assert(spec_fields_of(ns, src@, fields_body, resp.fields@));
                assert(spec_fields_complete(ns, src@, fields_body, resp.fields@));
            } else {
                assert(resp.fields@.len() == 0);
            }
        }
        assert(resp.id_field_name is Some <==> resp.id_field_type is Some);
        assert(resp.package_name is Some <==> spec_has_package_name(ns));
    }
    Ok(resp)
}


/// The file's bytes declare a type carrying this marker annotation: a
/// sound parse with one named top-level declaration, marked.
pub open spec fn spec_is_marked_source(content: Seq<u8>, marker: Seq<u8>) -> bool {
    &&& crate::tree::spec_parse_ok(content)
    &&& spec_named_decl(crate::tree::spec_parse_tree(content))
    &&& exists|d: int|
        #![auto]
        crate::query::is_top_type_decl(crate::tree::spec_parse_tree(content), d)
            && spec_has_annotation(
            crate::tree::spec_parse_tree(content),
            content,
            d,
            marker,
        )
}

/// Number of marked files below index `upto`.
pub open spec fn spec_marked_count(files: Seq<SourceFile>, marker: Seq<u8>, upto: int) -> nat
    decreases upto,
{
    if upto <= 0 {
        0
    } else {
        spec_marked_count(files, marker, upto - 1) + if spec_is_marked_source(
            files[upto - 1].file_content@,
            marker,
        ) {
            1nat
        } else {
            0nat
        }
    }
}

/// The descriptor faithfully describes the file: same path, the simple
/// name read from the declaration's identifier, and the package name
/// present exactly when the file has one, read from its clause.
pub open spec fn spec_descriptor_of(f: SourceFile, d: JpaTypeDescriptor) -> bool {
    &&& d.file_path@ == f.file_path@
    &&& exists|dc: int, j: int|
        #![auto]
        crate::query::is_top_type_decl(crate::tree::spec_parse_tree(f.file_content@), dc)
            && is_first_child_kind(
            crate::tree::spec_parse_tree(f.file_content@),
            dc,
            "identifier"@,
            j,
        ) && d.simple_name@ == node_text(
            crate::tree::spec_parse_tree(f.file_content@),
            f.file_content@,
            j,
        )
    &&& (d.package_name is Some <==> spec_has_package_name(
        crate::tree::spec_parse_tree(f.file_content@),
    ))
    &&& d.package_name is Some ==> exists|p: int, j2: int|
        #![auto]
        is_first_child_kind(
            crate::tree::spec_parse_tree(f.file_content@),
            0,
            "package_declaration"@,
            p,
        ) && is_first_name_child(crate::tree::spec_parse_tree(f.file_content@), p, j2)
            && d.package_name->0@ == node_text(
            crate::tree::spec_parse_tree(f.file_content@),
            f.file_content@,
            j2,
        )
}

/// Every listed descriptor is the faithful descriptor of some marked file.
pub open spec fn spec_marked_sound(
    files: Seq<SourceFile>,
    marker: Seq<u8>,
    rs: Seq<JpaTypeDescriptor>,
) -> bool {
    forall|k: int|
        0 <= k < rs.len() ==> exists|i: int|
            #![auto]
            0 <= i < files.len() && spec_is_marked_source(files[i].file_content@, marker)
                && spec_descriptor_of(files[i], #[trigger] rs[k])
}

/// Every marked file below `upto` is listed, found by its path.
pub open spec fn spec_marked_complete(
    files: Seq<SourceFile>,
    marker: Seq<u8>,
    upto: int,
    rs: Seq<JpaTypeDescriptor>,
) -> bool {
    forall|i: int|
        0 <= i < upto && spec_is_marked_source((#[trigger] files[i]).file_content@, marker)
            ==> exists|k: int| 0 <= k < rs.len() && rs[k].file_path@ == files[i].file_path@
}

/// Collects, in input order, a descriptor for every file whose single
/// named declaration carries the marker: exactly the marked files are
/// listed, each descriptor read from its own file's parse.
pub fn collect_marked_descriptors(files: &Vec<SourceFile>, marker: &Vec<u8>) -> (r: Vec<
    JpaTypeDescriptor,
>)
    ensures
        r@.len() == spec_marked_count(files@, marker@, files@.len() as int),
        spec_marked_sound(files@, marker@, r@),
        spec_marked_complete(files@, marker@, files@.len() as int, r@),
{
    let mut out: Vec<JpaTypeDescriptor> = Vec::new();
    let n = files.len();
    let mut i: usize = 0;
    while i < n
        invariant
            i <= n,
            n == files@.len(),
            out@.len() == spec_marked_count(files@, marker@, i as int),
            spec_marked_sound(files@, marker@, out@),
            spec_marked_complete(files@, marker@, i as int, out@),
        decreases n - i,
    {
        let f = &files[i];
        let ghost marked = spec_is_marked_source(files@[i as int].file_content@, marker@);
        let mut pushed: bool = false;
        match parse_source(&f.file_content) {
            Ok(t) => {
                let ghost ns = t.nodes@;
                match find_type_declaration(&t) {
                    Ok(decl) => {
                        match decl_name(&t, &f.file_content, decl) {
                            Some(nm) => {
                                proof {
                                    assert(spec_named_decl(ns));
                                }
                                if crate::query::has_annotation(&t, &f.file_content, decl, marker) {
                                    let package_name = package_name_of(&t, &f.file_content);
                                    let ghost prev = out@;
                                    out.push(
                                        JpaTypeDescriptor {
                                            package_name,
                                            simple_name: nm,
                                            file_path: f.file_path.clone(),
                                        },
                                    );
                                    pushed = true;
                                    proof {
                                        assert(marked);
                                        assert(spec_descriptor_of(
                                            files@[i as int],
                                            out@[out@.len() - 1],
                                        ));
                                        assert(spec_marked_sound(files@, marker@, out@)) by {
                                            assert forall|k: int|
                                                0 <= k < out@.len() implies exists|ix: int|
                                                #![auto]
                                                0 <= ix < files@.len() && spec_is_marked_source(
                                                    files@[ix].file_content@,
                                                    marker@,
                                                ) && spec_descriptor_of(
                                                    files@[ix],
                                                    #[trigger] out@[k],
                                                ) by {
                                                if k < prev.len() {
                                                    assert(out@[k] == prev[k]);
                                                    assert(spec_marked_sound(
                                                        files@,
                                                        marker@,
                                                        prev,
                                                    ));
                                                    let ix0 = choose|ix0: int|
                                                        #![auto]
                                                        0 <= ix0 < files@.len()
                                                            && spec_is_marked_source(
                                                            files@[ix0].file_content@,
                                                            marker@,
                                                        ) && spec_descriptor_of(
                                                            files@[ix0],
                                                            prev[k],
                                                        );
                                                    assert(spec_descriptor_of(
                                                        files@[ix0],
                                                        out@[k],
                                                    ));
                                                } else {
                                                    assert(spec_descriptor_of(
                                                        files@[i as int],
                                                        out@[k],
                                                    ));
                                                }
                                            }
                                        }
                                        assert(spec_marked_complete(
                                            files@,
                                            marker@,
                                            i + 1,
                                            out@,
                                        )) by {
                                            assert forall|ix: int|
                                                0 <= ix < i + 1 && spec_is_marked_source(
                                                    (#[trigger] files@[ix]).file_content@,
                                                    marker@,
                                                ) implies exists|k: int|
                                                0 <= k < out@.len() && out@[k].file_path@
                                                    == files@[ix].file_path@ by {
                                                if ix < i {
                                                    assert(spec_marked_complete(
                                                        files@,
                                                        marker@,
                                                        i as int,
                                                        prev,
                                                    ));
                                                    let k0 = choose|k0: int|
                                                        0 <= k0 < prev.len()
                                                            && prev[k0].file_path@
                                                            == files@[ix].file_path@;
                                                    assert(out@[k0] == prev[k0]);
                                                } else {
                                                    assert(out@[out@.len() - 1].file_path@
                                                        == files@[ix].file_path@);
                                                }
                                            }
                                        }
                                    }
                                } else {
                                    proof {
                                        assert(!marked) by {
                                            if marked {
                                                let d2 = choose|d2: int|
                                                    #![auto]
                                                    crate::query::is_top_type_decl(ns, d2)
                                                        && spec_has_annotation(
                                                        ns,
                                                        files@[i as int].file_content@,
                                                        d2,
                                                        marker@,
                                                    );
                                                crate::query::lemma_type_decl_determinism(
                                                    ns,
                                                    d2,
                                                    decl as int,
                                                );
                                            }
                                        }
                                    }
                                }
                            },
                            None => {
                                proof {
                                    assert(!marked) by {
                                        if marked {
                                            let (d2, j2) = choose|d2: int, j2: int|
                                                #![auto]
                                                crate::query::is_top_type_decl(ns, d2)
                                                    && is_first_child_kind(
                                                    ns,
                                                    d2,
                                                    "identifier"@,
                                                    j2,
                                                );
                                            crate::query::lemma_type_decl_determinism(
                                                ns,
                                                d2,
                                                decl as int,
                                            );
                                            assert(crate::query::matches_child(
                                                ns,
                                                decl as int,
                                                "identifier"@,
                                                j2,
                                            ));
                                        }
                                    }
                                }
                            },
                        }
                    },
                    Err(_) => {
                        proof {
                            assert(!marked);
                        }
                    },
                }
            },
            Err(_) => {
                proof {
                    assert(!marked);
                }
            },
        }
        proof {
            assert(spec_marked_count(files@, marker@, i + 1) == spec_marked_count(
                files@,
                marker@,
                i as int,
            ) + if marked {
                1nat
            } else {
                0nat
            });
            assert(pushed == marked);
        }
        i = i + 1;
    }
    out
}

} // verus!
