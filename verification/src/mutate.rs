//! Assembly of the edit set that adds one member to the single type
//! declaration of a file: the member block before the body's closing brace,
//! and, when the member's type needs one, a new import statement — never a
//! duplicate of an existing import.

use vstd::prelude::*;
use vstd::string::StringExecFns;
use vstd::string::StringSliceAdditionalSpecFns;
use vstd::utf8::encode_utf8;

use crate::catalog::spec_builtin_import;
use crate::catalog::builtin_import;
use crate::edit::TextEdit;
use crate::errors::LibError;
use crate::insert::ImportAnchor;
use crate::insert::import_edit;
use crate::insert::indent_before;
use crate::insert::insertion_edit_at;
use crate::insert::spec_import_after_imports;
use crate::insert::spec_import_after_package;
use crate::insert::spec_import_at_start;
use crate::insert::spec_insertion_replacement;
use crate::insert::lemma_ws_start_above;
use crate::insert::lemma_ws_start_le;
use crate::insert::spec_ws_start;
use crate::insert::ws_start;
use crate::query::find_body;
use crate::query::find_last_child_of_kind;
use crate::query::find_last_member;
use crate::query::find_package_clause;
use crate::query::find_type_declaration;
use crate::query::is_first_body_of;
use crate::query::lemma_first_body_determinism;
use crate::query::first_name_child;
use crate::query::is_body_kind;
use crate::query::is_first_child_kind;
use crate::query::is_first_name_child;
use crate::query::is_last_child_kind;
use crate::query::is_last_member;
use crate::query::is_top_type_decl;
use crate::query::matches_child;
use crate::query::no_child_kind;
use crate::query::no_members;
use crate::query::node_bytes;
use crate::query::node_text;
use crate::query::spec_has_field_named;
use crate::query::top_type_decl_count;
use crate::text::bytes_eq;
use crate::text::push_bytes;
use crate::text::push_str_bytes;
use crate::tree::RawNode;
use crate::tree::SyntaxTree;

verus! {

/// An import node whose imported name reads exactly as `fqn`.
pub open spec fn spec_import_named(ns: Seq<RawNode>, src: Seq<u8>, im: int, fqn: Seq<u8>) -> bool {
    &&& matches_child(ns, 0, "import_declaration"@, im)
    &&& exists|j: int| is_first_name_child(ns, im, j) && node_text(ns, src, j) == fqn
}

/// The file already imports `fqn`.
pub open spec fn spec_has_import(ns: Seq<RawNode>, src: Seq<u8>, fqn: Seq<u8>) -> bool {
    exists|im: int| spec_import_named(ns, src, im, fqn)
}

/// Whether the file already imports exactly `fqn`.
pub fn has_import(t: &SyntaxTree, src: &Vec<u8>, fqn: &Vec<u8>) -> (r: bool)
    requires
        t.wf(src@.len()),
    ensures
        r == spec_has_import(t.nodes@, src@, fqn@),
{
    let n = t.nodes.len();
    let mut im: usize = 1;
    while im < n
        invariant
            1 <= im,
            n == t.nodes@.len(),
            t.wf(src@.len()),
            forall|m: int| 1 <= m < im ==> !spec_import_named(t.nodes@, src@, m, fqn@),
        decreases n - im,
    {
        let nd = &t.nodes[im];
        if nd.parent == 0 && crate::query::kind_is(nd, "import_declaration") {
            match first_name_child(t, im) {
                Some(j) => {
                    let txt = node_bytes(t, src, j);
                    if bytes_eq(txt.as_slice(), fqn.as_slice()) {
                        proof {
                            assert(spec_import_named(t.nodes@, src@, im as int, fqn@));
                        }
                        return true;
                    }
                    proof {
                        assert forall|j2: int|
                            is_first_name_child(t.nodes@, im as int, j2) implies node_text(
                            t.nodes@,
                            src@,
                            j2,
                        ) != fqn@ by {
                            crate::query::lemma_anchor_determinism_name(
                                t.nodes@,
                                im as int,
                                j as int,
                                j2,
                            );
                        }
                    }
                },
                None => {
                    proof {
                        assert forall|j2: int|
                            is_first_name_child(t.nodes@, im as int, j2) implies node_text(
                            t.nodes@,
                            src@,
                            j2,
                        ) != fqn@ by {
                            assert(t.nodes@[j2].parent == im as int && crate::query::is_name_kind(
                                t.nodes@[j2].kind@,
                            ));
                        }
                    }
                },
            }
        }
        proof {
            assert(!spec_import_named(t.nodes@, src@, im as int, fqn@));
        }
        im = im + 1;
    }
    proof {
        assert forall|m: int| !spec_import_named(t.nodes@, src@, m, fqn@) by {
            if 1 <= m < n {
            }
        }
    }
    false
}

/// The file holds exactly one top-level type declaration, and that
/// declaration has a body.
pub open spec fn spec_anchors_ok(ns: Seq<RawNode>) -> bool {
    &&& top_type_decl_count(ns, ns.len() as int) == 1
    &&& exists|d: int, b: int|
        #![auto]
        is_top_type_decl(ns, d) && is_first_body_of(ns, d, b)
}

/// The file is ready for a member insertion: one declaration, with a
/// nonempty body that starts strictly after the declaration's own first
/// byte — as every braced body behind a declaration keyword does.
pub open spec fn spec_member_ready(ns: Seq<RawNode>) -> bool {
    &&& top_type_decl_count(ns, ns.len() as int) == 1
    &&& exists|d: int, b: int|
        #![auto]
        is_top_type_decl(ns, d) && is_first_body_of(ns, d, b) && ns[d].start < ns[b].start
            && ns[b].start < ns[b].end
}

/// The body of the file's single declaration already holds a member of
/// this name.
pub open spec fn spec_member_duplicate(ns: Seq<RawNode>, src: Seq<u8>, name: Seq<u8>) -> bool {
    exists|d: int, b: int|
        #![auto]
        is_top_type_decl(ns, d) && is_first_body_of(ns, d, b) && spec_has_field_named(
            ns,
            src,
            b,
            name,
        )
}

/// Under a unique declaration, any anchor pair is the found one, so the
/// readiness and duplicate predicates reduce to facts about it.
pub proof fn lemma_anchor_pair_unique(ns: Seq<RawNode>, decl: int, body: int, d2: int, b2: int)
    requires
        top_type_decl_count(ns, ns.len() as int) == 1,
        is_top_type_decl(ns, decl),
        is_first_body_of(ns, decl, body),
        is_top_type_decl(ns, d2),
        is_first_body_of(ns, d2, b2),
    ensures
        d2 == decl,
        b2 == body,
{
    crate::query::lemma_type_decl_determinism(ns, d2, decl);
    lemma_first_body_determinism(ns, decl, b2, body);
}

/// The anchors of a member insertion: the unique top-level type declaration
/// and its body. Succeeds exactly when the file holds one top-level type
/// declaration and that declaration has a body.
pub fn resolve_member_anchors(t: &SyntaxTree) -> (r: Result<(usize, usize), LibError>)
    ensures
        r is Ok <==> spec_anchors_ok(t.nodes@),
        r is Err ==> r->Err_0 == LibError::AnchorNotFound,
        r is Ok ==> {
            let (decl, body) = r->Ok_0;
            &&& top_type_decl_count(t.nodes@, t.nodes@.len() as int) == 1
            &&& is_top_type_decl(t.nodes@, decl as int)
            &&& is_first_body_of(t.nodes@, decl as int, body as int)
            &&& 1 <= body < t.nodes@.len()
            &&& t.nodes@[body as int].parent == decl
            &&& is_body_kind(t.nodes@[body as int].kind@)
        },
{
    let decl = match find_type_declaration(t) {
        Ok(d) => d,
        Err(e) => {
            proof {
                assert(!spec_anchors_ok(t.nodes@));
            }
            return Err(e);
        },
    };
    match find_body(t, decl) {
        Some(body) => {
            proof {
                assert(is_first_body_of(t.nodes@, decl as int, body as int));
                assert(spec_anchors_ok(t.nodes@));
            }
            Ok((decl, body))
        },
        None => {
            proof {
                assert(!spec_anchors_ok(t.nodes@)) by {
                    if spec_anchors_ok(t.nodes@) {
                        let (d2, b2) = choose|d2: int, b2: int|
                            #![auto]
                            is_top_type_decl(t.nodes@, d2) && is_first_body_of(t.nodes@, d2, b2);
                        crate::query::lemma_type_decl_determinism(t.nodes@, d2, decl as int);
                        assert(t.nodes@[b2].parent == decl as int && crate::query::is_body_kind(
                            t.nodes@[b2].kind@,
                        ));
                    }
                }
            }
            Err(LibError::AnchorNotFound)
        },
    }
}

/// The member-insertion edit of body `body`: the block goes where the run
/// of blanks before the body's closing brace begins, indented like the last
/// member — or one level deeper than the declaration when the body is empty
/// — and preceded by a blank line exactly when the body has members.
pub open spec fn spec_member_edit(
    ns: Seq<RawNode>,
    src: Seq<u8>,
    decl: int,
    body: int,
    lines: Seq<Seq<u8>>,
    e: TextEdit,
) -> bool {
    let at = spec_ws_start(src, ns[body].end - 1);
    &&& e.start == at
    &&& e.end == at
    &&& (exists|lm: int|
        #[trigger] is_last_member(ns, body, lm) && e.replacement@ == spec_insertion_replacement(
            src,
            at,
            true,
            src.subrange(spec_ws_start(src, ns[lm].start as int), ns[lm].start as int),
            lines,
        )) || (no_members(ns, body) && e.replacement@ == spec_insertion_replacement(
        src,
        at,
        false,
        src.subrange(spec_ws_start(src, ns[decl].start as int), ns[decl].start as int)
            + "    ".spec_bytes(),
        lines,
    ))
}

/// Builds the member-insertion edit for the given block lines.
pub fn member_edit(
    t: &SyntaxTree,
    src: &Vec<u8>,
    decl: usize,
    body: usize,
    lines: &Vec<Vec<u8>>,
) -> (r: TextEdit)
    requires
        t.wf(src@.len()),
        decl < t.nodes@.len(),
        body < t.nodes@.len(),
        t.nodes@[body as int].end >= 1,
    ensures
        spec_member_edit(
            t.nodes@,
            src@,
            decl as int,
            body as int,
            crate::synth::views_of(lines@),
            r,
        ),
{
    proof {
        assert(crate::tree::wf_tree(t.nodes@, src@.len()));
        assert(t.nodes@[body as int].start <= t.nodes@[body as int].end);
        assert(t.nodes@[body as int].end <= src@.len());
    }
    let brace = t.nodes[body].end - 1;
    let at = ws_start(src, brace);
    match find_last_member(t, body) {
        Some(lm) => {
            let indent = indent_before(src, t.nodes[lm].start);
            insertion_edit_at(src, at, true, &indent, lines)
        },
        None => {
            let mut indent = indent_before(src, t.nodes[decl].start);
            push_str_bytes(&mut indent, "    ");
            insertion_edit_at(src, at, false, &indent, lines)
        },
    }
}

/// The resolved placement of a new import, per the resolution rules: after
/// the last import when any exists, otherwise after the package clause,
/// otherwise at the start of the file.
pub open spec fn spec_import_anchor_edit(
    ns: Seq<RawNode>,
    src: Seq<u8>,
    fqn: Seq<char>,
    e: TextEdit,
) -> bool {
    &&& e.start == e.end
    &&& (exists|li: int|
        #[trigger] is_last_child_kind(ns, 0, "import_declaration"@, li) && e.start == ns[li].end
            && e.replacement@ == spec_import_after_imports(fqn)) || (no_child_kind(
        ns,
        0,
        "import_declaration"@,
    ) && ((exists|p: int|
        #[trigger] is_first_child_kind(ns, 0, "package_declaration"@, p) && e.start == ns[p].end
            && e.replacement@ == spec_import_after_package(src, ns[p].end as int, fqn)) || (
    no_child_kind(ns, 0, "package_declaration"@) && e.start == 0 && e.replacement@
        == spec_import_at_start(src, fqn))))
}

/// Builds the import-insertion edit for `fqn`.
pub fn resolve_import_edit(t: &SyntaxTree, src: &Vec<u8>, fqn: &String) -> (r: TextEdit)
    requires
        t.wf(src@.len()),
    ensures
        spec_import_anchor_edit(t.nodes@, src@, fqn@, r),
{
    let anchor: ImportAnchor = match find_last_child_of_kind(t, 0, "import_declaration") {
        Some(li) => {
            proof {
                assert(t.nodes@[li as int].start <= t.nodes@[li as int].end);
                assert(t.nodes@[li as int].end <= src@.len());
            }
            ImportAnchor::AfterImports(t.nodes[li].end)
        },
        None => {
            match find_package_clause(t) {
                Some(p) => {
                    proof {
                        assert(t.nodes@[p as int].start <= t.nodes@[p as int].end);
                        assert(t.nodes@[p as int].end <= src@.len());
                    }
                    ImportAnchor::AfterPackage(t.nodes[p].end)
                },
                None => ImportAnchor::AtStart,
            }
        },
    };
    import_edit(src, &anchor, fqn)
}

/// The fully qualified name that the member's declared type requires as an
/// import: the given package joined to the type when a package is given,
/// else the catalog's import for a well-known type, else nothing.
pub open spec fn spec_member_fqn(ty: Seq<char>, pkg: Option<Seq<char>>) -> Option<Seq<char>> {
    match pkg {
        Some(p) => Some(p + "."@ + ty),
        None => spec_builtin_import(ty),
    }
}

/// The fully qualified name the member's type requires as an import.
pub fn member_fqn(ty: &String, pkg: &Option<String>) -> (r: Option<String>)
    ensures
        match (r, spec_member_fqn(
            ty@,
            match pkg {
                Some(p) => Some(p@),
                None => None,
            },
        )) {
            (Some(a), Some(b)) => a@ == b,
            (None, None) => true,
            _ => false,
        },
{
    match pkg {
        Some(p) => {
            let mut s: String = p.clone();
            s.append(".");
            s.append(ty.as_str());
            Some(s)
        },
        None => {
            match builtin_import(ty.as_str()) {
                Some(imp) => Some(imp.to_owned()),
                None => None,
            }
        },
    }
}

/// The edit set that inserts one member block, plus the import its type
/// needs.
///
/// The member edit always comes first. The import edit is present exactly
/// when the type names an import — by its package or by the catalog — that
/// the file does not already hold: a type already imported adds no second
/// import statement.
pub open spec fn spec_member_edit_set(
    ns: Seq<RawNode>,
    src: Seq<u8>,
    decl: int,
    body: int,
    lines: Seq<Seq<u8>>,
    fqn: Option<Seq<char>>,
    edits: Seq<TextEdit>,
) -> bool {
    &&& edits.len() >= 1
    &&& spec_member_edit(ns, src, decl, body, lines, edits[0])
    &&& match fqn {
        Some(f) => {
            if spec_has_import(ns, src, encode_utf8(f)) {
                edits.len() == 1
            } else {
                edits.len() == 2 && spec_import_anchor_edit(ns, src, f, edits[1])
            }
        },
        None => edits.len() == 1,
    }
}

/// Builds the edit set that inserts one member block and, when needed, the
/// import of its declared type. On a document-ordered tree the member
/// offset lies strictly inside the declaration while any import offset
/// lies before it or past the body, so the arranged set is always well
/// formed and applying it cannot fail.
pub fn member_edit_set(
    t: &SyntaxTree,
    src: &Vec<u8>,
    decl: usize,
    body: usize,
    lines: &Vec<Vec<u8>>,
    fqn: &Option<String>,
) -> (r: Vec<TextEdit>)
    requires
        t.wf(src@.len()),
        crate::tree::wf_order(t.nodes@),
        crate::tree::wf_starts(t.nodes@, src@),
        is_top_type_decl(t.nodes@, decl as int),
        is_first_body_of(t.nodes@, decl as int, body as int),
        t.nodes@[decl as int].start < t.nodes@[body as int].start,
        t.nodes@[body as int].start < t.nodes@[body as int].end,
    ensures
        spec_member_edit_set(
            t.nodes@,
            src@,
            decl as int,
            body as int,
            crate::synth::views_of(lines@),
            match fqn {
                Some(f) => Some(f@),
                None => None,
            },
            r@,
        ),
        crate::edit::wf_edit_seq(crate::edit::spec_sort_by_start(r@), src@.len()),
{
    let ghost ns = t.nodes@;
    let ghost d = decl as int;
    let ghost b = body as int;
    proof {
        assert(ns[b].end >= 1);
        reveal(crate::tree::wf_order);
        reveal(crate::tree::wf_starts);
        assert(ns[b].end <= ns[d].end);
        assert(ns[d].start < ns[d].end);
        assert(ns[d].end <= src@.len());
        assert(src@[ns[d].start as int] != 32 && src@[ns[d].start as int] != 9);
        lemma_ws_start_above(src@, ns[d].start as int, ns[b].end - 1);
        lemma_ws_start_le(src@, ns[b].end - 1);
    }
    let ghost at = spec_ws_start(src@, ns[b].end - 1);
    let mut edits: Vec<TextEdit> = Vec::new();
    let me = member_edit(t, src, decl, body, lines);
    let ghost me_val = me;
    edits.push(me);
    let mut with_import: bool = false;
    if let Some(f) = fqn {
        let fqn_bytes = crate::text::str_bytes(f.as_str());
        if !has_import(t, src, &fqn_bytes) {
            let ie = resolve_import_edit(t, src, f);
            proof {
                lemma_import_offset_clear(ns, src@, d, b, f@, ie);
                assert(edits@.push(ie) =~= seq![me_val, ie]);
                crate::edit::lemma_sort_pair(me_val, ie);
            }
            edits.push(ie);
            with_import = true;
        }
    }
    proof {
        if !with_import {
            assert(edits@ =~= seq![me_val]);
            crate::edit::lemma_sort_singleton(me_val);
        }
    }
    edits
}

/// The offset of a resolved import edit never meets the member-insertion
/// offset: it lies at or before the declaration's first byte, or at or
/// past the body's end.
proof fn lemma_import_offset_clear(
    ns: Seq<RawNode>,
    src: Seq<u8>,
    d: int,
    b: int,
    fqn: Seq<char>,
    ie: TextEdit,
)
    requires
        crate::tree::wf_tree(ns, src.len()),
        crate::tree::wf_order(ns),
        is_top_type_decl(ns, d),
        is_first_body_of(ns, d, b),
        ns[d].start < ns[b].start,
        ns[b].start < ns[b].end,
        spec_import_anchor_edit(ns, src, fqn, ie),
    ensures
        ie.start <= ns[d].start || ie.start >= ns[b].end,
        ie.start <= src.len(),
{
    reveal(crate::tree::wf_order);
    if exists|li: int|
        #[trigger] is_last_child_kind(ns, 0, "import_declaration"@, li) && ie.start == ns[li].end {
        let li = choose|li: int|
            #[trigger] is_last_child_kind(ns, 0, "import_declaration"@, li) && ie.start
                == ns[li].end;
        lemma_root_child_clear(ns, src, d, b, li, "import_declaration"@);
    } else if exists|p: int|
        #[trigger] is_first_child_kind(ns, 0, "package_declaration"@, p) && ie.start == ns[p].end {
        let p = choose|p: int|
            #[trigger] is_first_child_kind(ns, 0, "package_declaration"@, p) && ie.start
                == ns[p].end;
        lemma_root_child_clear(ns, src, d, b, p, "package_declaration"@);
    } else {
        assert(ie.start == 0);
    }
}

/// A root child that is an import or package node sits entirely before the
/// declaration or entirely after its body.
proof fn lemma_root_child_clear(
    ns: Seq<RawNode>,
    src: Seq<u8>,
    d: int,
    b: int,
    x: int,
    kind: Seq<char>,
)
    requires
        crate::tree::wf_tree(ns, src.len()),
        crate::tree::wf_order(ns),
        is_top_type_decl(ns, d),
        is_first_body_of(ns, d, b),
        ns[d].start < ns[b].start,
        ns[b].start < ns[b].end,
        matches_child(ns, 0, kind, x),
        kind == "import_declaration"@ || kind == "package_declaration"@,
    ensures
        ns[x].end <= ns[d].start || ns[x].end >= ns[b].end,
        ns[x].end <= src.len(),
{
    reveal(crate::tree::wf_order);
    crate::query::lemma_structural_kinds_distinct(ns[d].kind@);
    assert(x != d);
    if x < d {
        assert(ns[x].end <= ns[d].start);
    } else {
        assert(ns[d].end <= ns[x].start);
        assert(ns[b].end <= ns[d].end);
        assert(ns[x].end >= ns[x].start);
    }
}

} // verus!
