//! Generates a repository interface for the entity declared in a source
//! file, parameterized by the entity type and the declared type of its
//! identifier field — resolved locally, or from a provided superclass
//! source when the entity declares no identifier of its own.

use vstd::prelude::*;
use vstd::string::StringSliceAdditionalSpecFns;
use vstd::utf8::encode_utf8;

use crate::catalog::builtin_import_bytes;
use crate::classify::decl_name;
use crate::classify::local_id_type_bytes;
use crate::classify::package_name_of;
use crate::classify::spec_has_local_id_type;
use crate::classify::spec_has_package_name;
use crate::classify::spec_has_superclass_name;
use crate::classify::spec_local_id_chain;
use crate::classify::spec_named_decl;
use crate::errors::LibError;
use crate::paths::java_file_path;
use crate::catalog::JavaSourceDirectoryType;
use crate::query::is_first_child_kind;
use crate::query::is_top_type_decl;
use crate::query::node_text;
use crate::responses::CreateJPARepositoryResponse;
use crate::responses::FileResponse;
use crate::synth::repository_file;
use crate::synth::spec_repository_file;
use crate::text::push_bytes;
use crate::tree::RawNode;
use crate::tree::spec_parse_ok;
use crate::tree::spec_parse_tree;
use crate::tree::parse_source;

verus! {

/// The anchors repository generation needs of the entity source: one
/// top-level declaration with a name, in a named package.
pub open spec fn spec_repo_anchors(ns: Seq<RawNode>) -> bool {
    spec_named_decl(ns) && spec_has_package_name(ns)
}

/// The entity's single declaration names a superclass.
pub open spec fn spec_entity_declares_superclass(entity: Seq<u8>) -> bool {
    exists|d: int|
        #![auto]
        is_top_type_decl(spec_parse_tree(entity), d) && spec_has_superclass_name(
            spec_parse_tree(entity),
            d,
        )
}

/// An identifier type is available: locally, or — when the entity declares
/// a superclass — from the provided superclass source when its parse is
/// sound. A superclass source is only ever consulted for an entity that
/// declares one.
pub open spec fn spec_repo_id_available(entity: Seq<u8>, sc: Option<Seq<u8>>) -> bool {
    spec_has_local_id_type(spec_parse_tree(entity), entity) || (spec_entity_declares_superclass(
        entity,
    ) && sc is Some && spec_parse_ok(sc->0) && spec_has_local_id_type(
        spec_parse_tree(sc->0),
        sc->0,
    ))
}

/// Generates the repository interface of the entity declared in
/// `entity_file_src`.
///
/// Success is owed: exactly when the entity source parses soundly into one
/// named declaration with a package, and an identifier field is found in
/// it — or, failing that, in the provided superclass source, which is
/// consulted only for an entity that declares a superclass. The parse
/// failure names whichever source did not parse; a missing identifier in
/// both places, a missing superclass source, or a fallback without a
/// declared superclass is the missing-identifier error. The interface is
/// parameterized by the entity's simple name and the identifier's declared
/// type, lands in the entity's package under the
/// main source set with the repository suffix, and imports the identifier
/// type when the catalog lists an import for it. The reported superclass
/// is present exactly when the identifier came from the superclass source
/// and the entity names a superclass.
pub fn execute(
    entity_file_src: &Vec<u8>,
    superclass_src: &Option<Vec<u8>>,
) -> (r: Result<CreateJPARepositoryResponse, LibError>)
    ensures
        r is Ok <==> spec_parse_ok(entity_file_src@) && spec_repo_anchors(
            spec_parse_tree(entity_file_src@),
        ) && spec_repo_id_available(
            entity_file_src@,
            match superclass_src {
                Some(s) => Some(s@),
                None => None,
            },
        ),
        (r is Err && r->Err_0 == LibError::AnchorNotFound) <==> (spec_parse_ok(entity_file_src@)
            && !spec_repo_anchors(spec_parse_tree(entity_file_src@))),
        spec_parse_ok(entity_file_src@) && spec_repo_anchors(spec_parse_tree(entity_file_src@))
            ==> ((r is Err && r->Err_0 == LibError::MissingIdentifier) <==> (
        !spec_has_local_id_type(spec_parse_tree(entity_file_src@), entity_file_src@) && (
        !spec_entity_declares_superclass(entity_file_src@) || match superclass_src {
            Some(s) => spec_parse_ok(s@) && !spec_has_local_id_type(spec_parse_tree(s@), s@),
            None => true,
        }))),
        r is Err ==> (r->Err_0 == LibError::ParseFailure || r->Err_0 == LibError::AnchorNotFound
            || r->Err_0 == LibError::MissingIdentifier),
        r is Ok ==> r->Ok_0.id_field_found && r->Ok_0.repository is Some,
        r is Ok ==> (r->Ok_0.superclass_type is Some <==> !spec_has_local_id_type(
            spec_parse_tree(entity_file_src@),
            entity_file_src@,
        )),
        r is Ok && r->Ok_0.superclass_type is Some ==> exists|decl: int, s: int, j: int|
            #![auto]
            is_top_type_decl(spec_parse_tree(entity_file_src@), decl) && is_first_child_kind(
                spec_parse_tree(entity_file_src@),
                decl,
                "superclass"@,
                s,
            ) && is_first_child_kind(spec_parse_tree(entity_file_src@), s, "type_identifier"@, j)
                && r->Ok_0.superclass_type->0@ == node_text(
                spec_parse_tree(entity_file_src@),
                entity_file_src@,
                j,
            ),
        r is Ok ==> exists|pkg: Seq<u8>, entity: Seq<u8>, id_ty: Seq<u8>|
            #![auto]
            {
                &&& exists|decl: int, j: int|
                    #![auto]
                    is_top_type_decl(spec_parse_tree(entity_file_src@), decl)
                        && is_first_child_kind(
                        spec_parse_tree(entity_file_src@),
                        decl,
                        "identifier"@,
                        j,
                    ) && entity == node_text(spec_parse_tree(entity_file_src@), entity_file_src@, j)
                &&& exists|p: int, j2: int|
                    #![auto]
                    is_first_child_kind(
                        spec_parse_tree(entity_file_src@),
                        0,
                        "package_declaration"@,
                        p,
                    ) && crate::query::is_first_name_child(
                        spec_parse_tree(entity_file_src@),
                        p,
                        j2,
                    ) && pkg == node_text(spec_parse_tree(entity_file_src@), entity_file_src@, j2)
                &&& (spec_has_local_id_type(spec_parse_tree(entity_file_src@), entity_file_src@)
                    ==> exists|decl: int, body: int, f: int, ty: int|
                    #![auto]
                    spec_local_id_chain(
                        spec_parse_tree(entity_file_src@),
                        entity_file_src@,
                        decl,
                        body,
                        f,
                        ty,
                    ) && id_ty == node_text(
                        spec_parse_tree(entity_file_src@),
                        entity_file_src@,
                        ty,
                    ))
                &&& (!spec_has_local_id_type(spec_parse_tree(entity_file_src@), entity_file_src@)
                    ==> superclass_src is Some && exists|decl: int, body: int, f: int, ty: int|
                    #![auto]
                    spec_local_id_chain(
                        spec_parse_tree(superclass_src->0@),
                        superclass_src->0@,
                        decl,
                        body,
                        f,
                        ty,
                    ) && id_ty == node_text(
                        spec_parse_tree(superclass_src->0@),
                        superclass_src->0@,
                        ty,
                    ))
                &&& r->Ok_0.repository->0.file_content@ == spec_repository_file(
                    pkg,
                    entity,
                    id_ty,
                    crate::catalog::spec_builtin_import_bytes(id_ty),
                )
                &&& r->Ok_0.repository->0.file_path@ == crate::paths::spec_java_file_path(
                    JavaSourceDirectoryType::Main.spec_root_path(),
                    pkg,
                    entity + "Repository".spec_bytes(),
                )
            },
{
    let t = match parse_source(entity_file_src) {
        Ok(t) => t,
        Err(e) => {
            return Err(e);
        },
    };
    let ghost ns = spec_parse_tree(entity_file_src@);
    let decl = match crate::query::find_type_declaration(&t) {
        Ok(d) => d,
        Err(e) => {
            proof {
                assert(!spec_named_decl(ns));
            }
            return Err(e);
        },
    };
    let entity_name = match decl_name(&t, entity_file_src, decl) {
        Some(nm) => nm,
        None => {
            proof {
                assert(!spec_named_decl(ns)) by {
                    if spec_named_decl(ns) {
                        let (d2, j2) = choose|d2: int, j2: int|
                            #![auto]
                            is_top_type_decl(ns, d2) && is_first_child_kind(
                                ns,
                                d2,
                                "identifier"@,
                                j2,
                            );
                        crate::query::lemma_type_decl_determinism(ns, d2, decl as int);
                        assert(crate::query::matches_child(
                            ns,
                            decl as int,
                            "identifier"@,
                            j2,
                        ));
                    }
                }
            }
            return Err(LibError::AnchorNotFound);
        },
    };
    let pkg = match package_name_of(&t, entity_file_src) {
        Some(p) => p,
        None => {
            return Err(LibError::AnchorNotFound);
        },
    };
    proof {
        assert(spec_named_decl(ns));
        assert(spec_repo_anchors(ns));
    }
    let superclass_name = superclass_name_of_decl(&t, entity_file_src, decl);
    proof {
        assert forall|d2: int| is_top_type_decl(ns, d2) implies d2 == decl as int by {
            crate::query::lemma_type_decl_determinism(ns, d2, decl as int);
        }
        assert(spec_entity_declares_superclass(entity_file_src@) <==> spec_has_superclass_name(
            ns,
            decl as int,
        ));
    }
    let local_id = local_id_type_bytes(&t, entity_file_src);
    let (id_ty, used_superclass) = match local_id {
        Some(ty) => (ty, false),
        None => {
            if superclass_name.is_none() {
                return Err(LibError::MissingIdentifier);
            }
            match superclass_src {
                Some(ssrc) => {
                    let st = match parse_source(ssrc) {
                        Ok(st) => st,
                        Err(e) => {
                            return Err(e);
                        },
                    };
                    match local_id_type_bytes(&st, ssrc) {
                        Some(ty) => (ty, true),
                        None => {
                            return Err(LibError::MissingIdentifier);
                        },
                    }
                },
                None => {
                    return Err(LibError::MissingIdentifier);
                },
            }
        },
    };
    let id_import: Option<String> = match builtin_import_bytes(&id_ty) {
        Some(imp) => Some(imp.to_owned()),
        None => None,
    };
    let content = repository_file(&pkg, &entity_name, &id_ty, &id_import);
    let mut repo_name: Vec<u8> = Vec::new();
    push_bytes(&mut repo_name, &entity_name);
    crate::text::push_str_bytes(&mut repo_name, "Repository");
    let dir = JavaSourceDirectoryType::Main;
    let file_path = java_file_path(&dir, &pkg, &repo_name);
    let superclass_type: Option<Vec<u8>> = if used_superclass {
        superclass_name
    } else {
        None
    };
    Ok(
        CreateJPARepositoryResponse {
            id_field_found: true,
            superclass_type,
            repository: Some(FileResponse { file_path, file_content: content }),
        },
    )
}

/// The superclass name of the given declaration, exact in both directions.
fn superclass_name_of_decl(t: &crate::tree::SyntaxTree, src: &Vec<u8>, decl: usize) -> (r: Option<
    Vec<u8>,
>)
    requires
        t.wf(src@.len()),
    ensures
        r is Some <==> spec_has_superclass_name(t.nodes@, decl as int),
        r is Some ==> exists|s: int, j: int|
            #![auto]
            is_first_child_kind(t.nodes@, decl as int, "superclass"@, s) && is_first_child_kind(
                t.nodes@,
                s,
                "type_identifier"@,
                j,
            ) && r->0@ == node_text(t.nodes@, src@, j),
{
    crate::classify::superclass_of(t, src, decl)
}

} // verus!
