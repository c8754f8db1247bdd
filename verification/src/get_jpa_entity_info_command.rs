//! Reads the descriptor of the entity declared in a source file.

use vstd::prelude::*;

use crate::classify::entity_info;
use crate::classify::spec_readable_local_id;
use crate::classify::spec_has_package_name;
use crate::classify::spec_has_superclass_name;
use crate::classify::spec_is_id_field;
use crate::classify::spec_entity_marker;
use crate::classify::spec_fields_complete;
use crate::classify::spec_fields_of;
use crate::classify::spec_mapped_superclass_marker;
use crate::classify::spec_named_decl;
use crate::errors::LibError;
use crate::query::is_first_body_of;
use crate::query::is_first_child_kind;
use crate::query::is_top_type_decl;
use crate::query::node_text;
use crate::query::spec_has_annotation;
use crate::responses::GetJpaEntityInfoResponse;
use crate::tree::spec_parse_ok;
use crate::tree::spec_parse_tree;
use crate::tree::parse_source;

verus! {

/// Parses the source and extracts the descriptor of its single type
/// declaration: name, package, superclass, identifier field, declared
/// fields, and whether the type is marked as an entity or as a mapped
/// superclass.
///
/// Success is owed: exactly the sources whose parse is sound and holds one
/// top-level type declaration with a named identifier yield a descriptor;
/// an unsound parse is the parse failure, anything else the
/// anchor-not-found error.
pub fn execute(source: &Vec<u8>) -> (r: Result<GetJpaEntityInfoResponse, LibError>)
    ensures
        r is Ok <==> spec_parse_ok(source@) && spec_named_decl(spec_parse_tree(source@)),
        (r is Err && r->Err_0 == LibError::ParseFailure) <==> !spec_parse_ok(source@),
        r is Err ==> (r->Err_0 == LibError::ParseFailure || r->Err_0 == LibError::AnchorNotFound),
        r is Ok ==> exists|decl: int|
            #![auto]
            {
                &&& is_top_type_decl(spec_parse_tree(source@), decl)
                &&& r->Ok_0.is_entity == spec_has_annotation(
                    spec_parse_tree(source@),
                    source@,
                    decl,
                    spec_entity_marker(),
                )
                &&& r->Ok_0.is_mapped_superclass == spec_has_annotation(
                    spec_parse_tree(source@),
                    source@,
                    decl,
                    spec_mapped_superclass_marker(),
                )
                &&& exists|j: int|
                    is_first_child_kind(spec_parse_tree(source@), decl, "identifier"@, j)
                        && r->Ok_0.entity_name@ == node_text(spec_parse_tree(source@), source@, j)
                &&& (r->Ok_0.superclass_name is Some <==> spec_has_superclass_name(
                    spec_parse_tree(source@),
                    decl,
                ))
                &&& r->Ok_0.superclass_name is Some ==> exists|s: int, j: int|
                    #![auto]
                    is_first_child_kind(spec_parse_tree(source@), decl, "superclass"@, s)
                        && is_first_child_kind(
                        spec_parse_tree(source@),
                        s,
                        "type_identifier"@,
                        j,
                    ) && r->Ok_0.superclass_name->0@ == node_text(
                        spec_parse_tree(source@),
                        source@,
                        j,
                    )
            },
        r is Ok ==> (r->Ok_0.package_name is Some <==> spec_has_package_name(
            spec_parse_tree(source@),
        )),
        r is Ok && r->Ok_0.package_name is Some ==> exists|p: int, j: int|
            #![auto]
            is_first_child_kind(spec_parse_tree(source@), 0, "package_declaration"@, p)
                && crate::query::is_first_name_child(spec_parse_tree(source@), p, j)
                && r->Ok_0.package_name->0@ == node_text(spec_parse_tree(source@), source@, j),
        r is Ok ==> (r->Ok_0.id_field_name is Some <==> spec_readable_local_id(
            spec_parse_tree(source@),
            source@,
        )),
        r is Ok && r->Ok_0.id_field_name is Some ==> exists|body: int, f: int, nm: int, ty: int|
            #![auto]
            {
                &&& spec_is_id_field(spec_parse_tree(source@), source@, body, f)
                &&& crate::query::is_field_name_node(spec_parse_tree(source@), f, nm)
                &&& crate::query::is_field_type_node(spec_parse_tree(source@), f, ty)
                &&& r->Ok_0.id_field_name->0@ == node_text(spec_parse_tree(source@), source@, nm)
                &&& r->Ok_0.id_field_type->0@ == node_text(spec_parse_tree(source@), source@, ty)
            },
        r is Ok ==> (exists|decl: int, body: int|
            #![auto]
            is_top_type_decl(spec_parse_tree(source@), decl) && is_first_body_of(
                spec_parse_tree(source@),
                decl,
                body,
            ) && spec_fields_of(spec_parse_tree(source@), source@, body, r->Ok_0.fields@)
                && spec_fields_complete(
                spec_parse_tree(source@),
                source@,
                body,
                r->Ok_0.fields@,
            )) || (!(exists|decl: int, body: int|
            #![auto]
            is_top_type_decl(spec_parse_tree(source@), decl) && is_first_body_of(
                spec_parse_tree(source@),
                decl,
                body,
            )) && r->Ok_0.fields@.len() == 0),
        r is Ok ==> (r->Ok_0.id_field_name is Some <==> r->Ok_0.id_field_type is Some),
{
    let t = match parse_source(source) {
        Ok(t) => t,
        Err(e) => {
            return Err(e);
        },
    };
    entity_info(&t, source)
}

} // verus!
