//! Adds a plain persistent field to the entity declared in a source file.

use vstd::prelude::*;
use vstd::string::StringSliceAdditionalSpecFns;
use vstd::utf8::encode_utf8;

use crate::catalog::BasicFieldConfig;
use crate::edit::TextEdit;
use crate::edit::apply_edits;
use crate::edit::spec_apply;
use crate::edit::spec_sort_by_start;
use crate::edit::wf_edit_seq;
use crate::errors::LibError;
use crate::mutate::lemma_anchor_pair_unique;
use crate::mutate::member_edit_set;
use crate::mutate::member_fqn;
use crate::mutate::resolve_member_anchors;
use crate::mutate::spec_member_duplicate;
use crate::mutate::spec_member_edit_set;
use crate::mutate::spec_member_fqn;
use crate::mutate::spec_member_ready;
use crate::query::has_field_named;
use crate::query::is_first_body_of;
use crate::query::is_top_type_decl;
use crate::query::spec_has_field_named;
use crate::responses::FileResponse;
use crate::synth::basic_field_lines;
use crate::synth::spec_basic_field_lines;
use crate::text::str_bytes;
use crate::tree::spec_parse_ok;
use crate::tree::spec_parse_tree;
use crate::tree::parse_source;

verus! {

/// Adds the configured basic field to the single type declaration of the
/// given source.
///
/// Success is owed: exactly the sources whose parse is sound, with one type
/// declaration, a body, and no member of the field's name, are edited. On
/// success the returned content is the original buffer with
/// the synthesized field block spliced in before the body's closing brace
/// and, when the field's type names an import the file lacks, that one
/// import — never a duplicate.
pub fn execute(
    entity_file_path: &String,
    entity_file_src: &Vec<u8>,
    field_config: &BasicFieldConfig,
) -> (r: Result<FileResponse, LibError>)
    ensures
        (r is Err && r->Err_0 == LibError::ParseFailure) <==> !spec_parse_ok(entity_file_src@),
        spec_parse_ok(entity_file_src@) ==> ((r is Err && r->Err_0 == LibError::AnchorNotFound)
            <==> !spec_member_ready(spec_parse_tree(entity_file_src@))),
        spec_parse_ok(entity_file_src@) && spec_member_ready(spec_parse_tree(entity_file_src@))
            ==> ((r is Err && r->Err_0 == LibError::DuplicateMember) <==> spec_member_duplicate(
            spec_parse_tree(entity_file_src@),
            entity_file_src@,
            encode_utf8(field_config.field_name@),
        )),
        spec_parse_ok(entity_file_src@) && spec_member_ready(spec_parse_tree(entity_file_src@))
            && !spec_member_duplicate(
            spec_parse_tree(entity_file_src@),
            entity_file_src@,
            encode_utf8(field_config.field_name@),
        ) ==> r is Ok,
        r is Ok ==> spec_parse_ok(entity_file_src@) && exists|
            edits: Seq<TextEdit>,
            decl: int,
            body: int,
        |
            #![auto]
            {
                &&& is_top_type_decl(spec_parse_tree(entity_file_src@), decl)
                &&& is_first_body_of(spec_parse_tree(entity_file_src@), decl, body)
                &&& !spec_has_field_named(
                    spec_parse_tree(entity_file_src@),
                    entity_file_src@,
                    body,
                    encode_utf8(field_config.field_name@),
                )
                &&& spec_member_edit_set(
                    spec_parse_tree(entity_file_src@),
                    entity_file_src@,
                    decl,
                    body,
                    spec_basic_field_lines(*field_config),
                    spec_member_fqn(
                        field_config.field_type@,
                        match field_config.field_type_package_name {
                            Some(p) => Some(p@),
                            None => None,
                        },
                    ),
                    edits,
                )
                &&& wf_edit_seq(spec_sort_by_start(edits), entity_file_src@.len())
                &&& r->Ok_0.file_content@ == spec_apply(entity_file_src@, spec_sort_by_start(edits))
                &&& r->Ok_0.file_path@ == encode_utf8(entity_file_path@)
            },
{
    let t = match parse_source(entity_file_src) {
        Ok(t) => t,
        Err(e) => {
            return Err(e);
        },
    };
    let ghost ns = spec_parse_tree(entity_file_src@);
    let (decl, body) = match resolve_member_anchors(&t) {
        Ok(p) => p,
        Err(e) => {
            proof {
                assert(!spec_member_ready(ns));
            }
            return Err(e);
        },
    };
    if !(t.nodes[decl].start < t.nodes[body].start && t.nodes[body].start < t.nodes[body].end) {
        proof {
            assert(!spec_member_ready(ns)) by {
                if spec_member_ready(ns) {
                    let (d2, b2) = choose|d2: int, b2: int|
                        #![auto]
                        is_top_type_decl(ns, d2) && is_first_body_of(ns, d2, b2) && ns[d2].start
                            < ns[b2].start && ns[b2].start < ns[b2].end;
                    lemma_anchor_pair_unique(ns, decl as int, body as int, d2, b2);
                }
            }
        }
        return Err(LibError::AnchorNotFound);
    }
    proof {
        assert(spec_member_ready(ns));
    }
    let name_bytes = str_bytes(field_config.field_name.as_str());
    if has_field_named(&t, entity_file_src, body, &name_bytes) {
        proof {
            assert(spec_member_duplicate(ns, entity_file_src@, name_bytes@));
        }
        return Err(LibError::DuplicateMember);
    }
    proof {
        assert(!spec_member_duplicate(ns, entity_file_src@, name_bytes@)) by {
            if spec_member_duplicate(ns, entity_file_src@, name_bytes@) {
                let (d2, b2) = choose|d2: int, b2: int|
                    #![auto]
                    is_top_type_decl(ns, d2) && is_first_body_of(ns, d2, b2)
                        && spec_has_field_named(ns, entity_file_src@, b2, name_bytes@);
                lemma_anchor_pair_unique(ns, decl as int, body as int, d2, b2);
            }
        }
    }
    let lines = basic_field_lines(field_config);
    let fqn = member_fqn(&field_config.field_type, &field_config.field_type_package_name);
    let edits = member_edit_set(&t, entity_file_src, decl, body, &lines, &fqn);
    let content = match apply_edits(entity_file_src, edits) {
        Ok(c) => c,
        Err(e) => {
            return Err(e);
        },
    };
    let file_path = str_bytes(entity_file_path.as_str());
    Ok(FileResponse { file_path, file_content: content })
}

} // verus!
