//! Adds the owning side of a one-to-one association to an entity source
//! file. The inverse side of the configuration is descriptive only: this
//! command mutates a single file.

use vstd::prelude::*;
use vstd::string::StringSliceAdditionalSpecFns;
use vstd::utf8::encode_utf8;

use crate::catalog::OneToOneFieldConfig;
use crate::catalog::normalize_cascades;
use crate::catalog::spec_normalize_cascades;
use crate::edit::TextEdit;
use crate::edit::apply_edits;
use crate::edit::spec_apply;
use crate::edit::spec_sort_by_start;
use crate::edit::wf_edit_seq;
use crate::errors::LibError;
use crate::mutate::lemma_anchor_pair_unique;
use crate::mutate::member_edit_set;
use crate::mutate::resolve_member_anchors;
use crate::mutate::spec_member_duplicate;
use crate::mutate::spec_member_edit_set;
use crate::mutate::spec_member_ready;
use crate::query::has_field_named;
use crate::query::is_first_body_of;
use crate::query::is_top_type_decl;
use crate::query::spec_has_field_named;
use crate::responses::FileResponse;
use crate::synth::one_to_one_lines;
use crate::synth::spec_one_to_one_lines;
use crate::text::str_bytes;
use crate::tree::spec_parse_ok;
use crate::tree::spec_parse_tree;
use crate::tree::parse_source;

verus! {

/// Adds the owning-side field of a one-to-one association to the single
/// type declaration of the given source. The owning-side cascade list is
/// normalized first: duplicates collapse, and the all-operations cascade
/// subsumes the rest.
///
/// Success is owed exactly as for basic fields: a sound parse with one
/// declaration, a body, and no member of the owning-side field name is
/// edited.
pub fn execute(
    owning_side_entity_file_path: &String,
    owning_side_entity_file_src: &Vec<u8>,
    owning_side_field_name: &String,
    inverse_side_field_name: &String,
    config: OneToOneFieldConfig,
) -> (r: Result<FileResponse, LibError>)
    ensures
        (r is Err && r->Err_0 == LibError::ParseFailure) <==> !spec_parse_ok(owning_side_entity_file_src@),
        spec_parse_ok(owning_side_entity_file_src@) ==> ((r is Err && r->Err_0 == LibError::AnchorNotFound)
            <==> !spec_member_ready(spec_parse_tree(owning_side_entity_file_src@))),
        spec_parse_ok(owning_side_entity_file_src@) && spec_member_ready(spec_parse_tree(owning_side_entity_file_src@))
            ==> ((r is Err && r->Err_0 == LibError::DuplicateMember) <==> spec_member_duplicate(
            spec_parse_tree(owning_side_entity_file_src@),
            owning_side_entity_file_src@,
            encode_utf8(owning_side_field_name@),
        )),
        spec_parse_ok(owning_side_entity_file_src@) && spec_member_ready(spec_parse_tree(owning_side_entity_file_src@))
            && !spec_member_duplicate(
            spec_parse_tree(owning_side_entity_file_src@),
            owning_side_entity_file_src@,
            encode_utf8(owning_side_field_name@),
        ) ==> r is Ok,
        r is Ok ==> spec_parse_ok(owning_side_entity_file_src@) && exists|
            edits: Seq<TextEdit>,
            decl: int,
            body: int,
        |
            #![auto]
            {
                &&& is_top_type_decl(spec_parse_tree(owning_side_entity_file_src@), decl)
                &&& is_first_body_of(spec_parse_tree(owning_side_entity_file_src@), decl, body)
                &&& !spec_has_field_named(
                    spec_parse_tree(owning_side_entity_file_src@),
                    owning_side_entity_file_src@,
                    body,
                    encode_utf8(owning_side_field_name@),
                )
                &&& spec_member_edit_set(
                    spec_parse_tree(owning_side_entity_file_src@),
                    owning_side_entity_file_src@,
                    decl,
                    body,
                    spec_one_to_one_lines(
                        owning_side_field_name@,
                        config,
                        spec_normalize_cascades(config.owning_side_cascades@),
                    ),
                    None,
                    edits,
                )
                &&& wf_edit_seq(spec_sort_by_start(edits), owning_side_entity_file_src@.len())
                &&& r->Ok_0.file_content@ == spec_apply(owning_side_entity_file_src@, spec_sort_by_start(edits))
                &&& r->Ok_0.file_path@ == encode_utf8(owning_side_entity_file_path@)
            },
{
    let _ = inverse_side_field_name;
    let t = match parse_source(owning_side_entity_file_src) {
        Ok(t) => t,
        Err(e) => {
            return Err(e);
        },
    };
    let ghost ns = spec_parse_tree(owning_side_entity_file_src@);
    let (decl, body) = match resolve_member_anchors(&t) {
        Ok(p) => p,
        Err(e) => {
            proof {
                assert(!spec_member_ready(ns));
            }
            return Err(e);
        },
    };
    if !(t.nodes[decl].start < t.nodes[body].start && t.nodes[body].start < t.nodes[body].end) {
        proof {
            assert(!spec_member_ready(ns)) by {
                if spec_member_ready(ns) {
                    let (d2, b2) = choose|d2: int, b2: int|
                        #![auto]
                        is_top_type_decl(ns, d2) && is_first_body_of(ns, d2, b2) && ns[d2].start
                            < ns[b2].start && ns[b2].start < ns[b2].end;
                    lemma_anchor_pair_unique(ns, decl as int, body as int, d2, b2);
                }
            }
        }
        return Err(LibError::AnchorNotFound);
    }
    proof {
        assert(spec_member_ready(ns));
    }
    let name_bytes = str_bytes(owning_side_field_name.as_str());
    if has_field_named(&t, owning_side_entity_file_src, body, &name_bytes) {
        proof {
            assert(spec_member_duplicate(ns, owning_side_entity_file_src@, name_bytes@));
        }
        return Err(LibError::DuplicateMember);
    }
    proof {
        assert(!spec_member_duplicate(ns, owning_side_entity_file_src@, name_bytes@)) by {
            if spec_member_duplicate(ns, owning_side_entity_file_src@, name_bytes@) {
                let (d2, b2) = choose|d2: int, b2: int|
                    #![auto]
                    is_top_type_decl(ns, d2) && is_first_body_of(ns, d2, b2)
                        && spec_has_field_named(ns, owning_side_entity_file_src@, b2, name_bytes@);
                lemma_anchor_pair_unique(ns, decl as int, body as int, d2, b2);
            }
        }
    }
    let cascades = normalize_cascades(&config.owning_side_cascades);
    let lines = one_to_one_lines(owning_side_field_name, &config, &cascades);
    let fqn: Option<String> = None;
    let edits = member_edit_set(&t, owning_side_entity_file_src, decl, body, &lines, &fqn);
    let content = match apply_edits(owning_side_entity_file_src, edits) {
        Ok(c) => c,
        Err(e) => {
            return Err(e);
        },
    };
    let file_path = str_bytes(owning_side_entity_file_path.as_str());
    Ok(FileResponse { file_path, file_content: content })
}

} // verus!
