//! Filters a set of source files by the kind of compilation unit each
//! declares.

use vstd::prelude::*;
use vstd::utf8::encode_utf8;

use crate::catalog::JavaFileType;
use crate::query::find_type_declaration;
use crate::query::is_top_type_decl;
use crate::query::kind_is;
use crate::query::top_type_decl_count;
use crate::responses::FileResponse;
use crate::responses::GetFilesResponse;
use crate::responses::SourceFile;
use crate::text::push_bytes;
use crate::text::str_bytes;
use crate::tree::spec_parse_ok;
use crate::tree::spec_parse_tree;
use crate::tree::parse_source;

verus! {

/// The file's bytes declare exactly one top-level type, of the requested
/// kind.
pub open spec fn spec_file_kind_match(content: Seq<u8>, kind: JavaFileType) -> bool {
    &&& spec_parse_ok(content)
    &&& top_type_decl_count(
        spec_parse_tree(content),
        spec_parse_tree(content).len() as int,
    ) == 1
    &&& exists|d: int|
        #![auto]
        is_top_type_decl(spec_parse_tree(content), d) && spec_parse_tree(content)[d].kind@
            == kind.spec_decl_kind()
}

/// Number of matching files below index `upto`.
pub open spec fn spec_kind_match_count(
    files: Seq<SourceFile>,
    kind: JavaFileType,
    upto: int,
) -> nat
    decreases upto,
{
    if upto <= 0 {
        0
    } else {
        spec_kind_match_count(files, kind, upto - 1) + if spec_file_kind_match(
            files[upto - 1].file_content@,
            kind,
        ) {
            1nat
        } else {
            0nat
        }
    }
}

/// Every listed entry carries the path and content of some matching file.
pub open spec fn spec_kind_entries_sound(
    files: Seq<SourceFile>,
    kind: JavaFileType,
    rs: Seq<FileResponse>,
) -> bool {
    forall|k: int|
        0 <= k < rs.len() ==> exists|i: int|
            #![auto]
            0 <= i < files.len() && spec_file_kind_match(files[i].file_content@, kind) && (
            #[trigger] rs[k]).file_path@ == encode_utf8(files[i].file_path@)
                && rs[k].file_content@ == files[i].file_content@
}

/// Every matching file below `upto` is listed, found by its path.
pub open spec fn spec_kind_entries_complete(
    files: Seq<SourceFile>,
    kind: JavaFileType,
    upto: int,
    rs: Seq<FileResponse>,
) -> bool {
    forall|i: int|
        0 <= i < upto && spec_file_kind_match((#[trigger] files[i]).file_content@, kind)
            ==> exists|k: int|
            0 <= k < rs.len() && rs[k].file_path@ == encode_utf8(files[i].file_path@)
}

/// Keeps exactly the files whose single top-level declaration is of the
/// requested kind: as many entries come back as files match, each entry
/// carries the path and content of its own file, and every matching file
/// is listed. A file that does not parse soundly, or does not hold exactly
/// one declaration, never matches.
pub fn execute(files: &Vec<SourceFile>, file_type: &JavaFileType) -> (r: GetFilesResponse)
    ensures
        r.files_count == r.files@.len(),
        r.files@.len() == spec_kind_match_count(files@, *file_type, files@.len() as int),
        spec_kind_entries_sound(files@, *file_type, r.files@),
        spec_kind_entries_complete(files@, *file_type, files@.len() as int, r.files@),
{
    let mut out: Vec<FileResponse> = Vec::new();
    let n = files.len();
    let mut i: usize = 0;
    while i < n
        invariant
            i <= n,
            n == files@.len(),
            out@.len() == spec_kind_match_count(files@, *file_type, i as int),
            spec_kind_entries_sound(files@, *file_type, out@),
            spec_kind_entries_complete(files@, *file_type, i as int, out@),
        decreases n - i,
    {
        let f = &files[i];
        let ghost matched = spec_file_kind_match(files@[i as int].file_content@, *file_type);
        match parse_source(&f.file_content) {
            Ok(t) => {
                let ghost ns = t.nodes@;
                match find_type_declaration(&t) {
                    Ok(decl) => {
                        if kind_is(&t.nodes[decl], file_type.decl_kind()) {
                            let file_path = str_bytes(f.file_path.as_str());
                            let mut content: Vec<u8> = Vec::new();
                            push_bytes(&mut content, &f.file_content);
                            proof {
                                assert(content@ =~= files@[i as int].file_content@);
                                assert(matched);
                            }
                            let ghost prev = out@;
                            out.push(FileResponse { file_path, file_content: content });
                            proof {
                                assert(spec_kind_entries_sound(files@, *file_type, out@)) by {
                                    assert forall|k: int|
                                        0 <= k < out@.len() implies exists|ix: int|
                                        #![auto]
                                        0 <= ix < files@.len() && spec_file_kind_match(
                                            files@[ix].file_content@,
                                            *file_type,
                                        ) && (#[trigger] out@[k]).file_path@ == encode_utf8(
                                            files@[ix].file_path@,
                                        ) && out@[k].file_content@ == files@[ix].file_content@ by {
                                        if k < prev.len() {
                                            assert(out@[k] == prev[k]);
                                            assert(spec_kind_entries_sound(
                                                files@,
                                                *file_type,
                                                prev,
                                            ));
                                            let ix0 = choose|ix0: int|
                                                #![auto]
                                                0 <= ix0 < files@.len() && spec_file_kind_match(
                                                    files@[ix0].file_content@,
                                                    *file_type,
                                                ) && prev[k].file_path@ == encode_utf8(
                                                    files@[ix0].file_path@,
                                                ) && prev[k].file_content@
                                                    == files@[ix0].file_content@;
                                            assert(out@[k].file_path@ == encode_utf8(
                                                files@[ix0].file_path@,
                                            ));
                                        } else {
                                            assert(out@[k].file_path@ == encode_utf8(
                                                files@[i as int].file_path@,
                                            ));
                                        }
                                    }
                                }
                                assert(spec_kind_entries_complete(
                                    files@,
                                    *file_type,
                                    i + 1,
                                    out@,
                                )) by {
                                    assert forall|ix: int|
                                        0 <= ix < i + 1 && spec_file_kind_match(
                                            (#[trigger] files@[ix]).file_content@,
                                            *file_type,
                                        ) implies exists|k: int|
                                        0 <= k < out@.len() && out@[k].file_path@ == encode_utf8(
                                            files@[ix].file_path@,
                                        ) by {
                                        if ix < i {
                                            assert(spec_kind_entries_complete(
                                                files@,
                                                *file_type,
                                                i as int,
                                                prev,
                                            ));
                                            let k0 = choose|k0: int|
                                                0 <= k0 < prev.len() && prev[k0].file_path@
                                                    == encode_utf8(files@[ix].file_path@);
                                            assert(out@[k0] == prev[k0]);
                                        } else {
                                            assert(out@[out@.len() - 1].file_path@ == encode_utf8(
                                                files@[ix].file_path@,
                                            ));
                                        }
                                    }
                                }
                            }
                        } else {
                            proof {
                                assert(!matched) by {
                                    if matched {
                                        let d2 = choose|d2: int|
                                            #![auto]
                                            is_top_type_decl(ns, d2) && ns[d2].kind@
                                                == file_type.spec_decl_kind();
                                        crate::query::lemma_type_decl_determinism(
                                            ns,
                                            d2,
                                            decl as int,
                                        );
                                    }
                                }
                            }
                        }
                    },
                    Err(_) => {
                        proof {
                            assert(!matched);
                        }
                    },
                }
            },
            Err(_) => {
                proof {
                    assert(!matched);
                }
            },
        }
        i = i + 1;
    }
    let files_count = out.len();
    GetFilesResponse { files: out, files_count }
}

} // verus!
