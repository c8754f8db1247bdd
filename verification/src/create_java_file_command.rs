//! Creates a new, empty Java compilation unit: package clause and an empty
//! public type of the requested kind, at its conventional path.

use vstd::prelude::*;
use vstd::utf8::encode_utf8;

use crate::catalog::JavaFileType;
use crate::catalog::JavaSourceDirectoryType;
use crate::errors::LibError;
use crate::paths::java_file_path;
use crate::paths::spec_java_file_path;
use crate::paths::spec_pascal;
use crate::paths::to_pascal_case;
use crate::responses::FileResponse;
use crate::text::str_bytes;

verus! {

/// Renders a new compilation unit of the requested kind.
///
/// The file name is normalized to pascal case first; the content is the
/// package clause and an empty public declaration, and the path puts the
/// file under the chosen source set at its package directory.
pub fn execute(
    package_name: &String,
    file_name: &String,
    file_type: &JavaFileType,
    source_directory: &JavaSourceDirectoryType,
) -> (r: Result<FileResponse, LibError>)
    ensures
        r is Ok,
        r->Ok_0.file_path@ == spec_java_file_path(
            source_directory.spec_root_path(),
            encode_utf8(package_name@),
            spec_pascal(encode_utf8(file_name@)),
        ),
        r->Ok_0.file_content@ == spec_plain_file_bytes(
            package_name@,
            spec_pascal(encode_utf8(file_name@)),
            *file_type,
        ),
{
    let raw_name = str_bytes(file_name.as_str());
    let normalized = to_pascal_case(&raw_name);
    let pkg_bytes = str_bytes(package_name.as_str());
    let file_path = java_file_path(source_directory, &pkg_bytes, &normalized);
    let content = plain_file_bytes(package_name, &normalized, file_type);
    Ok(FileResponse { file_path, file_content: content })
}

/// A plain compilation unit over raw name bytes.
pub open spec fn spec_plain_file_bytes(
    package_name: Seq<char>,
    simple_name: Seq<u8>,
    kind: JavaFileType,
) -> Seq<u8> {
    spec_plain_file_head(package_name, kind) + simple_name + spec_plain_file_tail()
}

/// The bytes before the simple name of a plain compilation unit.
pub open spec fn spec_plain_file_head(package_name: Seq<char>, kind: JavaFileType) -> Seq<u8> {
    vstd::string::StringSliceAdditionalSpecFns::spec_bytes("package ") + encode_utf8(package_name)
        + vstd::string::StringSliceAdditionalSpecFns::spec_bytes(";\n\npublic ") + encode_utf8(
        kind.spec_keyword(),
    ) + vstd::string::StringSliceAdditionalSpecFns::spec_bytes(" ")
}

/// The bytes after the simple name of a plain compilation unit.
pub open spec fn spec_plain_file_tail() -> Seq<u8> {
    vstd::string::StringSliceAdditionalSpecFns::spec_bytes(" {\n}\n")
}

fn plain_file_bytes(package_name: &String, simple_name: &Vec<u8>, kind: &JavaFileType) -> (r: Vec<
    u8,
>)
    ensures
        r@ == spec_plain_file_bytes(package_name@, simple_name@, *kind),
{
    let mut out: Vec<u8> = Vec::new();
    crate::text::push_str_bytes(&mut out, "package ");
    crate::synth::push_string_bytes(&mut out, package_name);
    crate::text::push_str_bytes(&mut out, ";\n\npublic ");
    crate::text::push_str_bytes(&mut out, kind.keyword());
    crate::text::push_str_bytes(&mut out, " ");
    crate::text::push_bytes(&mut out, simple_name);
    crate::text::push_str_bytes(&mut out, " {\n}\n");
    proof {
        assert(out@ =~= spec_plain_file_bytes(package_name@, simple_name@, *kind));
    }
    out
}

} // verus!
