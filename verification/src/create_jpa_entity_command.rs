//! Creates a new, empty entity compilation unit: package clause, the
//! entity marker, and an empty public class, optionally extending a
//! superclass.

use vstd::prelude::*;
use vstd::utf8::encode_utf8;

use crate::catalog::JavaSourceDirectoryType;
use crate::errors::LibError;
use crate::paths::java_file_path;
use crate::paths::spec_java_file_path;
use crate::paths::spec_pascal;
use crate::paths::to_pascal_case;
use crate::responses::FileResponse;
use crate::text::push_bytes;
use crate::text::push_str_bytes;
use crate::text::str_bytes;
use crate::synth::push_string_bytes;

verus! {

/// An entity compilation unit over raw name bytes: the package clause, the
/// entity-marker import, the superclass import when its package is given,
/// and an empty annotated public class extending the superclass when one
/// is given.
pub open spec fn spec_entity_file_bytes(
    package_name: Seq<char>,
    simple_name: Seq<u8>,
    superclass_type: Option<Seq<char>>,
    superclass_package: Option<Seq<char>>,
) -> Seq<u8> {
    vstd::string::StringSliceAdditionalSpecFns::spec_bytes("package ") + encode_utf8(package_name)
        + vstd::string::StringSliceAdditionalSpecFns::spec_bytes(
        ";\n\nimport jakarta.persistence.Entity;\n",
    ) + (if superclass_type is Some && superclass_package is Some {
        vstd::string::StringSliceAdditionalSpecFns::spec_bytes("import ") + encode_utf8(
            superclass_package->0,
        ) + vstd::string::StringSliceAdditionalSpecFns::spec_bytes(".") + encode_utf8(
            superclass_type->0,
        ) + vstd::string::StringSliceAdditionalSpecFns::spec_bytes(";\n")
    } else {
        Seq::<u8>::empty()
    }) + vstd::string::StringSliceAdditionalSpecFns::spec_bytes("\n@Entity\npublic class ")
        + simple_name + (if superclass_type is Some {
        vstd::string::StringSliceAdditionalSpecFns::spec_bytes(" extends ") + encode_utf8(
            superclass_type->0,
        )
    } else {
        Seq::<u8>::empty()
    }) + vstd::string::StringSliceAdditionalSpecFns::spec_bytes(" {\n}\n")
}

/// Renders a new entity compilation unit under the main source set.
///
/// The file name is normalized to pascal case; the superclass, when given,
/// is extended and imported from its package when that is given too.
pub fn execute(
    package_name: &String,
    file_name: &String,
    superclass_type: &Option<String>,
    superclass_package_name: &Option<String>,
) -> (r: Result<FileResponse, LibError>)
    ensures
        r is Ok,
        r->Ok_0.file_path@ == spec_java_file_path(
            JavaSourceDirectoryType::Main.spec_root_path(),
            encode_utf8(package_name@),
            spec_pascal(encode_utf8(file_name@)),
        ),
        r->Ok_0.file_content@ == spec_entity_file_bytes(
            package_name@,
            spec_pascal(encode_utf8(file_name@)),
            match superclass_type {
                Some(s) => Some(s@),
                None => None,
            },
            match superclass_package_name {
                Some(s) => Some(s@),
                None => None,
            },
        ),
{
    let raw_name = str_bytes(file_name.as_str());
    let normalized = to_pascal_case(&raw_name);
    let pkg_bytes = str_bytes(package_name.as_str());
    let dir = JavaSourceDirectoryType::Main;
    let file_path = java_file_path(&dir, &pkg_bytes, &normalized);
    let mut out: Vec<u8> = Vec::new();
    push_str_bytes(&mut out, "package ");
    push_string_bytes(&mut out, package_name);
    push_str_bytes(&mut out, ";\n\nimport jakarta.persistence.Entity;\n");
    if let Some(st) = superclass_type {
        if let Some(sp) = superclass_package_name {
            push_str_bytes(&mut out, "import ");
            push_string_bytes(&mut out, sp);
            push_str_bytes(&mut out, ".");
            push_string_bytes(&mut out, st);
            push_str_bytes(&mut out, ";\n");
        }
    }
    push_str_bytes(&mut out, "\n@Entity\npublic class ");
    push_bytes(&mut out, &normalized);
    if let Some(st) = superclass_type {
        push_str_bytes(&mut out, " extends ");
        push_string_bytes(&mut out, st);
    }
    push_str_bytes(&mut out, " {\n}\n");
    proof {
        assert(out@ =~= spec_entity_file_bytes(
            package_name@,
            spec_pascal(encode_utf8(file_name@)),
            match superclass_type {
                Some(s) => Some(s@),
                None => None,
            },
            match superclass_package_name {
                Some(s) => Some(s@),
                None => None,
            },
        ));
    }
    Ok(FileResponse { file_path, file_content: out })
}

} // verus!
