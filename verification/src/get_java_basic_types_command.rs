//! Lists the basic-type table, or one of its slices.

use vstd::prelude::*;

use crate::catalog::BasicTypeEntry;
use crate::catalog::JavaBasicType;
use crate::catalog::spec_builtin_import;
use crate::catalog::spec_is_language_type;
use crate::catalog::builtin_import;
use crate::errors::LibError;

verus! {

/// The textual slice of the basic-type table, in order.
pub open spec fn spec_textual_names() -> Seq<Seq<char>> {
    seq!["String"@, "Character"@]
}

/// The numeric slice of the basic-type table, in order.
pub open spec fn spec_numeric_names() -> Seq<Seq<char>> {
    seq![
        "Byte"@,
        "Short"@,
        "Integer"@,
        "Long"@,
        "Float"@,
        "Double"@,
        "BigDecimal"@,
        "BigInteger"@,
    ]
}

/// The temporal slice of the basic-type table, in order.
pub open spec fn spec_temporal_names() -> Seq<Seq<char>> {
    seq![
        "LocalDate"@,
        "LocalTime"@,
        "LocalDateTime"@,
        "OffsetDateTime"@,
        "ZonedDateTime"@,
        "Instant"@,
    ]
}

/// The names of the requested slice of the basic-type table, in the order
/// they are listed: the textual, numeric and temporal slices, and for the
/// full table also the remaining well-known types.
pub open spec fn spec_basic_names(kind: JavaBasicType) -> Seq<Seq<char>> {
    match kind {
        JavaBasicType::Textual => spec_textual_names(),
        JavaBasicType::Numeric => spec_numeric_names(),
        JavaBasicType::Temporal => spec_temporal_names(),
        JavaBasicType::AllTypes => spec_textual_names() + spec_numeric_names()
            + spec_temporal_names() + seq!["Boolean"@, "UUID"@],
    }
}

/// Every listed entry carries exactly the import the catalog gives its
/// name — none for a language type.
pub open spec fn spec_catalog_entries(entries: Seq<BasicTypeEntry>) -> bool {
    forall|i: int|
        0 <= i < entries.len() ==> {
            &&& spec_is_language_type((#[trigger] entries[i]).name@) || spec_builtin_import(
                entries[i].name@,
            ) is Some
            &&& (entries[i].import_path is Some <==> spec_builtin_import(entries[i].name@) is Some)
            &&& (entries[i].import_path is Some ==> entries[i].import_path->0@
                == spec_builtin_import(entries[i].name@)->0)
        }
}

fn entry(name: &str) -> (r: BasicTypeEntry)
    ensures
        r.name@ == name@,
        r.import_path is Some <==> spec_builtin_import(name@) is Some,
        r.import_path is Some ==> r.import_path->0@ == spec_builtin_import(name@)->0,
{
    let import_path: Option<String> = match builtin_import(name) {
        Some(p) => Some(p.to_owned()),
        None => None,
    };
    BasicTypeEntry { name: name.to_owned(), import_path }
}

/// Lists the requested slice of the basic-type table: exactly the slice's
/// names, in table order, each entry carrying the import the catalog
/// prescribes for it, when it needs one at all.
#[verifier::rlimit(60)]
pub fn execute(basic_type_kind: &JavaBasicType) -> (r: Result<Vec<BasicTypeEntry>, LibError>)
    ensures
        r is Ok,
        r->Ok_0@.len() == spec_basic_names(*basic_type_kind).len(),
        forall|i: int|
            0 <= i < r->Ok_0@.len() ==> (#[trigger] r->Ok_0@[i]).name@ == spec_basic_names(
                *basic_type_kind,
            )[i],
        spec_catalog_entries(r->Ok_0@),
{
    let mut out: Vec<BasicTypeEntry> = Vec::new();
    let textual = match basic_type_kind {
        JavaBasicType::AllTypes => true,
        JavaBasicType::Textual => true,
        _ => false,
    };
    let numeric = match basic_type_kind {
        JavaBasicType::AllTypes => true,
        JavaBasicType::Numeric => true,
        _ => false,
    };
    let temporal = match basic_type_kind {
        JavaBasicType::AllTypes => true,
        JavaBasicType::Temporal => true,
        _ => false,
    };
    if textual {
        out.push(entry("String"));
        out.push(entry("Character"));
    }
    if numeric {
        out.push(entry("Byte"));
        out.push(entry("Short"));
        out.push(entry("Integer"));
        out.push(entry("Long"));
        out.push(entry("Float"));
        out.push(entry("Double"));
        out.push(entry("BigDecimal"));
        out.push(entry("BigInteger"));
    }
    if temporal {
        out.push(entry("LocalDate"));
        out.push(entry("LocalTime"));
        out.push(entry("LocalDateTime"));
        out.push(entry("OffsetDateTime"));
        out.push(entry("ZonedDateTime"));
        out.push(entry("Instant"));
    }
    match basic_type_kind {
        JavaBasicType::AllTypes => {
            out.push(entry("Boolean"));
            out.push(entry("UUID"));
        },
        _ => {},
    }
    proof {
        match basic_type_kind {
            JavaBasicType::Textual => {
                assert(out@.len() == spec_basic_names(*basic_type_kind).len());
                assert(forall|i: int|
                    0 <= i < out@.len() ==> (#[trigger] out@[i]).name@ == spec_basic_names(
                        *basic_type_kind,
                    )[i]);
            },
            JavaBasicType::Numeric => {
                assert(out@.len() == spec_basic_names(*basic_type_kind).len());
                assert(forall|i: int|
                    0 <= i < out@.len() ==> (#[trigger] out@[i]).name@ == spec_basic_names(
                        *basic_type_kind,
                    )[i]);
            },
            JavaBasicType::Temporal => {
                assert(out@.len() == spec_basic_names(*basic_type_kind).len());
                assert(forall|i: int|
                    0 <= i < out@.len() ==> (#[trigger] out@[i]).name@ == spec_basic_names(
                        *basic_type_kind,
                    )[i]);
            },
            JavaBasicType::AllTypes => {
                assert(spec_basic_names(*basic_type_kind).len() == 18);
                assert(out@.len() == 18);
                assert(forall|i: int|
                    0 <= i < out@.len() ==> (#[trigger] out@[i]).name@ == spec_basic_names(
                        *basic_type_kind,
                    )[i]);
            },
        }
    }
    Ok(out)
}

} // verus!
