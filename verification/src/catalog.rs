//! The domain catalog: closed enumerations of configuration values, the
//! typed field and relationship configurations built from them, the
//! basic-type table, and the centralized legality check for identifier
//! generation.

use vstd::prelude::*;
use vstd::string::StringExecFns;
use vstd::string::StringSliceAdditionalSpecFns;
use vstd::utf8::encode_utf8;

use crate::errors::LibError;
use crate::text::bytes_eq_str;

verus! {

/// Propagation of persistence operations along an association.
#[derive(Clone, Copy, Debug, PartialEq, Eq, Structural)]
pub enum CascadeType {
    All,
    Persist,
    Merge,
    Remove,
    Refresh,
    Detach,
}

impl CascadeType {
    /// The Java constant for this cascade value.
    pub fn java_name(&self) -> (r: &'static str)
        ensures
            r@ == self.spec_java_name(),
    {
        match self {
            CascadeType::All => "ALL",
            CascadeType::Persist => "PERSIST",
            CascadeType::Merge => "MERGE",
            CascadeType::Remove => "REMOVE",
            CascadeType::Refresh => "REFRESH",
            CascadeType::Detach => "DETACH",
        }
    }

    pub open spec fn spec_java_name(&self) -> Seq<char> {
        match self {
            CascadeType::All => "ALL"@,
            CascadeType::Persist => "PERSIST"@,
            CascadeType::Merge => "MERGE"@,
            CascadeType::Remove => "REMOVE"@,
            CascadeType::Refresh => "REFRESH"@,
            CascadeType::Detach => "DETACH"@,
        }
    }
}

/// Whether an association is loaded immediately or on demand.
#[derive(Clone, Copy, Debug, PartialEq, Eq, Structural)]
pub enum FetchType {
    Eager,
    Lazy,
}

impl FetchType {
    pub fn java_name(&self) -> (r: &'static str)
        ensures
            r@ == self.spec_java_name(),
    {
        match self {
            FetchType::Eager => "EAGER",
            FetchType::Lazy => "LAZY",
        }
    }

    pub open spec fn spec_java_name(&self) -> Seq<char> {
        match self {
            FetchType::Eager => "EAGER"@,
            FetchType::Lazy => "LAZY"@,
        }
    }
}

/// Mapping direction of a relationship.
#[derive(Clone, Copy, Debug, PartialEq, Eq, Structural)]
pub enum MappingType {
    Unidirectional,
    Bidirectional,
}

/// The collection wrapper used for the inverse side of a many-to-one
/// association.
#[derive(Clone, Copy, Debug, PartialEq, Eq, Structural)]
pub enum CollectionType {
    List,
    JavaSet,
    Collection,
}

impl CollectionType {
    pub fn java_name(&self) -> (r: &'static str)
        ensures
            r@ == self.spec_java_name(),
    {
        match self {
            CollectionType::List => "List",
            CollectionType::JavaSet => "Set",
            CollectionType::Collection => "Collection",
        }
    }

    pub open spec fn spec_java_name(&self) -> Seq<char> {
        match self {
            CollectionType::List => "List"@,
            CollectionType::JavaSet => "Set"@,
            CollectionType::Collection => "Collection"@,
        }
    }
}

/// Temporal precision of a date-valued basic field.
#[derive(Clone, Copy, Debug, PartialEq, Eq, Structural)]
pub enum JavaFieldTemporal {
    Date,
    Time,
    Timestamp,
}

impl JavaFieldTemporal {
    pub fn java_name(&self) -> (r: &'static str)
        ensures
            r@ == self.spec_java_name(),
    {
        match self {
            JavaFieldTemporal::Date => "DATE",
            JavaFieldTemporal::Time => "TIME",
            JavaFieldTemporal::Timestamp => "TIMESTAMP",
        }
    }

    pub open spec fn spec_java_name(&self) -> Seq<char> {
        match self {
            JavaFieldTemporal::Date => "DATE"@,
            JavaFieldTemporal::Time => "TIME"@,
            JavaFieldTemporal::Timestamp => "TIMESTAMP"@,
        }
    }
}

/// Timezone storage mode of a time-valued basic field.
#[derive(Clone, Copy, Debug, PartialEq, Eq, Structural)]
pub enum JavaFieldTimeZoneStorage {
    Native,
    Normalize,
    NormalizeUtc,
    Column,
    Auto,
}

impl JavaFieldTimeZoneStorage {
    pub fn java_name(&self) -> (r: &'static str)
        ensures
            r@ == self.spec_java_name(),
    {
        match self {
            JavaFieldTimeZoneStorage::Native => "NATIVE",
            JavaFieldTimeZoneStorage::Normalize => "NORMALIZE",
            JavaFieldTimeZoneStorage::NormalizeUtc => "NORMALIZE_UTC",
            JavaFieldTimeZoneStorage::Column => "COLUMN",
            JavaFieldTimeZoneStorage::Auto => "AUTO",
        }
    }

    pub open spec fn spec_java_name(&self) -> Seq<char> {
        match self {
            JavaFieldTimeZoneStorage::Native => "NATIVE"@,
            JavaFieldTimeZoneStorage::Normalize => "NORMALIZE"@,
            JavaFieldTimeZoneStorage::NormalizeUtc => "NORMALIZE_UTC"@,
            JavaFieldTimeZoneStorage::Column => "COLUMN"@,
            JavaFieldTimeZoneStorage::Auto => "AUTO"@,
        }
    }
}

/// Storage mode of an enum-valued field.
#[derive(Clone, Copy, Debug, PartialEq, Eq, Structural)]
pub enum JavaEnumType {
    Ordinal,
    Text,
}

impl JavaEnumType {
    pub fn java_name(&self) -> (r: &'static str)
        ensures
            r@ == self.spec_java_name(),
    {
        match self {
            JavaEnumType::Ordinal => "ORDINAL",
            JavaEnumType::Text => "STRING",
        }
    }

    pub open spec fn spec_java_name(&self) -> Seq<char> {
        match self {
            JavaEnumType::Ordinal => "ORDINAL"@,
            JavaEnumType::Text => "STRING"@,
        }
    }
}

/// The kind of Java compilation unit a file declares.
#[derive(Clone, Copy, Debug, PartialEq, Eq, Structural)]
pub enum JavaFileType {
    Class,
    Interface,
    Enum,
    Record,
    Annotation,
}

impl JavaFileType {
    /// The declaration keyword for this file kind.
    pub fn keyword(&self) -> (r: &'static str)
        ensures
            r@ == self.spec_keyword(),
    {
        match self {
            JavaFileType::Class => "class",
            JavaFileType::Interface => "interface",
            JavaFileType::Enum => "enum",
            JavaFileType::Record => "record",
            JavaFileType::Annotation => "@interface",
        }
    }

    pub open spec fn spec_keyword(&self) -> Seq<char> {
        match self {
            JavaFileType::Class => "class"@,
            JavaFileType::Interface => "interface"@,
            JavaFileType::Enum => "enum"@,
            JavaFileType::Record => "record"@,
            JavaFileType::Annotation => "@interface"@,
        }
    }

    /// The node-kind tag of the matching top-level declaration.
    pub fn decl_kind(&self) -> (r: &'static str)
        ensures
            r@ == self.spec_decl_kind(),
    {
        match self {
            JavaFileType::Class => "class_declaration",
            JavaFileType::Interface => "interface_declaration",
            JavaFileType::Enum => "enum_declaration",
            JavaFileType::Record => "record_declaration",
            JavaFileType::Annotation => "annotation_type_declaration",
        }
    }

    pub open spec fn spec_decl_kind(&self) -> Seq<char> {
        match self {
            JavaFileType::Class => "class_declaration"@,
            JavaFileType::Interface => "interface_declaration"@,
            JavaFileType::Enum => "enum_declaration"@,
            JavaFileType::Record => "record_declaration"@,
            JavaFileType::Annotation => "annotation_type_declaration"@,
        }
    }
}

/// Which source set of a project a path belongs to.
#[derive(Clone, Copy, Debug, PartialEq, Eq, Structural)]
pub enum JavaSourceDirectoryType {
    Main,
    Test,
}

impl JavaSourceDirectoryType {
    /// The conventional source-root path for this source set.
    pub fn root_path(&self) -> (r: &'static str)
        ensures
            r@ == self.spec_root_path(),
    {
        match self {
            JavaSourceDirectoryType::Main => "src/main/java",
            JavaSourceDirectoryType::Test => "src/test/java",
        }
    }

    pub open spec fn spec_root_path(&self) -> Seq<char> {
        match self {
            JavaSourceDirectoryType::Main => "src/main/java"@,
            JavaSourceDirectoryType::Test => "src/test/java"@,
        }
    }
}

/// The slices of the basic-type table a caller can ask for.
#[derive(Clone, Copy, Debug, PartialEq, Eq, Structural)]
pub enum JavaBasicType {
    AllTypes,
    Numeric,
    Temporal,
    Textual,
}

/// Whether the identifier value is assigned by the application or generated.
#[derive(Clone, Copy, Debug, PartialEq, Eq, Structural)]
pub enum JavaIdGeneration {
    Assigned,
    Generated,
}

/// The generation strategy of a generated identifier.
#[derive(Clone, Copy, Debug, PartialEq, Eq, Structural)]
pub enum JavaIdGenerationType {
    Auto,
    Identity,
    Sequence,
    Table,
}

impl JavaIdGenerationType {
    pub fn java_name(&self) -> (r: &'static str)
        ensures
            r@ == self.spec_java_name(),
    {
        match self {
            JavaIdGenerationType::Auto => "AUTO",
            JavaIdGenerationType::Identity => "IDENTITY",
            JavaIdGenerationType::Sequence => "SEQUENCE",
            JavaIdGenerationType::Table => "TABLE",
        }
    }

    pub open spec fn spec_java_name(&self) -> Seq<char> {
        match self {
            JavaIdGenerationType::Auto => "AUTO"@,
            JavaIdGenerationType::Identity => "IDENTITY"@,
            JavaIdGenerationType::Sequence => "SEQUENCE"@,
            JavaIdGenerationType::Table => "TABLE"@,
        }
    }
}

/// An orthogonal annotation attribute of a relationship side.
#[derive(Clone, Copy, Debug, PartialEq, Eq, Structural)]
pub enum OtherType {
    Optional,
    OrphanRemoval,
}

impl OtherType {
    /// The annotation attribute this modifier contributes.
    pub fn attribute(&self) -> (r: &'static str)
        ensures
            r@ == self.spec_attribute(),
    {
        match self {
            OtherType::Optional => "optional = false",
            OtherType::OrphanRemoval => "orphanRemoval = true",
        }
    }

    pub open spec fn spec_attribute(&self) -> Seq<char> {
        match self {
            OtherType::Optional => "optional = false"@,
            OtherType::OrphanRemoval => "orphanRemoval = true"@,
        }
    }
}

/// Configuration of a plain persistent field.
#[derive(Debug)]
pub struct BasicFieldConfig {
    pub field_name: String,
    pub field_type: String,
    pub field_type_package_name: Option<String>,
    pub field_length: Option<u16>,
    pub field_precision: Option<u16>,
    pub field_scale: Option<u16>,
    pub field_temporal: Option<JavaFieldTemporal>,
    pub field_timezone_storage: Option<JavaFieldTimeZoneStorage>,
    pub field_unique: bool,
    pub field_nullable: bool,
    pub field_large_object: bool,
}

/// Configuration of an identifier field.
#[derive(Debug)]
pub struct IdFieldConfig {
    pub field_name: String,
    pub field_type: String,
    pub field_type_package_name: Option<String>,
    pub field_id_generation: JavaIdGeneration,
    pub field_id_generation_type: JavaIdGenerationType,
    pub field_generator_name: Option<String>,
    pub field_sequence_name: Option<String>,
    pub field_initial_value: Option<i64>,
    pub field_allocation_size: Option<i64>,
    pub field_nullable: bool,
}

/// Configuration of an enum-valued field.
#[derive(Debug)]
pub struct EnumFieldConfig {
    pub field_name: String,
    pub enum_type: String,
    pub enum_package_name: String,
    pub enum_type_storage: JavaEnumType,
    pub field_length: Option<u16>,
    pub field_nullable: bool,
    pub field_unique: bool,
}

/// Configuration of a one-to-one relationship, synthesized on the owning
/// side; the inverse side is descriptive only.
#[derive(Debug)]
pub struct OneToOneFieldConfig {
    pub inverse_field_type: String,
    pub mapping_type: Option<MappingType>,
    pub owning_side_cascades: Vec<CascadeType>,
    pub inverse_side_cascades: Vec<CascadeType>,
    pub owning_side_other: Vec<OtherType>,
    pub inverse_side_other: Vec<OtherType>,
}

/// Configuration of a many-to-one relationship, synthesized on the owning
/// side; the inverse side is descriptive only.
#[derive(Debug)]
pub struct ManyToOneFieldConfig {
    pub inverse_field_type: String,
    pub fetch_type: FetchType,
    pub collection_type: CollectionType,
    pub mapping_type: Option<MappingType>,
    pub owning_side_cascades: Vec<CascadeType>,
    pub inverse_side_cascades: Vec<CascadeType>,
    pub owning_side_other: Vec<OtherType>,
    pub inverse_side_other: Vec<OtherType>,
}

/// Legality of an identifier-generation configuration.
///
/// Application-assigned identifiers, and the automatic and database-identity
/// strategies, admit no generator attributes at all; the sequence strategy
/// admits sequence attributes but no table-generator name; the table
/// strategy requires a generator name and admits nothing else.
pub open spec fn spec_id_config_legal(c: IdFieldConfig) -> bool {
    match c.field_id_generation {
        JavaIdGeneration::Assigned => {
            c.field_generator_name is None && c.field_sequence_name is None
                && c.field_initial_value is None && c.field_allocation_size is None
        },
        JavaIdGeneration::Generated => {
            match c.field_id_generation_type {
                JavaIdGenerationType::Auto | JavaIdGenerationType::Identity => {
                    c.field_generator_name is None && c.field_sequence_name is None
                        && c.field_initial_value is None && c.field_allocation_size is None
                },
                JavaIdGenerationType::Sequence => c.field_generator_name is None,
                JavaIdGenerationType::Table => {
                    c.field_generator_name is Some && c.field_sequence_name is None
                        && c.field_initial_value is None && c.field_allocation_size is None
                },
            }
        },
    }
}

/// The documented default sequence name: the field name followed by `_seq`.
pub open spec fn spec_default_sequence_name(field_name: Seq<char>) -> Seq<char> {
    field_name + "_seq"@
}

/// Checks an identifier configuration against the catalog's legality rules
/// and fills in the documented defaults.
///
/// Exactly the legal combinations pass; an illegal one — for instance the
/// identity strategy together with a sequence name — is rejected with the
/// invalid-configuration error. For the sequence strategy a missing sequence
/// name is assigned the documented default, the field name followed by
/// `_seq`; everything else is returned unchanged.
pub fn validated_id_config(c: IdFieldConfig) -> (r: Result<IdFieldConfig, LibError>)
    ensures
        r is Ok <==> spec_id_config_legal(c),
        r is Err ==> r->Err_0 == LibError::InvalidConfiguration,
        r is Ok ==> {
            let v = r->Ok_0;
            &&& v.field_name@ == c.field_name@
            &&& v.field_type@ == c.field_type@
            &&& v.field_id_generation == c.field_id_generation
            &&& v.field_id_generation_type == c.field_id_generation_type
            &&& v.field_generator_name == c.field_generator_name
            &&& v.field_initial_value == c.field_initial_value
            &&& v.field_allocation_size == c.field_allocation_size
            &&& v.field_nullable == c.field_nullable
            &&& v.field_type_package_name == c.field_type_package_name
            &&& if c.field_id_generation == JavaIdGeneration::Generated
                && c.field_id_generation_type == JavaIdGenerationType::Sequence
                && c.field_sequence_name is None {
                v.field_sequence_name is Some && v.field_sequence_name->0@
                    == spec_default_sequence_name(c.field_name@)
            } else {
                v.field_sequence_name == c.field_sequence_name
            }
        },
{
    let no_generator_attrs = c.field_generator_name.is_none() && c.field_sequence_name.is_none()
        && c.field_initial_value.is_none() && c.field_allocation_size.is_none();
    match c.field_id_generation {
        JavaIdGeneration::Assigned => {
            if no_generator_attrs {
                Ok(c)
            } else {
                Err(LibError::InvalidConfiguration)
            }
        },
        JavaIdGeneration::Generated => {
            match c.field_id_generation_type {
                JavaIdGenerationType::Auto | JavaIdGenerationType::Identity => {
                    if no_generator_attrs {
                        Ok(c)
                    } else {
                        Err(LibError::InvalidConfiguration)
                    }
                },
                JavaIdGenerationType::Sequence => {
                    if c.field_generator_name.is_some() {
                        Err(LibError::InvalidConfiguration)
                    } else if c.field_sequence_name.is_none() {
                        let mut default_name: String = c.field_name.clone();
                        default_name.append("_seq");
                        Ok(IdFieldConfig { field_sequence_name: Some(default_name), ..c })
                    } else {
                        Ok(c)
                    }
                },
                JavaIdGenerationType::Table => {
                    if c.field_generator_name.is_some() && c.field_sequence_name.is_none()
                        && c.field_initial_value.is_none() && c.field_allocation_size.is_none() {
                        Ok(c)
                    } else {
                        Err(LibError::InvalidConfiguration)
                    }
                },
            }
        },
    }
}

/// Duplicates collapse and the all-operations cascade subsumes the rest: a
/// cascade list containing the all value normalizes to that single value,
/// any other list keeps its first occurrences in order.
pub open spec fn spec_normalize_cascades_from(
    s: Seq<CascadeType>,
    i: int,
    acc: Seq<CascadeType>,
) -> Seq<CascadeType>
    decreases s.len() - i,
{
    if i < 0 || i >= s.len() {
        acc
    } else if acc.contains(s[i]) {
        spec_normalize_cascades_from(s, i + 1, acc)
    } else {
        spec_normalize_cascades_from(s, i + 1, acc.push(s[i]))
    }
}

/// The normalized form of a cascade list.
pub open spec fn spec_normalize_cascades(s: Seq<CascadeType>) -> Seq<CascadeType> {
    if s.contains(CascadeType::All) {
        seq![CascadeType::All]
    } else {
        spec_normalize_cascades_from(s, 0, Seq::empty())
    }
}

fn cascades_contain(v: &Vec<CascadeType>, c: CascadeType) -> (r: bool)
    ensures
        r == v@.contains(c),
{
    let n = v.len();
    let mut i: usize = 0;
    while i < n
        invariant
            i <= n,
            n == v@.len(),
            forall|j: int| 0 <= j < i ==> v@[j] != c,
        decreases n - i,
    {
        if v[i] == c {
            return true;
        }
        i = i + 1;
    }
    false
}

/// Normalizes a cascade list: duplicates collapse to the first occurrence,
/// and the all-operations cascade, when present, subsumes everything else.
pub fn normalize_cascades(v: &Vec<CascadeType>) -> (r: Vec<CascadeType>)
    ensures
        r@ == spec_normalize_cascades(v@),
{
    if cascades_contain(v, CascadeType::All) {
        let mut out: Vec<CascadeType> = Vec::new();
        out.push(CascadeType::All);
        proof {
            assert(out@ =~= seq![CascadeType::All]);
        }
        return out;
    }
    let n = v.len();
    let mut out: Vec<CascadeType> = Vec::new();
    let mut i: usize = 0;
    while i < n
        invariant
            i <= n,
            n == v@.len(),
            !v@.contains(CascadeType::All),
            spec_normalize_cascades_from(v@, 0, Seq::empty()) == spec_normalize_cascades_from(
                v@,
                i as int,
                out@,
            ),
        decreases n - i,
    {
        if !cascades_contain(&out, v[i]) {
            out.push(v[i]);
        }
        i = i + 1;
    }
    out
}

/// An entry of the basic-type table: a Java type usable in a field, and the
/// import it requires, when one is needed at all.
#[derive(Debug)]
pub struct BasicTypeEntry {
    pub name: String,
    pub import_path: Option<String>,
}

impl BasicTypeEntry {
    fn new(name: &str, import_path: Option<&str>) -> (r: BasicTypeEntry)
        ensures
            r.name@ == name@,
            r.import_path is Some <==> import_path is Some,
            r.import_path is Some ==> r.import_path->0@ == import_path->0@,
    {
        let ip: Option<String> = match import_path {
            Some(p) => Some(p.to_owned()),
            None => None,
        };
        BasicTypeEntry { name: name.to_owned(), import_path: ip }
    }
}

/// The import required by a well-known basic type, when the catalog lists
/// one: the big-number, time and identifier types carry their package, the
/// language and primitive types need none, and a type outside the catalog is
/// unknown here.
pub open spec fn spec_builtin_import(name: Seq<char>) -> Option<Seq<char>> {
    if name == "BigDecimal"@ {
        Some("java.math.BigDecimal"@)
    } else if name == "BigInteger"@ {
        Some("java.math.BigInteger"@)
    } else if name == "LocalDate"@ {
        Some("java.time.LocalDate"@)
    } else if name == "LocalTime"@ {
        Some("java.time.LocalTime"@)
    } else if name == "LocalDateTime"@ {
        Some("java.time.LocalDateTime"@)
    } else if name == "OffsetDateTime"@ {
        Some("java.time.OffsetDateTime"@)
    } else if name == "ZonedDateTime"@ {
        Some("java.time.ZonedDateTime"@)
    } else if name == "Instant"@ {
        Some("java.time.Instant"@)
    } else if name == "UUID"@ {
        Some("java.util.UUID"@)
    } else {
        None
    }
}

/// Whether the catalog lists `name` as usable without any import: a
/// primitive or a java.lang type.
pub open spec fn spec_is_language_type(name: Seq<char>) -> bool {
    ||| name == "String"@
    ||| name == "Integer"@
    ||| name == "Long"@
    ||| name == "Short"@
    ||| name == "Byte"@
    ||| name == "Double"@
    ||| name == "Float"@
    ||| name == "Boolean"@
    ||| name == "Character"@
    ||| name == "int"@
    ||| name == "long"@
    ||| name == "short"@
    ||| name == "byte"@
    ||| name == "double"@
    ||| name == "float"@
    ||| name == "boolean"@
    ||| name == "char"@
}

fn str_eq(a: &str, b: &str) -> (r: bool)
    ensures
        r == (a@ == b@),
{
    let sa: String = a.to_owned();
    let sb: String = b.to_owned();
    sa == sb
}

/// The import a well-known basic type requires, by the catalog.
pub fn builtin_import(name: &str) -> (r: Option<&'static str>)
    ensures
        r is Some <==> spec_builtin_import(name@) is Some,
        r is Some ==> r->0@ == spec_builtin_import(name@)->0,
{
    if str_eq(name, "BigDecimal") {
        Some("java.math.BigDecimal")
    } else if str_eq(name, "BigInteger") {
        Some("java.math.BigInteger")
    } else if str_eq(name, "LocalDate") {
        Some("java.time.LocalDate")
    } else if str_eq(name, "LocalTime") {
        Some("java.time.LocalTime")
    } else if str_eq(name, "LocalDateTime") {
        Some("java.time.LocalDateTime")
    } else if str_eq(name, "OffsetDateTime") {
        Some("java.time.OffsetDateTime")
    } else if str_eq(name, "ZonedDateTime") {
        Some("java.time.ZonedDateTime")
    } else if str_eq(name, "Instant") {
        Some("java.time.Instant")
    } else if str_eq(name, "UUID") {
        Some("java.util.UUID")
    } else {
        None
    }
}

/// The import a well-known basic type requires, looked up by the raw
/// bytes of the type name: the byte-level mirror of the catalog table.
pub open spec fn spec_builtin_import_bytes(b: Seq<u8>) -> Option<Seq<char>> {
    if b == "BigDecimal".spec_bytes() {
        Some("java.math.BigDecimal"@)
    } else if b == "BigInteger".spec_bytes() {
        Some("java.math.BigInteger"@)
    } else if b == "LocalDate".spec_bytes() {
        Some("java.time.LocalDate"@)
    } else if b == "LocalTime".spec_bytes() {
        Some("java.time.LocalTime"@)
    } else if b == "LocalDateTime".spec_bytes() {
        Some("java.time.LocalDateTime"@)
    } else if b == "OffsetDateTime".spec_bytes() {
        Some("java.time.OffsetDateTime"@)
    } else if b == "ZonedDateTime".spec_bytes() {
        Some("java.time.ZonedDateTime"@)
    } else if b == "Instant".spec_bytes() {
        Some("java.time.Instant"@)
    } else if b == "UUID".spec_bytes() {
        Some("java.util.UUID"@)
    } else {
        None
    }
}

/// The import a well-known basic type requires, looked up by the raw bytes
/// of the type name.
pub fn builtin_import_bytes(name: &Vec<u8>) -> (r: Option<&'static str>)
    ensures
        r is Some <==> spec_builtin_import_bytes(name@) is Some,
        r is Some ==> r->0@ == spec_builtin_import_bytes(name@)->0,
{
    if bytes_eq_str(name.as_slice(), "BigDecimal") {
        Some("java.math.BigDecimal")
    } else if bytes_eq_str(name.as_slice(), "BigInteger") {
        Some("java.math.BigInteger")
    } else if bytes_eq_str(name.as_slice(), "LocalDate") {
        Some("java.time.LocalDate")
    } else if bytes_eq_str(name.as_slice(), "LocalTime") {
        Some("java.time.LocalTime")
    } else if bytes_eq_str(name.as_slice(), "LocalDateTime") {
        Some("java.time.LocalDateTime")
    } else if bytes_eq_str(name.as_slice(), "OffsetDateTime") {
        Some("java.time.OffsetDateTime")
    } else if bytes_eq_str(name.as_slice(), "ZonedDateTime") {
        Some("java.time.ZonedDateTime")
    } else if bytes_eq_str(name.as_slice(), "Instant") {
        Some("java.time.Instant")
    } else if bytes_eq_str(name.as_slice(), "UUID") {
        Some("java.util.UUID")
    } else {
        None
    }
}

} // verus!
