//! Structural editing of Java source files for persistence-framework
//! scaffolding: anchor queries over a concrete syntax tree, synthesis of
//! annotated field and repository fragments, and byte-exact edit application.

use vstd::prelude::*;

pub mod catalog;
pub mod classify;
pub mod edit;
pub mod errors;
pub mod insert;
pub mod mutate;
pub mod paths;
pub mod query;
pub mod responses;
pub mod synth;
pub mod text;
pub mod tree;

pub mod create_java_file_command;
pub mod create_jpa_entity_basic_field_command;
pub mod create_jpa_entity_command;
pub mod create_jpa_entity_enum_field_command;
pub mod create_jpa_entity_id_field_command;
pub mod create_jpa_many_to_one_relationship_command;
pub mod create_jpa_one_to_one_relationship_command;
pub mod create_jpa_repository_command;
pub mod get_all_jpa_entities_command;
pub mod get_all_jpa_mapped_superclasses;
pub mod get_all_packages_command;
pub mod get_java_basic_types_command;
pub mod get_java_files_command;
pub mod get_jpa_entity_info_command;
pub mod supported_language;

pub use catalog::BasicFieldConfig;
pub use catalog::BasicTypeEntry;
pub use catalog::CascadeType;
pub use catalog::CollectionType;
pub use catalog::EnumFieldConfig;
pub use catalog::FetchType;
pub use catalog::IdFieldConfig;
pub use catalog::JavaBasicType;
pub use catalog::JavaEnumType;
pub use catalog::JavaFieldTemporal;
pub use catalog::JavaFieldTimeZoneStorage;
pub use catalog::JavaFileType;
pub use catalog::JavaIdGeneration;
pub use catalog::JavaIdGenerationType;
pub use catalog::JavaSourceDirectoryType;
pub use catalog::ManyToOneFieldConfig;
pub use catalog::MappingType;
pub use catalog::OneToOneFieldConfig;
pub use catalog::OtherType;
pub use catalog::normalize_cascades;
pub use catalog::validated_id_config;
pub use classify::entity_info;
pub use classify::find_id_field;
pub use classify::local_id_type_bytes;
pub use edit::TextEdit;
pub use edit::apply_edits;
pub use edit::lemma_byte_preservation;
pub use edit::lemma_empty_edit_identity;
pub use errors::LibError;
pub use query::find_body;
pub use query::find_package_clause;
pub use query::find_type_declaration;
pub use query::lemma_anchor_determinism;
pub use query::lemma_type_decl_determinism;
pub use responses::CreateJPARepositoryResponse;
pub use responses::EntityField;
pub use responses::FileResponse;
pub use responses::GetFilesResponse;
pub use responses::GetJpaEntityInfoResponse;
pub use responses::GetPackagesResponse;
pub use responses::JpaTypeDescriptor;
pub use responses::PackageResponse;
pub use responses::SourceFile;
pub use supported_language::SupportedLanguage;
pub use tree::RawNode;
pub use tree::SyntaxTree;
pub use tree::parse_source;

verus! {

} // verus!
