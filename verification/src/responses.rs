//! Typed results handed back to the caller for serialization.

use vstd::prelude::*;

verus! {

/// A source file handed to the library: its path and its raw bytes.
#[derive(Debug)]
pub struct SourceFile {
    pub file_path: String,
    pub file_content: Vec<u8>,
}

/// A produced or matched file: its path and its full content.
#[derive(Debug)]
pub struct FileResponse {
    pub file_path: Vec<u8>,
    pub file_content: Vec<u8>,
}

/// One discovered package.
#[derive(Debug)]
pub struct PackageResponse {
    pub package_name: Vec<u8>,
}

/// The files matched by a file query.
#[derive(Debug)]
pub struct GetFilesResponse {
    pub files: Vec<FileResponse>,
    pub files_count: usize,
}

/// The distinct packages of a source root, with the shortest name taken as
/// the root package.
#[derive(Debug)]
pub struct GetPackagesResponse {
    pub packages: Vec<PackageResponse>,
    pub packages_count: usize,
    pub root_package_name: Option<Vec<u8>>,
}

/// The outcome of repository generation: whether an identifier field was
/// found, the superclass consulted for it, and the generated file.
#[derive(Debug)]
pub struct CreateJPARepositoryResponse {
    pub id_field_found: bool,
    pub superclass_type: Option<Vec<u8>>,
    pub repository: Option<FileResponse>,
}

/// One declared field of an entity.
#[derive(Debug)]
pub struct EntityField {
    pub field_name: Vec<u8>,
    pub field_type: Vec<u8>,
}

/// The descriptor of an entity source file.
#[derive(Debug)]
pub struct GetJpaEntityInfoResponse {
    pub package_name: Option<Vec<u8>>,
    pub entity_name: Vec<u8>,
    pub superclass_name: Option<Vec<u8>>,
    pub id_field_name: Option<Vec<u8>>,
    pub id_field_type: Option<Vec<u8>>,
    pub fields: Vec<EntityField>,
    pub is_entity: bool,
    pub is_mapped_superclass: bool,
}

/// A classified type: its package, its simple name, and the path of the
/// file that declares it.
#[derive(Debug)]
pub struct JpaTypeDescriptor {
    pub package_name: Option<Vec<u8>>,
    pub simple_name: Vec<u8>,
    pub file_path: String,
}

} // verus!
