use syntaxpresso_core::JavaFileType;
use syntaxpresso_core::JavaSourceDirectoryType;
use syntaxpresso_core::SourceFile;
use syntaxpresso_core::get_all_jpa_entities_command;
use syntaxpresso_core::get_all_jpa_mapped_superclasses;
use syntaxpresso_core::get_all_packages_command;
use syntaxpresso_core::get_java_files_command;
use syntaxpresso_core::get_jpa_entity_info_command;

const ENTITY: &str = "package com.acme.model;\n\nimport jakarta.persistence.Entity;\nimport jakarta.persistence.Id;\n\n@Entity\npublic class Customer {\n    @Id\n    private Long id;\n    private String name;\n}\n";

const SUPERCLASS: &str = "package com.acme.model;\n\nimport jakarta.persistence.MappedSuperclass;\n\n@MappedSuperclass\npublic class BaseEntity {\n    @Id\n    private java.util.UUID id;\n}\n";

const PLAIN: &str = "package com.acme.util;\n\npublic class Helper {\n    private int count;\n}\n";

fn file(path: &str, content: &str) -> SourceFile {
    SourceFile { file_path: String::from(path), file_content: content.as_bytes().to_vec() }
}

#[test]
fn classification_scenario_three_files() {
    let files = vec![
        file("src/main/java/com/acme/model/Customer.java", ENTITY),
        file("src/main/java/com/acme/model/BaseEntity.java", SUPERCLASS),
        file("src/main/java/com/acme/util/Helper.java", PLAIN),
    ];
    let entities = get_all_jpa_entities_command::execute(&files);
    assert_eq!(entities.len(), 1);
    assert_eq!(entities[0].simple_name, b"Customer".to_vec());
    assert_eq!(entities[0].file_path, "src/main/java/com/acme/model/Customer.java");
    assert_eq!(
        entities[0].package_name,
        Some(b"com.acme.model".to_vec())
    );
    let superclasses = get_all_jpa_mapped_superclasses::execute(&files);
    assert_eq!(superclasses.len(), 1);
    assert_eq!(superclasses[0].simple_name, b"BaseEntity".to_vec());
}

#[test]
fn entity_info_reads_the_descriptor() {
    let info = get_jpa_entity_info_command::execute(&ENTITY.as_bytes().to_vec()).unwrap();
    assert!(info.is_entity);
    assert!(!info.is_mapped_superclass);
    assert_eq!(info.entity_name, b"Customer".to_vec());
    assert_eq!(info.package_name, Some(b"com.acme.model".to_vec()));
    assert_eq!(info.id_field_name, Some(b"id".to_vec()));
    assert_eq!(info.id_field_type, Some(b"Long".to_vec()));
    assert_eq!(info.fields.len(), 2);
    assert_eq!(info.fields[0].field_name, b"id".to_vec());
    assert_eq!(info.fields[0].field_type, b"Long".to_vec());
    assert_eq!(info.fields[1].field_name, b"name".to_vec());
    assert_eq!(info.fields[1].field_type, b"String".to_vec());
}

#[test]
fn entity_info_is_deterministic_across_queries() {
    let src = ENTITY.as_bytes().to_vec();
    let a = get_jpa_entity_info_command::execute(&src).unwrap();
    let b = get_jpa_entity_info_command::execute(&src).unwrap();
    assert_eq!(a.entity_name, b.entity_name);
    assert_eq!(a.package_name, b.package_name);
    assert_eq!(a.id_field_name, b.id_field_name);
    assert_eq!(a.id_field_type, b.id_field_type);
    assert_eq!(a.fields.len(), b.fields.len());
    for k in 0..a.fields.len() {
        assert_eq!(a.fields[k].field_name, b.fields[k].field_name);
        assert_eq!(a.fields[k].field_type, b.fields[k].field_type);
    }
}

#[test]
fn entity_info_reports_superclass() {
    let src = "package p;\n\npublic class Child extends Base {\n}\n";
    let info = get_jpa_entity_info_command::execute(&src.as_bytes().to_vec()).unwrap();
    assert_eq!(info.superclass_name, Some(b"Base".to_vec()));
    assert!(!info.is_entity);
}

#[test]
fn java_files_filter_by_kind() {
    let iface = "package p;\n\npublic interface Port {\n}\n";
    let files = vec![
        file("A.java", ENTITY),
        file("Port.java", iface),
        file("Helper.java", PLAIN),
    ];
    let classes = get_java_files_command::execute(&files, &JavaFileType::Class);
    assert_eq!(classes.files_count, 2);
    let interfaces = get_java_files_command::execute(&files, &JavaFileType::Interface);
    assert_eq!(interfaces.files_count, 1);
    assert_eq!(interfaces.files[0].file_path, b"Port.java".to_vec());
}

#[test]
fn packages_are_distinct_and_rooted_at_the_shortest() {
    let deep = "package com.acme.model.audit;\n\npublic class Audit {\n}\n";
    let files = vec![
        file("Customer.java", ENTITY),
        file("BaseEntity.java", SUPERCLASS),
        file("Helper.java", PLAIN),
        file("Audit.java", deep),
    ];
    let r = get_all_packages_command::execute(&files, &JavaSourceDirectoryType::Main);
    assert_eq!(r.packages_count, 3);
    let names: Vec<Vec<u8>> = r.packages.iter().map(|p| p.package_name.clone()).collect();
    assert!(names.contains(&b"com.acme.model".to_vec()));
    assert!(names.contains(&b"com.acme.util".to_vec()));
    assert!(names.contains(&b"com.acme.model.audit".to_vec()));
    let root = r.root_package_name.unwrap();
    assert_eq!(root, b"com.acme.util".to_vec());
}

#[test]
fn no_files_means_no_root_package() {
    let files: Vec<SourceFile> = Vec::new();
    let r = get_all_packages_command::execute(&files, &JavaSourceDirectoryType::Main);
    assert_eq!(r.packages_count, 0);
    assert!(r.root_package_name.is_none());
}
