use syntaxpresso_core::CascadeType;
use syntaxpresso_core::CollectionType;
use syntaxpresso_core::FetchType;
use syntaxpresso_core::JavaFileType;
use syntaxpresso_core::JavaSourceDirectoryType;
use syntaxpresso_core::LibError;
use syntaxpresso_core::ManyToOneFieldConfig;
use syntaxpresso_core::OneToOneFieldConfig;
use syntaxpresso_core::SupportedLanguage;
use syntaxpresso_core::create_java_file_command;
use syntaxpresso_core::create_jpa_entity_command;
use syntaxpresso_core::create_jpa_many_to_one_relationship_command;
use syntaxpresso_core::create_jpa_one_to_one_relationship_command;
use syntaxpresso_core::create_jpa_repository_command;

const CUSTOMER: &str = "package com.acme.model;\n\npublic class Customer {\n    private String name;\n}\n";

#[test]
fn create_java_file_normalizes_to_pascal_case() {
    let out = create_java_file_command::execute(
        &String::from("com.acme"),
        &String::from("customer_record"),
        &JavaFileType::Class,
        &JavaSourceDirectoryType::Main,
    )
    .unwrap();
    assert_eq!(
        out.file_path,
        b"src/main/java/com/acme/CustomerRecord.java".to_vec()
    );
    assert_eq!(
        String::from_utf8(out.file_content).unwrap(),
        "package com.acme;\n\npublic class CustomerRecord {\n}\n"
    );
}

#[test]
fn create_java_interface_under_test_sources() {
    let out = create_java_file_command::execute(
        &String::from("com.acme"),
        &String::from("port"),
        &JavaFileType::Interface,
        &JavaSourceDirectoryType::Test,
    )
    .unwrap();
    assert_eq!(out.file_path, b"src/test/java/com/acme/Port.java".to_vec());
    assert_eq!(
        String::from_utf8(out.file_content).unwrap(),
        "package com.acme;\n\npublic interface Port {\n}\n"
    );
}

#[test]
fn create_entity_with_superclass() {
    let out = create_jpa_entity_command::execute(
        &String::from("com.acme.model"),
        &String::from("order"),
        &Some(String::from("BaseEntity")),
        &Some(String::from("com.acme.base")),
    )
    .unwrap();
    let text = String::from_utf8(out.file_content).unwrap();
    assert_eq!(
        text,
        "package com.acme.model;\n\nimport jakarta.persistence.Entity;\nimport com.acme.base.BaseEntity;\n\n@Entity\npublic class Order extends BaseEntity {\n}\n"
    );
    assert_eq!(out.file_path, b"src/main/java/com/acme/model/Order.java".to_vec());
}

#[test]
fn create_entity_without_superclass() {
    let out = create_jpa_entity_command::execute(
        &String::from("com.acme.model"),
        &String::from("Customer"),
        &None,
        &None,
    )
    .unwrap();
    let text = String::from_utf8(out.file_content).unwrap();
    assert_eq!(
        text,
        "package com.acme.model;\n\nimport jakarta.persistence.Entity;\n\n@Entity\npublic class Customer {\n}\n"
    );
}

#[test]
fn repository_uses_local_identifier_type() {
    let entity = "package com.acme.model;\n\nimport jakarta.persistence.Entity;\nimport jakarta.persistence.Id;\n\n@Entity\npublic class Customer {\n    @Id\n    private Long id;\n}\n";
    let out = create_jpa_repository_command::execute(&entity.as_bytes().to_vec(), &None).unwrap();
    assert!(out.id_field_found);
    assert!(out.superclass_type.is_none());
    let repo = out.repository.unwrap();
    let text = String::from_utf8(repo.file_content).unwrap();
    assert_eq!(
        text,
        "package com.acme.model;\n\nimport org.springframework.data.jpa.repository.JpaRepository;\n\npublic interface CustomerRepository extends JpaRepository<Customer, Long> {\n}\n"
    );
    assert_eq!(
        repo.file_path,
        b"src/main/java/com/acme/model/CustomerRepository.java".to_vec()
    );
}

#[test]
fn repository_falls_back_to_superclass_identifier() {
    let entity = "package com.acme.model;\n\nimport jakarta.persistence.Entity;\n\n@Entity\npublic class Order extends BaseEntity {\n    private String code;\n}\n";
    let superclass = "package com.acme.base;\n\nimport jakarta.persistence.Id;\nimport jakarta.persistence.MappedSuperclass;\nimport java.util.UUID;\n\n@MappedSuperclass\npublic class BaseEntity {\n    @Id\n    private UUID id;\n}\n";
    let out = create_jpa_repository_command::execute(
        &entity.as_bytes().to_vec(),
        &Some(superclass.as_bytes().to_vec()),
    )
    .unwrap();
    assert!(out.id_field_found);
    assert_eq!(out.superclass_type, Some(b"BaseEntity".to_vec()));
    let repo = out.repository.unwrap();
    let text = String::from_utf8(repo.file_content).unwrap();
    assert!(text.contains("import java.util.UUID;"));
    assert!(text.contains("public interface OrderRepository extends JpaRepository<Order, UUID> {"));
}

#[test]
fn superclass_source_is_ignored_without_a_declared_superclass() {
    let entity = "package p;\n\npublic class Thing {\n    private String name;\n}\n";
    let superclass = "package q;\n\nimport jakarta.persistence.Id;\n\npublic class Base {\n    @Id\n    private Long id;\n}\n";
    let err = create_jpa_repository_command::execute(
        &entity.as_bytes().to_vec(),
        &Some(superclass.as_bytes().to_vec()),
    )
    .unwrap_err();
    assert_eq!(err, LibError::MissingIdentifier);
}

#[test]
fn repository_without_any_identifier_fails() {
    let entity = "package p;\n\npublic class Thing {\n    private String name;\n}\n";
    let err =
        create_jpa_repository_command::execute(&entity.as_bytes().to_vec(), &None).unwrap_err();
    assert_eq!(err, LibError::MissingIdentifier);
}

#[test]
fn one_to_one_owning_side() {
    let config = OneToOneFieldConfig {
        inverse_field_type: String::from("Address"),
        mapping_type: None,
        owning_side_cascades: vec![CascadeType::All, CascadeType::Persist],
        inverse_side_cascades: Vec::new(),
        owning_side_other: Vec::new(),
        inverse_side_other: Vec::new(),
    };
    let out = create_jpa_one_to_one_relationship_command::execute(
        &String::from("Customer.java"),
        &CUSTOMER.as_bytes().to_vec(),
        &String::from("address"),
        &String::from("customer"),
        config,
    )
    .unwrap();
    let text = String::from_utf8(out.file_content).unwrap();
    assert!(text.contains("@OneToOne(cascade = CascadeType.ALL)"));
    assert!(text.contains("@JoinColumn(name = \"address_id\")"));
    assert!(text.contains("private Address address;"));
}

#[test]
fn many_to_one_owning_side() {
    let config = ManyToOneFieldConfig {
        inverse_field_type: String::from("Department"),
        fetch_type: FetchType::Lazy,
        collection_type: CollectionType::List,
        mapping_type: None,
        owning_side_cascades: vec![CascadeType::Persist, CascadeType::Merge],
        inverse_side_cascades: Vec::new(),
        owning_side_other: Vec::new(),
        inverse_side_other: Vec::new(),
    };
    let out = create_jpa_many_to_one_relationship_command::execute(
        &String::from("Customer.java"),
        &CUSTOMER.as_bytes().to_vec(),
        &String::from("department"),
        &String::from("customers"),
        config,
    )
    .unwrap();
    let text = String::from_utf8(out.file_content).unwrap();
    assert!(text.contains(
        "@ManyToOne(fetch = FetchType.LAZY, cascade = { CascadeType.PERSIST, CascadeType.MERGE })"
    ));
    assert!(text.contains("@JoinColumn(name = \"department_id\")"));
    assert!(text.contains("private Department department;"));
}

#[test]
fn create_annotation_file_uses_annotation_keyword() {
    let out = create_java_file_command::execute(
        &String::from("com.acme"),
        &String::from("my-marker"),
        &JavaFileType::Annotation,
        &JavaSourceDirectoryType::Main,
    )
    .unwrap();
    assert_eq!(out.file_path, b"src/main/java/com/acme/MyMarker.java".to_vec());
    assert_eq!(
        String::from_utf8(out.file_content).unwrap(),
        "package com.acme;\n\npublic @interface MyMarker {\n}\n"
    );
}

#[test]
fn supported_language_facts() {
    let lang = SupportedLanguage::Java;
    assert_eq!(lang.file_extension(), "java");
    assert_eq!(lang.name(), "Java");
}
