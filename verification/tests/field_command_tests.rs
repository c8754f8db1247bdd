use syntaxpresso_core::BasicFieldConfig;
use syntaxpresso_core::EnumFieldConfig;
use syntaxpresso_core::IdFieldConfig;
use syntaxpresso_core::JavaEnumType;
use syntaxpresso_core::JavaIdGeneration;
use syntaxpresso_core::JavaIdGenerationType;
use syntaxpresso_core::LibError;
use syntaxpresso_core::create_jpa_entity_basic_field_command;
use syntaxpresso_core::create_jpa_entity_enum_field_command;
use syntaxpresso_core::create_jpa_entity_id_field_command;

fn basic_config(name: &str, ty: &str) -> BasicFieldConfig {
    BasicFieldConfig {
        field_name: String::from(name),
        field_type: String::from(ty),
        field_type_package_name: None,
        field_length: None,
        field_precision: None,
        field_scale: None,
        field_temporal: None,
        field_timezone_storage: None,
        field_unique: false,
        field_nullable: true,
        field_large_object: false,
    }
}

const CUSTOMER: &str = "package com.acme.model;\n\npublic class Customer {\n    private String name;\n}\n";

#[test]
fn basic_field_insertion_scenario() {
    let mut config = basic_config("email", "String");
    config.field_nullable = false;
    config.field_unique = true;
    let path = String::from("src/main/java/com/acme/model/Customer.java");
    let out = create_jpa_entity_basic_field_command::execute(
        &path,
        &CUSTOMER.as_bytes().to_vec(),
        &config,
    )
    .unwrap();
    let expected = "package com.acme.model;\n\npublic class Customer {\n    private String name;\n\n    @Column(nullable = false, unique = true)\n    private String email;\n}\n";
    assert_eq!(String::from_utf8(out.file_content).unwrap(), expected);
    assert_eq!(out.file_path, path.as_bytes().to_vec());
}

#[test]
fn basic_field_into_empty_body_indents_one_level() {
    let src = "package p;\n\npublic class Empty {\n}\n";
    let config = basic_config("age", "int");
    let out = create_jpa_entity_basic_field_command::execute(
        &String::from("Empty.java"),
        &src.as_bytes().to_vec(),
        &config,
    )
    .unwrap();
    let expected = "package p;\n\npublic class Empty {\n    private int age;\n}\n";
    assert_eq!(String::from_utf8(out.file_content).unwrap(), expected);
}

#[test]
fn basic_field_with_builtin_import_adds_it_once() {
    let config = basic_config("balance", "BigDecimal");
    let out = create_jpa_entity_basic_field_command::execute(
        &String::from("Customer.java"),
        &CUSTOMER.as_bytes().to_vec(),
        &config,
    )
    .unwrap();
    let text = String::from_utf8(out.file_content).unwrap();
    assert_eq!(text.matches("import java.math.BigDecimal;").count(), 1);
    assert!(text.contains("private BigDecimal balance;"));
}

#[test]
fn already_imported_type_adds_no_duplicate_import() {
    let src = "package com.acme.model;\n\nimport java.math.BigDecimal;\n\npublic class Customer {\n    private BigDecimal balance;\n}\n";
    let config = basic_config("credit", "BigDecimal");
    let out = create_jpa_entity_basic_field_command::execute(
        &String::from("Customer.java"),
        &src.as_bytes().to_vec(),
        &config,
    )
    .unwrap();
    let text = String::from_utf8(out.file_content).unwrap();
    assert_eq!(text.matches("import java.math.BigDecimal;").count(), 1);
    assert!(text.contains("private BigDecimal credit;"));
}

#[test]
fn new_import_goes_after_the_last_existing_import() {
    let src = "package p;\n\nimport java.util.UUID;\n\npublic class A {\n    private UUID id;\n}\n";
    let config = basic_config("when", "LocalDate");
    let out = create_jpa_entity_basic_field_command::execute(
        &String::from("A.java"),
        &src.as_bytes().to_vec(),
        &config,
    )
    .unwrap();
    let text = String::from_utf8(out.file_content).unwrap();
    assert!(text.contains("import java.util.UUID;\nimport java.time.LocalDate;\n"));
}

#[test]
fn import_lands_at_file_start_when_no_package_exists() {
    let src = "public class Bare {\n    private int x;\n}\n";
    let config = basic_config("when", "Instant");
    let out = create_jpa_entity_basic_field_command::execute(
        &String::from("Bare.java"),
        &src.as_bytes().to_vec(),
        &config,
    )
    .unwrap();
    let text = String::from_utf8(out.file_content).unwrap();
    assert!(text.starts_with("import java.time.Instant;\n\npublic class Bare {"));
    assert!(text.contains("private Instant when;"));
}

#[test]
fn package_anchored_import_keeps_a_blank_line_before_the_type() {
    let src = "package p;\nclass A {\n    private int x;\n}\n";
    let config = basic_config("when", "Instant");
    let out = create_jpa_entity_basic_field_command::execute(
        &String::from("A.java"),
        &src.as_bytes().to_vec(),
        &config,
    )
    .unwrap();
    let text = String::from_utf8(out.file_content).unwrap();
    assert!(text.starts_with("package p;\n\nimport java.time.Instant;\n\nclass A {"));
}

#[test]
fn duplicate_field_name_is_rejected() {
    let config = basic_config("name", "String");
    let err = create_jpa_entity_basic_field_command::execute(
        &String::from("Customer.java"),
        &CUSTOMER.as_bytes().to_vec(),
        &config,
    )
    .unwrap_err();
    assert_eq!(err, LibError::DuplicateMember);
}

#[test]
fn two_top_level_types_fail_anchor_resolution() {
    let src = "package p;\n\nclass A {\n}\n\nclass B {\n}\n";
    let config = basic_config("x", "int");
    let err = create_jpa_entity_basic_field_command::execute(
        &String::from("A.java"),
        &src.as_bytes().to_vec(),
        &config,
    )
    .unwrap_err();
    assert_eq!(err, LibError::AnchorNotFound);
}

#[test]
fn garbled_source_fails_to_parse() {
    let src = "public klass {{{ ;;";
    let config = basic_config("x", "int");
    let err = create_jpa_entity_basic_field_command::execute(
        &String::from("A.java"),
        &src.as_bytes().to_vec(),
        &config,
    )
    .unwrap_err();
    assert_eq!(err, LibError::ParseFailure);
}

#[test]
fn column_attributes_follow_catalog_order() {
    let mut config = basic_config("code", "String");
    config.field_length = Some(40);
    config.field_unique = true;
    let out = create_jpa_entity_basic_field_command::execute(
        &String::from("Customer.java"),
        &CUSTOMER.as_bytes().to_vec(),
        &config,
    )
    .unwrap();
    let text = String::from_utf8(out.file_content).unwrap();
    assert!(text.contains("@Column(length = 40, unique = true)"));
}

#[test]
fn id_field_identity_strategy() {
    let config = IdFieldConfig {
        field_name: String::from("id"),
        field_type: String::from("Long"),
        field_type_package_name: None,
        field_id_generation: JavaIdGeneration::Generated,
        field_id_generation_type: JavaIdGenerationType::Identity,
        field_generator_name: None,
        field_sequence_name: None,
        field_initial_value: None,
        field_allocation_size: None,
        field_nullable: false,
    };
    let out = create_jpa_entity_id_field_command::execute(
        &String::from("Customer.java"),
        &CUSTOMER.as_bytes().to_vec(),
        config,
    )
    .unwrap();
    let text = String::from_utf8(out.file_content).unwrap();
    assert!(text.contains("@Id\n"));
    assert!(text.contains("@GeneratedValue(strategy = GenerationType.IDENTITY)"));
    assert!(text.contains("@Column(nullable = false)"));
    assert!(text.contains("private Long id;"));
}

#[test]
fn id_field_sequence_strategy_renders_default_generator() {
    let config = IdFieldConfig {
        field_name: String::from("id"),
        field_type: String::from("Long"),
        field_type_package_name: None,
        field_id_generation: JavaIdGeneration::Generated,
        field_id_generation_type: JavaIdGenerationType::Sequence,
        field_generator_name: None,
        field_sequence_name: None,
        field_initial_value: Some(10),
        field_allocation_size: Some(5),
        field_nullable: true,
    };
    let out = create_jpa_entity_id_field_command::execute(
        &String::from("Customer.java"),
        &CUSTOMER.as_bytes().to_vec(),
        config,
    )
    .unwrap();
    let text = String::from_utf8(out.file_content).unwrap();
    assert!(
        text.contains("@GeneratedValue(strategy = GenerationType.SEQUENCE, generator = \"id_seq\")")
    );
    assert!(text.contains(
        "@SequenceGenerator(name = \"id_seq\", sequenceName = \"id_seq\", initialValue = 10, allocationSize = 5)"
    ));
}

#[test]
fn id_field_illegal_combination_is_rejected_before_editing() {
    let config = IdFieldConfig {
        field_name: String::from("id"),
        field_type: String::from("Long"),
        field_type_package_name: None,
        field_id_generation: JavaIdGeneration::Generated,
        field_id_generation_type: JavaIdGenerationType::Identity,
        field_generator_name: None,
        field_sequence_name: Some(String::from("seq")),
        field_initial_value: None,
        field_allocation_size: None,
        field_nullable: false,
    };
    let err = create_jpa_entity_id_field_command::execute(
        &String::from("Customer.java"),
        &CUSTOMER.as_bytes().to_vec(),
        config,
    )
    .unwrap_err();
    assert_eq!(err, LibError::InvalidConfiguration);
}

#[test]
fn enum_field_with_text_storage() {
    let config = EnumFieldConfig {
        field_name: String::from("status"),
        enum_type: String::from("Status"),
        enum_package_name: String::from("com.acme.model.enums"),
        enum_type_storage: JavaEnumType::Text,
        field_length: Some(20),
        field_nullable: false,
        field_unique: false,
    };
    let out = create_jpa_entity_enum_field_command::execute(
        &String::from("Customer.java"),
        &CUSTOMER.as_bytes().to_vec(),
        config,
    )
    .unwrap();
    let text = String::from_utf8(out.file_content).unwrap();
    assert!(text.contains("import com.acme.model.enums.Status;"));
    assert!(text.contains("@Enumerated(EnumType.STRING)"));
    assert!(text.contains("@Column(length = 20, nullable = false)"));
    assert!(text.contains("private Status status;"));
}
