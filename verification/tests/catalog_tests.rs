use syntaxpresso_core::CascadeType;
use syntaxpresso_core::IdFieldConfig;
use syntaxpresso_core::JavaBasicType;
use syntaxpresso_core::JavaIdGeneration;
use syntaxpresso_core::JavaIdGenerationType;
use syntaxpresso_core::LibError;
use syntaxpresso_core::get_java_basic_types_command;
use syntaxpresso_core::normalize_cascades;
use syntaxpresso_core::validated_id_config;

fn id_config(
    generation: JavaIdGeneration,
    generation_type: JavaIdGenerationType,
) -> IdFieldConfig {
    IdFieldConfig {
        field_name: String::from("id"),
        field_type: String::from("Long"),
        field_type_package_name: None,
        field_id_generation: generation,
        field_id_generation_type: generation_type,
        field_generator_name: None,
        field_sequence_name: None,
        field_initial_value: None,
        field_allocation_size: None,
        field_nullable: false,
    }
}

#[test]
fn identity_with_sequence_name_is_rejected() {
    let mut c = id_config(JavaIdGeneration::Generated, JavaIdGenerationType::Identity);
    c.field_sequence_name = Some(String::from("customer_seq"));
    let err = validated_id_config(c).unwrap_err();
    assert_eq!(err, LibError::InvalidConfiguration);
}

#[test]
fn auto_with_generator_name_is_rejected() {
    let mut c = id_config(JavaIdGeneration::Generated, JavaIdGenerationType::Auto);
    c.field_generator_name = Some(String::from("gen"));
    let err = validated_id_config(c).unwrap_err();
    assert_eq!(err, LibError::InvalidConfiguration);
}

#[test]
fn sequence_without_name_gets_documented_default() {
    let c = id_config(JavaIdGeneration::Generated, JavaIdGenerationType::Sequence);
    let v = validated_id_config(c).unwrap();
    assert_eq!(v.field_sequence_name, Some(String::from("id_seq")));
}

#[test]
fn sequence_with_name_keeps_it() {
    let mut c = id_config(JavaIdGeneration::Generated, JavaIdGenerationType::Sequence);
    c.field_sequence_name = Some(String::from("customer_seq"));
    let v = validated_id_config(c).unwrap();
    assert_eq!(v.field_sequence_name, Some(String::from("customer_seq")));
}

#[test]
fn table_requires_generator_name() {
    let c = id_config(JavaIdGeneration::Generated, JavaIdGenerationType::Table);
    let err = validated_id_config(c).unwrap_err();
    assert_eq!(err, LibError::InvalidConfiguration);
    let mut c2 = id_config(JavaIdGeneration::Generated, JavaIdGenerationType::Table);
    c2.field_generator_name = Some(String::from("tab_gen"));
    assert!(validated_id_config(c2).is_ok());
}

#[test]
fn assigned_permits_no_generator_attributes() {
    let c = id_config(JavaIdGeneration::Assigned, JavaIdGenerationType::Auto);
    assert!(validated_id_config(c).is_ok());
    let mut c2 = id_config(JavaIdGeneration::Assigned, JavaIdGenerationType::Auto);
    c2.field_initial_value = Some(5);
    assert_eq!(validated_id_config(c2).unwrap_err(), LibError::InvalidConfiguration);
}

#[test]
fn cascade_all_subsumes_the_rest() {
    let v = vec![CascadeType::Persist, CascadeType::All, CascadeType::Merge];
    assert_eq!(normalize_cascades(&v), vec![CascadeType::All]);
}

#[test]
fn cascade_duplicates_collapse_to_first_occurrence() {
    let v = vec![
        CascadeType::Persist,
        CascadeType::Merge,
        CascadeType::Persist,
        CascadeType::Remove,
    ];
    assert_eq!(
        normalize_cascades(&v),
        vec![CascadeType::Persist, CascadeType::Merge, CascadeType::Remove]
    );
}

#[test]
fn cascade_empty_stays_empty() {
    let v: Vec<CascadeType> = Vec::new();
    assert_eq!(normalize_cascades(&v), Vec::new());
}

#[test]
fn basic_types_all_kinds() {
    let all = get_java_basic_types_command::execute(&JavaBasicType::AllTypes).unwrap();
    let names: Vec<String> = all.iter().map(|e| e.name.clone()).collect();
    assert!(names.contains(&String::from("String")));
    assert!(names.contains(&String::from("UUID")));
    assert!(names.contains(&String::from("BigDecimal")));
    let uuid = all.iter().find(|e| e.name == "UUID").unwrap();
    assert_eq!(uuid.import_path, Some(String::from("java.util.UUID")));
    let string_entry = all.iter().find(|e| e.name == "String").unwrap();
    assert_eq!(string_entry.import_path, None);
}

#[test]
fn basic_types_numeric_slice() {
    let numeric = get_java_basic_types_command::execute(&JavaBasicType::Numeric).unwrap();
    let names: Vec<String> = numeric.iter().map(|e| e.name.clone()).collect();
    assert!(names.contains(&String::from("Integer")));
    assert!(names.contains(&String::from("BigDecimal")));
    assert!(!names.contains(&String::from("String")));
    assert!(!names.contains(&String::from("LocalDate")));
}

#[test]
fn basic_types_textual_slice() {
    let textual = get_java_basic_types_command::execute(&JavaBasicType::Textual).unwrap();
    let names: Vec<String> = textual.iter().map(|e| e.name.clone()).collect();
    assert_eq!(names, vec![String::from("String"), String::from("Character")]);
}

#[test]
fn basic_types_temporal_slice() {
    let temporal = get_java_basic_types_command::execute(&JavaBasicType::Temporal).unwrap();
    let names: Vec<String> = temporal.iter().map(|e| e.name.clone()).collect();
    assert!(names.contains(&String::from("LocalDateTime")));
    let ld = temporal.iter().find(|e| e.name == "LocalDate").unwrap();
    assert_eq!(ld.import_path, Some(String::from("java.time.LocalDate")));
    assert!(!names.contains(&String::from("Integer")));
}
