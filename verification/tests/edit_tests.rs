use syntaxpresso_core::LibError;
use syntaxpresso_core::TextEdit;
use syntaxpresso_core::apply_edits;

fn bytes(s: &str) -> Vec<u8> {
    s.as_bytes().to_vec()
}

#[test]
fn empty_edit_set_returns_original_unchanged() {
    let src = bytes("package a;\n\npublic class A {\n}\n");
    let out = apply_edits(&src, Vec::new()).unwrap();
    assert_eq!(out, src);
}

#[test]
fn single_replacement_preserves_outside_bytes() {
    let src = bytes("abcdefgh");
    let edits = vec![TextEdit { start: 3, end: 5, replacement: bytes("XYZ") }];
    let out = apply_edits(&src, edits).unwrap();
    assert_eq!(out, bytes("abcXYZfgh"));
    // bytes before and after the edited range are identical
    assert_eq!(&out[..3], &src[..3]);
    assert_eq!(&out[6..], &src[5..]);
}

#[test]
fn edits_apply_against_original_offsets() {
    let src = bytes("0123456789");
    // two inserts, given out of order; offsets both refer to the original
    let edits = vec![
        TextEdit { start: 8, end: 8, replacement: bytes("B") },
        TextEdit { start: 2, end: 2, replacement: bytes("A") },
    ];
    let out = apply_edits(&src, edits).unwrap();
    assert_eq!(out, bytes("01A234567B89"));
}

#[test]
fn deletion_edit() {
    let src = bytes("hello, world");
    let edits = vec![TextEdit { start: 5, end: 7, replacement: Vec::new() }];
    let out = apply_edits(&src, edits).unwrap();
    assert_eq!(out, bytes("helloworld"));
}

#[test]
fn overlapping_edits_are_rejected() {
    let src = bytes("0123456789");
    let edits = vec![
        TextEdit { start: 2, end: 6, replacement: bytes("x") },
        TextEdit { start: 4, end: 8, replacement: bytes("y") },
    ];
    let err = apply_edits(&src, edits).unwrap_err();
    assert_eq!(err, LibError::EditOverlap);
}

#[test]
fn out_of_bounds_edit_is_rejected() {
    let src = bytes("012");
    let edits = vec![TextEdit { start: 2, end: 9, replacement: bytes("x") }];
    let err = apply_edits(&src, edits).unwrap_err();
    assert_eq!(err, LibError::EditOverlap);
}

#[test]
fn two_edits_at_one_offset_are_rejected() {
    let src = bytes("0123456789");
    let edits = vec![
        TextEdit { start: 4, end: 4, replacement: bytes("x") },
        TextEdit { start: 4, end: 4, replacement: bytes("y") },
    ];
    let err = apply_edits(&src, edits).unwrap_err();
    assert_eq!(err, LibError::EditOverlap);
}

#[test]
fn error_messages_are_stable() {
    assert_eq!(LibError::EditOverlap.message(), "edit ranges overlap");
    assert_eq!(LibError::ParseFailure.message(), "source does not parse as a Java unit");
    assert_eq!(LibError::AnchorNotFound.message(), "structural anchor not found");
    assert_eq!(LibError::InvalidConfiguration.message(), "illegal configuration combination");
    assert_eq!(LibError::DuplicateMember.message(), "member already exists");
    assert_eq!(LibError::MissingIdentifier.message(), "no identifier field found");
}
