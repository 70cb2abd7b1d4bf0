//! Behavior of the whole pipeline: homogeneity diagnostics, textual type
//! comparison, rejection of degenerate shapes, round trips through the
//! accessors, and the exact abort messages.

use named_array::GenerationResult;
use named_array::artifact::GeneratedArtifact;
use named_array::named_array;
use named_array::schema::NamedField;
use named_array::schema::RecordDescription;
use named_array::schema::RecordFields;
use named_array::schema::Selector;
use named_array::schema::StructuralError;
use named_array::validate::Diagnostic;

fn named_record(fields: &[(&str, &str)]) -> RecordDescription {
    RecordDescription {
        name: "Rec".to_string(),
        fields: RecordFields::Named(
            fields
                .iter()
                .map(|(name, ty)| NamedField {
                    name: name.to_string(),
                    type_signature: ty.to_string(),
                })
                .collect(),
        ),
    }
}

fn positional_record(types: &[&str]) -> RecordDescription {
    RecordDescription {
        name: "Rec".to_string(),
        fields: RecordFields::Positional(types.iter().map(|ty| ty.to_string()).collect()),
    }
}

fn expect_accessors(record: &RecordDescription) -> GeneratedArtifact {
    match named_array(record) {
        Ok(GenerationResult::Accessors(artifact)) => artifact,
        _ => panic!("expected real accessors for a homogeneous record"),
    }
}

fn expect_stub(record: &RecordDescription) -> (GeneratedArtifact, Vec<Diagnostic>) {
    match named_array(record) {
        Ok(GenerationResult::Stubbed(stub, diagnostics)) => (stub, diagnostics),
        _ => panic!("expected the stub artifact for a mismatching record"),
    }
}

#[test]
fn accumulates_every_mismatch() {
    let record = named_record(&[("a", "T"), ("b", "T"), ("c", "U"), ("d", "T"), ("e", "V")]);
    let (stub, diagnostics) = expect_stub(&record);
    assert_eq!(diagnostics.len(), 2);
    assert_eq!(diagnostics[0].index, 2);
    assert_eq!(diagnostics[0].field.type_signature, "U");
    assert_eq!(diagnostics[1].index, 4);
    assert_eq!(diagnostics[1].field.type_signature, "V");
    for diagnostic in &diagnostics {
        assert_eq!(diagnostic.message, "All fields must have the same type");
    }
    assert!(stub.stubbed);
    assert_eq!(stub.element_type, "T");
}

#[test]
fn comparison_is_textual_not_semantic() {
    let record = named_record(&[("a", "Option<()>"), ("b", "core::option::Option<()>")]);
    let (_, diagnostics) = expect_stub(&record);
    assert_eq!(diagnostics.len(), 1);
    assert_eq!(diagnostics[0].index, 1);
    assert_eq!(diagnostics[0].field.type_signature, "core::option::Option<()>");
}

#[test]
fn degenerate_shapes_are_hard_failures() {
    let empty_named = RecordDescription {
        name: "Rec".to_string(),
        fields: RecordFields::Named(Vec::new()),
    };
    match named_array(&empty_named) {
        Err(e) => {
            assert_eq!(e, StructuralError::NoFields);
            assert_eq!(e.message(), "Expected at least one field");
        }
        Ok(_) => panic!("a record with zero fields must fail structurally"),
    }

    let empty_positional = RecordDescription {
        name: "Rec".to_string(),
        fields: RecordFields::Positional(Vec::new()),
    };
    match named_array(&empty_positional) {
        Err(e) => assert_eq!(e, StructuralError::NoFields),
        Ok(_) => panic!("a record with zero fields must fail structurally"),
    }

    let unit = RecordDescription { name: "Rec".to_string(), fields: RecordFields::Unit };
    match named_array(&unit) {
        Err(e) => {
            assert_eq!(e, StructuralError::UnitShape);
            assert_eq!(e.message(), "unit structs are not supported");
        }
        Ok(_) => panic!("a unit-shaped record must fail structurally"),
    }
}

#[test]
fn write_then_read_round_trip() {
    let record = named_record(&[("a", "u32"), ("b", "u32"), ("c", "u32")]);
    let artifact = expect_accessors(&record);
    let mut values: Vec<u32> = vec![1, 2, 3];
    for index in 0..3 {
        artifact.write(&mut values, index, 40 + index as u32).unwrap();
        assert_eq!(*artifact.read(&values, index).unwrap(), 40 + index as u32);
    }
    assert_eq!(values, vec![40, 41, 42]);
}

#[test]
fn write_out_of_bounds_aborts_and_leaves_record_untouched() {
    let record = named_record(&[("a", "u32"), ("b", "u32"), ("c", "u32")]);
    let artifact = expect_accessors(&record);
    let mut values: Vec<u32> = vec![1, 2, 3];
    let message = artifact.write(&mut values, 3, 99).unwrap_err();
    assert_eq!(message, "index out of bounds: the len is 3 but the index is 3");
    assert_eq!(values, vec![1, 2, 3]);
}

#[test]
fn stub_accessors_always_abort() {
    let record = named_record(&[("a", "T"), ("b", "U")]);
    let (stub, _) = expect_stub(&record);
    let mut values: Vec<u32> = vec![1, 2];
    let message = stub.read(&values, 0).unwrap_err();
    assert_eq!(message, "Unable to generate code due to previous errors");
    let message = stub.write(&mut values, 1, 9).unwrap_err();
    assert_eq!(message, "Unable to generate code due to previous errors");
    assert_eq!(values, vec![1, 2]);
}

#[test]
fn abort_message_renders_multi_digit_values() {
    let record = positional_record(&["u32"; 12]);
    let artifact = expect_accessors(&record);
    let values: Vec<u32> = (0..12).collect();
    let message = artifact.read(&values, 34).unwrap_err();
    assert_eq!(message, "index out of bounds: the len is 12 but the index is 34");

    let single = positional_record(&["u32"]);
    let artifact = expect_accessors(&single);
    let values: Vec<u32> = vec![5];
    let message = artifact.read(&values, 10).unwrap_err();
    assert_eq!(message, "index out of bounds: the len is 1 but the index is 10");
}

#[test]
fn dispatch_preserves_declaration_order() {
    let record = named_record(&[("a", "u32"), ("b", "u32"), ("c", "u32")]);
    let artifact = expect_accessors(&record);
    assert_eq!(artifact.len(), 3);
    assert_eq!(artifact.element_type, "u32");
    let expected = ["a", "b", "c"];
    for (i, selector) in artifact.dispatch.iter().enumerate() {
        match selector {
            Selector::Named(name) => assert_eq!(name, expected[i]),
            Selector::Positional(_) => panic!("a named record selects by name"),
        }
    }

    let record = positional_record(&["u32", "u32", "u32"]);
    let artifact = expect_accessors(&record);
    for (i, selector) in artifact.dispatch.iter().enumerate() {
        match selector {
            Selector::Positional(p) => assert_eq!(*p, i),
            Selector::Named(_) => panic!("a tuple-shaped record selects by position"),
        }
    }
}
