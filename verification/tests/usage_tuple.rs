//! Indexed access over a tuple-shaped record: `(u32, u32, u32)`. Named and
//! positional shapes must produce the same index semantics.

use named_array::GenerationResult;
use named_array::artifact::GeneratedArtifact;
use named_array::named_array;
use named_array::schema::RecordDescription;
use named_array::schema::RecordFields;

fn arr_description() -> RecordDescription {
    RecordDescription {
        name: "Arr".to_string(),
        fields: RecordFields::Positional(vec![
            "u32".to_string(),
            "u32".to_string(),
            "u32".to_string(),
        ]),
    }
}

fn arr_accessors() -> GeneratedArtifact {
    match named_array(&arr_description()) {
        Ok(GenerationResult::Accessors(artifact)) => artifact,
        _ => panic!("expected real accessors for a homogeneous record"),
    }
}

#[test]
fn usage_tuple_use_arr() {
    let artifact = arr_accessors();
    let arr: Vec<u32> = vec![1, 2, 3];
    assert_eq!(arr[0], *artifact.read(&arr, 0).unwrap());
    assert_eq!(arr[1], *artifact.read(&arr, 1).unwrap());
    assert_eq!(arr[2], *artifact.read(&arr, 2).unwrap());
}

#[test]
fn usage_tuple_fail_arr() {
    let artifact = arr_accessors();
    let arr: Vec<u32> = vec![1, 2, 3];
    let message = artifact.read(&arr, 3).unwrap_err();
    assert_eq!(message, "index out of bounds: the len is 3 but the index is 3");
}
