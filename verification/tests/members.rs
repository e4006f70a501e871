use tea_compiler::aot::members::{error_member_field, error_member_variant};
use tea_compiler::aot::structs::StructMetadata;
use tea_compiler::aot::types::{value_types_equal, ErrorVariantLowering, StructLowering, ValueType};
use tea_compiler::names::NameMap;

fn point_metadata() -> StructMetadata {
    let mut structs = NameMap::new();
    let mut point = StructLowering::new();
    point.field_names = vec!["x".to_string(), "y".to_string()];
    point.field_types = vec![ValueType::Int, ValueType::Int];
    structs.insert("Point".to_string(), point);
    let mut boxed = StructLowering::new();
    boxed.field_names = vec!["item".to_string()];
    boxed.field_types = vec![];
    structs.insert("Box".to_string(), boxed);
    let mut variants = NameMap::new();
    variants.insert("Box[Float]".to_string(), vec![ValueType::Float]);
    let mut bases = NameMap::new();
    bases.insert("Box[Float]".to_string(), "Box".to_string());
    StructMetadata {
        structs,
        struct_field_variants: variants,
        struct_variant_bases: bases,
        struct_definitions_tc: NameMap::new(),
        struct_instances_tc: NameMap::new(),
        struct_call_metadata_tc: vec![],
    }
}

#[test]
fn struct_members_resolve_to_field_index_and_type() {
    let meta = point_metadata();
    let (i, t) = meta.struct_member_field("Point", "y").unwrap();
    assert_eq!(i, 1);
    assert!(value_types_equal(&t, &ValueType::Int));
    let (i, t) = meta.struct_member_field("Box[Float]", "item").unwrap();
    assert_eq!(i, 0);
    assert!(value_types_equal(&t, &ValueType::Float));
}

#[test]
fn struct_member_errors() {
    let meta = point_metadata();
    assert_eq!(meta.struct_member_field("Point", "z").unwrap_err(), "struct 'Point' has no field 'z'");
    assert_eq!(meta.struct_member_field("Line", "a").unwrap_err(), "unknown struct 'Line'");
    assert_eq!(meta.struct_member_field("Box", "item").unwrap_err(), "missing field type metadata");
}

#[test]
fn error_members_need_a_variant_and_a_field() {
    assert_eq!(error_member_variant("IoError", &Some("NotFound".to_string()), "path").unwrap(), "NotFound");
    assert_eq!(
        error_member_variant("IoError", &None, "path").unwrap_err(),
        "cannot access field 'path' on error 'IoError' without a specific variant"
    );
    let mut entry = ErrorVariantLowering::new();
    entry.field_names = vec!["path".to_string(), "code".to_string()];
    entry.field_types = vec![ValueType::String, ValueType::Int];
    let (i, t) = error_member_field("IoError", "NotFound", &entry, "code").unwrap();
    assert_eq!(i, 1);
    assert!(value_types_equal(&t, &ValueType::Int));
    assert_eq!(
        error_member_field("IoError", "NotFound", &entry, "reason").unwrap_err(),
        "error 'IoError.NotFound' has no field 'reason'"
    );
    entry.field_types.pop();
    assert_eq!(
        error_member_field("IoError", "NotFound", &entry, "code").unwrap_err(),
        "missing field type metadata for error field"
    );
}
