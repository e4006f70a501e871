use tea_compiler::aot::structs::StructMetadata;
use tea_compiler::aot::templates::{
    error_template_global_names, prepare_error_template, struct_template_global_names, TemplateNeed,
};
use tea_compiler::aot::types::{value_type_lists_equal, ErrorVariantLowering, StructLowering, ValueType};
use tea_compiler::names::NameMap;
use tea_compiler::typechecker::{StructDefinition, StructFieldDefinition, Type};

fn metadata() -> StructMetadata {
    let mut defs = NameMap::new();
    defs.insert(
        "Point".to_string(),
        StructDefinition {
            name: "Point".to_string(),
            type_parameters: vec![],
            fields: vec![
                StructFieldDefinition { name: "x".to_string(), ty: Type::Int },
                StructFieldDefinition { name: "y".to_string(), ty: Type::Float },
            ],
        },
    );
    defs.insert(
        "Box".to_string(),
        StructDefinition {
            name: "Box".to_string(),
            type_parameters: vec!["T".to_string()],
            fields: vec![StructFieldDefinition { name: "item".to_string(), ty: Type::GenericParameter("T".to_string()) }],
        },
    );
    defs.insert(
        "Odd".to_string(),
        StructDefinition {
            name: "Odd".to_string(),
            type_parameters: vec![],
            fields: vec![StructFieldDefinition { name: "u".to_string(), ty: Type::Unknown }],
        },
    );
    StructMetadata {
        structs: NameMap::new(),
        struct_field_variants: NameMap::new(),
        struct_variant_bases: NameMap::new(),
        struct_definitions_tc: defs,
        struct_instances_tc: NameMap::new(),
        struct_call_metadata_tc: vec![],
    }
}

#[test]
fn templates_lower_declared_structs_first() {
    let mut meta = metadata();
    match meta.prepare_struct_template("Point").unwrap() {
        TemplateNeed::Create(names) => assert_eq!(names, vec!["x".to_string(), "y".to_string()]),
        other => panic!("unexpected {:?}", other),
    }
    let lowered = meta.structs.get("Point").unwrap();
    assert!(value_type_lists_equal(&lowered.field_types, &vec![ValueType::Int, ValueType::Float]));
    assert_eq!(meta.struct_variant_bases.get("Point").unwrap(), "Point");
    assert!(value_type_lists_equal(meta.struct_field_variants.get("Point").unwrap(), &vec![ValueType::Int, ValueType::Float]));
}

#[test]
fn made_templates_are_reused() {
    let mut meta = metadata();
    let mut lowering = StructLowering::new();
    lowering.template_pointer = Some(77);
    meta.structs.insert("Point".to_string(), lowering);
    assert!(matches!(meta.prepare_struct_template("Point").unwrap(), TemplateNeed::Existing(77)));
}

#[test]
fn template_errors() {
    let mut meta = metadata();
    assert_eq!(meta.prepare_struct_template("Box").unwrap_err(), "unknown struct 'Box'");
    assert_eq!(meta.prepare_struct_template("Nope").unwrap_err(), "unknown struct 'Nope'");
    assert_eq!(meta.prepare_struct_template("Odd").unwrap_err(), "cannot lower Unknown type in LLVM backend");
    assert!(meta.structs.get("Odd").is_none());
}

#[test]
fn template_global_names() {
    assert_eq!(
        struct_template_global_names("Point"),
        (".struct.fields.Point".to_string(), ".struct.template.Point".to_string())
    );
    assert_eq!(
        error_template_global_names("IoError", "NotFound"),
        (".error.fields.IoError.NotFound".to_string(), ".error.template.IoError.NotFound".to_string())
    );
}

#[test]
fn error_templates_need_metadata() {
    let mut variants = NameMap::new();
    let mut entry = ErrorVariantLowering::new();
    entry.field_names = vec!["path".to_string()];
    variants.insert("NotFound".to_string(), entry);
    let mut errors = NameMap::new();
    errors.insert("IoError".to_string(), variants);
    match prepare_error_template(&errors, "IoError", "NotFound").unwrap() {
        TemplateNeed::Create(names) => assert_eq!(names, vec!["path".to_string()]),
        other => panic!("unexpected {:?}", other),
    }
    assert_eq!(prepare_error_template(&errors, "IoError", "Gone").unwrap_err(), "missing metadata for 'IoError.Gone'");
}
