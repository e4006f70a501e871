use tea_compiler::aot::errors::ensure_error_variant_metadata;
use tea_compiler::aot::scopes::GenericBindings;
use tea_compiler::aot::structs::StructMetadata;
use tea_compiler::aot::types::{
    value_type_lists_equal, value_types_equal, ErrorVariantLowering, ValueType,
};
use tea_compiler::ast::{SourceSpan, Statement, StructField, StructStatement, Token, TypeExpression, TypeParameter};
use tea_compiler::names::NameMap;
use tea_compiler::typechecker::{
    ErrorDefinition, ErrorFieldDefinition, ErrorVariantDefinition, FunctionInstance,
    StructDefinition, StructFieldDefinition, StructType, Type,
};

fn span() -> SourceSpan {
    SourceSpan::single_point(1, 1)
}

fn annotation(text: &str) -> TypeExpression {
    TypeExpression { tokens: vec![Token { lexeme: text.to_string() }] }
}

fn declare(name: &str, params: &[&str], fields: &[(&str, &str)]) -> Statement {
    Statement::Struct(StructStatement {
        name: name.to_string(),
        name_span: span(),
        type_parameters: params
            .iter()
            .map(|p| TypeParameter { name: p.to_string(), span: span() })
            .collect(),
        fields: fields
            .iter()
            .map(|(n, t)| StructField { name: n.to_string(), span: span(), type_annotation: annotation(t) })
            .collect(),
        docstring: None,
    })
}

fn empty_metadata() -> StructMetadata {
    StructMetadata {
        structs: NameMap::new(),
        struct_field_variants: NameMap::new(),
        struct_variant_bases: NameMap::new(),
        struct_definitions_tc: NameMap::new(),
        struct_instances_tc: NameMap::new(),
        struct_call_metadata_tc: vec![],
    }
}

#[test]
fn declared_structs_are_collected() {
    let mut meta = empty_metadata();
    let statements = vec![
        declare("Line", &[], &[("from", "Point"), ("to", "Point")]),
        declare("Point", &[], &[("x", "Int"), ("y", "Float")]),
        declare("Box", &["T"], &[("item", "T")]),
    ];
    meta.collect_structs(&statements, &GenericBindings::new()).unwrap();
    let line = meta.structs.get("Line").unwrap();
    assert_eq!(line.field_names, vec!["from".to_string(), "to".to_string()]);
    assert!(value_types_equal(&line.field_types[0], &ValueType::Struct("Point".to_string())));
    let point = meta.structs.get("Point").unwrap();
    assert!(value_type_lists_equal(&point.field_types, &vec![ValueType::Int, ValueType::Float]));
    let boxed = meta.structs.get("Box").unwrap();
    assert_eq!(boxed.field_names, vec!["item".to_string()]);
    assert!(boxed.field_types.is_empty());
    assert!(meta.struct_field_variants.get("Point").is_some());
    assert!(meta.struct_field_variants.get("Box").is_none());
    assert_eq!(meta.struct_variant_bases.get("Box").map(|s| s.as_str()), Some("Box"));
}

#[test]
fn unreadable_fields_stop_the_collection() {
    let mut meta = empty_metadata();
    let statements = vec![declare("Bad", &[], &[("x", "Missing")])];
    assert_eq!(
        meta.collect_structs(&statements, &GenericBindings::new()).unwrap_err(),
        "unsupported type 'Missing' in LLVM backend"
    );
}

#[test]
fn builtin_structs_are_registered() {
    let mut meta = empty_metadata();
    meta.struct_definitions_tc.insert(
        "ProcessResult".to_string(),
        StructDefinition {
            name: "ProcessResult".to_string(),
            type_parameters: vec![],
            fields: vec![
                StructFieldDefinition { name: "status".to_string(), ty: Type::Int },
                StructFieldDefinition { name: "stdout".to_string(), ty: Type::String },
            ],
        },
    );
    meta.struct_definitions_tc.insert(
        "CliParseResult".to_string(),
        StructDefinition {
            name: "CliParseResult".to_string(),
            type_parameters: vec![],
            fields: vec![StructFieldDefinition { name: "raw".to_string(), ty: Type::Unknown }],
        },
    );
    meta.register_builtin_structs();
    assert!(meta.structs.contains_key("ProcessResult"));
    assert!(!meta.structs.contains_key("CliParseResult"));
    assert_eq!(meta.struct_variant_bases.get("ProcessResult").map(|s| s.as_str()), Some("ProcessResult"));
}

#[test]
fn generic_struct_variants_come_from_the_declaration() {
    let mut meta = empty_metadata();
    meta.struct_definitions_tc.insert(
        "Pair".to_string(),
        StructDefinition {
            name: "Pair".to_string(),
            type_parameters: vec!["A".to_string(), "B".to_string()],
            fields: vec![
                StructFieldDefinition { name: "left".to_string(), ty: Type::GenericParameter("A".to_string()) },
                StructFieldDefinition { name: "right".to_string(), ty: Type::List(Box::new(Type::GenericParameter("B".to_string()))) },
            ],
        },
    );
    let pair = StructType { name: "Pair".to_string(), type_arguments: vec![Type::Int, Type::String] };
    let fields = meta.lower_struct_fields_from_definition(&pair).unwrap();
    assert!(value_type_lists_equal(
        &fields,
        &vec![ValueType::Int, ValueType::List(Box::new(ValueType::String))]
    ));
    meta.ensure_struct_variant_metadata(&pair).unwrap();
    assert!(meta.struct_field_variants.get("Pair[Int,String]").is_some());
    assert_eq!(meta.struct_variant_bases.get("Pair[Int,String]").map(|s| s.as_str()), Some("Pair"));
    let wrong = StructType { name: "Pair".to_string(), type_arguments: vec![Type::Int] };
    assert_eq!(
        meta.lower_struct_fields_from_definition(&wrong).unwrap_err(),
        "struct 'Pair' expected 2 type arguments, found 1"
    );
    let unknown = StructType { name: "Nope".to_string(), type_arguments: vec![] };
    assert_eq!(
        meta.lower_struct_fields_from_definition(&unknown).unwrap_err(),
        "unknown struct 'Nope' in metadata"
    );
}

#[test]
fn resolving_a_struct_type_records_its_fields() {
    let mut meta = empty_metadata();
    meta.struct_definitions_tc.insert(
        "Pair".to_string(),
        StructDefinition {
            name: "Pair".to_string(),
            type_parameters: vec!["A".to_string(), "B".to_string()],
            fields: vec![
                StructFieldDefinition { name: "left".to_string(), ty: Type::GenericParameter("A".to_string()) },
                StructFieldDefinition { name: "right".to_string(), ty: Type::GenericParameter("B".to_string()) },
            ],
        },
    );
    let mut scope = NameMap::new();
    scope.insert("T".to_string(), (Type::Int, ValueType::Int));
    let mut generics = GenericBindings::new();
    generics.push_scope(scope);
    let ty = Type::Struct(StructType {
        name: "Pair".to_string(),
        type_arguments: vec![Type::GenericParameter("T".to_string()), Type::String],
    });
    let v = meta.resolve_type_with_bindings_to_value(&generics, &ty).unwrap();
    assert!(value_types_equal(&v, &ValueType::Struct("Pair[Int,String]".to_string())));
    let fields = meta.struct_field_variants.get("Pair[Int,String]").unwrap();
    assert!(value_type_lists_equal(fields, &vec![ValueType::Int, ValueType::String]));
    let unbound = Type::List(Box::new(Type::GenericParameter("U".to_string())));
    assert_eq!(
        meta.resolve_type_with_bindings_to_value(&generics, &unbound).unwrap_err(),
        "unbound generic parameter 'U'"
    );
    let ghost = Type::Struct(StructType { name: "Ghost".to_string(), type_arguments: vec![] });
    assert_eq!(
        meta.resolve_type_with_bindings_to_value(&generics, &ghost).unwrap_err(),
        "missing struct metadata for 'Ghost'"
    );
    let opt = meta.resolve_type_with_bindings_to_value(&generics, &Type::Optional(Box::new(Type::Nil))).unwrap();
    assert!(value_types_equal(&opt, &ValueType::Optional(Box::new(ValueType::Void))));
}

#[test]
fn error_variants_get_their_fields_once() {
    let mut defs = NameMap::new();
    defs.insert(
        "IoError".to_string(),
        ErrorDefinition {
            name: "IoError".to_string(),
            variants: vec![
                ErrorVariantDefinition {
                    name: "NotFound".to_string(),
                    fields: vec![
                        ErrorFieldDefinition { name: "path".to_string(), ty: Type::String },
                        ErrorFieldDefinition { name: "code".to_string(), ty: Type::GenericParameter("T".to_string()) },
                    ],
                },
                ErrorVariantDefinition { name: "Denied".to_string(), fields: vec![] },
            ],
        },
    );
    let mut errors: NameMap<NameMap<ErrorVariantLowering>> = NameMap::new();
    let mut meta = empty_metadata();
    let mut scope = NameMap::new();
    scope.insert("T".to_string(), (Type::Int, ValueType::Int));
    let mut generics = GenericBindings::new();
    generics.push_scope(scope);
    ensure_error_variant_metadata(&mut errors, &defs, &mut meta, &generics, "IoError", "NotFound").unwrap();
    let variant = errors.get("IoError").unwrap().get("NotFound").unwrap();
    assert_eq!(variant.field_names, vec!["path".to_string(), "code".to_string()]);
    assert!(value_type_lists_equal(&variant.field_types, &vec![ValueType::String, ValueType::Int]));
    assert_eq!(
        ensure_error_variant_metadata(&mut errors, &defs, &mut meta, &generics, "IoError", "Gone").unwrap_err(),
        "error 'IoError' has no variant 'Gone'"
    );
    assert_eq!(
        ensure_error_variant_metadata(&mut errors, &defs, &mut meta, &generics, "ParseError", "Bad").unwrap_err(),
        "unknown error 'ParseError'"
    );
    let unbound = GenericBindings::new();
    ensure_error_variant_metadata(&mut errors, &defs, &mut meta, &unbound, "IoError", "NotFound").unwrap();
    let mut fresh: NameMap<NameMap<ErrorVariantLowering>> = NameMap::new();
    assert_eq!(
        ensure_error_variant_metadata(&mut fresh, &defs, &mut meta, &unbound, "IoError", "NotFound").unwrap_err(),
        "unbound generic parameter 'T'"
    );
}

#[test]
fn instance_signatures_record_struct_fields() {
    let mut meta = empty_metadata();
    meta.struct_definitions_tc.insert(
        "Box".to_string(),
        StructDefinition {
            name: "Box".to_string(),
            type_parameters: vec!["T".to_string()],
            fields: vec![StructFieldDefinition { name: "item".to_string(), ty: Type::GenericParameter("T".to_string()) }],
        },
    );
    let boxed = Type::Struct(StructType { name: "Box".to_string(), type_arguments: vec![Type::Int] });
    let instance = FunctionInstance {
        type_arguments: vec![Type::Int],
        param_types: vec![Type::Int, Type::List(Box::new(Type::Bool))],
        return_type: boxed,
    };
    let (ret, params) = meta.instance_signature(&instance).unwrap();
    assert!(value_types_equal(&ret, &ValueType::Struct("Box[Int]".to_string())));
    assert!(value_type_lists_equal(&params, &vec![ValueType::Int, ValueType::List(Box::new(ValueType::Bool))]));
    assert!(meta.struct_field_variants.get("Box[Int]").is_some());
    let bad = FunctionInstance {
        type_arguments: vec![],
        param_types: vec![Type::GenericParameter("U".to_string())],
        return_type: Type::Void,
    };
    assert_eq!(
        meta.instance_signature(&bad).unwrap_err(),
        "cannot lower generic parameter 'U' in LLVM backend"
    );
    let types = vec![Type::Int, Type::Struct(StructType { name: "Box".to_string(), type_arguments: vec![Type::String] })];
    let values = meta.resolve_types_with_bindings_to_values(&GenericBindings::new(), &types).unwrap();
    assert!(value_types_equal(&values[1], &ValueType::Struct("Box[String]".to_string())));
}
