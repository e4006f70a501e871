use tea_compiler::aot::types::{
    format_struct_type_name, format_type_name, mangle_function_name, sanitize_symbol_component,
    type_to_value_type, value_types_equal, ExprValue, LoweringError, StructLowering, ValueType,
};
use tea_compiler::typechecker::{EnumType, StructType, Type};

fn list(t: Type) -> Type {
    Type::List(Box::new(t))
}

#[test]
fn type_names_are_printed() {
    assert_eq!(format_type_name(&Type::Int), "Int");
    assert_eq!(format_type_name(&list(Type::String)), "List[String]");
    assert_eq!(format_type_name(&Type::Dict(Box::new(Type::Bool))), "Dict[String, Bool]");
    assert_eq!(format_type_name(&Type::Optional(Box::new(Type::Float))), "Float?");
    assert_eq!(
        format_type_name(&Type::Function(vec![Type::Int, Type::String], Box::new(Type::Void))),
        "Func(Int, String) -> Void"
    );
}

#[test]
fn struct_type_names_list_arguments() {
    let pair = StructType { name: "Pair".to_string(), type_arguments: vec![Type::Int, Type::String] };
    assert_eq!(format_struct_type_name(&pair), "Pair[Int,String]");
    let plain = StructType { name: "Point".to_string(), type_arguments: vec![] };
    assert_eq!(format_struct_type_name(&plain), "Point");
}

#[test]
fn symbols_are_sanitized() {
    assert_eq!(sanitize_symbol_component("List[Int]"), "List_Int_");
    assert_eq!(sanitize_symbol_component("my_var9"), "my_var9");
    assert_eq!(sanitize_symbol_component("é-x"), "__x");
    let once = sanitize_symbol_component("Dict[String, Int]?");
    assert_eq!(sanitize_symbol_component(&once), once);
}

#[test]
fn generic_functions_are_mangled() {
    assert_eq!(mangle_function_name("identity", &[]), "identity");
    assert_eq!(
        mangle_function_name("map", &[Type::Int, list(Type::String)]),
        "map$gInt$List_String_"
    );
}

#[test]
fn checked_types_are_lowered() {
    let lowered = type_to_value_type(&Type::Nil).unwrap();
    assert!(value_types_equal(&lowered, &ValueType::Void));
    let lowered = type_to_value_type(&list(Type::Int)).unwrap();
    assert!(value_types_equal(&lowered, &ValueType::List(Box::new(ValueType::Int))));
    let pair = StructType { name: "Pair".to_string(), type_arguments: vec![Type::Int] };
    let lowered = type_to_value_type(&Type::Struct(pair)).unwrap();
    assert!(value_types_equal(&lowered, &ValueType::Struct("Pair[Int]".to_string())));
}

#[test]
fn unsupported_types_are_refused() {
    let e = type_to_value_type(&Type::Enum(EnumType { name: "Color".to_string() })).unwrap_err();
    assert!(matches!(e, LoweringError::UnsupportedEnum(_)));
    assert_eq!(e.message(), "LLVM backend does not yet support enums like 'Color'");
    let e = type_to_value_type(&Type::GenericParameter("T".to_string())).unwrap_err();
    assert_eq!(e.message(), "cannot lower generic parameter 'T' in LLVM backend");
    let e = type_to_value_type(&list(Type::Unknown)).unwrap_err();
    assert_eq!(e.message(), "cannot lower Unknown type in LLVM backend");
}

#[test]
fn struct_fields_are_found_by_name() {
    let mut lowering = StructLowering::new();
    lowering.field_names = vec!["x".to_string(), "y".to_string(), "x".to_string()];
    assert_eq!(lowering.field_index("y"), Some(1));
    assert_eq!(lowering.field_index("x"), Some(0));
    assert_eq!(lowering.field_index("z"), None);
}

#[test]
fn expression_values_know_their_type() {
    let v = ExprValue::List { pointer: 3, element_type: Box::new(ValueType::Int) };
    assert!(value_types_equal(&v.ty(), &ValueType::List(Box::new(ValueType::Int))));
    assert_eq!(ExprValue::Int(7).into_int(), Ok(7));
    assert_eq!(ExprValue::Bool(5).into_int(), Err("expected Int value".to_string()));
    assert_eq!(ExprValue::Void.into_basic_value(), None);
}
