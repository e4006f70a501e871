use tea_compiler::aot::backend::{
    basic_kind, check_global_slot, describe_span, function_attribute_names, function_shape,
    global_symbol_name, is_small_list_literal, is_small_string_literal, lower_lambda_signature,
    lower_lambda_signatures, BasicKind,
};
use tea_compiler::aot::types::{value_types_equal, GlobalBindingSlot, ValueType};
use tea_compiler::ast::SourceSpan;
use tea_compiler::names::NameMap;
use tea_compiler::typechecker::{EnumType, Type};

#[test]
fn values_have_machine_types() {
    assert_eq!(basic_kind(&ValueType::Int), Ok(BasicKind::Int64));
    assert_eq!(basic_kind(&ValueType::Optional(Box::new(ValueType::Int))), Ok(BasicKind::TaggedValue));
    assert_eq!(basic_kind(&ValueType::Struct("P".to_string())), Ok(BasicKind::StructPointer));
    assert_eq!(basic_kind(&ValueType::Void), Err("void type is not a value".to_string()));
}

#[test]
fn function_types_have_shapes() {
    let shape = function_shape(&ValueType::Void, &[ValueType::Bool, ValueType::String]).unwrap();
    assert_eq!(shape, (None, vec![BasicKind::Bool, BasicKind::StringPointer]));
    let shape = function_shape(&ValueType::Float, &[]).unwrap();
    assert_eq!(shape, (Some(BasicKind::Float64), vec![]));
    assert_eq!(
        function_shape(&ValueType::Int, &[ValueType::Int, ValueType::Void]),
        Err("void type is not a value".to_string())
    );
}

#[test]
fn attributes_depend_on_throwing_and_size() {
    assert_eq!(
        function_attribute_names(false, true),
        vec!["nounwind", "willreturn", "nosync", "nofree", "alwaysinline"]
    );
    assert_eq!(function_attribute_names(true, false), vec!["willreturn", "nosync", "nofree"]);
}

#[test]
fn small_literals_are_inline() {
    assert!(is_small_list_literal(7));
    assert!(!is_small_list_literal(8));
    assert!(is_small_string_literal(22));
    assert!(!is_small_string_literal(23));
}

#[test]
fn spans_are_described() {
    assert_eq!(describe_span(SourceSpan::new(0, 4, 0, 9)), "unknown location");
    assert_eq!(describe_span(SourceSpan::single_point(3, 7)), "line 3, column 7");
    assert_eq!(
        describe_span(SourceSpan::new(2, 1, 12, 40)),
        "line 2 column 1 to line 12 column 40"
    );
}

#[test]
fn global_slots_are_checked() {
    assert_eq!(global_symbol_name("total-count"), ".binding.total_count");
    let mut slots = NameMap::new();
    slots.insert(
        "count".to_string(),
        GlobalBindingSlot { pointer: 42, ty: ValueType::Int, mutable: true, initialized: false },
    );
    assert_eq!(check_global_slot(&slots, "other", &ValueType::Int, true), Ok(None));
    assert_eq!(check_global_slot(&slots, "count", &ValueType::Int, true), Ok(Some(42)));
    assert_eq!(
        check_global_slot(&slots, "count", &ValueType::Int, false),
        Err("top-level binding 'count' has conflicting mutability".to_string())
    );
    assert_eq!(
        check_global_slot(&slots, "count", &ValueType::List(Box::new(ValueType::String)), true),
        Err("top-level binding 'count' has conflicting types (previous Int, new List(String))".to_string())
    );
}

#[test]
fn lambda_signatures_are_lowered() {
    let ty = Type::Function(vec![Type::Int, Type::Nil], Box::new(Type::String));
    let sig = lower_lambda_signature(3, &ty).unwrap();
    assert_eq!(sig.param_types.len(), 2);
    assert!(value_types_equal(&sig.param_types[1], &ValueType::Void));
    assert!(value_types_equal(&sig.return_type, &ValueType::String));
    assert_eq!(
        lower_lambda_signature(7, &Type::Int).unwrap_err(),
        "lambda 7 did not resolve to a function type"
    );
    let bad = Type::Function(vec![], Box::new(Type::Enum(EnumType { name: "Mode".to_string() })));
    assert_eq!(
        lower_lambda_signature(1, &bad).unwrap_err(),
        "LLVM backend does not yet support enums like 'Mode'"
    );
}

#[test]
fn all_lambdas_are_lowered_in_order() {
    let types = vec![
        (0, Type::Function(vec![], Box::new(Type::Int))),
        (12, Type::Function(vec![Type::Bool], Box::new(Type::Void))),
    ];
    let sigs = lower_lambda_signatures(&types).unwrap();
    assert_eq!(sigs.len(), 2);
    assert_eq!(sigs[1].0, 12);
    let types = vec![(0, Type::Function(vec![], Box::new(Type::Int))), (5, Type::Bool), (6, Type::Int)];
    assert_eq!(
        lower_lambda_signatures(&types).unwrap_err(),
        "lambda 5 did not resolve to a function type"
    );
}
