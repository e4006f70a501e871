use tea_compiler::aot::generics::substitute_type;
use tea_compiler::aot::helpers::{
    loop_optimization_metadata, tea_value_boxing, MetadataConstant, PayloadEncoding, TeaValueTag,
};
use tea_compiler::aot::intrinsics::Intrinsic;
use tea_compiler::aot::scopes::{FunctionScopes, GenericBindings};
use tea_compiler::aot::types::{format_type_name, value_types_equal, ErrorHandlingMode, ValueType};
use tea_compiler::ast::SourceSpan;
use tea_compiler::names::NameMap;
use tea_compiler::typechecker::Type;

#[test]
fn spans_are_joined() {
    let a = SourceSpan::new(2, 4, 2, 10);
    let b = SourceSpan::new(1, 8, 2, 6);
    let u = SourceSpan::union(&a, &b);
    assert_eq!(u, SourceSpan::new(1, 8, 2, 10));
    assert_eq!(SourceSpan::union(&b, &a), u);
    assert_eq!(SourceSpan::union(&a, &a), a);
    let unknown = SourceSpan::default();
    assert_eq!(SourceSpan::union(&unknown, &a), a);
    assert_eq!(SourceSpan::union(&a, &unknown), a);
    assert_eq!(SourceSpan::single_point(3, 9), SourceSpan::new(3, 9, 3, 9));
}

#[test]
fn tea_value_tags_have_fixed_codes() {
    assert_eq!(TeaValueTag::Int.as_u64(), 0);
    assert_eq!(TeaValueTag::String.as_u64(), 3);
    assert_eq!(TeaValueTag::Closure.as_u64(), 8);
    assert_eq!(TeaValueTag::Nil.as_u64(), 9);
}

#[test]
fn loops_get_vectorisation_hints() {
    let b = loop_optimization_metadata();
    let keys: Vec<&str> = b.nodes.iter().map(|n| n.key.as_str()).collect();
    assert_eq!(
        keys,
        vec![
            "llvm.loop.vectorize.enable",
            "llvm.loop.vectorize.width",
            "llvm.loop.vectorize.scalable.enable",
            "llvm.loop.interleave.count",
            "llvm.loop.unroll.enable",
        ]
    );
    assert_eq!(b.nodes[1].value, MetadataConstant::I32(4));
    assert_eq!(b.nodes[2].value, MetadataConstant::I1(0));
}

#[test]
fn intrinsics_are_named_with_a_prefix() {
    assert_eq!(Intrinsic::from_name("__intrinsic_fs_exists"), Some(Intrinsic::FsExists));
    assert_eq!(Intrinsic::from_name("__intrinsic_to_string"), Some(Intrinsic::ToString));
    assert_eq!(Intrinsic::from_name("fs_exists"), None);
    assert_eq!(Intrinsic::from_name("__intrinsic_nope"), None);
}

#[test]
fn function_scopes_stack() {
    let mut scopes = FunctionScopes::new();
    assert_eq!(scopes.current_error_mode(), ErrorHandlingMode::Propagate);
    scopes.push_error_mode(ErrorHandlingMode::Capture);
    assert_eq!(scopes.current_error_mode(), ErrorHandlingMode::Capture);
    scopes.pop_error_mode();
    assert_eq!(scopes.current_error_mode(), ErrorHandlingMode::Propagate);
    assert!(!scopes.current_function_can_throw());
    scopes.push_function_can_throw(true);
    assert!(scopes.current_function_can_throw());
    scopes.push_function_return(ValueType::Int);
    assert!(value_types_equal(scopes.current_function_return_type(), &ValueType::Int));
}

#[test]
fn inner_generic_scopes_shadow_outer_ones() {
    let mut generics = GenericBindings::new();
    let mut outer = NameMap::new();
    outer.insert("T".to_string(), (Type::Int, ValueType::Int));
    outer.insert("U".to_string(), (Type::Bool, ValueType::Bool));
    generics.push_scope(outer);
    let mut inner = NameMap::new();
    inner.insert("T".to_string(), (Type::String, ValueType::String));
    generics.push_scope(inner);
    assert!(value_types_equal(&generics.lookup_generic_value_type("T").unwrap(), &ValueType::String));
    assert!(value_types_equal(&generics.lookup_generic_value_type("U").unwrap(), &ValueType::Bool));
    assert!(generics.lookup_generic_type("V").is_none());
    let resolved = generics
        .resolve_type_with_bindings(&Type::List(Box::new(Type::GenericParameter("T".to_string()))))
        .unwrap();
    assert_eq!(format_type_name(&resolved), "List[String]");
    assert_eq!(
        generics.resolve_type_with_bindings(&Type::GenericParameter("V".to_string())).unwrap_err(),
        "unbound generic parameter 'V'"
    );
    generics.pop_scope();
    assert!(value_types_equal(&generics.lookup_generic_value_type("T").unwrap(), &ValueType::Int));
}

#[test]
fn generic_parameters_are_substituted() {
    let mut mapping = NameMap::new();
    mapping.insert("T".to_string(), Type::Float);
    let ty = Type::Function(
        vec![Type::GenericParameter("T".to_string())],
        Box::new(Type::GenericParameter("Missing".to_string())),
    );
    assert_eq!(format_type_name(&substitute_type(&ty, &mapping)), "Func(Float) -> Unknown");
    let plain = Type::Dict(Box::new(Type::Int));
    assert_eq!(format_type_name(&substitute_type(&plain, &mapping)), "Dict[String, Int]");
}

#[test]
fn values_are_boxed_by_kind() {
    assert_eq!(tea_value_boxing(&ValueType::Int), Some((TeaValueTag::Int, PayloadEncoding::Integer)));
    assert_eq!(tea_value_boxing(&ValueType::Float), Some((TeaValueTag::Float, PayloadEncoding::FloatBits)));
    assert_eq!(tea_value_boxing(&ValueType::Bool), Some((TeaValueTag::Bool, PayloadEncoding::ZeroExtendedBool)));
    assert_eq!(
        tea_value_boxing(&ValueType::Function(vec![], Box::new(ValueType::Void))),
        Some((TeaValueTag::Closure, PayloadEncoding::PointerAddress))
    );
    assert_eq!(tea_value_boxing(&ValueType::Void), Some((TeaValueTag::Nil, PayloadEncoding::Zero)));
    assert_eq!(tea_value_boxing(&ValueType::Optional(Box::new(ValueType::Int))), None);
}

#[test]
fn tables_give_back_what_was_set() {
    let mut m: NameMap<i64> = NameMap::new();
    m.insert("a".to_string(), 1);
    m.insert("b".to_string(), 2);
    m.insert("a".to_string(), 3);
    assert_eq!(m.get("a"), Some(&3));
    assert_eq!(m.get("b"), Some(&2));
    assert_eq!(m.get("c"), None);
    assert_eq!(m.index_of("b"), Some(1));
    assert!(m.contains_key("a"));
    assert_eq!(m.entries.len(), 2);
}
