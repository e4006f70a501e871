use tea_compiler::aot::scopes::GenericBindings;
use tea_compiler::aot::type_parser::{parse_type, parse_type_from_str};
use tea_compiler::aot::types::{
    format_type_name, type_to_value_type, value_types_equal, StructLowering, ValueType,
};
use tea_compiler::ast::{Token, TypeExpression};
use tea_compiler::names::NameMap;
use tea_compiler::typechecker::Type;

fn no_structs() -> NameMap<StructLowering> {
    NameMap::new()
}

fn read(text: &str) -> Result<ValueType, String> {
    parse_type_from_str(text, &GenericBindings::new(), &no_structs())
}

fn boxed(t: ValueType) -> Box<ValueType> {
    Box::new(t)
}

#[test]
fn builtin_names_are_read() {
    assert!(value_types_equal(&read("Int").unwrap(), &ValueType::Int));
    assert!(value_types_equal(&read("  Bool  ").unwrap(), &ValueType::Bool));
    assert!(value_types_equal(&read("Nil").unwrap(), &ValueType::Void));
    assert!(value_types_equal(&read("Void").unwrap(), &ValueType::Void));
}

#[test]
fn containers_are_read() {
    let t = read("List[ Int ]").unwrap();
    assert!(value_types_equal(&t, &ValueType::List(boxed(ValueType::Int))));
    let t = read("Dict[String, List[Float]]").unwrap();
    assert!(value_types_equal(
        &t,
        &ValueType::Dict(boxed(ValueType::List(boxed(ValueType::Float))))
    ));
}

#[test]
fn function_types_are_read() {
    let t = read("Func(Int, String,) -> Bool?").unwrap();
    let expected = ValueType::Function(
        vec![ValueType::Int, ValueType::String],
        boxed(ValueType::Optional(boxed(ValueType::Bool))),
    );
    assert!(value_types_equal(&t, &expected));
    let t = read("Fn() -> Void").unwrap();
    assert!(value_types_equal(&t, &ValueType::Function(vec![], boxed(ValueType::Void))));
}

#[test]
fn optional_marks_stack() {
    let t = read("Int??").unwrap();
    let expected = ValueType::Optional(boxed(ValueType::Optional(boxed(ValueType::Int))));
    assert!(value_types_equal(&t, &expected));
}

#[test]
fn known_structs_and_generics_are_read() {
    let mut structs = NameMap::new();
    structs.insert("Point".to_string(), StructLowering::new());
    let mut scope = NameMap::new();
    scope.insert("T".to_string(), (Type::String, ValueType::String));
    let mut generics = GenericBindings::new();
    generics.push_scope(scope);
    let t = parse_type_from_str("List[Point]", &generics, &structs).unwrap();
    assert!(value_types_equal(&t, &ValueType::List(boxed(ValueType::Struct("Point".to_string())))));
    let t = parse_type_from_str("T?", &generics, &structs).unwrap();
    assert!(value_types_equal(&t, &ValueType::Optional(boxed(ValueType::String))));
}

#[test]
fn malformed_annotations_are_refused() {
    assert_eq!(read("").unwrap_err(), "expected type identifier");
    assert_eq!(read("List Int").unwrap_err(), "expected '[' after 'List'");
    assert_eq!(read("List[Int").unwrap_err(), "expected ']' to close list type");
    assert_eq!(read("Dict[Int, Bool]").unwrap_err(), "Dict key type must be String in LLVM backend");
    assert_eq!(read("Dict[String Bool]").unwrap_err(), "expected ',' after dict key type");
    assert_eq!(read("Func(Int) Bool").unwrap_err(), "expected '->' in function type");
    assert_eq!(read("Func(Int Bool) -> Int").unwrap_err(), "expected ',' or ')' in function type");
    assert_eq!(read("Shape").unwrap_err(), "unsupported type 'Shape' in LLVM backend");
    assert_eq!(
        read("Int String").unwrap_err(),
        "unexpected trailing characters in type annotation 'Int String'"
    );
}

#[test]
fn annotation_tokens_are_joined_and_trimmed() {
    let tokens = ["List", "[", "Int", "]", "?", " "]
        .iter()
        .map(|t| Token { lexeme: t.to_string() })
        .collect();
    let t = parse_type(&TypeExpression { tokens }, &GenericBindings::new(), &no_structs()).unwrap();
    assert!(value_types_equal(&t, &ValueType::Optional(boxed(ValueType::List(boxed(ValueType::Int))))));
}

#[test]
fn printed_types_read_back_as_lowered() {
    let samples = vec![
        Type::Nil,
        Type::List(Box::new(Type::Dict(Box::new(Type::Float)))),
        Type::Optional(Box::new(Type::List(Box::new(Type::Bool)))),
        Type::Function(vec![Type::Int, Type::String], Box::new(Type::Function(vec![], Box::new(Type::Void)))),
    ];
    for t in samples {
        let printed = format_type_name(&t);
        let read_back = read(&printed).unwrap();
        assert!(value_types_equal(&read_back, &type_to_value_type(&t).unwrap()), "{printed}");
    }
}
