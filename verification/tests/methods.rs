use tea_compiler::aot::methods::{
    dict_method, dict_method_result_type, list_callback, list_method, list_method_result_type,
    predicate_result, DictMethod, ListMethod,
};
use tea_compiler::aot::types::{value_type_lists_equal, value_types_equal, ExprValue, ValueType};

#[test]
fn list_methods_are_found_by_name() {
    assert_eq!(list_method("map").unwrap(), ListMethod::MapEach);
    assert_eq!(list_method("reduce").unwrap(), ListMethod::Reduce);
    assert_eq!(list_method("all").unwrap(), ListMethod::All);
    assert_eq!(list_method("sort").unwrap_err(), "unknown List method: sort");
}

#[test]
fn list_callbacks_must_be_closures() {
    let closure = ExprValue::Closure { pointer: 8, param_types: vec![ValueType::Int], return_type: Box::new(ValueType::Bool) };
    let (p, params, ret) = list_callback(ListMethod::Filter, &closure).unwrap();
    assert_eq!(p, 8);
    assert!(value_type_lists_equal(&params, &vec![ValueType::Int]));
    assert!(value_types_equal(&ret, &ValueType::Bool));
    assert_eq!(list_callback(ListMethod::MapEach, &ExprValue::Int(1)).unwrap_err(), "List.map expects a function argument");
    assert_eq!(list_callback(ListMethod::Any, &ExprValue::Int(1)).unwrap_err(), "List.any expects a function argument");
}

#[test]
fn predicates_must_return_bools() {
    assert_eq!(predicate_result(ListMethod::Find, &ExprValue::Bool(3)).unwrap(), 3);
    assert_eq!(predicate_result(ListMethod::Filter, &ExprValue::Int(3)).unwrap_err(), "filter predicate must return Bool");
    assert_eq!(predicate_result(ListMethod::Find, &ExprValue::Int(3)).unwrap_err(), "find predicate must return Bool");
    assert_eq!(predicate_result(ListMethod::All, &ExprValue::Int(3)).unwrap_err(), "predicate must return Bool");
}

#[test]
fn list_method_result_types() {
    let t = |m| list_method_result_type(m, &ValueType::Int, &ValueType::String, &ValueType::Float);
    assert!(value_types_equal(&t(ListMethod::MapEach), &ValueType::List(Box::new(ValueType::String))));
    assert!(value_types_equal(&t(ListMethod::Filter), &ValueType::List(Box::new(ValueType::Int))));
    assert!(value_types_equal(&t(ListMethod::Reduce), &ValueType::Float));
    assert!(value_types_equal(&t(ListMethod::Find), &ValueType::Optional(Box::new(ValueType::Int))));
    assert!(value_types_equal(&t(ListMethod::Any), &ValueType::Bool));
}

#[test]
fn dict_methods() {
    assert_eq!(dict_method("keys").unwrap(), DictMethod::Keys);
    assert_eq!(dict_method("items").unwrap_err(), "unknown Dict method: items");
    let v = ValueType::Float;
    assert!(value_types_equal(&dict_method_result_type(DictMethod::Keys, &v), &ValueType::List(Box::new(ValueType::String))));
    assert!(value_types_equal(&dict_method_result_type(DictMethod::Values, &v), &ValueType::List(Box::new(ValueType::Float))));
    assert!(value_types_equal(
        &dict_method_result_type(DictMethod::Entries, &v),
        &ValueType::List(Box::new(ValueType::Dict(Box::new(ValueType::Float))))
    ));
}
