use tea_compiler::aot::types::{basic_to_expr_value, basic_value_to_expr_value, loaded_value, ExprValue, ValueType};

#[test]
fn values_are_rebuilt_from_their_type() {
    assert!(matches!(basic_value_to_expr_value(5, &ValueType::Int), ExprValue::Int(5)));
    assert!(matches!(basic_value_to_expr_value(6, &ValueType::Bool), ExprValue::Bool(6)));
    match basic_value_to_expr_value(7, &ValueType::List(Box::new(ValueType::String))) {
        ExprValue::List { pointer, element_type } => {
            assert_eq!(pointer, 7);
            assert!(matches!(*element_type, ValueType::String));
        }
        other => panic!("unexpected {:?}", other),
    }
    match basic_value_to_expr_value(8, &ValueType::Struct("Point".to_string())) {
        ExprValue::Struct { pointer, struct_name } => {
            assert_eq!(pointer, 8);
            assert_eq!(struct_name, "Point");
        }
        other => panic!("unexpected {:?}", other),
    }
    assert!(matches!(basic_value_to_expr_value(9, &ValueType::Void), ExprValue::Void));
}

#[test]
fn void_cannot_be_rebuilt_or_loaded() {
    assert_eq!(basic_to_expr_value(1, &ValueType::Void).unwrap_err(), "cannot convert void to ExprValue");
    assert_eq!(loaded_value(1, &ValueType::Void).unwrap_err(), "void value cannot be loaded");
    assert!(matches!(basic_to_expr_value(2, &ValueType::Float).unwrap(), ExprValue::Float(2)));
    match loaded_value(3, &ValueType::Optional(Box::new(ValueType::Int))).unwrap() {
        ExprValue::Optional { value, inner } => {
            assert_eq!(value, 3);
            assert!(matches!(*inner, ValueType::Int));
        }
        other => panic!("unexpected {:?}", other),
    }
}
