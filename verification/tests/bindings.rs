use tea_compiler::aot::bindings::{
    bound_local, check_global_binding, check_local_binding, initializer_mismatch_error,
};
use tea_compiler::aot::types::{value_types_equal, ExprValue, LocalVariable, ValueType};
use tea_compiler::ast::{Expression, ExpressionKind, Literal, SourceSpan, VarBinding};
use tea_compiler::names::NameMap;

fn binding(name: &str, init: bool) -> VarBinding {
    VarBinding {
        name: name.to_string(),
        span: SourceSpan::new(3, 5, 3, 9),
        type_annotation: None,
        initializer: if init {
            Some(Expression { span: SourceSpan::new(3, 5, 3, 9), kind: ExpressionKind::Literal(Literal::Integer(1)) })
        } else {
            None
        },
    }
}

#[test]
fn local_bindings_need_new_names_and_initializers() {
    let mut locals = NameMap::new();
    locals.insert("x".to_string(), LocalVariable { pointer: None, value: Some(1), ty: ValueType::Int, mutable: false });
    assert!(check_local_binding(&locals, &binding("y", true), false).is_ok());
    assert_eq!(check_local_binding(&locals, &binding("x", true), false).unwrap_err(), "variable 'x' already exists");
    assert_eq!(check_local_binding(&locals, &binding("y", false), true).unwrap_err(), "const 'y' requires an initializer");
    assert_eq!(check_local_binding(&locals, &binding("y", false), false).unwrap_err(), "variable 'y' requires an initializer");
}

#[test]
fn global_bindings_need_initializers() {
    assert!(check_global_binding(&binding("g", true), true).is_ok());
    assert_eq!(
        check_global_binding(&binding("g", false), true).unwrap_err(),
        "const 'g' requires an initializer (at line 3 column 5 to line 3 column 9)"
    );
    assert_eq!(
        check_global_binding(&binding("g", false), false).unwrap_err(),
        "variable 'g' requires an initializer (at line 3 column 5 to line 3 column 9)"
    );
}

#[test]
fn initializer_mismatch_names_both_types() {
    assert_eq!(
        initializer_mismatch_error("n", &ValueType::Int, &ValueType::String),
        "initializer for 'n' has mismatched type (expected Int, found String)"
    );
}

#[test]
fn consts_keep_values_and_vars_get_storage() {
    let c = bound_local(true, ValueType::Int, &ExprValue::Int(7), None);
    assert_eq!((c.pointer, c.value, c.mutable), (None, Some(7), false));
    let v = bound_local(false, ValueType::Int, &ExprValue::Int(7), Some(40));
    assert_eq!((v.pointer, v.value, v.mutable), (Some(40), None, true));
    assert!(value_types_equal(&v.ty, &ValueType::Int));
    let void = bound_local(true, ValueType::Void, &ExprValue::Void, None);
    assert_eq!(void.value, None);
}
