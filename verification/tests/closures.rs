use tea_compiler::aot::closures::{
    bind_slot_locals, lambda_capture_types, lambda_function_name, lambda_locals, missing_lambda_signature_error,
};
use tea_compiler::ast::{Block, FunctionParameter, LambdaBody, LambdaExpression, SourceSpan};
use tea_compiler::aot::types::{value_type_lists_equal, LocalVariable, ValueType};
use tea_compiler::names::NameMap;

fn locals() -> NameMap<LocalVariable> {
    let mut l = NameMap::new();
    l.insert("count".to_string(), LocalVariable { pointer: Some(1), value: None, ty: ValueType::Int, mutable: true });
    l.insert("label".to_string(), LocalVariable { pointer: None, value: Some(2), ty: ValueType::String, mutable: false });
    l
}

#[test]
fn lambda_symbols_and_messages() {
    assert_eq!(lambda_function_name(0), "lambda_0");
    assert_eq!(lambda_function_name(42), "lambda_42");
    assert_eq!(missing_lambda_signature_error(7), "missing lambda signature for id 7");
}

#[test]
fn capture_types_come_from_the_locals() {
    let captures = vec!["label".to_string(), "count".to_string()];
    let types = lambda_capture_types(None, &locals(), &captures, 3).unwrap();
    assert!(value_type_lists_equal(&types, &vec![ValueType::String, ValueType::Int]));
    let err = lambda_capture_types(None, &locals(), &vec!["missing".to_string()], 3).unwrap_err();
    assert_eq!(err, "capture 'missing' is undefined in lambda 3");
}

#[test]
fn recorded_capture_types_are_reused() {
    let recorded = vec![ValueType::Bool];
    let types = lambda_capture_types(Some(&recorded), &locals(), &vec!["anything".to_string()], 5).unwrap();
    assert!(value_type_lists_equal(&types, &recorded));
    let err = lambda_capture_types(Some(&recorded), &locals(), &vec![], 5).unwrap_err();
    assert_eq!(err, "capture metadata mismatch for lambda 5");
}

fn parameter(name: &str) -> FunctionParameter {
    FunctionParameter { name: name.to_string(), span: SourceSpan::new(1, 1, 1, 2), type_annotation: None, default_value: None }
}

#[test]
fn parameters_hide_captures_of_the_same_name() {
    let lambda = LambdaExpression {
        id: 4,
        parameters: vec![parameter("count"), parameter("step")],
        body: LambdaBody::Block(Block { statements: vec![] }),
    };
    let locals = lambda_locals(
        &lambda,
        &vec![ValueType::Float, ValueType::Bool],
        &vec!["count".to_string(), "label".to_string()],
        &vec![ValueType::Int, ValueType::String],
        &vec![10, 11],
        &vec![20, 21],
    );
    let count = locals.get("count").unwrap();
    assert_eq!(count.pointer, Some(20));
    assert_eq!(count.value, None);
    assert!(matches!(count.ty, ValueType::Float));
    assert!(count.mutable);
    let label = locals.get("label").unwrap();
    assert_eq!(label.pointer, Some(11));
    assert!(matches!(label.ty, ValueType::String));
    let step = locals.get("step").unwrap();
    assert_eq!(step.pointer, Some(21));
    assert!(matches!(step.ty, ValueType::Bool));
    assert!(locals.get("other").is_none());
}

#[test]
fn slot_bindings_keep_other_locals() {
    let mut l = locals();
    bind_slot_locals(&mut l, &vec!["label".to_string()], &vec![ValueType::Bool], &vec![9]);
    let label = l.get("label").unwrap();
    assert_eq!(label.pointer, Some(9));
    assert!(label.mutable);
    assert!(matches!(label.ty, ValueType::Bool));
    let count = l.get("count").unwrap();
    assert_eq!(count.pointer, Some(1));
    assert!(matches!(count.ty, ValueType::Int));
}
