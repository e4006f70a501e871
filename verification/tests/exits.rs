use tea_compiler::aot::exits::{check_returned_value, implicit_return, return_plan, ReturnPlan};
use tea_compiler::aot::types::{ExprValue, ValueType};
use tea_compiler::ast::{
    CallExpression, Expression, ExpressionKind, Identifier, Literal, ReturnStatement, SourceSpan,
};

fn span() -> SourceSpan {
    SourceSpan::new(1, 1, 1, 1)
}

fn ret(e: Option<Expression>) -> ReturnStatement {
    ReturnStatement { span: span(), expression: e }
}

fn lit() -> Expression {
    Expression { span: span(), kind: ExpressionKind::Literal(Literal::Integer(1)) }
}

fn call() -> Expression {
    let callee = Expression { span: span(), kind: ExpressionKind::Identifier(Identifier { name: "f".to_string(), span: span() }) };
    Expression { span: span(), kind: ExpressionKind::Call(CallExpression { callee: Box::new(callee), type_arguments: vec![], arguments: vec![] }) }
}

fn error_type(name: &str, variant: Option<&str>) -> ValueType {
    ValueType::Error { error_name: name.to_string(), variant_name: variant.map(|v| v.to_string()) }
}

fn error_value(name: &str, variant: Option<&str>) -> ExprValue {
    ExprValue::Error { pointer: 4, error_name: name.to_string(), variant_name: variant.map(|v| v.to_string()) }
}

#[test]
fn return_plans() {
    assert_eq!(return_plan(&ret(None), &ValueType::Void).unwrap(), ReturnPlan::Bare);
    assert_eq!(return_plan(&ret(None), &ValueType::Int).unwrap(), ReturnPlan::ZeroInt);
    assert_eq!(return_plan(&ret(None), &ValueType::Optional(Box::new(ValueType::String))).unwrap(), ReturnPlan::Nil);
    assert_eq!(return_plan(&ret(Some(lit())), &ValueType::Int).unwrap(), ReturnPlan::Value { tail_call: false });
    assert_eq!(return_plan(&ret(Some(call())), &ValueType::Int).unwrap(), ReturnPlan::Value { tail_call: true });
    assert_eq!(return_plan(&ret(Some(lit())), &ValueType::Void).unwrap_err(), "return with value in void function");
    assert_eq!(return_plan(&ret(None), &ValueType::String).unwrap_err(), "missing return value");
}

#[test]
fn returned_values_match_the_return_type() {
    assert_eq!(check_returned_value(&ExprValue::Int(3), &ValueType::Int).unwrap(), Some(3));
    assert_eq!(check_returned_value(&ExprValue::Void, &ValueType::Void).unwrap(), None);
    assert_eq!(check_returned_value(&error_value("E", Some("A")), &error_type("E", None)).unwrap(), Some(4));
    assert_eq!(check_returned_value(&error_value("E", Some("A")), &error_type("E", Some("A"))).unwrap(), Some(4));
    assert_eq!(
        check_returned_value(&ExprValue::Int(3), &ValueType::String).unwrap_err(),
        "return type mismatch: expected String, found Int"
    );
}

#[test]
fn returned_error_values_must_match_error_and_variant() {
    assert_eq!(
        check_returned_value(&error_value("F", None), &error_type("E", None)).unwrap_err(),
        "return type mismatch: expected error 'E', found 'F'"
    );
    assert_eq!(
        check_returned_value(&error_value("E", Some("B")), &error_type("E", Some("A"))).unwrap_err(),
        "return type mismatch: expected 'E.A', found 'E.B'"
    );
    assert_eq!(
        check_returned_value(&error_value("E", None), &error_type("E", Some("A"))).unwrap_err(),
        "return type mismatch: expected 'E.A', found 'E' without variant"
    );
}

#[test]
fn returned_optionals_must_match_inner_type() {
    let opt = ExprValue::Optional { value: 9, inner: Box::new(ValueType::Int) };
    assert_eq!(check_returned_value(&opt, &ValueType::Optional(Box::new(ValueType::Int))).unwrap(), Some(9));
    assert_eq!(
        check_returned_value(&opt, &ValueType::Optional(Box::new(ValueType::Float))).unwrap_err(),
        "return type mismatch: expected Optional Float, found Optional Int"
    );
}

#[test]
fn last_expressions_of_the_return_type_return_implicitly() {
    assert_eq!(implicit_return(true, &ValueType::Int, &ExprValue::Int(6)), Some(6));
    assert_eq!(implicit_return(false, &ValueType::Int, &ExprValue::Int(6)), None);
    assert_eq!(implicit_return(true, &ValueType::Float, &ExprValue::Int(6)), None);
    assert_eq!(implicit_return(true, &ValueType::Void, &ExprValue::Void), None);
}
