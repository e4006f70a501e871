use tea_compiler::aot::constructors::{struct_argument_slots, struct_field_error};
use tea_compiler::aot::types::ValueType;
use tea_compiler::ast::{CallArgument, Expression, ExpressionKind, Literal, SourceSpan};

fn span() -> SourceSpan {
    SourceSpan::new(1, 1, 1, 1)
}

fn positional(v: i64) -> CallArgument {
    CallArgument {
        name: None,
        name_span: None,
        expression: Expression { span: span(), kind: ExpressionKind::Literal(Literal::Integer(v)) },
    }
}

fn named(field: &str, v: i64) -> CallArgument {
    CallArgument {
        name: Some(field.to_string()),
        name_span: Some(span()),
        expression: Expression { span: span(), kind: ExpressionKind::Literal(Literal::Integer(v)) },
    }
}

fn fields(names: &[&str]) -> Vec<String> {
    names.iter().map(|n| n.to_string()).collect()
}

#[test]
fn positional_arguments_fill_fields_in_order() {
    let f = fields(&["x", "y", "z"]);
    let (slots, err) = struct_argument_slots("Point", &f, &[positional(1), positional(2), positional(3)]);
    assert_eq!(slots, vec![0, 1, 2]);
    assert_eq!(err, None);
}

#[test]
fn positional_argument_count_must_match() {
    let f = fields(&["x", "y"]);
    let (slots, err) = struct_argument_slots("Point", &f, &[positional(1)]);
    assert!(slots.is_empty());
    assert_eq!(err.as_deref(), Some("struct 'Point' expects 2 arguments, found 1"));
    let (_, err) = struct_argument_slots("Empty", &Vec::new(), &[positional(1), positional(2), positional(3), positional(4), positional(5), positional(6), positional(7), positional(8), positional(9), positional(10), positional(11), positional(12)]);
    assert_eq!(err.as_deref(), Some("struct 'Empty' expects 0 arguments, found 12"));
}

#[test]
fn named_arguments_may_come_in_any_order() {
    let f = fields(&["x", "y", "z"]);
    let (slots, err) = struct_argument_slots("Point", &f, &[named("z", 3), named("x", 1), named("y", 2)]);
    assert_eq!(slots, vec![2, 0, 1]);
    assert_eq!(err, None);
}

#[test]
fn named_and_positional_arguments_cannot_mix() {
    let f = fields(&["x", "y"]);
    let (slots, err) = struct_argument_slots("Point", &f, &[named("x", 1), positional(2)]);
    assert!(slots.is_empty());
    assert_eq!(err.as_deref(), Some("cannot mix named and positional arguments in struct constructor"));
}

#[test]
fn unknown_and_repeated_fields_stop_the_call() {
    let f = fields(&["x", "y"]);
    let (slots, err) = struct_argument_slots("Point", &f, &[named("y", 1), named("w", 2), named("x", 3)]);
    assert_eq!(slots, vec![1]);
    assert_eq!(err.as_deref(), Some("struct 'Point' has no field named 'w'"));
    let (slots, err) = struct_argument_slots("Point", &f, &[named("x", 1), named("x", 2)]);
    assert_eq!(slots, vec![0]);
    assert_eq!(err.as_deref(), Some("field 'x' provided multiple times to struct 'Point'"));
}

#[test]
fn missing_named_fields_are_listed() {
    let f = fields(&["a", "b", "c", "d"]);
    let (slots, err) = struct_argument_slots("Quad", &f, &[named("c", 1)]);
    assert_eq!(slots, vec![2]);
    assert_eq!(err.as_deref(), Some("missing fields for struct 'Quad': a, b, d"));
}

#[test]
fn field_conversion_errors_name_the_field() {
    let msg = struct_field_error("x", "Point", &ValueType::List(Box::new(ValueType::Int)), "expected Int, found String");
    assert_eq!(msg, "field 'x' in struct 'Point' expects List(Int): expected Int, found String");
}
