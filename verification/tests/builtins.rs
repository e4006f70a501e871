use tea_compiler::aot::builtins::{builtin_rule, check_builtin_argument, check_builtin_call, ArgKind};
use tea_compiler::aot::types::{ExprValue, ValueType};
use tea_compiler::ast::{CallArgument, Expression, ExpressionKind, Literal, SourceSpan};

fn arg(name: Option<&str>) -> CallArgument {
    CallArgument {
        name: name.map(|n| n.to_string()),
        name_span: None,
        expression: Expression { span: SourceSpan::new(1, 1, 1, 1), kind: ExpressionKind::Literal(Literal::Integer(0)) },
    }
}

#[test]
fn argument_counts_are_checked_first() {
    let rule = builtin_rule("env.get").unwrap();
    assert_eq!(check_builtin_call(&rule, &[]).unwrap_err(), "env.get expects exactly 1 argument");
    assert_eq!(check_builtin_call(&rule, &[arg(Some("name"))]).unwrap_err(), "named arguments are not supported for env.get");
    assert!(check_builtin_call(&rule, &[arg(None)]).is_ok());
    let rule = builtin_rule("process.run").unwrap();
    assert!(check_builtin_call(&rule, &[arg(None), arg(None), arg(None)]).is_ok());
    assert_eq!(
        check_builtin_call(&rule, &[arg(None), arg(None), arg(None), arg(None), arg(None), arg(None)]).unwrap_err(),
        "process.run expects between 1 and 5 arguments"
    );
    let rule = builtin_rule("env.vars").unwrap();
    assert_eq!(check_builtin_call(&rule, &[arg(None)]).unwrap_err(), "env.vars expects no arguments");
    assert!(check_builtin_call(&rule, &[]).is_ok());
}

#[test]
fn argument_kinds_are_checked_by_position() {
    let rule = builtin_rule("regex.replace").unwrap();
    assert!(check_builtin_argument(&rule, 0, &ExprValue::Int(1)).is_ok());
    assert_eq!(check_builtin_argument(&rule, 0, &ExprValue::String(1)).unwrap_err(), "regex.replace expects the handle to be an Int");
    assert_eq!(check_builtin_argument(&rule, 2, &ExprValue::Int(1)).unwrap_err(), "regex.replace expects the replacement to be a String");
    assert!(check_builtin_argument(&rule, 3, &ExprValue::Void).is_ok());
    let rule = builtin_rule("create_dir").unwrap();
    assert_eq!(check_builtin_argument(&rule, 1, &ExprValue::Int(1)).unwrap_err(), "create_dir expects the optional flag to be a Bool");
    let rule = builtin_rule("path.join").unwrap();
    let list = ExprValue::List { pointer: 1, element_type: Box::new(ValueType::String) };
    assert!(check_builtin_argument(&rule, 0, &list).is_ok());
    assert_eq!(check_builtin_argument(&rule, 0, &ExprValue::String(1)).unwrap_err(), "path.join expects a List argument");
}

#[test]
fn rules_of_particular_builtins() {
    let rule = builtin_rule("min").unwrap();
    assert!(rule.checks_after_all);
    assert_eq!(rule.first.as_ref().unwrap().0, ArgKind::Float);
    assert_eq!(rule.second.as_ref().unwrap().1, "min expects two Float arguments");
    let rule = builtin_rule("process.read_stdout").unwrap();
    assert_eq!(rule.named_message.as_deref(), Some("named arguments are not supported for process.read_*"));
    let rule = builtin_rule("assert").unwrap();
    assert_eq!((rule.min_args, rule.max_args), (1, 2));
    assert_eq!(check_builtin_argument(&rule, 0, &ExprValue::Int(1)).unwrap_err(), "expected Bool value");
    assert!(builtin_rule("no_such_builtin").is_none());
}
