use tea_compiler::aot::calls::{
    argument_mismatch_error, call_arity_error, closure_arity_error, direct_call_target,
    error_constructor_variant, first_named_argument, ArgumentSite,
};
use tea_compiler::ast::{CallArgument, Expression, ExpressionKind, Literal, SourceSpan};
use tea_compiler::names::NameMap;
use tea_compiler::typechecker::{
    ErrorDefinition, ErrorFieldDefinition, ErrorVariantDefinition, FunctionInstance, Type,
};

fn at(line: usize) -> SourceSpan {
    SourceSpan::new(line, 1, line, 1)
}

fn arg(name: Option<&str>) -> CallArgument {
    CallArgument {
        name: name.map(|n| n.to_string()),
        name_span: None,
        expression: Expression { span: at(1), kind: ExpressionKind::Literal(Literal::Integer(0)) },
    }
}

#[test]
fn generic_calls_reach_their_instance_symbol() {
    let calls = vec![(
        at(4),
        ("identity".to_string(), FunctionInstance { type_arguments: vec![Type::Int], param_types: vec![Type::Int], return_type: Type::Int }),
    )];
    let (symbol, display) = direct_call_target(&calls, "identity", at(4));
    assert_eq!(symbol, "identity$gInt");
    assert_eq!(display, "identity");
    let (symbol, display) = direct_call_target(&calls, "helper", at(5));
    assert_eq!((symbol.as_str(), display.as_str()), ("helper", "helper"));
}

#[test]
fn argument_counts_and_names_are_checked() {
    assert_eq!(call_arity_error("f", 2, 2), None);
    assert_eq!(call_arity_error("f", 2, 3).as_deref(), Some("call to 'f' expects 2 arguments, found 3"));
    assert_eq!(closure_arity_error(1, 0).as_deref(), Some("closure expects 1 arguments, found 0"));
    assert_eq!(first_named_argument(&[arg(None), arg(Some("x")), arg(Some("y"))]), Some(1));
    assert_eq!(first_named_argument(&[arg(None)]), None);
}

#[test]
fn argument_mismatch_messages_name_the_site() {
    assert_eq!(
        argument_mismatch_error(&ArgumentSite::Function("f".to_string()), 0, "boom"),
        "argument 1 to 'f' has mismatched type: boom"
    );
    assert_eq!(argument_mismatch_error(&ArgumentSite::Closure, 9, "boom"), "argument 10 to closure has mismatched type: boom");
    assert_eq!(argument_mismatch_error(&ArgumentSite::Callback, 1, "boom"), "argument 2 has mismatched type: boom");
    assert_eq!(
        argument_mismatch_error(&ArgumentSite::ErrorVariant("E".to_string(), "V".to_string()), 2, "boom"),
        "argument 3 for error 'E.V' has mismatched type: boom"
    );
}

fn definitions() -> NameMap<ErrorDefinition> {
    let field = |n: &str| ErrorFieldDefinition { name: n.to_string(), ty: Type::String };
    let mut defs = NameMap::new();
    defs.insert(
        "IoError".to_string(),
        ErrorDefinition {
            name: "IoError".to_string(),
            variants: vec![
                ErrorVariantDefinition { name: "NotFound".to_string(), fields: vec![field("path")] },
                ErrorVariantDefinition { name: "Denied".to_string(), fields: vec![] },
            ],
        },
    );
    defs.insert(
        "Oops".to_string(),
        ErrorDefinition {
            name: "Oops".to_string(),
            variants: vec![ErrorVariantDefinition { name: "Oops".to_string(), fields: vec![field("a"), field("b")] }],
        },
    );
    defs
}

#[test]
fn error_constructors_pick_their_variant() {
    let defs = definitions();
    assert_eq!(error_constructor_variant(&defs, "IoError", Some("NotFound"), 1).unwrap().as_deref(), Some("NotFound"));
    assert_eq!(error_constructor_variant(&defs, "Oops", None, 2).unwrap().as_deref(), Some("Oops"));
    assert_eq!(error_constructor_variant(&defs, "IoError", None, 0).unwrap(), None);
    assert_eq!(error_constructor_variant(&defs, "IoError", Some("Gone"), 0).unwrap(), None);
    assert_eq!(error_constructor_variant(&defs, "print", None, 1).unwrap(), None);
    assert_eq!(
        error_constructor_variant(&defs, "IoError", Some("NotFound"), 3).unwrap_err(),
        "error variant 'IoError.NotFound' expects 1 argument(s) but 3 provided"
    );
}
