use tea_compiler::aot::bodies::{
    instance_generic_scope, missing_return_error, parameter_locals, top_level_role, TopLevelRole,
};
use tea_compiler::aot::types::{value_types_equal, ValueType};
use tea_compiler::ast::{
    AssignmentExpression, Block, Expression, ExpressionKind, ExpressionStatement,
    FunctionParameter, FunctionStatement, Identifier, Literal, SourceSpan, Statement,
    TypeParameter,
};
use tea_compiler::typechecker::{FunctionInstance, Type};

fn span() -> SourceSpan {
    SourceSpan::new(1, 1, 1, 1)
}

fn ident(name: &str) -> Expression {
    Expression { span: span(), kind: ExpressionKind::Identifier(Identifier { name: name.to_string(), span: span() }) }
}

fn assign(name: &str) -> Statement {
    Statement::Expression(ExpressionStatement {
        expression: Expression {
            span: span(),
            kind: ExpressionKind::Assignment(AssignmentExpression {
                target: Box::new(ident(name)),
                value: Box::new(Expression { span: span(), kind: ExpressionKind::Literal(Literal::Integer(0)) }),
            }),
        },
    })
}

fn function(type_params: &[&str], params: &[&str], body: Vec<Statement>) -> FunctionStatement {
    FunctionStatement {
        is_public: false,
        name: "pick".to_string(),
        name_span: span(),
        type_parameters: type_params.iter().map(|p| TypeParameter { name: p.to_string(), span: span() }).collect(),
        parameters: params
            .iter()
            .map(|p| FunctionParameter { name: p.to_string(), span: span(), type_annotation: None, default_value: None })
            .collect(),
        return_type: None,
        body: Block { statements: body },
        docstring: None,
    }
}

#[test]
fn instance_scopes_bind_each_type_parameter() {
    let f = function(&["T", "U"], &[], vec![]);
    let inst = FunctionInstance { type_arguments: vec![Type::Int, Type::List(Box::new(Type::String))], param_types: vec![], return_type: Type::Void };
    let scope = instance_generic_scope(&f, &inst).unwrap();
    let (t, v) = scope.get("U").unwrap();
    assert!(matches!(t, Type::List(_)));
    assert!(value_types_equal(v, &ValueType::List(Box::new(ValueType::String))));
    assert!(value_types_equal(&scope.get("T").unwrap().1, &ValueType::Int));
}

#[test]
fn instance_scope_errors() {
    let f = function(&["T"], &[], vec![]);
    let inst = FunctionInstance { type_arguments: vec![], param_types: vec![], return_type: Type::Void };
    assert_eq!(instance_generic_scope(&f, &inst).unwrap_err(), "function 'pick' instantiation parameter mismatch");
    let inst = FunctionInstance { type_arguments: vec![Type::Unknown], param_types: vec![], return_type: Type::Void };
    assert_eq!(instance_generic_scope(&f, &inst).unwrap_err(), "cannot lower Unknown type in LLVM backend");
}

#[test]
fn assigned_parameters_get_slots() {
    let f = function(&[], &["a", "b"], vec![assign("b")]);
    let locals = parameter_locals(&f, &vec![ValueType::Int, ValueType::Bool]);
    assert_eq!(locals.len(), 2);
    assert_eq!((locals[0].0.as_str(), locals[0].2), ("a", false));
    assert_eq!((locals[1].0.as_str(), locals[1].2), ("b", true));
    assert!(value_types_equal(&locals[1].1, &ValueType::Bool));
}

#[test]
fn falling_off_a_body_needs_a_void_function() {
    assert_eq!(missing_return_error("f", &ValueType::Void), None);
    assert_eq!(missing_return_error("f", &ValueType::Int).as_deref(), Some("function 'f' may exit without returning Int"));
    assert_eq!(
        missing_return_error("g", &ValueType::Optional(Box::new(ValueType::Int))).as_deref(),
        Some("function 'g' may exit without returning Optional value")
    );
    assert_eq!(
        missing_return_error("h", &ValueType::Error { error_name: "E".to_string(), variant_name: None }).as_deref(),
        Some("function 'h' may exit without returning Error value")
    );
}

#[test]
fn top_level_statements_have_roles() {
    let ret = Statement::Return(tea_compiler::ast::ReturnStatement { span: span(), expression: None });
    assert_eq!(top_level_role(&ret).unwrap_err(), "return at top level not supported");
    let var = Statement::Var(tea_compiler::ast::VarStatement { is_const: true, bindings: vec![], docstring: None });
    assert_eq!(top_level_role(&var).unwrap(), TopLevelRole::Global);
    assert_eq!(top_level_role(&assign("x")).unwrap(), TopLevelRole::Run);
    let f = Statement::Function(function(&[], &[], vec![]));
    assert_eq!(top_level_role(&f).unwrap(), TopLevelRole::Skip);
}
