use tea_compiler::aot::functions::{function_body_names, function_signature_types};
use tea_compiler::aot::scopes::GenericBindings;
use tea_compiler::aot::statements::{
    count_statements, count_statements_capped, find_mutated_parameters, is_small_function,
};
use tea_compiler::aot::types::{value_type_lists_equal, value_types_equal, ValueType};
use tea_compiler::ast::{FunctionParameter, Token, TypeExpression, TypeParameter};
use tea_compiler::names::NameMap;
use tea_compiler::typechecker::{FunctionInstance, Type};
use tea_compiler::ast::{
    AssignmentExpression, BinaryExpression, BinaryOperator, Block, ConditionalKind,
    ConditionalStatement, Expression, ExpressionKind, ExpressionStatement, FunctionStatement,
    Identifier, LambdaBody, LambdaExpression, Literal, LoopHeader, LoopKind, LoopStatement,
    ReturnStatement, SourceSpan, Statement,
};

fn span() -> SourceSpan {
    SourceSpan::new(1, 1, 1, 1)
}

fn ident(name: &str) -> Expression {
    Expression {
        span: span(),
        kind: ExpressionKind::Identifier(Identifier { name: name.to_string(), span: span() }),
    }
}

fn lit(v: i64) -> Expression {
    Expression { span: span(), kind: ExpressionKind::Literal(Literal::Integer(v)) }
}

fn assign(name: &str, value: Expression) -> Expression {
    Expression {
        span: span(),
        kind: ExpressionKind::Assignment(AssignmentExpression {
            target: Box::new(ident(name)),
            value: Box::new(value),
        }),
    }
}

fn stmt(e: Expression) -> Statement {
    Statement::Expression(ExpressionStatement { expression: e })
}

fn ret(e: Option<Expression>) -> Statement {
    Statement::Return(ReturnStatement { span: span(), expression: e })
}

fn conditional(consequent: Vec<Statement>, alternative: Option<Vec<Statement>>) -> Statement {
    Statement::Conditional(ConditionalStatement {
        kind: ConditionalKind::If,
        condition: ident("flag"),
        consequent: Block { statements: consequent },
        alternative: alternative.map(|statements| Block { statements }),
    })
}

fn while_loop(body: Vec<Statement>) -> Statement {
    Statement::Loop(LoopStatement {
        kind: LoopKind::While,
        header: LoopHeader::Condition(ident("flag")),
        body: Block { statements: body },
        span: span(),
    })
}

fn function(body: Vec<Statement>) -> FunctionStatement {
    FunctionStatement {
        is_public: false,
        name: "f".to_string(),
        name_span: span(),
        type_parameters: vec![],
        parameters: vec![],
        return_type: None,
        body: Block { statements: body },
        docstring: None,
    }
}

#[test]
fn nested_statements_are_counted() {
    let body = vec![
        stmt(lit(1)),
        conditional(vec![stmt(lit(2)), stmt(lit(3))], Some(vec![stmt(lit(4))])),
        while_loop(vec![while_loop(vec![stmt(lit(5))])]),
        ret(None),
    ];
    // 4 top-level, 3 in the conditional, 2 in the loops
    assert_eq!(count_statements(&body), 9);
    assert_eq!(count_statements(&[]), 0);
    assert_eq!(count_statements_capped(&body, 5), 5);
    assert_eq!(count_statements_capped(&body, 100), 9);
    assert_eq!(count_statements_capped(&body, 0), 0);
}

#[test]
fn small_functions_have_fewer_than_twenty_statements() {
    let nineteen: Vec<Statement> = (0..19).map(|i| stmt(lit(i))).collect();
    assert!(is_small_function(&nineteen));
    let twenty: Vec<Statement> = (0..20).map(|i| stmt(lit(i))).collect();
    assert!(!is_small_function(&twenty));
    let nested = vec![while_loop((0..19).map(|i| stmt(lit(i))).collect())];
    assert!(!is_small_function(&nested));
}

#[test]
fn assigned_names_are_found_once() {
    let lambda = Expression {
        span: span(),
        kind: ExpressionKind::Lambda(LambdaExpression {
            id: 0,
            parameters: vec![],
            body: LambdaBody::Expression(Box::new(assign("captured", lit(1)))),
        }),
    };
    let sum = Expression {
        span: span(),
        kind: ExpressionKind::Binary(BinaryExpression {
            operator: BinaryOperator::Add,
            left: Box::new(assign("a", lit(1))),
            right: Box::new(lit(2)),
        }),
    };
    let body = vec![
        stmt(assign("a", lit(1))),
        conditional(vec![stmt(assign("b", lit(2)))], Some(vec![stmt(assign("a", lit(3)))])),
        while_loop(vec![stmt(lambda)]),
        ret(Some(sum)),
        stmt(ident("untouched")),
    ];
    let mut names = find_mutated_parameters(&function(body));
    names.sort();
    assert_eq!(names, vec!["a".to_string(), "b".to_string(), "captured".to_string()]);
}

#[test]
fn a_body_without_assignments_mutates_nothing() {
    let body = vec![stmt(ident("x")), ret(Some(lit(1)))];
    assert!(find_mutated_parameters(&function(body)).is_empty());
}

fn annotated(name: &str, ty: Option<&str>) -> FunctionParameter {
    FunctionParameter {
        name: name.to_string(),
        span: span(),
        type_annotation: ty.map(|t| TypeExpression { tokens: vec![Token { lexeme: t.to_string() }] }),
        default_value: None,
    }
}

#[test]
fn signatures_come_from_annotations() {
    let mut f = function(vec![]);
    f.parameters = vec![annotated("a", Some("Int")), annotated("b", Some("List[String]"))];
    f.return_type = Some(TypeExpression { tokens: vec![Token { lexeme: "Bool?".to_string() }] });
    let (ret, params) = function_signature_types(&f, &GenericBindings::new(), &NameMap::new()).unwrap();
    assert!(value_types_equal(&ret, &ValueType::Optional(Box::new(ValueType::Bool))));
    assert!(value_type_lists_equal(
        &params,
        &vec![ValueType::Int, ValueType::List(Box::new(ValueType::String))]
    ));
    f.return_type = None;
    f.parameters.push(annotated("c", None));
    assert_eq!(
        function_signature_types(&f, &GenericBindings::new(), &NameMap::new()).unwrap_err(),
        "parameter 'c' requires type annotation"
    );
    f.parameters = vec![];
    let (ret, params) = function_signature_types(&f, &GenericBindings::new(), &NameMap::new()).unwrap();
    assert!(value_types_equal(&ret, &ValueType::Void));
    assert!(params.is_empty());
}

#[test]
fn generic_functions_get_one_body_per_instance() {
    let mut f = function(vec![]);
    f.name = "first".to_string();
    let mut instances = NameMap::new();
    assert_eq!(function_body_names(&f, &instances), vec!["first".to_string()]);
    f.type_parameters = vec![TypeParameter { name: "T".to_string(), span: span() }];
    assert!(function_body_names(&f, &instances).is_empty());
    instances.insert(
        "first".to_string(),
        vec![
            FunctionInstance { type_arguments: vec![Type::Int], param_types: vec![], return_type: Type::Int },
            FunctionInstance {
                type_arguments: vec![Type::List(Box::new(Type::String))],
                param_types: vec![],
                return_type: Type::String,
            },
        ],
    );
    assert_eq!(
        function_body_names(&f, &instances),
        vec!["first$gInt".to_string(), "first$gList_String_".to_string()]
    );
}
