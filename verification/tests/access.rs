use tea_compiler::aot::access::{
    assignment_form, assignment_target, element_store, element_store_kind, immutable_parameter_error,
    index_access, indexed_assignment_base, slice_access, AssignmentForm, AssignmentTarget, IndexAccess,
};
use tea_compiler::aot::types::{value_types_equal, ExprValue, GlobalBindingSlot, LocalVariable, ValueType};
use tea_compiler::ast::{Expression, ExpressionKind, Identifier, IndexExpression, Literal, SourceSpan};
use tea_compiler::names::NameMap;

fn span() -> SourceSpan {
    SourceSpan::new(2, 3, 2, 3)
}

fn ident(name: &str) -> Expression {
    Expression { span: span(), kind: ExpressionKind::Identifier(Identifier { name: name.to_string(), span: span() }) }
}

fn int_list(p: u64) -> ExprValue {
    ExprValue::List { pointer: p, element_type: Box::new(ValueType::Int) }
}

#[test]
fn index_reads_follow_the_collection() {
    match index_access(int_list(1), ExprValue::Int(2)).unwrap() {
        IndexAccess::ListElement { list, index, element_type } => {
            assert_eq!((list, index), (1, 2));
            assert!(value_types_equal(&element_type, &ValueType::Int));
        }
        other => panic!("unexpected {:?}", other),
    }
    let dict = ExprValue::Dict { pointer: 5, value_type: Box::new(ValueType::Bool) };
    assert!(matches!(index_access(dict, ExprValue::String(6)).unwrap(), IndexAccess::DictEntry { dict: 5, key: 6, .. }));
    assert!(matches!(index_access(ExprValue::String(7), ExprValue::Int(8)).unwrap(), IndexAccess::StringChar { string: 7, index: 8 }));
}

#[test]
fn index_read_errors() {
    let dict = ExprValue::Dict { pointer: 5, value_type: Box::new(ValueType::Bool) };
    assert_eq!(index_access(dict, ExprValue::Int(1)).unwrap_err(), "dictionary index expects a String key");
    assert_eq!(index_access(int_list(1), ExprValue::Bool(1)).unwrap_err(), "expected Int value");
    assert_eq!(index_access(ExprValue::Int(1), ExprValue::Int(2)).unwrap_err(), "indexing expects a list, dict, or string value");
}

#[test]
fn slices_take_integer_bounds() {
    match slice_access(int_list(1), ExprValue::Int(2), ExprValue::Int(3), true).unwrap() {
        IndexAccess::ListSlice { list, start, end, inclusive, .. } => assert_eq!((list, start, end, inclusive), (1, 2, 3, true)),
        other => panic!("unexpected {:?}", other),
    }
    assert!(matches!(
        slice_access(ExprValue::String(4), ExprValue::Int(0), ExprValue::Int(1), false).unwrap(),
        IndexAccess::StringSlice { string: 4, start: 0, end: 1, inclusive: false }
    ));
    assert_eq!(slice_access(ExprValue::Bool(1), ExprValue::Int(0), ExprValue::Int(1), false).unwrap_err(), "slicing expects a list or string value");
    assert_eq!(slice_access(ExprValue::String(4), ExprValue::Float(0), ExprValue::Int(1), false).unwrap_err(), "expected Int value");
}

#[test]
fn assignment_forms() {
    assert_eq!(assignment_form(&ident("x")).unwrap(), AssignmentForm::Variable("x".to_string()));
    let indexed = Expression {
        span: span(),
        kind: ExpressionKind::Index(IndexExpression { object: Box::new(ident("xs")), index: Box::new(ident("i")) }),
    };
    assert_eq!(assignment_form(&indexed).unwrap(), AssignmentForm::Indexed("xs".to_string()));
    let nested = Expression {
        span: span(),
        kind: ExpressionKind::Index(IndexExpression { object: Box::new(indexed), index: Box::new(ident("j")) }),
    };
    assert_eq!(assignment_form(&nested).unwrap_err(), "indexed assignment only supports simple identifiers as base");
    let literal = Expression { span: span(), kind: ExpressionKind::Literal(Literal::Integer(1)) };
    assert_eq!(assignment_form(&literal).unwrap_err(), "only identifier and indexed assignment supported");
}

fn scope() -> (NameMap<LocalVariable>, NameMap<GlobalBindingSlot>) {
    let mut locals = NameMap::new();
    locals.insert("slot".to_string(), LocalVariable { pointer: Some(10), value: None, ty: ValueType::Int, mutable: true });
    locals.insert("ssa".to_string(), LocalVariable { pointer: None, value: Some(11), ty: ValueType::Int, mutable: true });
    locals.insert("param".to_string(), LocalVariable { pointer: None, value: None, ty: ValueType::Int, mutable: true });
    locals.insert("fixed".to_string(), LocalVariable { pointer: None, value: Some(12), ty: ValueType::Int, mutable: false });
    let mut globals = NameMap::new();
    globals.insert("total".to_string(), GlobalBindingSlot { pointer: 20, ty: ValueType::Float, mutable: true, initialized: false });
    globals.insert("limit".to_string(), GlobalBindingSlot { pointer: 21, ty: ValueType::Int, mutable: false, initialized: true });
    globals.insert("slot".to_string(), GlobalBindingSlot { pointer: 22, ty: ValueType::Int, mutable: true, initialized: true });
    (locals, globals)
}

#[test]
fn assignment_targets() {
    let (locals, globals) = scope();
    assert!(matches!(assignment_target(&locals, &globals, "slot", span()).unwrap(), AssignmentTarget::LocalSlot { pointer: 10, .. }));
    assert!(matches!(assignment_target(&locals, &globals, "ssa", span()).unwrap(), AssignmentTarget::LocalValue { .. }));
    assert!(matches!(assignment_target(&locals, &globals, "param", span()).unwrap(), AssignmentTarget::Immutable { .. }));
    assert!(matches!(assignment_target(&locals, &globals, "total", span()).unwrap(), AssignmentTarget::Global { pointer: 20, .. }));
    assert_eq!(assignment_target(&locals, &globals, "fixed", span()).unwrap_err(), "cannot assign to const 'fixed' at line 2, column 3");
    assert_eq!(assignment_target(&locals, &globals, "limit", span()).unwrap_err(), "cannot assign to const 'limit' at line 2, column 3");
    assert_eq!(assignment_target(&locals, &globals, "nope", span()).unwrap_err(), "undefined identifier 'nope' at line 2, column 3");
    assert_eq!(immutable_parameter_error("param"), "Cannot assign to immutable parameter 'param'");
}

#[test]
fn indexed_assignment_bases() {
    let (locals, globals) = scope();
    let (p, t, local) = indexed_assignment_base(&locals, &globals, "slot").unwrap();
    assert_eq!((p, local), (10, true));
    assert!(value_types_equal(&t, &ValueType::Int));
    let (p, _, local) = indexed_assignment_base(&locals, &globals, "total").unwrap();
    assert_eq!((p, local), (20, false));
    assert_eq!(indexed_assignment_base(&locals, &globals, "fixed").unwrap_err(), "cannot mutate const 'fixed'");
    assert_eq!(indexed_assignment_base(&locals, &globals, "limit").unwrap_err(), "cannot mutate const 'limit'");
    assert_eq!(indexed_assignment_base(&locals, &globals, "ssa").unwrap_err(), "Cannot assign to immutable parameter 'ssa'");
    assert_eq!(indexed_assignment_base(&locals, &globals, "nope").unwrap_err(), "undefined variable 'nope'");
}

#[test]
fn element_stores() {
    assert!(element_store_kind(&int_list(1)).is_ok());
    assert_eq!(element_store_kind(&ExprValue::String(1)).unwrap_err(), "indexed assignment requires a list or dictionary");
    assert!(matches!(element_store(int_list(1), ExprValue::Int(3)).unwrap(), IndexAccess::ListElement { list: 1, index: 3, .. }));
    let dict = ExprValue::Dict { pointer: 5, value_type: Box::new(ValueType::Bool) };
    assert_eq!(element_store(dict, ExprValue::Int(1)).unwrap_err(), "dictionary index expects a String key");
}
