use tea_compiler::aot::globals::{global_bindings_of, lookup_binding_type};
use tea_compiler::aot::scopes::GenericBindings;
use tea_compiler::aot::structs::StructMetadata;
use tea_compiler::aot::types::{value_types_equal, GlobalBindingSlot, ValueType};
use tea_compiler::ast::{SourceSpan, Statement, VarBinding, VarStatement};
use tea_compiler::names::NameMap;
use tea_compiler::typechecker::Type;

fn at(line: usize, column: usize) -> SourceSpan {
    SourceSpan { line, column, end_line: line, end_column: column }
}

fn var(is_const: bool, names: &[(&str, SourceSpan)]) -> Statement {
    Statement::Var(VarStatement {
        is_const,
        bindings: names
            .iter()
            .map(|(n, s)| VarBinding {
                name: n.to_string(),
                span: *s,
                type_annotation: None,
                initializer: None,
            })
            .collect(),
        docstring: None,
    })
}

fn empty_metadata() -> StructMetadata {
    StructMetadata {
        structs: NameMap::new(),
        struct_field_variants: NameMap::new(),
        struct_variant_bases: NameMap::new(),
        struct_definitions_tc: NameMap::new(),
        struct_instances_tc: NameMap::new(),
        struct_call_metadata_tc: vec![],
    }
}

#[test]
fn top_level_bindings_are_listed_in_order() {
    let statements = vec![
        var(false, &[("a", at(1, 5)), ("b", at(1, 8))]),
        var(true, &[("limit", at(2, 7))]),
    ];
    let found = global_bindings_of(&statements);
    assert_eq!(
        found,
        vec![
            ("a".to_string(), at(1, 5), true),
            ("b".to_string(), at(1, 8), true),
            ("limit".to_string(), at(2, 7), false),
        ]
    );
    assert!(global_bindings_of(&[]).is_empty());
}

#[test]
fn binding_type_lookup_takes_the_first_entry() {
    let table = vec![(at(1, 1), Type::Int), (at(2, 1), Type::String), (at(1, 1), Type::Bool)];
    assert!(matches!(lookup_binding_type(&table, at(1, 1)), Some(Type::Int)));
    assert!(matches!(lookup_binding_type(&table, at(2, 1)), Some(Type::String)));
    assert!(lookup_binding_type(&table, at(3, 1)).is_none());
}

#[test]
fn global_binding_slot_plans_new_and_existing_slots() {
    let mut meta = empty_metadata();
    let generics = GenericBindings::new();
    let table = vec![(at(1, 5), Type::Int)];
    let mut slots = NameMap::new();
    let (ty, existing) = meta
        .global_binding_slot(&generics, &table, &slots, "count", at(1, 5), true)
        .unwrap();
    assert!(value_types_equal(&ty, &ValueType::Int));
    assert_eq!(existing, None);

    slots.insert(
        "count".to_string(),
        GlobalBindingSlot { pointer: 3, ty: ValueType::Int, mutable: true, initialized: false },
    );
    let (_, existing) = meta
        .global_binding_slot(&generics, &table, &slots, "count", at(1, 5), true)
        .unwrap();
    assert_eq!(existing, Some(3));

    let err = meta
        .global_binding_slot(&generics, &table, &slots, "count", at(1, 5), false)
        .unwrap_err();
    assert_eq!(err, "top-level binding 'count' has conflicting mutability");
}

#[test]
fn global_binding_slot_reports_missing_types() {
    let mut meta = empty_metadata();
    let generics = GenericBindings::new();
    let table = vec![(at(1, 5), Type::Int)];
    let slots = NameMap::new();
    let err = meta
        .global_binding_slot(&generics, &table, &slots, "ghost", at(4, 2), true)
        .unwrap_err();
    assert_eq!(err, "missing type information for top-level binding 'ghost' at line 4, column 2");
    let ranged = SourceSpan { line: 4, column: 2, end_line: 4, end_column: 7 };
    let err = meta
        .global_binding_slot(&generics, &table, &slots, "ghost", ranged, true)
        .unwrap_err();
    assert_eq!(err, "missing type information for top-level binding 'ghost' at line 4 column 2 to line 4 column 7");
}
