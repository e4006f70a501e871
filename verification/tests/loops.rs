use tea_compiler::aot::loops::{
    for_loop_variables, loop_phi_variables, loop_slot_conversions, LoopEntryValue,
};
use tea_compiler::aot::types::{value_types_equal, LocalVariable, ValueType};
use tea_compiler::ast::{ForPattern, Identifier, SourceSpan};
use tea_compiler::names::NameMap;

fn id(name: &str) -> Identifier {
    Identifier { name: name.to_string(), span: SourceSpan::new(1, 1, 1, 1) }
}

fn local(pointer: Option<u64>, value: Option<u64>, mutable: bool) -> LocalVariable {
    LocalVariable { pointer, value, ty: ValueType::Int, mutable }
}

fn sample_locals() -> NameMap<LocalVariable> {
    let mut locals = NameMap::new();
    locals.insert("ssa".to_string(), local(None, Some(7), true));
    locals.insert("slot".to_string(), local(Some(9), None, true));
    locals.insert("fixed".to_string(), local(None, Some(3), false));
    locals.insert("empty".to_string(), local(None, None, true));
    locals
}

fn names(list: &[&str]) -> Vec<String> {
    list.iter().map(|n| n.to_string()).collect()
}

#[test]
fn while_loops_carry_mutable_locals_in_phis() {
    let locals = sample_locals();
    let plan = loop_phi_variables(&locals, &names(&["slot", "fixed", "ssa", "unknown", "empty"]));
    assert_eq!(plan.len(), 2);
    assert_eq!(plan[0].0, "slot");
    assert_eq!(plan[0].1, LoopEntryValue::Load(9));
    assert_eq!(plan[1].0, "ssa");
    assert_eq!(plan[1].1, LoopEntryValue::Value(7));
    assert!(value_types_equal(&plan[1].2, &ValueType::Int));
}

#[test]
fn for_loops_move_ssa_locals_to_slots() {
    let locals = sample_locals();
    let plan = loop_slot_conversions(&locals, &names(&["slot", "fixed", "ssa", "empty"]));
    assert_eq!(plan.len(), 1);
    assert_eq!(plan[0].0, "ssa");
    assert_eq!(plan[0].1, 7);
}

#[test]
fn for_loops_bind_list_elements_and_dict_entries() {
    let list = ValueType::List(Box::new(ValueType::Float));
    let vars = for_loop_variables(&list, &ForPattern::Single(id("x"))).unwrap();
    assert_eq!(vars.len(), 1);
    assert_eq!(vars[0].0, "x");
    assert!(value_types_equal(&vars[0].1, &ValueType::Float));

    let dict = ValueType::Dict(Box::new(ValueType::Bool));
    let vars = for_loop_variables(&dict, &ForPattern::Pair(id("k"), id("v"))).unwrap();
    assert_eq!(vars.len(), 2);
    assert_eq!(vars[0].0, "k");
    assert!(value_types_equal(&vars[0].1, &ValueType::String));
    assert_eq!(vars[1].0, "v");
    assert!(value_types_equal(&vars[1].1, &ValueType::Bool));

    let vars = for_loop_variables(&dict, &ForPattern::Single(id("key"))).unwrap();
    assert!(value_types_equal(&vars[0].1, &ValueType::String));
}

#[test]
fn for_loop_iterator_errors() {
    let list = ValueType::List(Box::new(ValueType::Int));
    let err = for_loop_variables(&list, &ForPattern::Pair(id("a"), id("b"))).unwrap_err();
    assert_eq!(err, "for loop with two variables requires a Dict iterator");
    let err = for_loop_variables(&ValueType::String, &ForPattern::Single(id("c"))).unwrap_err();
    assert_eq!(err, "for loop iterator must be a List or Dict");
}
