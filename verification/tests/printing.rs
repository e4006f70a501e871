use tea_compiler::aot::printing::{print_step, PrintCall, PrintStep};
use tea_compiler::aot::types::{ExprValue, ValueType};

fn routine_of(step: PrintStep) -> String {
    match step {
        PrintStep::Value { routine, .. } => routine,
        PrintStep::OptionalText { routine, .. } => routine,
        PrintStep::NilText { routine } => routine,
    }
}

#[test]
fn each_value_kind_has_its_routine() {
    assert_eq!(routine_of(print_step(PrintCall::Print, &ExprValue::Int(1)).unwrap()), "tea_print_int");
    assert_eq!(routine_of(print_step(PrintCall::Println, &ExprValue::Float(1)).unwrap()), "tea_println_float");
    let list = ExprValue::List { pointer: 2, element_type: Box::new(ValueType::Int) };
    assert_eq!(routine_of(print_step(PrintCall::Eprint, &list).unwrap()), "tea_eprint_list");
    let err = ExprValue::Error { pointer: 3, error_name: "E".to_string(), variant_name: None };
    assert_eq!(routine_of(print_step(PrintCall::Eprintln, &err).unwrap()), "tea_eprintln_error");
    match print_step(PrintCall::Print, &ExprValue::Bool(4)).unwrap() {
        PrintStep::Value { routine, value, widen_bool } => {
            assert_eq!((routine.as_str(), value, widen_bool), ("tea_print_bool", 4, true));
        }
        other => panic!("unexpected {:?}", other),
    }
}

#[test]
fn optionals_and_nothing_print_as_text_on_stdout_only() {
    let opt = ExprValue::Optional { value: 5, inner: Box::new(ValueType::Int) };
    assert!(matches!(print_step(PrintCall::Println, &opt).unwrap(), PrintStep::OptionalText { value: 5, .. }));
    assert_eq!(routine_of(print_step(PrintCall::Print, &ExprValue::Void).unwrap()), "tea_print_string");
    assert_eq!(print_step(PrintCall::Eprint, &opt).unwrap_err(), "cannot eprint void or optional values");
    assert_eq!(print_step(PrintCall::Eprintln, &ExprValue::Void).unwrap_err(), "cannot eprintln void or optional values");
}
