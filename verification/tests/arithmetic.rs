use tea_compiler::aot::arithmetic::{arithmetic_plan, comparison_operands, numeric_operands, ArithmeticPlan, NumericOperands};
use tea_compiler::aot::types::{value_types_equal, ExprValue, ValueType};
use tea_compiler::ast::BinaryOperator;

#[test]
fn integers_stay_integers_and_mixed_operands_promote() {
    assert_eq!(numeric_operands(&ExprValue::Int(1), &ExprValue::Int(2)), Some(NumericOperands::Ints(1, 2)));
    assert_eq!(
        numeric_operands(&ExprValue::Int(1), &ExprValue::Float(2)),
        Some(NumericOperands::Floats { left: 1, right: 2, promote_left: true, promote_right: false })
    );
    assert_eq!(
        numeric_operands(&ExprValue::Float(1), &ExprValue::Int(2)),
        Some(NumericOperands::Floats { left: 1, right: 2, promote_left: false, promote_right: true })
    );
    assert_eq!(numeric_operands(&ExprValue::Bool(1), &ExprValue::Int(2)), None);
}

#[test]
fn addition_also_joins_strings_and_lists() {
    assert!(matches!(
        arithmetic_plan(&BinaryOperator::Add, ExprValue::String(1), ExprValue::String(2)).unwrap(),
        ArithmeticPlan::StringConcat(1, 2)
    ));
    let left = ExprValue::List { pointer: 3, element_type: Box::new(ValueType::Int) };
    let right = ExprValue::List { pointer: 4, element_type: Box::new(ValueType::Float) };
    match arithmetic_plan(&BinaryOperator::Add, left, right).unwrap() {
        ArithmeticPlan::ListConcat { left, right, element_type } => {
            assert_eq!((left, right), (3, 4));
            assert!(value_types_equal(&element_type, &ValueType::Int));
        }
        other => panic!("unexpected {:?}", other),
    }
    assert!(matches!(
        arithmetic_plan(&BinaryOperator::Modulo, ExprValue::Int(5), ExprValue::Int(6)).unwrap(),
        ArithmeticPlan::Numeric(NumericOperands::Ints(5, 6))
    ));
}

#[test]
fn arithmetic_errors_name_the_operator() {
    let e = |op: BinaryOperator| arithmetic_plan(&op, ExprValue::String(1), ExprValue::String(2)).unwrap_err();
    assert_eq!(e(BinaryOperator::Subtract), "sub expects numeric operands");
    assert_eq!(e(BinaryOperator::Multiply), "mul expects numeric operands");
    assert_eq!(e(BinaryOperator::Divide), "div expects numeric operands");
    assert_eq!(e(BinaryOperator::Modulo), "mod expects numeric operands");
    assert_eq!(
        arithmetic_plan(&BinaryOperator::Add, ExprValue::Bool(1), ExprValue::Int(2)).unwrap_err(),
        "add expects numeric, string, or list operands"
    );
    assert_eq!(comparison_operands(&ExprValue::String(1), &ExprValue::Int(2)).unwrap_err(), "comparison expects numeric operands");
    assert_eq!(comparison_operands(&ExprValue::Float(1), &ExprValue::Float(2)).unwrap(), NumericOperands::Floats { left: 1, right: 2, promote_left: false, promote_right: false });
}
