//! Arithmetic and comparison operators: which operation two operands
//! take, and when an integer operand is promoted to a float.
use vstd::prelude::*;

use crate::aot::types::{ExprValue, IrRef, SpecValueType, ValueType};
use crate::ast::BinaryOperator;

verus! {

/// Two numeric operands: both integers, or floats, where an integer
/// operand is first converted to a float.
#[derive(Debug, Clone, Copy, PartialEq, Eq, Structural)]
pub enum NumericOperands {
    Ints(IrRef, IrRef),
    Floats { left: IrRef, right: IrRef, promote_left: bool, promote_right: bool },
}

/// The numeric operands of a binary operation, if both operands are
/// numbers: two integers stay integers; otherwise the operation is on
/// floats and each integer operand is promoted.
pub open spec fn numeric_operands_of(left: ExprValue, right: ExprValue) -> Option<NumericOperands> {
    match (left, right) {
        (ExprValue::Int(l), ExprValue::Int(r)) => Some(NumericOperands::Ints(l, r)),
        (ExprValue::Float(l), ExprValue::Float(r)) => Some(
            NumericOperands::Floats { left: l, right: r, promote_left: false, promote_right: false },
        ),
        (ExprValue::Int(l), ExprValue::Float(r)) => Some(
            NumericOperands::Floats { left: l, right: r, promote_left: true, promote_right: false },
        ),
        (ExprValue::Float(l), ExprValue::Int(r)) => Some(
            NumericOperands::Floats { left: l, right: r, promote_left: false, promote_right: true },
        ),
        _ => None,
    }
}

/// The numeric operands of a binary operation (see
/// [`numeric_operands_of`]).
pub fn numeric_operands(left: &ExprValue, right: &ExprValue) -> (r: Option<NumericOperands>)
    ensures
        r == numeric_operands_of(*left, *right),
{
    match (left, right) {
        (ExprValue::Int(l), ExprValue::Int(r)) => Some(NumericOperands::Ints(*l, *r)),
        (ExprValue::Float(l), ExprValue::Float(r)) => Some(
            NumericOperands::Floats { left: *l, right: *r, promote_left: false, promote_right: false },
        ),
        (ExprValue::Int(l), ExprValue::Float(r)) => Some(
            NumericOperands::Floats { left: *l, right: *r, promote_left: true, promote_right: false },
        ),
        (ExprValue::Float(l), ExprValue::Int(r)) => Some(
            NumericOperands::Floats { left: *l, right: *r, promote_left: false, promote_right: true },
        ),
        _ => None,
    }
}

/// What an arithmetic operator does with its operands.
#[derive(Debug)]
pub enum ArithmeticPlan {
    /// An integer or float operation.
    Numeric(NumericOperands),
    /// The concatenation of two strings.
    StringConcat(IrRef, IrRef),
    /// The concatenation of two lists; the result has the left list's
    /// element type.
    ListConcat { left: IrRef, right: IrRef, element_type: ValueType },
}

/// The plain view of an arithmetic plan.
pub enum SpecArithmeticPlan {
    Numeric(NumericOperands),
    StringConcat(IrRef, IrRef),
    ListConcat { left: IrRef, right: IrRef, element_type: SpecValueType },
}

impl View for ArithmeticPlan {
    type V = SpecArithmeticPlan;

    open spec fn view(&self) -> SpecArithmeticPlan {
        match self {
            ArithmeticPlan::Numeric(n) => SpecArithmeticPlan::Numeric(*n),
            ArithmeticPlan::StringConcat(l, r) => SpecArithmeticPlan::StringConcat(*l, *r),
            ArithmeticPlan::ListConcat { left, right, element_type } => SpecArithmeticPlan::ListConcat {
                left: *left,
                right: *right,
                element_type: element_type@,
            },
        }
    }
}

/// Whether `op` is one of the arithmetic operators `+ - * / %`.
pub open spec fn is_arithmetic(op: BinaryOperator) -> bool {
    match op {
        BinaryOperator::Add | BinaryOperator::Subtract | BinaryOperator::Multiply
        | BinaryOperator::Divide | BinaryOperator::Modulo => true,
        _ => false,
    }
}

/// The message for arithmetic on operands it does not take.
pub open spec fn arithmetic_message(op: BinaryOperator) -> Seq<char> {
    match op {
        BinaryOperator::Add => "add expects numeric, string, or list operands"@,
        BinaryOperator::Subtract => "sub expects numeric operands"@,
        BinaryOperator::Multiply => "mul expects numeric operands"@,
        BinaryOperator::Divide => "div expects numeric operands"@,
        _ => "mod expects numeric operands"@,
    }
}

/// What arithmetic operator `op` does with `left` and `right`: every
/// operator takes numbers; `+` also joins two strings or two lists.
pub open spec fn arithmetic_plan_of(op: BinaryOperator, left: ExprValue, right: ExprValue) -> Result<
    SpecArithmeticPlan,
    Seq<char>,
> {
    match numeric_operands_of(left, right) {
        Some(n) => Ok(SpecArithmeticPlan::Numeric(n)),
        None => match op {
            BinaryOperator::Add => match (left, right) {
                (ExprValue::String(l), ExprValue::String(r)) => Ok(
                    SpecArithmeticPlan::StringConcat(l, r),
                ),
                (
                    ExprValue::List { pointer: l, element_type },
                    ExprValue::List { pointer: r, .. },
                ) => Ok(
                    SpecArithmeticPlan::ListConcat { left: l, right: r, element_type: element_type@ },
                ),
                _ => Err(arithmetic_message(op)),
            },
            _ => Err(arithmetic_message(op)),
        },
    }
}

/// What arithmetic operator `op` does with its operands (see
/// [`arithmetic_plan_of`]).
pub fn arithmetic_plan(op: &BinaryOperator, left: ExprValue, right: ExprValue) -> (r: Result<
    ArithmeticPlan,
    String,
>)
    requires
        is_arithmetic(*op),
    ensures
        match r {
            Ok(p) => arithmetic_plan_of(*op, left, right) == Ok::<SpecArithmeticPlan, Seq<char>>(p@),
            Err(e) => arithmetic_plan_of(*op, left, right) == Err::<SpecArithmeticPlan, Seq<char>>(e@),
        },
{
    match numeric_operands(&left, &right) {
        Some(n) => Ok(ArithmeticPlan::Numeric(n)),
        None => {
            let is_add = match op {
                BinaryOperator::Add => true,
                _ => false,
            };
            if is_add {
                match (left, right) {
                    (ExprValue::String(l), ExprValue::String(r)) => {
                        return Ok(ArithmeticPlan::StringConcat(l, r));
                    },
                    (ExprValue::List { pointer: l, element_type }, ExprValue::List { pointer: r, .. }) => {
                        return Ok(ArithmeticPlan::ListConcat { left: l, right: r, element_type: *element_type });
                    },
                    _ => {},
                }
            }
            let msg = match op {
                BinaryOperator::Add => "add expects numeric, string, or list operands",
                BinaryOperator::Subtract => "sub expects numeric operands",
                BinaryOperator::Multiply => "mul expects numeric operands",
                BinaryOperator::Divide => "div expects numeric operands",
                _ => "mod expects numeric operands",
            };
            Err(String::from_str(msg))
        },
    }
}

/// The operands of a comparison `< <= > >=`, which must be numbers (see
/// [`numeric_operands_of`]).
pub fn comparison_operands(left: &ExprValue, right: &ExprValue) -> (r: Result<NumericOperands, String>)
    ensures
        match numeric_operands_of(*left, *right) {
            Some(n) => r == Ok::<NumericOperands, String>(n),
            None => r matches Err(e) && e@ == "comparison expects numeric operands"@,
        },
{
    match numeric_operands(left, right) {
        Some(n) => Ok(n),
        None => Err(String::from_str("comparison expects numeric operands")),
    }
}

/// The type of the result of a numeric operation: an integer when both
/// operands are integers, else a float.
pub open spec fn numeric_result_type(n: NumericOperands) -> SpecValueType {
    match n {
        NumericOperands::Ints(_, _) => SpecValueType::Int,
        NumericOperands::Floats { .. } => SpecValueType::Float,
    }
}

/// Arithmetic on numbers is symmetric in its typing: swapping the operands
/// keeps which operation applies and the type of the result.
pub proof fn lemma_numeric_typing_symmetric(left: ExprValue, right: ExprValue)
    ensures
        numeric_operands_of(left, right) is Some <==> numeric_operands_of(right, left) is Some,
        numeric_operands_of(left, right) matches Some(n) ==> numeric_operands_of(right, left) matches Some(
            m,
        ) && numeric_result_type(n) == numeric_result_type(m),
{
}

} // verus!
