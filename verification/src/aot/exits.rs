//! `return` statements: what a return emits, and which returned values a
//! function's return type accepts.
use vstd::prelude::*;

use crate::aot::type_debug::{debug_value_type, value_type_debug};
use crate::aot::types::{expr_value_ref, expr_value_type, value_types_equal, ExprValue, IrRef, SpecValueType, ValueType};
use crate::ast::{ExpressionKind, ReturnStatement};
use crate::text::str_eq;

verus! {

/// What a `return` statement emits.
#[derive(Debug, Clone, Copy, PartialEq, Eq, Structural)]
pub enum ReturnPlan {
    /// A return without a value, from a function that returns none.
    Bare,
    /// The value of the expression; `tail_call` when the expression is a
    /// call, whose result is returned directly.
    Value { tail_call: bool },
    /// Zero, for a bare return from a function that returns an `Int`.
    ZeroInt,
    /// `nil`, for a bare return from a function that returns an optional.
    Nil,
}

/// What a `return` statement emits in a function returning `rt`: a value
/// in a function that returns none, and a bare return from one that
/// returns anything but an `Int` or an optional, are errors.
pub open spec fn return_plan_of(has_value: bool, is_call: bool, rt: SpecValueType) -> Result<
    ReturnPlan,
    Seq<char>,
> {
    if has_value {
        match rt {
            SpecValueType::Void => Err("return with value in void function"@),
            _ => Ok(ReturnPlan::Value { tail_call: is_call }),
        }
    } else {
        match rt {
            SpecValueType::Void => Ok(ReturnPlan::Bare),
            SpecValueType::Int => Ok(ReturnPlan::ZeroInt),
            SpecValueType::Optional(_) => Ok(ReturnPlan::Nil),
            _ => Err("missing return value"@),
        }
    }
}

/// What `statement` emits in a function returning `return_type` (see
/// [`return_plan_of`]).
pub fn return_plan(statement: &ReturnStatement, return_type: &ValueType) -> (r: Result<ReturnPlan, String>)
    ensures
        ({
            let is_call = match statement.expression {
                Some(e) => e.kind is Call,
                None => false,
            };
            match r {
                Ok(p) => return_plan_of(statement.expression is Some, is_call, return_type@) == Ok::<
                    ReturnPlan,
                    Seq<char>,
                >(p),
                Err(e) => return_plan_of(statement.expression is Some, is_call, return_type@)
                    == Err::<ReturnPlan, Seq<char>>(e@),
            }
        }),
{
    match &statement.expression {
        Some(e) => match return_type {
            ValueType::Void => Err(String::from_str("return with value in void function")),
            _ => {
                let tail_call = match &e.kind {
                    ExpressionKind::Call(_) => true,
                    _ => false,
                };
                Ok(ReturnPlan::Value { tail_call })
            },
        },
        None => match return_type {
            ValueType::Void => Ok(ReturnPlan::Bare),
            ValueType::Int => Ok(ReturnPlan::ZeroInt),
            ValueType::Optional(_) => Ok(ReturnPlan::Nil),
            _ => Err(String::from_str("missing return value")),
        },
    }
}

/// The message for a returned value of the wrong kind.
pub open spec fn return_mismatch_message(expected: SpecValueType, found: SpecValueType) -> Seq<char> {
    "return type mismatch: expected "@ + value_type_debug(expected) + ", found "@ + value_type_debug(
        found,
    )
}

/// Whether a function returning `rt` can return `value`, and the LLVM value
/// it returns (none for `Void`): the kinds must agree; an error value must
/// be of the expected error, and of the expected variant when the return
/// type names one; an optional must have the expected inner type.
pub open spec fn returned_value(value: ExprValue, rt: SpecValueType) -> Result<Option<IrRef>, Seq<char>> {
    match (rt, value) {
        (SpecValueType::Int, ExprValue::Int(v)) => Ok(Some(v)),
        (SpecValueType::Float, ExprValue::Float(v)) => Ok(Some(v)),
        (SpecValueType::Bool, ExprValue::Bool(v)) => Ok(Some(v)),
        (SpecValueType::String, ExprValue::String(v)) => Ok(Some(v)),
        (SpecValueType::List(_), ExprValue::List { pointer, .. }) => Ok(Some(pointer)),
        (SpecValueType::Dict(_), ExprValue::Dict { pointer, .. }) => Ok(Some(pointer)),
        (SpecValueType::Struct(_), ExprValue::Struct { pointer, .. }) => Ok(Some(pointer)),
        (
            SpecValueType::Error { error_name: en, variant_name: ev },
            ExprValue::Error { pointer, error_name, variant_name },
        ) => if error_name@ != en {
            Err("return type mismatch: expected error '"@ + en + "', found '"@ + error_name@ + "'"@)
        } else {
            match ev {
                None => Ok(Some(pointer)),
                Some(x) => match variant_name {
                    Some(a) => if a@ == x {
                        Ok(Some(pointer))
                    } else {
                        Err(
                            "return type mismatch: expected '"@ + en + "."@ + x + "', found '"@
                                + error_name@ + "."@ + a@ + "'"@,
                        )
                    },
                    None => Err(
                        "return type mismatch: expected '"@ + en + "."@ + x + "', found '"@
                            + error_name@ + "' without variant"@,
                    ),
                },
            }
        },
        (SpecValueType::Function(_, _), ExprValue::Closure { pointer, .. }) => Ok(Some(pointer)),
        (SpecValueType::Optional(ei), ExprValue::Optional { value: v, inner }) => if *ei != inner@ {
            Err(
                "return type mismatch: expected Optional "@ + value_type_debug(*ei)
                    + ", found Optional "@ + value_type_debug(inner@),
            )
        } else {
            Ok(Some(v))
        },
        (SpecValueType::Void, ExprValue::Void) => Ok(None),
        _ => Err(return_mismatch_message(rt, expr_value_type(value))),
    }
}

/// Checks a value returned from a function returning `return_type` (see
/// [`returned_value`]) and gives the LLVM value to return.
pub fn check_returned_value(value: &ExprValue, return_type: &ValueType) -> (r: Result<
    Option<IrRef>,
    String,
>)
    ensures
        match r {
            Ok(p) => returned_value(*value, return_type@) == Ok::<Option<IrRef>, Seq<char>>(p),
            Err(e) => returned_value(*value, return_type@) == Err::<Option<IrRef>, Seq<char>>(e@),
        },
{
    match (return_type, value) {
        (ValueType::Int, ExprValue::Int(v)) => Ok(Some(*v)),
        (ValueType::Float, ExprValue::Float(v)) => Ok(Some(*v)),
        (ValueType::Bool, ExprValue::Bool(v)) => Ok(Some(*v)),
        (ValueType::String, ExprValue::String(v)) => Ok(Some(*v)),
        (ValueType::List(_), ExprValue::List { pointer, .. }) => Ok(Some(*pointer)),
        (ValueType::Dict(_), ExprValue::Dict { pointer, .. }) => Ok(Some(*pointer)),
        (ValueType::Struct(_), ExprValue::Struct { pointer, .. }) => Ok(Some(*pointer)),
        (
            ValueType::Error { error_name: en, variant_name: ev },
            ExprValue::Error { pointer, error_name, variant_name },
        ) => {
            if !str_eq(error_name.as_str(), en.as_str()) {
                let mut msg = String::from_str("return type mismatch: expected error '");
                msg.append(en.as_str());
                msg.append("', found '");
                msg.append(error_name.as_str());
                msg.append("'");
                return Err(msg);
            }
            match ev {
                None => Ok(Some(*pointer)),
                Some(x) => match variant_name {
                    Some(a) => {
                        if str_eq(a.as_str(), x.as_str()) {
                            Ok(Some(*pointer))
                        } else {
                            let mut msg = String::from_str("return type mismatch: expected '");
                            msg.append(en.as_str());
                            msg.append(".");
                            msg.append(x.as_str());
                            msg.append("', found '");
                            msg.append(error_name.as_str());
                            msg.append(".");
                            msg.append(a.as_str());
                            msg.append("'");
                            Err(msg)
                        }
                    },
                    None => {
                        let mut msg = String::from_str("return type mismatch: expected '");
                        msg.append(en.as_str());
                        msg.append(".");
                        msg.append(x.as_str());
                        msg.append("', found '");
                        msg.append(error_name.as_str());
                        msg.append("' without variant");
                        Err(msg)
                    },
                },
            }
        },
        (ValueType::Function(_, _), ExprValue::Closure { pointer, .. }) => Ok(Some(*pointer)),
        (ValueType::Optional(ei), ExprValue::Optional { value: v, inner }) => {
            if !value_types_equal(ei, inner) {
                let mut msg = String::from_str("return type mismatch: expected Optional ");
                let a = debug_value_type(ei);
                msg.append(a.as_str());
                msg.append(", found Optional ");
                let b = debug_value_type(inner);
                msg.append(b.as_str());
                return Err(msg);
            }
            Ok(Some(*v))
        },
        (ValueType::Void, ExprValue::Void) => Ok(None),
        _ => {
            let mut msg = String::from_str("return type mismatch: expected ");
            let a = debug_value_type(return_type);
            msg.append(a.as_str());
            msg.append(", found ");
            let found = value.ty();
            let b = debug_value_type(&found);
            msg.append(b.as_str());
            Err(msg)
        },
    }
}

/// The value an expression statement returns implicitly: the last
/// statement of a body returns its value when the function returns a value
/// of exactly that type.
pub open spec fn implicit_return_value(is_last: bool, rt: SpecValueType, value: ExprValue) -> Option<IrRef> {
    if is_last && rt != SpecValueType::Void && expr_value_type(value) == rt {
        expr_value_ref(value)
    } else {
        None
    }
}

/// The value an expression statement returns implicitly, if any (see
/// [`implicit_return_value`]).
pub fn implicit_return(is_last: bool, return_type: &ValueType, value: &ExprValue) -> (r: Option<IrRef>)
    ensures
        r == implicit_return_value(is_last, return_type@, *value),
{
    if !is_last {
        return None;
    }
    let is_void = match return_type {
        ValueType::Void => true,
        _ => false,
    };
    if is_void {
        return None;
    }
    let ty = value.ty();
    if !value_types_equal(&ty, return_type) {
        return None;
    }
    match value {
        ExprValue::Int(v) => Some(*v),
        ExprValue::Float(v) => Some(*v),
        ExprValue::Bool(v) => Some(*v),
        ExprValue::String(v) => Some(*v),
        ExprValue::List { pointer, .. } => Some(*pointer),
        ExprValue::Dict { pointer, .. } => Some(*pointer),
        ExprValue::Struct { pointer, .. } => Some(*pointer),
        ExprValue::Error { pointer, .. } => Some(*pointer),
        ExprValue::Closure { pointer, .. } => Some(*pointer),
        ExprValue::Optional { value: v, .. } => Some(*v),
        ExprValue::Void => None,
    }
}

/// A value whose type is exactly the return type is always accepted, and
/// the LLVM value returned is the value's own.
pub proof fn lemma_own_type_is_returned(value: ExprValue)
    ensures
        returned_value(value, expr_value_type(value)) == Ok::<Option<IrRef>, Seq<char>>(
            expr_value_ref(value),
        ),
{
}

} // verus!
