//! `var` and `const` bindings: which ones are accepted, and how the bound
//! name is held afterwards.
use vstd::prelude::*;

use crate::aot::backend::{describe_span, span_description};
use crate::aot::type_debug::{debug_value_type, value_type_debug};
use crate::aot::types::{
    expr_value_ref, ExprValue, IrRef, LocalVariable, SpecValueType, ValueType,
};
use crate::ast::VarBinding;
use crate::names::NameMap;

verus! {

/// Whether a binding inside a function body is accepted: its name must be
/// new among the locals, and it must have an initializer.
pub open spec fn local_binding_error(
    locals: Map<Seq<char>, LocalVariable>,
    binding: VarBinding,
    is_const: bool,
) -> Option<Seq<char>> {
    if locals.dom().contains(binding.name@) {
        Some("variable '"@ + binding.name@ + "' already exists"@)
    } else if binding.initializer is None {
        if is_const {
            Some("const '"@ + binding.name@ + "' requires an initializer"@)
        } else {
            Some("variable '"@ + binding.name@ + "' requires an initializer"@)
        }
    } else {
        None
    }
}

/// Checks a binding inside a function body (see [`local_binding_error`]).
pub fn check_local_binding(locals: &NameMap<LocalVariable>, binding: &VarBinding, is_const: bool) -> (r:
    Result<(), String>)
    ensures
        match local_binding_error(locals@, *binding, is_const) {
            None => r is Ok,
            Some(m) => r matches Err(e) && e@ == m,
        },
{
    if locals.contains_key(binding.name.as_str()) {
        let mut msg = String::from_str("variable '");
        msg.append(binding.name.as_str());
        msg.append("' already exists");
        return Err(msg);
    }
    if binding.initializer.is_none() {
        let mut msg = if is_const {
            String::from_str("const '")
        } else {
            String::from_str("variable '")
        };
        msg.append(binding.name.as_str());
        msg.append("' requires an initializer");
        return Err(msg);
    }
    Ok(())
}

/// Whether a top-level binding is accepted: it must have an initializer;
/// the message names where the binding is.
pub open spec fn global_binding_error(binding: VarBinding, is_const: bool) -> Option<Seq<char>> {
    if binding.initializer is None {
        Some(
            (if is_const {
                "const '"@
            } else {
                "variable '"@
            }) + binding.name@ + "' requires an initializer (at "@ + span_description(binding.span)
                + ")"@,
        )
    } else {
        None
    }
}

/// Checks a top-level binding (see [`global_binding_error`]).
pub fn check_global_binding(binding: &VarBinding, is_const: bool) -> (r: Result<(), String>)
    ensures
        match global_binding_error(*binding, is_const) {
            None => r is Ok,
            Some(m) => r matches Err(e) && e@ == m,
        },
{
    if binding.initializer.is_none() {
        let mut msg = if is_const {
            String::from_str("const '")
        } else {
            String::from_str("variable '")
        };
        msg.append(binding.name.as_str());
        msg.append("' requires an initializer (at ");
        let d = describe_span(binding.span);
        msg.append(d.as_str());
        msg.append(")");
        return Err(msg);
    }
    Ok(())
}

/// The message for an initializer whose value does not convert to the
/// annotated type.
pub open spec fn initializer_mismatch_message(
    name: Seq<char>,
    expected: SpecValueType,
    found: SpecValueType,
) -> Seq<char> {
    "initializer for '"@ + name + "' has mismatched type (expected "@ + value_type_debug(expected)
        + ", found "@ + value_type_debug(found) + ")"@
}

/// The message for an initializer whose value does not convert to the
/// annotated type (see [`initializer_mismatch_message`]).
pub fn initializer_mismatch_error(name: &str, expected: &ValueType, found: &ValueType) -> (r: String)
    ensures
        r@ == initializer_mismatch_message(name@, expected@, found@),
{
    let mut msg = String::from_str("initializer for '");
    msg.append(name);
    msg.append("' has mismatched type (expected ");
    let a = debug_value_type(expected);
    msg.append(a.as_str());
    msg.append(", found ");
    let b = debug_value_type(found);
    msg.append(b.as_str());
    msg.append(")");
    msg
}

/// How a bound name is held once its initializer is stored: a `const`
/// keeps the initializer's value and cannot be assigned; a `var` lives in
/// `storage` (a stack slot, or the global of a top-level binding).
pub fn bound_local(is_const: bool, ty: ValueType, initial: &ExprValue, storage: Option<IrRef>) -> (r:
    LocalVariable)
    requires
        !is_const ==> storage is Some,
    ensures
        r.ty@ == ty@,
        r.mutable == !is_const,
        is_const ==> r.pointer is None && r.value == expr_value_ref(*initial),
        !is_const ==> r.pointer == storage && r.value is None,
{
    if is_const {
        let value = match initial {
            ExprValue::Int(v) => Some(*v),
            ExprValue::Float(v) => Some(*v),
            ExprValue::Bool(v) => Some(*v),
            ExprValue::String(v) => Some(*v),
            ExprValue::List { pointer, .. } => Some(*pointer),
            ExprValue::Dict { pointer, .. } => Some(*pointer),
            ExprValue::Struct { pointer, .. } => Some(*pointer),
            ExprValue::Error { pointer, .. } => Some(*pointer),
            ExprValue::Closure { pointer, .. } => Some(*pointer),
            ExprValue::Optional { value, .. } => Some(*value),
            ExprValue::Void => None,
        };
        LocalVariable { pointer: None, value, ty, mutable: false }
    } else {
        LocalVariable { pointer: storage, value: None, ty, mutable: true }
    }
}

} // verus!
