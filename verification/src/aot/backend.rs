//! Decisions the code generator takes before it asks LLVM for anything:
//! which machine type holds a value, what a function type looks like,
//! which attributes a function gets, how top-level bindings are named and
//! checked, and how source locations are described in diagnostics.
use vstd::prelude::*;

use crate::aot::types::{
    lower_type, lower_types, lowering_error_message, sanitize_symbol_component, sanitized,
    type_list_to_value_types, type_to_value_type, value_types_equal, value_types_view,
    GlobalBindingSlot, IrRef, LambdaSignature, SpecValueType, ValueType,
};
use crate::aot::type_debug::{debug_value_type, value_type_debug};
use crate::ast::SourceSpan;
use crate::names::NameMap;
use crate::text::{decimal, push_decimal};
use crate::typechecker::{SpecType, Type};

verus! {

/// The machine representation of a value.
#[derive(Debug, Clone, Copy, PartialEq, Eq, Structural)]
pub enum BasicKind {
    /// A 64-bit integer.
    Int64,
    /// A 64-bit float.
    Float64,
    /// A one-bit integer.
    Bool,
    /// A pointer to a string.
    StringPointer,
    /// A pointer to a list.
    ListPointer,
    /// A pointer to a dictionary.
    DictPointer,
    /// A pointer to a closure.
    ClosurePointer,
    /// A pointer to a struct.
    StructPointer,
    /// A pointer to an error value.
    ErrorPointer,
    /// A tagged value (used for optionals).
    TaggedValue,
}

/// The machine representation of a value type; `Void` has none.
pub open spec fn basic_kind_of(t: SpecValueType) -> Option<BasicKind> {
    match t {
        SpecValueType::Int => Some(BasicKind::Int64),
        SpecValueType::Float => Some(BasicKind::Float64),
        SpecValueType::Bool => Some(BasicKind::Bool),
        SpecValueType::String => Some(BasicKind::StringPointer),
        SpecValueType::List(_) => Some(BasicKind::ListPointer),
        SpecValueType::Dict(_) => Some(BasicKind::DictPointer),
        SpecValueType::Function(_, _) => Some(BasicKind::ClosurePointer),
        SpecValueType::Struct(_) => Some(BasicKind::StructPointer),
        SpecValueType::Error { .. } => Some(BasicKind::ErrorPointer),
        SpecValueType::Optional(_) => Some(BasicKind::TaggedValue),
        SpecValueType::Void => None,
    }
}

/// The machine representation of a value; `Void` is no
/// value.
pub fn basic_kind(ty: &ValueType) -> (r: Result<BasicKind, String>)
    ensures
        match r {
            Ok(k) => basic_kind_of(ty@) == Some(k),
            Err(e) => basic_kind_of(ty@) is None && e@ == "void type is not a value"@,
        },
{
    match ty {
        ValueType::Int => Ok(BasicKind::Int64),
        ValueType::Float => Ok(BasicKind::Float64),
        ValueType::Bool => Ok(BasicKind::Bool),
        ValueType::String => Ok(BasicKind::StringPointer),
        ValueType::List(_) => Ok(BasicKind::ListPointer),
        ValueType::Dict(_) => Ok(BasicKind::DictPointer),
        ValueType::Function(_, _) => Ok(BasicKind::ClosurePointer),
        ValueType::Struct(_) => Ok(BasicKind::StructPointer),
        ValueType::Error { .. } => Ok(BasicKind::ErrorPointer),
        ValueType::Optional(_) => Ok(BasicKind::TaggedValue),
        ValueType::Void => Err(String::from_str("void type is not a value")),
    }
}

/// The shape of a function type: the machine type of
/// each parameter, and that of the result (`None` for `Void`). The first
/// parameter of type `Void` makes it fail.
pub fn function_shape(return_type: &ValueType, params: &[ValueType]) -> (r: Result<
    (Option<BasicKind>, Vec<BasicKind>),
    String,
>)
    ensures
        match r {
            Ok((ret, ps)) => {
                &&& ret == basic_kind_of(return_type@)
                &&& ps@.len() == params@.len()
                &&& forall|i: int|
                    0 <= i < params@.len() ==> basic_kind_of(#[trigger] params@[i]@) == Some(
                        ps@[i],
                    )
            },
            Err(e) => {
                &&& exists|i: int|
                    0 <= i < params@.len() && basic_kind_of(#[trigger] params@[i]@) is None
                &&& e@ == "void type is not a value"@
            },
        },
{
    let mut kinds: Vec<BasicKind> = Vec::new();
    let mut i: usize = 0;
    while i < params.len()
        invariant
            i <= params@.len(),
            kinds@.len() == i,
            forall|j: int| 0 <= j < i ==> basic_kind_of(#[trigger] params@[j]@) == Some(kinds@[j]),
        decreases params@.len() - i,
    {
        match basic_kind(&params[i]) {
            Ok(k) => kinds.push(k),
            Err(e) => return Err(e),
        }
        i = i + 1;
    }
    let ret = match basic_kind(return_type) {
        Ok(k) => Some(k),
        Err(_) => None,
    };
    Ok((ret, kinds))
}

/// The attributes every function gets, in order: `nounwind` when it cannot
/// throw, then `willreturn`, `nosync` and `nofree`, and `alwaysinline`
/// when it is small.
pub open spec fn function_attributes(can_throw: bool, is_small: bool) -> Seq<Seq<char>> {
    (if can_throw {
        Seq::empty()
    } else {
        seq!["nounwind"@]
    }) + seq!["willreturn"@, "nosync"@, "nofree"@] + (if is_small {
        seq!["alwaysinline"@]
    } else {
        Seq::empty()
    })
}

/// The attribute names given to a function,
/// in the order they are added.
pub fn function_attribute_names(can_throw: bool, is_small: bool) -> (names: Vec<String>)
    ensures
        names@.map_values(|n: String| n@) == function_attributes(can_throw, is_small),
{
    let mut names: Vec<String> = Vec::new();
    if !can_throw {
        names.push(String::from_str("nounwind"));
    }
    names.push(String::from_str("willreturn"));
    names.push(String::from_str("nosync"));
    names.push(String::from_str("nofree"));
    if is_small {
        names.push(String::from_str("alwaysinline"));
    }
    proof {
        assert(names@.map_values(|n: String| n@) =~= function_attributes(can_throw, is_small));
    }
    names
}

/// A list literal with fewer elements than this is built inline.
pub const INLINE_LIST_LIMIT: usize = 8;

/// A string literal with fewer bytes than this is stored inline.
pub const INLINE_STRING_LIMIT: usize = 23;

/// Whether a list literal of `len` elements is built inline.
pub fn is_small_list_literal(len: usize) -> (b: bool)
    ensures
        b == (len < INLINE_LIST_LIMIT),
{
    len < INLINE_LIST_LIMIT
}

/// Whether a string literal of `len` bytes is stored inline.
pub fn is_small_string_literal(len: usize) -> (b: bool)
    ensures
        b == (len < INLINE_STRING_LIMIT),
{
    len < INLINE_STRING_LIMIT
}

/// The symbol of the global that holds a top-level binding.
pub open spec fn global_symbol(name: Seq<char>) -> Seq<char> {
    ".binding."@ + sanitized(name)
}

/// The symbol of the global that holds the top-level binding `name`.
pub fn global_symbol_name(name: &str) -> (r: String)
    ensures
        r@ == global_symbol(name@),
{
    let mut out = String::from_str(".binding.");
    let s = sanitize_symbol_component(name);
    out.append(s.as_str());
    out
}

/// The type, mutability and global of each top-level binding's slot.
pub open spec fn slot_views(slots: Map<Seq<char>, GlobalBindingSlot>) -> Map<
    Seq<char>,
    (SpecValueType, bool, IrRef),
> {
    slots.map_values(|s: GlobalBindingSlot| (s.ty@, s.mutable, s.pointer))
}

/// What asking for the slot of a top-level binding gives: its slot when
/// the binding has one of the same type and mutability, nothing when it
/// has none yet, an error when it has one of another type or mutability.
pub open spec fn global_slot_check(
    slots: Map<Seq<char>, (SpecValueType, bool, IrRef)>,
    name: Seq<char>,
    ty: SpecValueType,
    mutable: bool,
) -> Result<Option<IrRef>, Seq<char>> {
    if !slots.dom().contains(name) {
        Ok(None)
    } else if slots[name].0 != ty {
        Err(
            "top-level binding '"@ + name + "' has conflicting types (previous "@
                + value_type_debug(slots[name].0) + ", new "@ + value_type_debug(ty) + ")"@,
        )
    } else if slots[name].1 != mutable {
        Err("top-level binding '"@ + name + "' has conflicting mutability"@)
    } else {
        Ok(Some(slots[name].2))
    }
}

/// Checks a top-level binding against its slot, if it has one
/// (`ensure_global_slot`, see [`global_slot_check`]); `Ok(None)` asks for
/// a new slot.
pub fn check_global_slot(
    slots: &NameMap<GlobalBindingSlot>,
    name: &str,
    ty: &ValueType,
    mutable: bool,
) -> (r: Result<Option<IrRef>, String>)
    ensures
        match r {
            Ok(p) => global_slot_check(slot_views(slots@), name@, ty@, mutable) == Ok::<
                Option<IrRef>,
                Seq<char>,
            >(p),
            Err(e) => global_slot_check(slot_views(slots@), name@, ty@, mutable) == Err::<
                Option<IrRef>,
                Seq<char>,
            >(e@),
        },
{
    match slots.get(name) {
        None => Ok(None),
        Some(slot) => {
            if !value_types_equal(&slot.ty, ty) {
                let mut msg = String::from_str("top-level binding '");
                msg.append(name);
                msg.append("' has conflicting types (previous ");
                msg.append(debug_value_type(&slot.ty).as_str());
                msg.append(", new ");
                msg.append(debug_value_type(ty).as_str());
                msg.append(")");
                Err(msg)
            } else if slot.mutable != mutable {
                let mut msg = String::from_str("top-level binding '");
                msg.append(name);
                msg.append("' has conflicting mutability");
                Err(msg)
            } else {
                Ok(Some(slot.pointer))
            }
        },
    }
}

/// How a source location reads in a diagnostic.
pub open spec fn span_description(span: SourceSpan) -> Seq<char> {
    if span.line == 0 {
        "unknown location"@
    } else if span.line == span.end_line && span.column == span.end_column {
        "line "@ + decimal(span.line as nat) + ", column "@ + decimal(span.column as nat)
    } else {
        "line "@ + decimal(span.line as nat) + " column "@ + decimal(span.column as nat)
            + " to line "@ + decimal(span.end_line as nat) + " column "@ + decimal(
            span.end_column as nat,
        )
    }
}

/// Describes a source location: `unknown location` for
/// line 0, one position when the span is a point, a range otherwise.
pub fn describe_span(span: SourceSpan) -> (r: String)
    ensures
        r@ == span_description(span),
{
    if span.line == 0 {
        String::from_str("unknown location")
    } else if span.line == span.end_line && span.column == span.end_column {
        let mut out = String::from_str("line ");
        push_decimal(&mut out, span.line);
        out.append(", column ");
        push_decimal(&mut out, span.column);
        out
    } else {
        let mut out = String::from_str("line ");
        push_decimal(&mut out, span.line);
        out.append(" column ");
        push_decimal(&mut out, span.column);
        out.append(" to line ");
        push_decimal(&mut out, span.end_line);
        out.append(" column ");
        push_decimal(&mut out, span.end_column);
        out
    }
}

/// The message for a lambda whose checked type is not a function type.
pub open spec fn lambda_type_message(id: nat) -> Seq<char> {
    "lambda "@ + decimal(id) + " did not resolve to a function type"@
}

/// The lowered signature of a lambda from its checked type: a function
/// type lowers its parameters in order and then its return type; the first
/// failure is the error.
pub open spec fn lambda_signature_of(id: nat, t: SpecType) -> Result<
    (Seq<SpecValueType>, SpecValueType),
    Seq<char>,
> {
    match t {
        SpecType::Function(params, ret) => match lower_types(params) {
            Ok(ps) => match lower_type(*ret) {
                Ok(r) => Ok((ps, r)),
                Err(e) => Err(lowering_error_message(e)),
            },
            Err(e) => Err(lowering_error_message(e)),
        },
        _ => Err(lambda_type_message(id)),
    }
}

/// Lowers the checked type of lambda `id` to its signature, as the
/// semantic metadata of a module records it for each lambda.
pub fn lower_lambda_signature(id: usize, ty: &Type) -> (r: Result<LambdaSignature, String>)
    ensures
        match r {
            Ok(sig) => lambda_signature_of(id as nat, ty@) == Ok::<
                (Seq<SpecValueType>, SpecValueType),
                Seq<char>,
            >((value_types_view(sig.param_types@), sig.return_type@)),
            Err(e) => lambda_signature_of(id as nat, ty@) == Err::<
                (Seq<SpecValueType>, SpecValueType),
                Seq<char>,
            >(e@),
        },
{
    match ty {
        Type::Function(params, return_type) => {
            let lowered_params = match type_list_to_value_types(params) {
                Ok(ps) => ps,
                Err(e) => return Err(e.message()),
            };
            let lowered_return = match type_to_value_type(&**return_type) {
                Ok(r) => r,
                Err(e) => return Err(e.message()),
            };
            Ok(LambdaSignature { param_types: lowered_params, return_type: lowered_return })
        },
        _ => {
            let mut out = String::from_str("lambda ");
            push_decimal(&mut out, id);
            out.append(" did not resolve to a function type");
            Err(out)
        },
    }
}

/// Lowers the checked types of all lambdas, in the order given; the first
/// failure is the result.
pub fn lower_lambda_signatures(lambda_types: &Vec<(usize, Type)>) -> (r: Result<
    Vec<(usize, LambdaSignature)>,
    String,
>)
    ensures
        match r {
            Ok(sigs) => {
                &&& sigs@.len() == lambda_types@.len()
                &&& forall|i: int|
                    0 <= i < sigs@.len() ==> {
                        &&& (#[trigger] sigs@[i]).0 == lambda_types@[i].0
                        &&& lambda_signature_of(lambda_types@[i].0 as nat, lambda_types@[i].1@)
                            == Ok::<(Seq<SpecValueType>, SpecValueType), Seq<char>>(
                            (value_types_view(sigs@[i].1.param_types@), sigs@[i].1.return_type@),
                        )
                    }
            },
            Err(e) => exists|k: int|
                0 <= k < lambda_types@.len() && (forall|j: int|
                    0 <= j < k ==> #[trigger] lambda_signature_of(
                        lambda_types@[j].0 as nat,
                        lambda_types@[j].1@,
                    ) is Ok) && lambda_signature_of(lambda_types@[k].0 as nat, lambda_types@[k].1@)
                    == Err::<(Seq<SpecValueType>, SpecValueType), Seq<char>>(e@),
        },
{
    let mut sigs: Vec<(usize, LambdaSignature)> = Vec::new();
    let mut i: usize = 0;
    while i < lambda_types.len()
        invariant
            i <= lambda_types@.len(),
            sigs@.len() == i,
            forall|j: int|
                0 <= j < i ==> {
                    &&& (#[trigger] sigs@[j]).0 == lambda_types@[j].0
                    &&& lambda_signature_of(lambda_types@[j].0 as nat, lambda_types@[j].1@) == Ok::<
                        (Seq<SpecValueType>, SpecValueType),
                        Seq<char>,
                    >((value_types_view(sigs@[j].1.param_types@), sigs@[j].1.return_type@))
                },
        decreases lambda_types@.len() - i,
    {
        let id = lambda_types[i].0;
        match lower_lambda_signature(id, &lambda_types[i].1) {
            Ok(sig) => sigs.push((id, sig)),
            Err(e) => {
                proof {
                    assert forall|j: int| 0 <= j < i implies #[trigger] lambda_signature_of(
                        lambda_types@[j].0 as nat,
                        lambda_types@[j].1@,
                    ) is Ok by {
                        assert(sigs@[j].0 == lambda_types@[j].0);
                    }
                }
                return Err(e);
            },
        }
        i = i + 1;
    }
    Ok(sigs)
}

} // verus!
