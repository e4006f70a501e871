//! How a value is converted to an expected type, and how two values are
//! compared for equality: decided on their types before any code is
//! emitted.
use vstd::prelude::*;

use crate::aot::type_debug::{debug_value_type, value_type_debug};
use crate::aot::types::{value_types_equal, SpecValueType, ValueType};

verus! {

/// How a value becomes a value of the expected type.
#[derive(Debug)]
pub enum Conversion {
    /// The value already has the type.
    Keep,
    /// `nil` becomes the empty optional of the expected inner type.
    Nil,
    /// The value is converted to the inner type (as given) and boxed into
    /// an optional.
    Wrap(Box<Conversion>),
}

pub open spec fn optional_mismatch_message(expected: SpecValueType, found: SpecValueType) -> Seq<
    char,
> {
    "optional conversion mismatch: expected "@ + value_type_debug(expected) + ", found "@
        + value_type_debug(found)
}

pub open spec fn type_mismatch_message(expected: SpecValueType, found: SpecValueType) -> Seq<char> {
    "type mismatch: expected "@ + value_type_debug(expected) + ", found "@ + value_type_debug(found)
}

/// How a value of type `from` is converted to `target`: to an optional, an optional of the same inner
/// type is kept, `nil` becomes the empty optional and anything else is
/// converted to the inner type and boxed; to an error type, the error must
/// have the same name, and the same variant when one is expected; to any
/// other type, the value must have that type.
pub open spec fn conversion(from: SpecValueType, target: SpecValueType) -> Result<
    Conversion,
    Seq<char>,
>
    decreases target,
{
    match target {
        SpecValueType::Optional(inner) => match from {
            SpecValueType::Optional(current) => if current == inner {
                Ok(Conversion::Keep)
            } else {
                Err(optional_mismatch_message(*inner, *current))
            },
            SpecValueType::Void => Ok(Conversion::Nil),
            _ => match conversion(from, *inner) {
                Ok(c) => Ok(Conversion::Wrap(Box::new(c))),
                Err(e) => Err(e),
            },
        },
        SpecValueType::Error { error_name: target_name, variant_name: target_variant } => match from {
            SpecValueType::Error { error_name, variant_name } => if error_name != target_name {
                Err(
                    "error type mismatch: expected error '"@ + target_name + "', found '"@
                        + error_name + "'"@,
                )
            } else {
                match target_variant {
                    Some(expected) => match variant_name {
                        Some(actual) => if actual == expected {
                            Ok(Conversion::Keep)
                        } else {
                            Err(
                                "error variant mismatch: expected '"@ + target_name + "."@
                                    + expected + "', found '"@ + error_name + "."@ + actual
                                    + "'"@,
                            )
                        },
                        None => Err(
                            "error variant mismatch: expected '"@ + target_name + "."@ + expected
                                + "', found '"@ + error_name + "'"@,
                        ),
                    },
                    None => Ok(Conversion::Keep),
                }
            },
            _ => Err(
                "expected error value '"@ + target_name + "', found "@ + value_type_debug(from),
            ),
        },
        _ => if from == target {
            Ok(Conversion::Keep)
        } else {
            Err(type_mismatch_message(target, from))
        },
    }
}

/// Decides how a value of type `from` is converted to `target` (see
/// [`conversion`]).
pub fn conversion_plan(from: &ValueType, target: &ValueType) -> (r: Result<Conversion, String>)
    ensures
        match r {
            Ok(c) => conversion(from@, target@) == Ok::<Conversion, Seq<char>>(c),
            Err(e) => conversion(from@, target@) == Err::<Conversion, Seq<char>>(e@),
        },
    decreases target,
{
    match target {
        ValueType::Optional(inner) => match from {
            ValueType::Optional(current) => {
                if value_types_equal(current, inner) {
                    Ok(Conversion::Keep)
                } else {
                    let mut msg = String::from_str("optional conversion mismatch: expected ");
                    msg.append(debug_value_type(inner).as_str());
                    msg.append(", found ");
                    msg.append(debug_value_type(current).as_str());
                    Err(msg)
                }
            },
            ValueType::Void => Ok(Conversion::Nil),
            _ => match conversion_plan(from, inner) {
                Ok(c) => Ok(Conversion::Wrap(Box::new(c))),
                Err(e) => Err(e),
            },
        },
        ValueType::Error { error_name: target_name, variant_name: target_variant } => match from {
            ValueType::Error { error_name, variant_name } => {
                if !(*error_name == *target_name) {
                    let mut msg = String::from_str("error type mismatch: expected error '");
                    msg.append(target_name.as_str());
                    msg.append("', found '");
                    msg.append(error_name.as_str());
                    msg.append("'");
                    return Err(msg);
                }
                match target_variant {
                    Some(expected) => match variant_name {
                        Some(actual) => {
                            if *actual == *expected {
                                Ok(Conversion::Keep)
                            } else {
                                let mut msg = String::from_str("error variant mismatch: expected '");
                                msg.append(target_name.as_str());
                                msg.append(".");
                                msg.append(expected.as_str());
                                msg.append("', found '");
                                msg.append(error_name.as_str());
                                msg.append(".");
                                msg.append(actual.as_str());
                                msg.append("'");
                                Err(msg)
                            }
                        },
                        None => {
                            let mut msg = String::from_str("error variant mismatch: expected '");
                            msg.append(target_name.as_str());
                            msg.append(".");
                            msg.append(expected.as_str());
                            msg.append("', found '");
                            msg.append(error_name.as_str());
                            msg.append("'");
                            Err(msg)
                        },
                    },
                    None => Ok(Conversion::Keep),
                }
            },
            _ => {
                let mut msg = String::from_str("expected error value '");
                msg.append(target_name.as_str());
                msg.append("', found ");
                msg.append(debug_value_type(from).as_str());
                Err(msg)
            },
        },
        _ => {
            if value_types_equal(from, target) {
                Ok(Conversion::Keep)
            } else {
                let mut msg = String::from_str("type mismatch: expected ");
                msg.append(debug_value_type(target).as_str());
                msg.append(", found ");
                msg.append(debug_value_type(from).as_str());
                Err(msg)
            }
        },
    }
}

/// The runtime function that compares two heap values.
#[derive(Debug, Clone, Copy, PartialEq, Eq, Structural)]
pub enum RuntimeEquality {
    String,
    List,
    Struct,
    Closure,
    Dict,
}

/// How two values are compared for equality; `!=` negates the same
/// comparison.
#[derive(Debug)]
pub enum EqualityPlan {
    /// Whether the optional operand (on the left, or else on the right) is
    /// nil.
    NilCheck { optional_on_left: bool },
    /// Two optionals: both nil, or both present and equal as the inner plan
    /// says.
    Optionals(Box<EqualityPlan>),
    /// The right operand is converted to the left optional's type, then the
    /// two optionals are compared as the plan says.
    ConvertRight(Conversion, Box<EqualityPlan>),
    /// The left operand is converted to the right optional's type, then the
    /// two optionals are compared as the plan says.
    ConvertLeft(Conversion, Box<EqualityPlan>),
    /// An integer comparison (integers or booleans).
    Integers,
    /// A float comparison, after converting an integer operand to a float.
    Floats { cast_left: bool, cast_right: bool },
    /// A call of the runtime's equality for the kind of value.
    Runtime(RuntimeEquality),
    /// A string compared with nil: whether its pointer is null.
    NullString,
    /// Nil compared with nil.
    Nils,
}

pub open spec fn unsupported_equality_message() -> Seq<char> {
    "unsupported equality comparison"@
}

/// How two values of the same type are compared: optionals by their
/// contents, error values not at all.
pub open spec fn same_type_equality(t: SpecValueType) -> Result<EqualityPlan, Seq<char>>
    decreases t,
{
    match t {
        SpecValueType::Optional(inner) => match same_type_equality(*inner) {
            Ok(p) => Ok(EqualityPlan::Optionals(Box::new(p))),
            Err(e) => Err(e),
        },
        SpecValueType::Int => Ok(EqualityPlan::Integers),
        SpecValueType::Bool => Ok(EqualityPlan::Integers),
        SpecValueType::Float => Ok(EqualityPlan::Floats { cast_left: false, cast_right: false }),
        SpecValueType::String => Ok(EqualityPlan::Runtime(RuntimeEquality::String)),
        SpecValueType::List(_) => Ok(EqualityPlan::Runtime(RuntimeEquality::List)),
        SpecValueType::Dict(_) => Ok(EqualityPlan::Runtime(RuntimeEquality::Dict)),
        SpecValueType::Function(_, _) => Ok(EqualityPlan::Runtime(RuntimeEquality::Closure)),
        SpecValueType::Struct(_) => Ok(EqualityPlan::Runtime(RuntimeEquality::Struct)),
        SpecValueType::Void => Ok(EqualityPlan::Nils),
        SpecValueType::Error { .. } => Err(unsupported_equality_message()),
    }
}

/// How values of types `l` and `r` are compared: an optional against nil
/// by a nil check; two optionals of one inner type by their contents (of
/// other inner types not at all); an optional against another value after
/// converting that value (see [`conversion`]); numbers as numbers (an
/// integer against a float as floats); strings, lists, structs of one
/// name, closures and dictionaries by the runtime; a string against nil
/// by its pointer; nil against nil as equal.
pub open spec fn equality_plan(l: SpecValueType, r: SpecValueType) -> Result<EqualityPlan, Seq<char>> {
    match (l, r) {
        (SpecValueType::Optional(_), SpecValueType::Void) => Ok(
            EqualityPlan::NilCheck { optional_on_left: true },
        ),
        (SpecValueType::Void, SpecValueType::Optional(_)) => Ok(
            EqualityPlan::NilCheck { optional_on_left: false },
        ),
        (SpecValueType::Optional(a), SpecValueType::Optional(b)) => if a != b {
            Err("cannot compare optionals with different inner types"@)
        } else {
            same_type_equality(l)
        },
        (SpecValueType::Optional(_), _) => match conversion(r, l) {
            Ok(c) => match same_type_equality(l) {
                Ok(p) => Ok(EqualityPlan::ConvertRight(c, Box::new(p))),
                Err(e) => Err(e),
            },
            Err(e) => Err(e),
        },
        (_, SpecValueType::Optional(_)) => match conversion(l, r) {
            Ok(c) => match same_type_equality(r) {
                Ok(p) => Ok(EqualityPlan::ConvertLeft(c, Box::new(p))),
                Err(e) => Err(e),
            },
            Err(e) => Err(e),
        },
        (SpecValueType::Int, SpecValueType::Int) => Ok(EqualityPlan::Integers),
        (SpecValueType::Float, SpecValueType::Float) => Ok(
            EqualityPlan::Floats { cast_left: false, cast_right: false },
        ),
        (SpecValueType::Int, SpecValueType::Float) => Ok(
            EqualityPlan::Floats { cast_left: true, cast_right: false },
        ),
        (SpecValueType::Float, SpecValueType::Int) => Ok(
            EqualityPlan::Floats { cast_left: false, cast_right: true },
        ),
        (SpecValueType::Bool, SpecValueType::Bool) => Ok(EqualityPlan::Integers),
        (SpecValueType::String, SpecValueType::String) => Ok(
            EqualityPlan::Runtime(RuntimeEquality::String),
        ),
        (SpecValueType::List(_), SpecValueType::List(_)) => Ok(
            EqualityPlan::Runtime(RuntimeEquality::List),
        ),
        (SpecValueType::Struct(a), SpecValueType::Struct(b)) => if a != b {
            Err("cannot compare structs '"@ + a + "' and '"@ + b + "'"@)
        } else {
            Ok(EqualityPlan::Runtime(RuntimeEquality::Struct))
        },
        (SpecValueType::Function(_, _), SpecValueType::Function(_, _)) => Ok(
            EqualityPlan::Runtime(RuntimeEquality::Closure),
        ),
        (SpecValueType::Dict(_), SpecValueType::Dict(_)) => Ok(
            EqualityPlan::Runtime(RuntimeEquality::Dict),
        ),
        (SpecValueType::String, SpecValueType::Void) => Ok(EqualityPlan::NullString),
        (SpecValueType::Void, SpecValueType::String) => Ok(EqualityPlan::NullString),
        (SpecValueType::Void, SpecValueType::Void) => Ok(EqualityPlan::Nils),
        _ => Err(unsupported_equality_message()),
    }
}

fn same_type_equality_plan(t: &ValueType) -> (r: Result<EqualityPlan, String>)
    ensures
        match r {
            Ok(p) => same_type_equality(t@) == Ok::<EqualityPlan, Seq<char>>(p),
            Err(e) => same_type_equality(t@) == Err::<EqualityPlan, Seq<char>>(e@),
        },
    decreases t,
{
    match t {
        ValueType::Optional(inner) => match same_type_equality_plan(inner) {
            Ok(p) => Ok(EqualityPlan::Optionals(Box::new(p))),
            Err(e) => Err(e),
        },
        ValueType::Int => Ok(EqualityPlan::Integers),
        ValueType::Bool => Ok(EqualityPlan::Integers),
        ValueType::Float => Ok(EqualityPlan::Floats { cast_left: false, cast_right: false }),
        ValueType::String => Ok(EqualityPlan::Runtime(RuntimeEquality::String)),
        ValueType::List(_) => Ok(EqualityPlan::Runtime(RuntimeEquality::List)),
        ValueType::Dict(_) => Ok(EqualityPlan::Runtime(RuntimeEquality::Dict)),
        ValueType::Function(_, _) => Ok(EqualityPlan::Runtime(RuntimeEquality::Closure)),
        ValueType::Struct(_) => Ok(EqualityPlan::Runtime(RuntimeEquality::Struct)),
        ValueType::Void => Ok(EqualityPlan::Nils),
        ValueType::Error { .. } => Err(String::from_str("unsupported equality comparison")),
    }
}

/// Decides how values of types `left` and `right` are compared for
/// equality (see [`equality_plan`]).
pub fn plan_equality(left: &ValueType, right: &ValueType) -> (r: Result<EqualityPlan, String>)
    ensures
        match r {
            Ok(p) => equality_plan(left@, right@) == Ok::<EqualityPlan, Seq<char>>(p),
            Err(e) => equality_plan(left@, right@) == Err::<EqualityPlan, Seq<char>>(e@),
        },
{
    match (left, right) {
        (ValueType::Optional(_), ValueType::Void) => Ok(
            EqualityPlan::NilCheck { optional_on_left: true },
        ),
        (ValueType::Void, ValueType::Optional(_)) => Ok(
            EqualityPlan::NilCheck { optional_on_left: false },
        ),
        (ValueType::Optional(a), ValueType::Optional(b)) => {
            if !value_types_equal(a, b) {
                Err(String::from_str("cannot compare optionals with different inner types"))
            } else {
                same_type_equality_plan(left)
            }
        },
        (ValueType::Optional(_), _) => match conversion_plan(right, left) {
            Ok(c) => match same_type_equality_plan(left) {
                Ok(p) => Ok(EqualityPlan::ConvertRight(c, Box::new(p))),
                Err(e) => Err(e),
            },
            Err(e) => Err(e),
        },
        (_, ValueType::Optional(_)) => match conversion_plan(left, right) {
            Ok(c) => match same_type_equality_plan(right) {
                Ok(p) => Ok(EqualityPlan::ConvertLeft(c, Box::new(p))),
                Err(e) => Err(e),
            },
            Err(e) => Err(e),
        },
        (ValueType::Int, ValueType::Int) => Ok(EqualityPlan::Integers),
        (ValueType::Float, ValueType::Float) => Ok(
            EqualityPlan::Floats { cast_left: false, cast_right: false },
        ),
        (ValueType::Int, ValueType::Float) => Ok(
            EqualityPlan::Floats { cast_left: true, cast_right: false },
        ),
        (ValueType::Float, ValueType::Int) => Ok(
            EqualityPlan::Floats { cast_left: false, cast_right: true },
        ),
        (ValueType::Bool, ValueType::Bool) => Ok(EqualityPlan::Integers),
        (ValueType::String, ValueType::String) => Ok(EqualityPlan::Runtime(RuntimeEquality::String)),
        (ValueType::List(_), ValueType::List(_)) => Ok(EqualityPlan::Runtime(RuntimeEquality::List)),
        (ValueType::Struct(a), ValueType::Struct(b)) => {
            if !(*a == *b) {
                let mut msg = String::from_str("cannot compare structs '");
                msg.append(a.as_str());
                msg.append("' and '");
                msg.append(b.as_str());
                msg.append("'");
                Err(msg)
            } else {
                Ok(EqualityPlan::Runtime(RuntimeEquality::Struct))
            }
        },
        (ValueType::Function(_, _), ValueType::Function(_, _)) => Ok(
            EqualityPlan::Runtime(RuntimeEquality::Closure),
        ),
        (ValueType::Dict(_), ValueType::Dict(_)) => Ok(EqualityPlan::Runtime(RuntimeEquality::Dict)),
        (ValueType::String, ValueType::Void) => Ok(EqualityPlan::NullString),
        (ValueType::Void, ValueType::String) => Ok(EqualityPlan::NullString),
        (ValueType::Void, ValueType::Void) => Ok(EqualityPlan::Nils),
        _ => Err(String::from_str("unsupported equality comparison")),
    }
}

/// A value that already has the expected type is kept as it is.
pub proof fn lemma_conversion_to_own_type(t: SpecValueType)
    ensures
        conversion(t, t) == Ok::<Conversion, Seq<char>>(Conversion::Keep),
{
}

/// Whether two values can be compared does not depend on their order.
pub proof fn lemma_equality_support_symmetric(l: SpecValueType, r: SpecValueType)
    ensures
        equality_plan(l, r) is Ok <==> equality_plan(r, l) is Ok,
{
}

} // verus!
