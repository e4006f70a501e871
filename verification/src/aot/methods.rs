//! Methods of lists and dictionaries: which method a name calls, what its
//! callback must be, and the type of its result.
use vstd::prelude::*;

use crate::aot::types::{
    clone_value_type, clone_value_types, value_type_view, value_types_view, ExprValue, IrRef, SpecValueType, ValueType,
};
use crate::text::str_eq;

verus! {

/// The methods a list has that take a callback.
#[derive(Debug, Clone, Copy, PartialEq, Eq, Structural)]
pub enum ListMethod {
    MapEach,
    Filter,
    Reduce,
    Find,
    Any,
    All,
}

/// The list method a name calls, if any.
pub open spec fn list_method_named(name: Seq<char>) -> Option<ListMethod> {
    if name == "map"@ {
        Some(ListMethod::MapEach)
    } else if name == "filter"@ {
        Some(ListMethod::Filter)
    } else if name == "reduce"@ {
        Some(ListMethod::Reduce)
    } else if name == "find"@ {
        Some(ListMethod::Find)
    } else if name == "any"@ {
        Some(ListMethod::Any)
    } else if name == "all"@ {
        Some(ListMethod::All)
    } else {
        None
    }
}

/// The list method `name` calls (see [`list_method_named`]); any other
/// name is an unknown method.
pub fn list_method(name: &str) -> (r: Result<ListMethod, String>)
    ensures
        match list_method_named(name@) {
            Some(m) => r == Ok::<ListMethod, String>(m),
            None => r matches Err(e) && e@ == "unknown List method: "@ + name@,
        },
{
    if str_eq(name, "map") {
        Ok(ListMethod::MapEach)
    } else if str_eq(name, "filter") {
        Ok(ListMethod::Filter)
    } else if str_eq(name, "reduce") {
        Ok(ListMethod::Reduce)
    } else if str_eq(name, "find") {
        Ok(ListMethod::Find)
    } else if str_eq(name, "any") {
        Ok(ListMethod::Any)
    } else if str_eq(name, "all") {
        Ok(ListMethod::All)
    } else {
        let mut msg = String::from_str("unknown List method: ");
        msg.append(name);
        Err(msg)
    }
}

/// The name of a list method as messages write it.
pub open spec fn list_method_word(m: ListMethod) -> Seq<char> {
    match m {
        ListMethod::MapEach => "map"@,
        ListMethod::Filter => "filter"@,
        ListMethod::Reduce => "reduce"@,
        ListMethod::Find => "find"@,
        ListMethod::Any => "any"@,
        ListMethod::All => "all"@,
    }
}

/// The callback of a list method, which must be a closure: its pointer,
/// parameter types and return type.
pub open spec fn list_callback_of(m: ListMethod, callback: ExprValue) -> Result<
    (IrRef, Seq<SpecValueType>, SpecValueType),
    Seq<char>,
> {
    match callback {
        ExprValue::Closure { pointer, param_types, return_type } => Ok(
            (pointer, value_types_view(param_types@), return_type@),
        ),
        _ => Err("List."@ + list_method_word(m) + " expects a function argument"@),
    }
}

/// The callback of a list method (see [`list_callback_of`]).
pub fn list_callback(m: ListMethod, callback: &ExprValue) -> (r: Result<
    (IrRef, Vec<ValueType>, ValueType),
    String,
>)
    ensures
        match r {
            Ok((p, ps, rt)) => list_callback_of(m, *callback) == Ok::<
                (IrRef, Seq<SpecValueType>, SpecValueType),
                Seq<char>,
            >((p, value_types_view(ps@), rt@)),
            Err(e) => list_callback_of(m, *callback) == Err::<
                (IrRef, Seq<SpecValueType>, SpecValueType),
                Seq<char>,
            >(e@),
        },
{
    match callback {
        ExprValue::Closure { pointer, param_types, return_type } => Ok(
            (*pointer, clone_value_types(param_types), clone_value_type(return_type)),
        ),
        _ => {
            let word = match m {
                ListMethod::MapEach => "map",
                ListMethod::Filter => "filter",
                ListMethod::Reduce => "reduce",
                ListMethod::Find => "find",
                ListMethod::Any => "any",
                ListMethod::All => "all",
            };
            let mut msg = String::from_str("List.");
            msg.append(word);
            msg.append(" expects a function argument");
            Err(msg)
        },
    }
}

/// The message for a predicate callback that did not return a `Bool`.
pub open spec fn predicate_message(m: ListMethod) -> Seq<char> {
    match m {
        ListMethod::Filter => "filter predicate must return Bool"@,
        ListMethod::Find => "find predicate must return Bool"@,
        _ => "predicate must return Bool"@,
    }
}

/// The value a predicate callback of `filter`, `find`, `any` or `all`
/// returned, which must be a `Bool` (see [`predicate_message`]).
pub fn predicate_result(m: ListMethod, result: &ExprValue) -> (r: Result<IrRef, String>)
    ensures
        match result {
            ExprValue::Bool(v) => r == Ok::<IrRef, String>(*v),
            _ => r matches Err(e) && e@ == predicate_message(m),
        },
{
    match result {
        ExprValue::Bool(v) => Ok(*v),
        _ => {
            let msg = match m {
                ListMethod::Filter => "filter predicate must return Bool",
                ListMethod::Find => "find predicate must return Bool",
                _ => "predicate must return Bool",
            };
            Err(String::from_str(msg))
        },
    }
}

/// The type of the result of a list method on a list of `element`: `map`
/// gives a list of what the callback returns, `filter` a list of the same
/// elements, `reduce` the type of its initial value, `find` an optional
/// element, `any` and `all` a `Bool`.
pub open spec fn list_method_type(
    m: ListMethod,
    element: SpecValueType,
    callback_return: SpecValueType,
    initial: SpecValueType,
) -> SpecValueType {
    match m {
        ListMethod::MapEach => SpecValueType::List(Box::new(callback_return)),
        ListMethod::Filter => SpecValueType::List(Box::new(element)),
        ListMethod::Reduce => initial,
        ListMethod::Find => SpecValueType::Optional(Box::new(element)),
        ListMethod::Any | ListMethod::All => SpecValueType::Bool,
    }
}

/// The type of the result of a list method (see [`list_method_type`]).
pub fn list_method_result_type(
    m: ListMethod,
    element: &ValueType,
    callback_return: &ValueType,
    initial: &ValueType,
) -> (r: ValueType)
    ensures
        r@ == list_method_type(m, element@, callback_return@, initial@),
{
    match m {
        ListMethod::MapEach => ValueType::List(Box::new(clone_value_type(callback_return))),
        ListMethod::Filter => ValueType::List(Box::new(clone_value_type(element))),
        ListMethod::Reduce => clone_value_type(initial),
        ListMethod::Find => ValueType::Optional(Box::new(clone_value_type(element))),
        ListMethod::Any | ListMethod::All => ValueType::Bool,
    }
}

/// The methods a dictionary has.
#[derive(Debug, Clone, Copy, PartialEq, Eq, Structural)]
pub enum DictMethod {
    Keys,
    Values,
    Entries,
}

/// The dictionary method a name calls, if any.
pub open spec fn dict_method_named(name: Seq<char>) -> Option<DictMethod> {
    if name == "keys"@ {
        Some(DictMethod::Keys)
    } else if name == "values"@ {
        Some(DictMethod::Values)
    } else if name == "entries"@ {
        Some(DictMethod::Entries)
    } else {
        None
    }
}

/// The type of the result of a dictionary method on a dictionary of
/// `value`: its keys are a list of strings, its values a list of `value`,
/// its entries a list of dictionaries of `value`.
pub open spec fn dict_method_type(m: DictMethod, value: SpecValueType) -> SpecValueType {
    match m {
        DictMethod::Keys => SpecValueType::List(Box::new(SpecValueType::String)),
        DictMethod::Values => SpecValueType::List(Box::new(value)),
        DictMethod::Entries => SpecValueType::List(
            Box::new(SpecValueType::Dict(Box::new(value))),
        ),
    }
}

/// The dictionary method `name` calls (see [`dict_method_named`]); any
/// other name is an unknown method.
pub fn dict_method(name: &str) -> (r: Result<DictMethod, String>)
    ensures
        match dict_method_named(name@) {
            Some(m) => r == Ok::<DictMethod, String>(m),
            None => r matches Err(e) && e@ == "unknown Dict method: "@ + name@,
        },
{
    if str_eq(name, "keys") {
        Ok(DictMethod::Keys)
    } else if str_eq(name, "values") {
        Ok(DictMethod::Values)
    } else if str_eq(name, "entries") {
        Ok(DictMethod::Entries)
    } else {
        let mut msg = String::from_str("unknown Dict method: ");
        msg.append(name);
        Err(msg)
    }
}

/// The type of the result of a dictionary method (see
/// [`dict_method_type`]).
pub fn dict_method_result_type(m: DictMethod, value_type: &ValueType) -> (r: ValueType)
    ensures
        r@ == dict_method_type(m, value_type@),
{
    match m {
        DictMethod::Keys => {
            let out = ValueType::List(Box::new(ValueType::String));
            proof {
                reveal_with_fuel(value_type_view, 2);
            }
            out
        },
        DictMethod::Values => ValueType::List(Box::new(clone_value_type(value_type))),
        DictMethod::Entries => ValueType::List(
            Box::new(ValueType::Dict(Box::new(clone_value_type(value_type)))),
        ),
    }
}

} // verus!
