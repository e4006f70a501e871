//! Calls: which symbol a direct call reaches, which error variant a call
//! constructs, and how the arguments of a call are checked.
use vstd::prelude::*;

use crate::aot::errors::{find_variant, variant_index_from};
use crate::aot::types::{mangle_function_name, mangled_name};
use crate::ast::{CallArgument, SourceSpan};
use crate::names::NameMap;
use crate::text::{decimal, push_decimal};
use crate::typechecker::{types_view, ErrorDefinition, FunctionInstance};

verus! {

/// The first call-site record at or after `i` for `span`.
pub open spec fn call_record_from(calls: Seq<(SourceSpan, (String, FunctionInstance))>, span: SourceSpan, i: int) -> Option<int>
    decreases calls.len() - i,
{
    if i < 0 || i >= calls.len() {
        None
    } else if calls[i].0 == span {
        Some(i)
    } else {
        call_record_from(calls, span, i + 1)
    }
}

/// The symbol a direct call of `name` at `span` reaches, and the name its
/// messages use: a call the type checker recorded as a generic instance
/// reaches the instance's mangled symbol.
pub open spec fn direct_call_symbol(
    calls: Seq<(SourceSpan, (String, FunctionInstance))>,
    name: Seq<char>,
    span: SourceSpan,
) -> (Seq<char>, Seq<char>) {
    match call_record_from(calls, span, 0) {
        Some(i) => (mangled_name(name, types_view(calls[i].1.1.type_arguments@)), name),
        None => (name, name),
    }
}

/// The symbol a direct call of `name` at `span` reaches, and the name its
/// messages use (see [`direct_call_symbol`]).
pub fn direct_call_target(
    calls: &Vec<(SourceSpan, (String, FunctionInstance))>,
    name: &str,
    span: SourceSpan,
) -> (r: (String, String))
    ensures
        (r.0@, r.1@) == direct_call_symbol(calls@, name@, span),
{
    let mut i: usize = 0;
    while i < calls.len()
        invariant
            i <= calls@.len(),
            call_record_from(calls@, span, i as int) == call_record_from(calls@, span, 0),
        decreases calls@.len() - i,
    {
        if calls[i].0 == span {
            let symbol = mangle_function_name(name, calls[i].1.1.type_arguments.as_slice());
            return (symbol, String::from_str(name));
        }
        i = i + 1;
    }
    (String::from_str(name), String::from_str(name))
}

/// The message for a call of a function with the wrong number of
/// arguments.
pub open spec fn call_arity_message(display: Seq<char>, expected: nat, found: nat) -> Seq<char> {
    "call to '"@ + display + "' expects "@ + decimal(expected) + " arguments, found "@ + decimal(
        found,
    )
}

/// The error for a call of function `display` taking `expected` arguments
/// with `found` arguments, if the counts differ.
pub fn call_arity_error(display: &str, expected: usize, found: usize) -> (r: Option<String>)
    ensures
        expected == found ==> r is None,
        expected != found ==> (r matches Some(m) && m@ == call_arity_message(
            display@,
            expected as nat,
            found as nat,
        )),
{
    if expected == found {
        return None;
    }
    let mut msg = String::from_str("call to '");
    msg.append(display);
    msg.append("' expects ");
    push_decimal(&mut msg, expected);
    msg.append(" arguments, found ");
    push_decimal(&mut msg, found);
    Some(msg)
}

/// The message for a closure call with the wrong number of arguments.
pub open spec fn closure_arity_message(expected: nat, found: nat) -> Seq<char> {
    "closure expects "@ + decimal(expected) + " arguments, found "@ + decimal(found)
}

/// The error for a call of a closure taking `expected` arguments with
/// `found` arguments, if the counts differ.
pub fn closure_arity_error(expected: usize, found: usize) -> (r: Option<String>)
    ensures
        expected == found ==> r is None,
        expected != found ==> (r matches Some(m) && m@ == closure_arity_message(
            expected as nat,
            found as nat,
        )),
{
    if expected == found {
        return None;
    }
    let mut msg = String::from_str("closure expects ");
    push_decimal(&mut msg, expected);
    msg.append(" arguments, found ");
    push_decimal(&mut msg, found);
    Some(msg)
}

/// The position of the first named argument, if any: arguments before it
/// are compiled, and it is refused (named arguments are not supported in
/// function, closure and error-constructor calls).
pub open spec fn first_named_from(args: Seq<CallArgument>, i: int) -> Option<int>
    decreases args.len() - i,
{
    if i < 0 || i >= args.len() {
        None
    } else if args[i].name is Some {
        Some(i)
    } else {
        first_named_from(args, i + 1)
    }
}

/// The position of the first named argument (see [`first_named_from`]).
pub fn first_named_argument(arguments: &[CallArgument]) -> (r: Option<usize>)
    ensures
        match r {
            Some(i) => first_named_from(arguments@, 0) == Some(i as int),
            None => first_named_from(arguments@, 0) is None,
        },
{
    let mut i: usize = 0;
    while i < arguments.len()
        invariant
            i <= arguments@.len(),
            first_named_from(arguments@, i as int) == first_named_from(arguments@, 0),
        decreases arguments@.len() - i,
    {
        if arguments[i].name.is_some() {
            return Some(i);
        }
        i = i + 1;
    }
    None
}

/// Where an argument whose value does not convert to its parameter's type
/// was passed.
#[derive(Debug)]
pub enum ArgumentSite {
    /// A direct call of the function with this display name.
    Function(String),
    /// A call of a closure value.
    Closure,
    /// A call of a closure made by a list method.
    Callback,
    /// A constructor of this error variant.
    ErrorVariant(String, String),
}

/// The message for argument `position` (counting from one) whose value
/// does not convert to the parameter's type.
pub open spec fn argument_mismatch_message(site: ArgumentSite, position: nat, error: Seq<char>) -> Seq<
    char,
> {
    "argument "@ + decimal(position) + match site {
        ArgumentSite::Function(f) => " to '"@ + f@ + "'"@,
        ArgumentSite::Closure => " to closure"@,
        ArgumentSite::Callback => Seq::empty(),
        ArgumentSite::ErrorVariant(e, v) => " for error '"@ + e@ + "."@ + v@ + "'"@,
    } + " has mismatched type: "@ + error
}

/// The message for the argument at `index` (counting from zero) whose
/// value does not convert (see [`argument_mismatch_message`]).
pub fn argument_mismatch_error(site: &ArgumentSite, index: usize, error: &str) -> (r: String)
    requires
        index < usize::MAX,
    ensures
        r@ == argument_mismatch_message(*site, (index + 1) as nat, error@),
{
    let mut msg = String::from_str("argument ");
    push_decimal(&mut msg, index + 1);
    match site {
        ArgumentSite::Function(f) => {
            msg.append(" to '");
            msg.append(f.as_str());
            msg.append("'");
        },
        ArgumentSite::Closure => {
            msg.append(" to closure");
        },
        ArgumentSite::Callback => {},
        ArgumentSite::ErrorVariant(e, v) => {
            msg.append(" for error '");
            msg.append(e.as_str());
            msg.append(".");
            msg.append(v.as_str());
            msg.append("'");
        },
    }
    msg.append(" has mismatched type: ");
    msg.append(error);
    proof {
        let mid = match site {
            ArgumentSite::Function(f) => " to '"@ + f@ + "'"@,
            ArgumentSite::Closure => " to closure"@,
            ArgumentSite::Callback => Seq::<char>::empty(),
            ArgumentSite::ErrorVariant(e, v) => " for error '"@ + e@ + "."@ + v@ + "'"@,
        };
        assert(msg@ =~= "argument "@ + decimal((index + 1) as nat) + mid + " has mismatched type: "@
            + error@);
    }
    msg
}

/// The variant a call of `error_name` constructs: the named variant, or
/// the only variant when none is named; none when the name is not an error
/// with such a variant (the call is then not a constructor). The number of
/// arguments must match the variant's fields.
pub open spec fn error_constructor_plan(
    defs: Map<Seq<char>, ErrorDefinition>,
    error_name: Seq<char>,
    variant: Option<Seq<char>>,
    arg_count: nat,
) -> Result<Option<Seq<char>>, Seq<char>> {
    if !defs.dom().contains(error_name) {
        Ok(None)
    } else {
        let vs = defs[error_name].variants@;
        let chosen = match variant {
            Some(v) => variant_index_from(vs, v, 0),
            None => if vs.len() == 1 {
                Some(0int)
            } else {
                None
            },
        };
        match chosen {
            None => Ok(None),
            Some(i) => if arg_count != vs[i].fields@.len() {
                Err(
                    "error variant '"@ + error_name + "."@ + vs[i].name@ + "' expects "@ + decimal(
                        vs[i].fields@.len(),
                    ) + " argument(s) but "@ + decimal(arg_count) + " provided"@,
                )
            } else {
                Ok(Some(vs[i].name@))
            },
        }
    }
}

/// The variant a call of `error_name` with `arg_count` arguments
/// constructs, if the call is an error constructor (see
/// [`error_constructor_plan`]).
pub fn error_constructor_variant(
    defs: &NameMap<ErrorDefinition>,
    error_name: &str,
    variant: Option<&str>,
    arg_count: usize,
) -> (r: Result<Option<String>, String>)
    ensures
        match r {
            Ok(Some(v)) => error_constructor_plan(
                defs@,
                error_name@,
                match variant {
                    Some(v) => Some(v@),
                    None => None,
                },
                arg_count as nat,
            ) == Ok::<Option<Seq<char>>, Seq<char>>(Some(v@)),
            Ok(None) => error_constructor_plan(
                defs@,
                error_name@,
                match variant {
                    Some(v) => Some(v@),
                    None => None,
                },
                arg_count as nat,
            ) == Ok::<Option<Seq<char>>, Seq<char>>(None),
            Err(e) => error_constructor_plan(
                defs@,
                error_name@,
                match variant {
                    Some(v) => Some(v@),
                    None => None,
                },
                arg_count as nat,
            ) == Err::<Option<Seq<char>>, Seq<char>>(e@),
        },
{
    let def = match defs.get(error_name) {
        Some(d) => d,
        None => return Ok(None),
    };
    let index = match variant {
        Some(v) => match find_variant(&def.variants, v) {
            Some(i) => i,
            None => return Ok(None),
        },
        None => {
            if def.variants.len() == 1 {
                0
            } else {
                return Ok(None);
            }
        },
    };
    let vdef = &def.variants[index];
    let expected = vdef.fields.len();
    if arg_count != expected {
        let mut msg = String::from_str("error variant '");
        msg.append(error_name);
        msg.append(".");
        msg.append(vdef.name.as_str());
        msg.append("' expects ");
        push_decimal(&mut msg, expected);
        msg.append(" argument(s) but ");
        push_decimal(&mut msg, arg_count);
        msg.append(" provided");
        return Err(msg);
    }
    Ok(Some(vdef.name.clone()))
}

} // verus!
