//! Function bodies: the generic bindings of an instance, how parameters
//! are held, and what a body that falls off its end means.
use vstd::prelude::*;

use crate::aot::statements::{find_mutated_parameters, mutated_in_statements, name_set};
use crate::aot::types::{
    clone_value_type, lower_type, lowering_error_message, type_to_value_type, SpecLoweringError,
    SpecValueType, ValueType,
};
use crate::ast::{FunctionStatement, Statement, TypeParameter};
use crate::names::NameMap;
use crate::typechecker::{clone_type, FunctionInstance, SpecType, Type};
use crate::text::str_eq;

verus! {

/// The bindings of type parameters to type arguments, each with its
/// representation, made in order (a parameter named twice takes its later
/// argument); the first argument without a representation is the error.
pub open spec fn parameter_bindings(params: Seq<TypeParameter>, args: Seq<SpecType>) -> Result<
    Map<Seq<char>, (SpecType, SpecValueType)>,
    Seq<char>,
>
    decreases params.len(),
{
    if params.len() == 0 || args.len() == 0 {
        Ok(Map::empty())
    } else {
        match parameter_bindings(params.drop_last(), args.drop_last()) {
            Err(e) => Err(e),
            Ok(m) => match lower_type(args.last()) {
                Err(e) => Err(lowering_error_message(e)),
                Ok(v) => Ok(m.insert(params.last().name@, (args.last(), v))),
            },
        }
    }
}

/// The generic scope of instance `inst` of `function`: one type argument
/// for each type parameter, else an error.
pub open spec fn instance_scope(function: FunctionStatement, inst: FunctionInstance) -> Result<
    Map<Seq<char>, (SpecType, SpecValueType)>,
    Seq<char>,
> {
    if function.type_parameters@.len() != inst.type_arguments@.len() {
        Err("function '"@ + function.name@ + "' instantiation parameter mismatch"@)
    } else {
        parameter_bindings(function.type_parameters@, crate::typechecker::types_view(inst.type_arguments@))
    }
}

/// The plain view of a scope of generic bindings.
pub open spec fn scope_view(m: Map<Seq<char>, (Type, ValueType)>) -> Map<
    Seq<char>,
    (SpecType, SpecValueType),
> {
    m.map_values(|b: (Type, ValueType)| (b.0@, b.1@))
}

/// The generic bindings a body of instance `instance` is compiled under
/// (see [`instance_scope`]).
pub fn instance_generic_scope(function: &FunctionStatement, instance: &FunctionInstance) -> (r: Result<
    NameMap<(Type, ValueType)>,
    String,
>)
    ensures
        match r {
            Ok(m) => instance_scope(*function, *instance) == Ok::<
                Map<Seq<char>, (SpecType, SpecValueType)>,
                Seq<char>,
            >(scope_view(m@)),
            Err(e) => instance_scope(*function, *instance) == Err::<
                Map<Seq<char>, (SpecType, SpecValueType)>,
                Seq<char>,
            >(e@),
        },
{
    let n = function.type_parameters.len();
    if n != instance.type_arguments.len() {
        let mut msg = String::from_str("function '");
        msg.append(function.name.as_str());
        msg.append("' instantiation parameter mismatch");
        return Err(msg);
    }
    let ghost params = function.type_parameters@;
    let ghost args = crate::typechecker::types_view(instance.type_arguments@);
    proof {
        crate::typechecker::lemma_types_view(instance.type_arguments@);
    }
    let mut scope: NameMap<(Type, ValueType)> = NameMap::new();
    let mut i: usize = 0;
    proof {
        assert(params.take(0) =~= Seq::<TypeParameter>::empty());
        assert(scope_view(scope@) =~= Map::<Seq<char>, (SpecType, SpecValueType)>::empty());
    }
    while i < n
        invariant
            i <= n,
            n == params.len(),
            n == instance.type_arguments@.len(),
            params == function.type_parameters@,
            args == crate::typechecker::types_view(instance.type_arguments@),
            args.len() == n,
            forall|j: int| 0 <= j < n ==> #[trigger] args[j] == instance.type_arguments@[j]@,
            parameter_bindings(params.take(i as int), args.take(i as int)) == Ok::<
                Map<Seq<char>, (SpecType, SpecValueType)>,
                Seq<char>,
            >(scope_view(scope@)),
        decreases n - i,
    {
        proof {
            assert(params.take(i + 1).drop_last() =~= params.take(i as int));
            assert(args.take(i + 1).drop_last() =~= args.take(i as int));
            assert(args.take(i + 1).last() == args[i as int]);
        }
        let ty = &instance.type_arguments[i];
        match type_to_value_type(ty) {
            Err(e) => {
                proof {
                    lemma_bindings_error_sticks(params, args, i + 1);
                    assert(params.take(n as int) =~= params);
                    assert(args.take(n as int) =~= args);
                }
                return Err(e.message());
            },
            Ok(v) => {
                let ghost before = scope@;
                scope.insert(function.type_parameters[i].name.clone(), (clone_type(ty), v));
                proof {
                    assert(scope_view(scope@) =~= scope_view(before).insert(
                        params[i as int].name@,
                        (args[i as int], v@),
                    ));
                }
            },
        }
        i = i + 1;
    }
    proof {
        assert(params.take(n as int) =~= params);
        assert(args.take(n as int) =~= args);
    }
    Ok(scope)
}

/// Once a binding fails, binding more parameters keeps the error.
proof fn lemma_bindings_error_sticks(params: Seq<TypeParameter>, args: Seq<SpecType>, k: int)
    requires
        0 <= k <= params.len(),
        params.len() == args.len(),
        parameter_bindings(params.take(k), args.take(k)) is Err,
    ensures
        parameter_bindings(params, args) == parameter_bindings(params.take(k), args.take(k)),
    decreases params.len(),
{
    if k == params.len() {
        assert(params.take(k) =~= params);
        assert(args.take(k) =~= args);
    } else {
        assert(params.drop_last().take(k) =~= params.take(k));
        assert(args.drop_last().take(k) =~= args.take(k));
        lemma_bindings_error_sticks(params.drop_last(), args.drop_last(), k);
    }
}

/// How each parameter of `function` is held in its body: its name, its
/// type from `param_types`, and whether it lives in a stack slot, which it
/// does when the body assigns to it; any other parameter stays the value
/// of its argument.
pub open spec fn parameter_storage(function: FunctionStatement, param_types: Seq<SpecValueType>) -> Seq<
    (Seq<char>, SpecValueType, bool),
> {
    Seq::new(
        function.parameters@.len(),
        |i: int|
            (
                function.parameters@[i].name@,
                param_types[i],
                mutated_in_statements(function.body.statements@).contains(
                    function.parameters@[i].name@,
                ),
            ),
    )
}

/// The plain view of a list of parameter storage decisions.
pub open spec fn storage_view(r: Seq<(String, ValueType, bool)>) -> Seq<
    (Seq<char>, SpecValueType, bool),
> {
    r.map_values(|e: (String, ValueType, bool)| (e.0@, e.1@, e.2))
}

/// How each parameter of `function` is held in its body (see
/// [`parameter_storage`]); `param_types` are the lowered parameter types of
/// its signature.
pub fn parameter_locals(function: &FunctionStatement, param_types: &Vec<ValueType>) -> (r: Vec<
    (String, ValueType, bool),
>)
    requires
        param_types@.len() >= function.parameters@.len(),
    ensures
        storage_view(r@) == parameter_storage(
            *function,
            crate::aot::types::value_types_view(param_types@),
        ),
{
    let mutated = find_mutated_parameters(function);
    let ghost views = crate::aot::types::value_types_view(param_types@);
    proof {
        crate::aot::types::lemma_value_types_view(param_types@);
    }
    let mut r: Vec<(String, ValueType, bool)> = Vec::new();
    let mut i: usize = 0;
    while i < function.parameters.len()
        invariant
            i <= function.parameters@.len(),
            param_types@.len() >= function.parameters@.len(),
            views == crate::aot::types::value_types_view(param_types@),
            views.len() == param_types@.len(),
            forall|j: int| 0 <= j < param_types@.len() ==> #[trigger] views[j] == param_types@[j]@,
            name_set(mutated@) == mutated_in_statements(function.body.statements@),
            storage_view(r@) == parameter_storage(*function, views).take(i as int),
        decreases function.parameters@.len() - i,
    {
        let param = &function.parameters[i];
        let mut is_mutable = false;
        let mut k: usize = 0;
        while k < mutated.len()
            invariant
                k <= mutated@.len(),
                is_mutable <==> exists|j: int| 0 <= j < k && mutated@[j]@ == param.name@,
            decreases mutated@.len() - k,
        {
            if str_eq(mutated[k].as_str(), param.name.as_str()) {
                is_mutable = true;
            }
            k = k + 1;
        }
        proof {
            if is_mutable {
                let j = choose|j: int| 0 <= j < mutated@.len() && mutated@[j]@ == param.name@;
                assert(name_set(mutated@).contains(mutated@[j]@));
            } else {
                if name_set(mutated@).contains(param.name@) {
                    let j = choose|j: int| 0 <= j < mutated@.len() && mutated@[j]@ == param.name@;
                    assert(false);
                }
            }
        }
        let ghost before = r@;
        r.push((param.name.clone(), clone_value_type(&param_types[i]), is_mutable));
        proof {
            assert(is_mutable == mutated_in_statements(function.body.statements@).contains(
                param.name@,
            ));
            assert(views[i as int] == param_types@[i as int]@);
            let ps = parameter_storage(*function, views);
            assert(storage_view(r@) =~= storage_view(before).push(
                (param.name@, param_types@[i as int]@, is_mutable),
            ));
            assert(ps.take(i + 1) =~= ps.take(i as int).push(ps[i as int]));
            assert(storage_view(r@) =~= parameter_storage(*function, views).take(i + 1));
        }
        i = i + 1;
    }
    proof {
        assert(parameter_storage(*function, views).take(i as int) =~= parameter_storage(
            *function,
            views,
        ));
    }
    r
}

/// What a function must return that its body may not: the kind of value
/// named in the message when the end of a body is reachable; nothing for a
/// function that returns no value.
pub open spec fn missing_return_kind(t: SpecValueType) -> Option<Seq<char>> {
    match t {
        SpecValueType::Void => None,
        SpecValueType::Int => Some("Int"@),
        SpecValueType::Float => Some("Float"@),
        SpecValueType::Bool => Some("Bool"@),
        SpecValueType::String => Some("String"@),
        SpecValueType::List(_) => Some("List"@),
        SpecValueType::Dict(_) => Some("Dict"@),
        SpecValueType::Struct(_) => Some("Struct"@),
        SpecValueType::Error { .. } => Some("Error value"@),
        SpecValueType::Function(_, _) => Some("function value"@),
        SpecValueType::Optional(_) => Some("Optional value"@),
    }
}

/// The error for a body of function `name` whose end is reachable: none
/// when it returns no value, else that it may exit without returning one.
pub fn missing_return_error(name: &str, return_type: &ValueType) -> (r: Option<String>)
    ensures
        match missing_return_kind(return_type@) {
            None => r is None,
            Some(kind) => r matches Some(m) && m@ == "function '"@ + name@
                + "' may exit without returning "@ + kind,
        },
{
    let kind = match return_type {
        ValueType::Void => {
            return None;
        },
        ValueType::Int => "Int",
        ValueType::Float => "Float",
        ValueType::Bool => "Bool",
        ValueType::String => "String",
        ValueType::List(_) => "List",
        ValueType::Dict(_) => "Dict",
        ValueType::Struct(_) => "Struct",
        ValueType::Error { .. } => "Error value",
        ValueType::Function(_, _) => "function value",
        ValueType::Optional(_) => "Optional value",
    };
    let mut msg = String::from_str("function '");
    msg.append(name);
    msg.append("' may exit without returning ");
    msg.append(kind);
    Some(msg)
}

/// What the program's entry function does with a top-level statement.
#[derive(Debug, Clone, Copy, PartialEq, Eq, Structural)]
pub enum TopLevelRole {
    /// Nothing: imports, functions and tests are handled elsewhere.
    Skip,
    /// A binding of the module, stored in its global.
    Global,
    /// A statement run when the program starts.
    Run,
}

/// What the entry function does with a top-level statement; a top-level
/// `return` is refused.
pub open spec fn top_level_role_of(s: Statement) -> Result<TopLevelRole, Seq<char>> {
    match s {
        Statement::Use(_) | Statement::Function(_) | Statement::Test(_) => Ok(TopLevelRole::Skip),
        Statement::Var(_) => Ok(TopLevelRole::Global),
        Statement::Return(_) => Err("return at top level not supported"@),
        _ => Ok(TopLevelRole::Run),
    }
}

/// What the entry function does with a top-level statement (see
/// [`top_level_role_of`]).
pub fn top_level_role(statement: &Statement) -> (r: Result<TopLevelRole, String>)
    ensures
        match r {
            Ok(x) => top_level_role_of(*statement) == Ok::<TopLevelRole, Seq<char>>(x),
            Err(e) => top_level_role_of(*statement) == Err::<TopLevelRole, Seq<char>>(e@),
        },
{
    match statement {
        Statement::Use(_) | Statement::Function(_) | Statement::Test(_) => Ok(TopLevelRole::Skip),
        Statement::Var(_) => Ok(TopLevelRole::Global),
        Statement::Return(_) => Err(String::from_str("return at top level not supported")),
        _ => Ok(TopLevelRole::Run),
    }
}

} // verus!
