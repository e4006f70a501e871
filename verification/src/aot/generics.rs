//! Substituting and resolving generic parameters in checked types.
use vstd::prelude::*;

use crate::aot::scopes::{generic_binding, GenericBindings};
use crate::names::NameMap;
use crate::typechecker::{
    clone_type, lemma_types_view, type_view, types_view, SpecType, StructType, Type,
};

verus! {

/// The checked types a name table binds.
pub open spec fn type_map_view(m: Map<Seq<char>, Type>) -> Map<Seq<char>, SpecType> {
    m.map_values(|t: Type| type_view(t))
}

/// `t` with each generic parameter replaced by its entry in `m` (unknown
/// when `m` has none); the replacement reaches into lists, dictionaries,
/// function types and struct arguments, and leaves every other type as it
/// is.
pub open spec fn substituted(t: SpecType, m: Map<Seq<char>, SpecType>) -> SpecType
    decreases t,
{
    match t {
        SpecType::GenericParameter(name) => if m.dom().contains(name) {
            m[name]
        } else {
            SpecType::Unknown
        },
        SpecType::List(inner) => SpecType::List(Box::new(substituted(*inner, m))),
        SpecType::Dict(inner) => SpecType::Dict(Box::new(substituted(*inner, m))),
        SpecType::Function(params, ret) => SpecType::Function(
            substituted_list(params, m),
            Box::new(substituted(*ret, m)),
        ),
        SpecType::Struct(name, args) => SpecType::Struct(name, substituted_list(args, m)),
        other => other,
    }
}

pub open spec fn substituted_list(ts: Seq<SpecType>, m: Map<Seq<char>, SpecType>) -> Seq<SpecType>
    decreases ts,
{
    if ts.len() == 0 {
        Seq::empty()
    } else {
        substituted_list(ts.drop_last(), m).push(substituted(ts.last(), m))
    }
}

/// Whether a generic parameter occurs anywhere in `t`.
pub open spec fn mentions_generic(t: SpecType) -> bool
    decreases t,
{
    match t {
        SpecType::GenericParameter(_) => true,
        SpecType::List(inner) => mentions_generic(*inner),
        SpecType::Dict(inner) => mentions_generic(*inner),
        SpecType::Optional(inner) => mentions_generic(*inner),
        SpecType::Function(params, ret) => list_mentions_generic(params) || mentions_generic(*ret),
        SpecType::Struct(_, args) => list_mentions_generic(args),
        _ => false,
    }
}

pub open spec fn list_mentions_generic(ts: Seq<SpecType>) -> bool
    decreases ts,
{
    if ts.len() == 0 {
        false
    } else {
        list_mentions_generic(ts.drop_last()) || mentions_generic(ts.last())
    }
}

/// Whether an optional in `t` (or `t` itself, when it is one) holds a
/// generic parameter.
pub open spec fn optional_mentions_generic(t: SpecType) -> bool
    decreases t,
{
    match t {
        SpecType::Optional(inner) => mentions_generic(*inner),
        SpecType::List(inner) => optional_mentions_generic(*inner),
        SpecType::Dict(inner) => optional_mentions_generic(*inner),
        SpecType::Function(params, ret) => list_optional_mentions_generic(params) || optional_mentions_generic(*ret),
        SpecType::Struct(_, args) => list_optional_mentions_generic(args),
        _ => false,
    }
}

pub open spec fn list_optional_mentions_generic(ts: Seq<SpecType>) -> bool
    decreases ts,
{
    if ts.len() == 0 {
        false
    } else {
        list_optional_mentions_generic(ts.drop_last()) || optional_mentions_generic(ts.last())
    }
}

/// Substituting with a mapping whose types hold no generic parameter
/// leaves none: every generic parameter of `t` is replaced (by its entry,
/// or by the unknown type when it has none), in lists, dictionaries,
/// function types and struct arguments alike. Optionals are left as they
/// are, so `t` must have no generic parameter inside an optional.
pub proof fn lemma_substitution_leaves_no_generic(t: SpecType, m: Map<Seq<char>, SpecType>)
    requires
        forall|n: Seq<char>| m.dom().contains(n) ==> !mentions_generic(#[trigger] m[n]),
        !optional_mentions_generic(t),
    ensures
        !mentions_generic(substituted(t, m)),
    decreases t,
{
    match t {
        SpecType::List(inner) => lemma_substitution_leaves_no_generic(*inner, m),
        SpecType::Dict(inner) => lemma_substitution_leaves_no_generic(*inner, m),
        SpecType::Function(params, ret) => {
            lemma_substitution_list_leaves_no_generic(params, m);
            lemma_substitution_leaves_no_generic(*ret, m);
        },
        SpecType::Struct(_, args) => lemma_substitution_list_leaves_no_generic(args, m),
        _ => {},
    }
}

/// [`lemma_substitution_leaves_no_generic`] for each type of a list.
pub proof fn lemma_substitution_list_leaves_no_generic(ts: Seq<SpecType>, m: Map<Seq<char>, SpecType>)
    requires
        forall|n: Seq<char>| m.dom().contains(n) ==> !mentions_generic(#[trigger] m[n]),
        !list_optional_mentions_generic(ts),
    ensures
        !list_mentions_generic(substituted_list(ts, m)),
        substituted_list(ts, m).len() == ts.len(),
    decreases ts,
{
    if ts.len() > 0 {
        lemma_substitution_list_leaves_no_generic(ts.drop_last(), m);
        lemma_substitution_leaves_no_generic(ts.last(), m);
        let r = substituted_list(ts, m);
        assert(r.drop_last() =~= substituted_list(ts.drop_last(), m));
    }
}

/// A generic parameter the mapping binds is replaced by its entry, wherever
/// it stands among a struct's type arguments.
pub proof fn lemma_struct_argument_substituted(
    name: Seq<char>,
    args: Seq<SpecType>,
    m: Map<Seq<char>, SpecType>,
    i: int,
    p: Seq<char>,
)
    requires
        0 <= i < args.len(),
        args[i] == SpecType::GenericParameter(p),
        m.dom().contains(p),
    ensures
        substituted(SpecType::Struct(name, args), m) matches SpecType::Struct(n2, args2) && n2 == name
            && args2.len() == args.len() && args2[i] == m[p],
    decreases args.len(),
{
    lemma_substituted_list_at(args, m, i);
}

/// The `i`-th type of a substituted list is the `i`-th type substituted.
pub proof fn lemma_substituted_list_at(ts: Seq<SpecType>, m: Map<Seq<char>, SpecType>, i: int)
    requires
        0 <= i < ts.len(),
    ensures
        substituted_list(ts, m).len() == ts.len(),
        substituted_list(ts, m)[i] == substituted(ts[i], m),
    decreases ts.len(),
{
    if i < ts.len() - 1 {
        lemma_substituted_list_at(ts.drop_last(), m, i);
    } else {
        lemma_substituted_list_len(ts.drop_last(), m);
    }
}

proof fn lemma_substituted_list_len(ts: Seq<SpecType>, m: Map<Seq<char>, SpecType>)
    ensures
        substituted_list(ts, m).len() == ts.len(),
    decreases ts.len(),
{
    if ts.len() > 0 {
        lemma_substituted_list_len(ts.drop_last(), m);
    }
}

/// Substitution leaves a type without generic parameters unchanged.
pub proof fn lemma_substitute_generic_free(t: SpecType, m: Map<Seq<char>, SpecType>)
    requires
        !mentions_generic(t),
    ensures
        substituted(t, m) == t,
    decreases t,
{
    match t {
        SpecType::List(inner) => lemma_substitute_generic_free(*inner, m),
        SpecType::Dict(inner) => lemma_substitute_generic_free(*inner, m),
        SpecType::Function(params, ret) => {
            lemma_substitute_list_generic_free(params, m);
            lemma_substitute_generic_free(*ret, m);
        },
        SpecType::Struct(_, args) => lemma_substitute_list_generic_free(args, m),
        _ => {},
    }
}

pub proof fn lemma_substitute_list_generic_free(ts: Seq<SpecType>, m: Map<Seq<char>, SpecType>)
    requires
        !list_mentions_generic(ts),
    ensures
        substituted_list(ts, m) == ts,
    decreases ts,
{
    if ts.len() > 0 {
        lemma_substitute_list_generic_free(ts.drop_last(), m);
        lemma_substitute_generic_free(ts.last(), m);
        assert(ts.drop_last().push(ts.last()) =~= ts);
    }
}

/// Replaces the generic parameters of `ty` by their entries in `mapping`
/// (see [`substituted`]).
pub fn substitute_type(ty: &Type, mapping: &NameMap<Type>) -> (r: Type)
    ensures
        r@ == substituted(ty@, type_map_view(mapping@)),
    decreases ty,
{
    match ty {
        Type::GenericParameter(name) => match mapping.get(name.as_str()) {
            Some(t) => clone_type(t),
            None => Type::Unknown,
        },
        Type::List(inner) => Type::List(Box::new(substitute_type(inner, mapping))),
        Type::Dict(inner) => Type::Dict(Box::new(substitute_type(inner, mapping))),
        Type::Function(params, return_type) => {
            let ps = substitute_types(params, mapping);
            let r = substitute_type(return_type, mapping);
            Type::Function(ps, Box::new(r))
        },
        Type::Struct(inner_struct) => {
            let args = substitute_types(&inner_struct.type_arguments, mapping);
            Type::Struct(StructType { name: inner_struct.name.clone(), type_arguments: args })
        },
        other => clone_type(other),
    }
}

fn substitute_types(ts: &Vec<Type>, mapping: &NameMap<Type>) -> (r: Vec<Type>)
    ensures
        types_view(r@) == substituted_list(types_view(ts@), type_map_view(mapping@)),
    decreases ts,
{
    let ghost s = types_view(ts@);
    let ghost m = type_map_view(mapping@);
    proof {
        lemma_types_view(ts@);
        assert(s.take(0) =~= Seq::<SpecType>::empty());
        assert(types_view(Seq::<Type>::empty()) =~= Seq::<SpecType>::empty());
    }
    let mut out: Vec<Type> = Vec::new();
    let mut i: usize = 0;
    while i < ts.len()
        invariant
            i <= ts@.len(),
            s == types_view(ts@),
            m == type_map_view(mapping@),
            s.len() == ts@.len(),
            forall|j: int| 0 <= j < ts@.len() ==> #[trigger] s[j] == type_view(ts@[j]),
            types_view(out@) == substituted_list(s.take(i as int), m),
        decreases ts@.len() - i,
    {
        let t = substitute_type(&ts[i], mapping);
        let ghost before = out@;
        out.push(t);
        proof {
            assert(out@.drop_last() =~= before);
            let p = s.take(i + 1);
            assert(p.drop_last() =~= s.take(i as int));
            assert(p.last() == s[i as int]);
        }
        i = i + 1;
    }
    proof {
        assert(s.take(ts@.len() as int) =~= s);
    }
    out
}

/// The message for a generic parameter that no scope binds.
pub open spec fn unbound_generic_message(name: Seq<char>) -> Seq<char> {
    "unbound generic parameter '"@ + name + "'"@
}

/// `t` with each generic parameter replaced by its binding in the
/// innermost scope that binds it; an unbound parameter is an error, and the
/// first one met (left to right) is reported.
pub open spec fn resolved(t: SpecType, scopes: Seq<NameMap<(Type, crate::aot::types::ValueType)>>) -> Result<
    SpecType,
    Seq<char>,
>
    decreases t,
{
    match t {
        SpecType::GenericParameter(name) => match generic_binding(scopes, name) {
            Some(b) => Ok(b.0),
            None => Err(unbound_generic_message(name)),
        },
        SpecType::List(inner) => match resolved(*inner, scopes) {
            Ok(x) => Ok(SpecType::List(Box::new(x))),
            Err(e) => Err(e),
        },
        SpecType::Dict(inner) => match resolved(*inner, scopes) {
            Ok(x) => Ok(SpecType::Dict(Box::new(x))),
            Err(e) => Err(e),
        },
        SpecType::Function(params, ret) => match resolved_list(params, scopes) {
            Ok(ps) => match resolved(*ret, scopes) {
                Ok(r) => Ok(SpecType::Function(ps, Box::new(r))),
                Err(e) => Err(e),
            },
            Err(e) => Err(e),
        },
        SpecType::Struct(name, args) => match resolved_list(args, scopes) {
            Ok(a) => Ok(SpecType::Struct(name, a)),
            Err(e) => Err(e),
        },
        other => Ok(other),
    }
}

pub open spec fn resolved_list(
    ts: Seq<SpecType>,
    scopes: Seq<NameMap<(Type, crate::aot::types::ValueType)>>,
) -> Result<Seq<SpecType>, Seq<char>>
    decreases ts,
{
    if ts.len() == 0 {
        Ok(Seq::empty())
    } else {
        match resolved_list(ts.drop_last(), scopes) {
            Ok(xs) => match resolved(ts.last(), scopes) {
                Ok(x) => Ok(xs.push(x)),
                Err(e) => Err(e),
            },
            Err(e) => Err(e),
        }
    }
}

/// Resolving a type without generic parameters gives it back.
pub proof fn lemma_resolve_generic_free(
    t: SpecType,
    scopes: Seq<NameMap<(Type, crate::aot::types::ValueType)>>,
)
    requires
        !mentions_generic(t),
    ensures
        resolved(t, scopes) == Ok::<SpecType, Seq<char>>(t),
    decreases t,
{
    match t {
        SpecType::List(inner) => lemma_resolve_generic_free(*inner, scopes),
        SpecType::Dict(inner) => lemma_resolve_generic_free(*inner, scopes),
        SpecType::Function(params, ret) => {
            lemma_resolve_list_generic_free(params, scopes);
            lemma_resolve_generic_free(*ret, scopes);
        },
        SpecType::Struct(_, args) => lemma_resolve_list_generic_free(args, scopes),
        _ => {},
    }
}

pub proof fn lemma_resolve_list_generic_free(
    ts: Seq<SpecType>,
    scopes: Seq<NameMap<(Type, crate::aot::types::ValueType)>>,
)
    requires
        !list_mentions_generic(ts),
    ensures
        resolved_list(ts, scopes) == Ok::<Seq<SpecType>, Seq<char>>(ts),
    decreases ts,
{
    if ts.len() > 0 {
        lemma_resolve_list_generic_free(ts.drop_last(), scopes);
        lemma_resolve_generic_free(ts.last(), scopes);
        assert(ts.drop_last().push(ts.last()) =~= ts);
    } else {
        assert(ts =~= Seq::<SpecType>::empty());
    }
}

/// Whether an exec result matches [`resolved`].
pub open spec fn resolved_as(
    r: Result<Type, String>,
    t: SpecType,
    scopes: Seq<NameMap<(Type, crate::aot::types::ValueType)>>,
) -> bool {
    match r {
        Ok(x) => resolved(t, scopes) == Ok::<SpecType, Seq<char>>(x@),
        Err(e) => resolved(t, scopes) == Err::<SpecType, Seq<char>>(e@),
    }
}

proof fn lemma_resolved_list_prefix_err(
    s: Seq<SpecType>,
    k: int,
    scopes: Seq<NameMap<(Type, crate::aot::types::ValueType)>>,
)
    requires
        0 <= k <= s.len(),
        resolved_list(s.take(k), scopes) is Err,
    ensures
        resolved_list(s, scopes) == resolved_list(s.take(k), scopes),
    decreases s.len() - k,
{
    if k < s.len() {
        let t = s.take(k + 1);
        assert(t.drop_last() =~= s.take(k));
        lemma_resolved_list_prefix_err(s, k + 1, scopes);
    } else {
        assert(s.take(k) =~= s);
    }
}

impl GenericBindings {
    /// Replaces the generic parameters of `ty` by their current bindings
    /// (see [`resolved`]); an unbound parameter is reported.
    pub fn resolve_type_with_bindings(&self, ty: &Type) -> (r: Result<Type, String>)
        ensures
            resolved_as(r, ty@, self.scopes@),
        decreases ty,
    {
        match ty {
            Type::GenericParameter(name) => match self.lookup_generic_type(name.as_str()) {
                Some(t) => Ok(t),
                None => {
                    let mut msg = String::new();
                    msg.append("unbound generic parameter '");
                    msg.append(name.as_str());
                    msg.append("'");
                    proof {
                        assert(msg@ =~= unbound_generic_message(name@));
                    }
                    Err(msg)
                },
            },
            Type::List(inner) => match self.resolve_type_with_bindings(inner) {
                Ok(x) => Ok(Type::List(Box::new(x))),
                Err(e) => Err(e),
            },
            Type::Dict(inner) => match self.resolve_type_with_bindings(inner) {
                Ok(x) => Ok(Type::Dict(Box::new(x))),
                Err(e) => Err(e),
            },
            Type::Function(params, return_type) => {
                let ps = match self.resolve_types_with_bindings(params) {
                    Ok(ps) => ps,
                    Err(e) => return Err(e),
                };
                match self.resolve_type_with_bindings(return_type) {
                    Ok(r) => Ok(Type::Function(ps, Box::new(r))),
                    Err(e) => Err(e),
                }
            },
            Type::Struct(inner_struct) => match self.resolve_types_with_bindings(
                &inner_struct.type_arguments,
            ) {
                Ok(args) => Ok(
                    Type::Struct(
                        StructType { name: inner_struct.name.clone(), type_arguments: args },
                    ),
                ),
                Err(e) => Err(e),
            },
            other => Ok(clone_type(other)),
        }
    }

    fn resolve_types_with_bindings(&self, ts: &Vec<Type>) -> (r: Result<Vec<Type>, String>)
        ensures
            match r {
                Ok(v) => resolved_list(types_view(ts@), self.scopes@) == Ok::<
                    Seq<SpecType>,
                    Seq<char>,
                >(types_view(v@)),
                Err(e) => resolved_list(types_view(ts@), self.scopes@) == Err::<
                    Seq<SpecType>,
                    Seq<char>,
                >(e@),
            },
        decreases ts,
    {
        let ghost s = types_view(ts@);
        proof {
            lemma_types_view(ts@);
            assert(s.take(0) =~= Seq::<SpecType>::empty());
            assert(types_view(Seq::<Type>::empty()) =~= Seq::<SpecType>::empty());
        }
        let mut out: Vec<Type> = Vec::new();
        let mut i: usize = 0;
        while i < ts.len()
            invariant
                i <= ts@.len(),
                s == types_view(ts@),
                s.len() == ts@.len(),
                forall|j: int| 0 <= j < ts@.len() ==> #[trigger] s[j] == type_view(ts@[j]),
                resolved_list(s.take(i as int), self.scopes@) == Ok::<Seq<SpecType>, Seq<char>>(
                    types_view(out@),
                ),
            decreases ts@.len() - i,
        {
            let ghost p = s.take(i + 1);
            proof {
                assert(p.drop_last() =~= s.take(i as int));
                assert(p.last() == s[i as int]);
            }
            match self.resolve_type_with_bindings(&ts[i]) {
                Ok(t) => {
                    let ghost before = out@;
                    out.push(t);
                    proof {
                        assert(out@.drop_last() =~= before);
                    }
                },
                Err(e) => {
                    proof {
                        lemma_resolved_list_prefix_err(s, i + 1, self.scopes@);
                    }
                    return Err(e);
                },
            }
            i = i + 1;
        }
        proof {
            assert(s.take(ts@.len() as int) =~= s);
        }
        Ok(out)
    }
}

} // verus!
