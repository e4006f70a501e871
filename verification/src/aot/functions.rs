//! Which function bodies a declaration gives, under which symbol names,
//! and the signature a non-generic function is declared with.
use vstd::prelude::*;

use crate::aot::collect::annotation_type;
use crate::aot::scopes::GenericBindings;
use crate::aot::type_parser::{generic_value_types, parse_type};
use crate::aot::structs::{
    bases_view, variant_plan_known, variant_tables_after_in, variants_view, StructMetadata,
};
use crate::aot::types::{
    lemma_value_types_view, lower_type, lowering_error_message, mangle_function_name,
    mangled_name, type_to_value_type, value_types_view, SpecValueType, StructLowering, ValueType,
};
use crate::ast::{FunctionParameter, FunctionStatement};
use crate::names::NameMap;
use crate::typechecker::{lemma_types_view, types_view, FunctionInstance, SpecType, Type};

verus! {

/// The symbol names of the bodies compiled for a function: its own name
/// when it is not generic;
/// else one mangled name per instance the type checker recorded, in order
/// (none when it recorded none).
pub open spec fn function_body_symbols(
    name: Seq<char>,
    generic: bool,
    instances: Option<Seq<FunctionInstance>>,
) -> Seq<Seq<char>> {
    if !generic {
        seq![name]
    } else {
        match instances {
            Some(insts) => Seq::new(
                insts.len(),
                |i: int| mangled_name(name, types_view(insts[i].type_arguments@)),
            ),
            None => Seq::empty(),
        }
    }
}

/// The symbol names of the bodies compiled for `function` (see
/// [`function_body_symbols`]).
pub fn function_body_names(
    function: &FunctionStatement,
    function_instances: &NameMap<Vec<FunctionInstance>>,
) -> (names: Vec<String>)
    ensures
        names@.map_values(|n: String| n@) == function_body_symbols(
            function.name@,
            function.type_parameters@.len() > 0,
            if function_instances@.dom().contains(function.name@) {
                Some(function_instances@[function.name@]@)
            } else {
                None
            },
        ),
{
    let mut names: Vec<String> = Vec::new();
    if function.type_parameters.len() == 0 {
        names.push(function.name.clone());
        proof {
            assert(names@.map_values(|n: String| n@) =~= seq![function.name@]);
        }
        return names;
    }
    match function_instances.get(function.name.as_str()) {
        Some(instances) => {
            let mut i: usize = 0;
            while i < instances.len()
                invariant
                    i <= instances@.len(),
                    names@.len() == i,
                    forall|j: int|
                        0 <= j < i ==> (#[trigger] names@[j])@ == mangled_name(
                            function.name@,
                            types_view(instances@[j].type_arguments@),
                        ),
                decreases instances@.len() - i,
            {
                let m = mangle_function_name(
                    function.name.as_str(),
                    instances[i].type_arguments.as_slice(),
                );
                names.push(m);
                i = i + 1;
            }
            proof {
                assert(names@.map_values(|n: String| n@) =~= function_body_symbols(
                    function.name@,
                    true,
                    Some(instances@),
                ));
            }
        },
        None => {
            proof {
                assert(names@.map_values(|n: String| n@) =~= Seq::<Seq<char>>::empty());
            }
        },
    }
    names
}

pub open spec fn missing_annotation_message(name: Seq<char>) -> Seq<char> {
    "parameter '"@ + name + "' requires type annotation"@
}

/// The parameter types of a function, read from their annotations in
/// order; a parameter without one, or an annotation that cannot be read,
/// is the error.
pub open spec fn parameter_types(
    params: Seq<FunctionParameter>,
    g: spec_fn(Seq<char>) -> Option<SpecValueType>,
    st: Set<Seq<char>>,
) -> Result<Seq<SpecValueType>, Seq<char>>
    decreases params.len(),
{
    if params.len() == 0 {
        Ok(Seq::empty())
    } else {
        match parameter_types(params.drop_last(), g, st) {
            Ok(ts) => match params.last().type_annotation {
                Some(te) => match annotation_type(te, g, st) {
                    Ok(t) => Ok(ts.push(t)),
                    Err(e) => Err(e),
                },
                None => Err(missing_annotation_message(params.last().name@)),
            },
            Err(e) => Err(e),
        }
    }
}

/// The signature a non-generic function is declared with: its return type (`Void` without an annotation)
/// and its parameter types; the return annotation is read first.
pub open spec fn declared_signature(
    f: FunctionStatement,
    g: spec_fn(Seq<char>) -> Option<SpecValueType>,
    st: Set<Seq<char>>,
) -> Result<(SpecValueType, Seq<SpecValueType>), Seq<char>> {
    let ret = match f.return_type {
        Some(te) => annotation_type(te, g, st),
        None => Ok(SpecValueType::Void),
    };
    match ret {
        Ok(r) => match parameter_types(f.parameters@, g, st) {
            Ok(ps) => Ok((r, ps)),
            Err(e) => Err(e),
        },
        Err(e) => Err(e),
    }
}

proof fn lemma_parameter_error_stays(
    params: Seq<FunctionParameter>,
    g: spec_fn(Seq<char>) -> Option<SpecValueType>,
    st: Set<Seq<char>>,
    k: int,
    e: Seq<char>,
)
    requires
        0 <= k <= params.len(),
        parameter_types(params.take(k), g, st) == Err::<Seq<SpecValueType>, Seq<char>>(e),
    ensures
        parameter_types(params, g, st) == Err::<Seq<SpecValueType>, Seq<char>>(e),
    decreases params.len() - k,
{
    if k < params.len() {
        assert(params.take(k + 1).drop_last() =~= params.take(k));
        lemma_parameter_error_stays(params, g, st, k + 1, e);
    } else {
        assert(params.take(k) =~= params);
    }
}

/// Reads the signature of a non-generic function from its annotations
/// (see [`declared_signature`]).
pub fn function_signature_types(
    function: &FunctionStatement,
    generics: &GenericBindings,
    structs: &NameMap<StructLowering>,
) -> (r: Result<(ValueType, Vec<ValueType>), String>)
    ensures
        match r {
            Ok((ret, ps)) => declared_signature(
                *function,
                generic_value_types(generics.scopes@),
                structs@.dom(),
            ) == Ok::<(SpecValueType, Seq<SpecValueType>), Seq<char>>(
                (ret@, value_types_view(ps@)),
            ),
            Err(e) => declared_signature(
                *function,
                generic_value_types(generics.scopes@),
                structs@.dom(),
            ) == Err::<(SpecValueType, Seq<SpecValueType>), Seq<char>>(e@),
        },
{
    let ghost g = generic_value_types(generics.scopes@);
    let ghost st = structs@.dom();
    let return_type = match &function.return_type {
        Some(te) => match parse_type(te, generics, structs) {
            Ok(t) => t,
            Err(e) => return Err(e),
        },
        None => ValueType::Void,
    };
    let params: &Vec<FunctionParameter> = &function.parameters;
    let mut ps: Vec<ValueType> = Vec::new();
    let mut i: usize = 0;
    proof {
        assert(params@.take(0) =~= Seq::<FunctionParameter>::empty());
        assert(value_types_view(ps@) =~= Seq::<SpecValueType>::empty());
    }
    while i < params.len()
        invariant
            i <= params@.len(),
            g == generic_value_types(generics.scopes@),
            st == structs@.dom(),
            params@ == function.parameters@,
            match function.return_type {
                Some(te) => annotation_type(te, g, st) == Ok::<SpecValueType, Seq<char>>(
                    return_type@,
                ),
                None => return_type@ == SpecValueType::Void,
            },
            parameter_types(params@.take(i as int), g, st) == Ok::<
                Seq<SpecValueType>,
                Seq<char>,
            >(value_types_view(ps@)),
        decreases params@.len() - i,
    {
        proof {
            assert(params@.take(i + 1).drop_last() =~= params@.take(i as int));
            assert(params@.take(i + 1).last() == params@[i as int]);
        }
        match &params[i].type_annotation {
            Some(te) => match parse_type(te, generics, structs) {
                Ok(t) => {
                    let ghost before = ps@;
                    ps.push(t);
                    proof {
                        lemma_value_types_view(before);
                        lemma_value_types_view(ps@);
                        assert(value_types_view(ps@) =~= value_types_view(before).push(t@));
                    }
                },
                Err(e) => {
                    proof {
                        lemma_parameter_error_stays(params@, g, st, i + 1, e@);
                    }
                    return Err(e);
                },
            },
            None => {
                let mut msg = String::from_str("parameter '");
                msg.append(params[i].name.as_str());
                msg.append("' requires type annotation");
                proof {
                    lemma_parameter_error_stays(params@, g, st, i + 1, msg@);
                }
                return Err(msg);
            },
        }
        i = i + 1;
    }
    proof {
        assert(params@.take(i as int) =~= params@);
    }
    Ok((return_type, ps))
}

/// The representation of one type of a generic function's instance: a
/// struct type must have its field types known or found (see
/// [`variant_plan_known`]); then the type is lowered.
pub open spec fn instance_value_type_in(
    known: Set<Seq<char>>,
    m: StructMetadata,
    t: SpecType,
) -> Result<SpecValueType, Seq<char>> {
    let plan = match t {
        SpecType::Struct(name, args) => match variant_plan_known(known, m, name, args) {
            Ok(_) => Ok(()),
            Err(e) => Err(e),
        },
        _ => Ok(()),
    };
    match plan {
        Ok(()) => match lower_type(t) {
            Ok(v) => Ok(v),
            Err(e) => Err(lowering_error_message(e)),
        },
        Err(e) => Err(e),
    }
}

/// The struct-type tables after lowering `t` for an instance.
pub open spec fn tables_after_instance_type(
    variants: Map<Seq<char>, Seq<SpecValueType>>,
    bases: Map<Seq<char>, Seq<char>>,
    m: StructMetadata,
    t: SpecType,
) -> (Map<Seq<char>, Seq<SpecValueType>>, Map<Seq<char>, Seq<char>>) {
    match t {
        SpecType::Struct(name, args) => variant_tables_after_in(variants, bases, m, name, args),
        _ => (variants, bases),
    }
}

/// Lowering the types of an instance in order, each against the tables the
/// previous ones left: the representations (or the first error) and the
/// tables at the end.
pub open spec fn instance_values(
    variants: Map<Seq<char>, Seq<SpecValueType>>,
    bases: Map<Seq<char>, Seq<char>>,
    m: StructMetadata,
    ts: Seq<SpecType>,
) -> (Result<Seq<SpecValueType>, Seq<char>>, Map<Seq<char>, Seq<SpecValueType>>, Map<
    Seq<char>,
    Seq<char>,
>)
    decreases ts.len(),
{
    if ts.len() == 0 {
        (Ok(Seq::empty()), variants, bases)
    } else {
        let (r, v1, b1) = instance_values(variants, bases, m, ts.drop_last());
        match r {
            Ok(vs) => {
                let t = ts.last();
                let (v2, b2) = tables_after_instance_type(v1, b1, m, t);
                match instance_value_type_in(v1.dom(), m, t) {
                    Ok(x) => (Ok(vs.push(x)), v2, b2),
                    Err(e) => (Err(e), v2, b2),
                }
            },
            Err(e) => (Err(e), v1, b1),
        }
    }
}

proof fn lemma_instance_values_error_stays(
    variants: Map<Seq<char>, Seq<SpecValueType>>,
    bases: Map<Seq<char>, Seq<char>>,
    m: StructMetadata,
    ts: Seq<SpecType>,
    k: int,
)
    requires
        0 <= k <= ts.len(),
        instance_values(variants, bases, m, ts.take(k)).0 is Err,
    ensures
        instance_values(variants, bases, m, ts) == instance_values(variants, bases, m, ts.take(k)),
    decreases ts.len() - k,
{
    if k < ts.len() {
        assert(ts.take(k + 1).drop_last() =~= ts.take(k));
        lemma_instance_values_error_stays(variants, bases, m, ts, k + 1);
    } else {
        assert(ts.take(k) =~= ts);
    }
}

/// The types of an instance's signature: the return type first, then the
/// parameters.
pub open spec fn instance_signature_types(inst: FunctionInstance) -> Seq<SpecType> {
    seq![inst.return_type@] + types_view(inst.param_types@)
}

impl StructMetadata {
    /// The representation of one type of an instance (see
    /// [`instance_value_type_in`]), recording a struct type's fields.
    pub fn lower_instance_type(&mut self, ty: &Type) -> (r: Result<ValueType, String>)
        ensures
            match r {
                Ok(v) => instance_value_type_in(
                    old(self).struct_field_variants@.dom(),
                    *old(self),
                    ty@,
                ) == Ok::<SpecValueType, Seq<char>>(v@),
                Err(e) => instance_value_type_in(
                    old(self).struct_field_variants@.dom(),
                    *old(self),
                    ty@,
                ) == Err::<SpecValueType, Seq<char>>(e@),
            },
            (variants_view(final(self).struct_field_variants@), bases_view(
                final(self).struct_variant_bases@,
            )) == tables_after_instance_type(
                variants_view(old(self).struct_field_variants@),
                bases_view(old(self).struct_variant_bases@),
                *old(self),
                ty@,
            ),
            final(self).structs == old(self).structs,
            final(self).struct_definitions_tc == old(self).struct_definitions_tc,
            final(self).struct_instances_tc == old(self).struct_instances_tc,
            final(self).struct_call_metadata_tc == old(self).struct_call_metadata_tc,
    {
        match ty {
            Type::Struct(struct_type) => {
                match self.ensure_struct_variant_metadata(struct_type) {
                    Ok(()) => {},
                    Err(e) => return Err(e),
                }
            },
            _ => {},
        }
        match type_to_value_type(ty) {
            Ok(v) => Ok(v),
            Err(e) => Err(e.message()),
        }
    }

    /// The lowered signature of a generic function's instance (as a
    /// function is declared for it): its return type, then its parameter
    /// types, each lowered in order (see [`instance_values`]).
    pub fn instance_signature(&mut self, instance: &FunctionInstance) -> (r: Result<
        (ValueType, Vec<ValueType>),
        String,
    >)
        ensures
            ({
                let (res, v, b) = instance_values(
                    variants_view(old(self).struct_field_variants@),
                    bases_view(old(self).struct_variant_bases@),
                    *old(self),
                    instance_signature_types(*instance),
                );
                &&& match r {
                    Ok((ret, ps)) => res == Ok::<Seq<SpecValueType>, Seq<char>>(
                        seq![ret@] + value_types_view(ps@),
                    ),
                    Err(e) => res == Err::<Seq<SpecValueType>, Seq<char>>(e@),
                }
                &&& variants_view(final(self).struct_field_variants@) == v
                &&& bases_view(final(self).struct_variant_bases@) == b
            }),
            final(self).structs == old(self).structs,
            final(self).struct_definitions_tc == old(self).struct_definitions_tc,
            final(self).struct_instances_tc == old(self).struct_instances_tc,
            final(self).struct_call_metadata_tc == old(self).struct_call_metadata_tc,
    {
        let ghost m0 = *self;
        let ghost tv = instance_signature_types(*instance);
        let ghost v0 = variants_view(self.struct_field_variants@);
        let ghost b0 = bases_view(self.struct_variant_bases@);
        proof {
            lemma_types_view(instance.param_types@);
            assert(tv.take(0) =~= Seq::<SpecType>::empty());
            assert(tv.take(1).drop_last() =~= tv.take(0));
            assert(tv[0] == instance.return_type@);
            assert(tv.take(1).last() == instance.return_type@);
            assert(instance_values(v0, b0, m0, tv.take(0)) == (
                Ok::<Seq<SpecValueType>, Seq<char>>(Seq::empty()),
                v0,
                b0,
            ));
        }
        let ret = match self.lower_instance_type(&instance.return_type) {
            Ok(v) => v,
            Err(e) => {
                proof {
                    lemma_instance_values_error_stays(v0, b0, m0, tv, 1);
                }
                return Err(e);
            },
        };
        let params: &Vec<Type> = &instance.param_types;
        let mut out: Vec<ValueType> = Vec::new();
        let mut i: usize = 0;
        proof {
            assert(value_types_view(out@) =~= Seq::<SpecValueType>::empty());
            assert(seq![ret@] + value_types_view(out@) =~= seq![ret@]);
            assert(Seq::<SpecValueType>::empty().push(ret@) =~= seq![ret@]);
            assert forall|j: int| 0 <= j < params@.len() implies #[trigger] tv[j + 1]
                == params@[j]@ by {
                assert(tv[j + 1] == types_view(instance.param_types@)[j]);
            }
        }
        while i < params.len()
            invariant
                i <= params@.len(),
                *params == instance.param_types,
                tv == instance_signature_types(*instance),
                tv.len() == params@.len() + 1,
                tv[0] == instance.return_type@,
                forall|j: int| 0 <= j < params@.len() ==> #[trigger] tv[j + 1] == params@[j]@,
                m0 == *old(self),
                v0 == variants_view(m0.struct_field_variants@),
                b0 == bases_view(m0.struct_variant_bases@),
                instance_values(v0, b0, m0, tv.take(i + 1)) == (
                    Ok::<Seq<SpecValueType>, Seq<char>>(seq![ret@] + value_types_view(out@)),
                    variants_view(self.struct_field_variants@),
                    bases_view(self.struct_variant_bases@),
                ),
                self.structs == m0.structs,
                self.struct_definitions_tc == m0.struct_definitions_tc,
                self.struct_instances_tc == m0.struct_instances_tc,
                self.struct_call_metadata_tc == m0.struct_call_metadata_tc,
            decreases params@.len() - i,
        {
            proof {
                assert(tv.take(i + 2).drop_last() =~= tv.take(i + 1));
                assert(tv.take(i + 2).last() == params@[i as int]@);
            }
            match self.lower_instance_type(&params[i]) {
                Ok(v) => {
                    let ghost prev = out@;
                    out.push(v);
                    proof {
                        lemma_value_types_view(prev);
                        lemma_value_types_view(out@);
                        assert(value_types_view(out@) =~= value_types_view(prev).push(v@));
                        assert(seq![ret@] + value_types_view(out@) =~= (seq![ret@]
                            + value_types_view(prev)).push(v@));
                    }
                },
                Err(e) => {
                    proof {
                        lemma_instance_values_error_stays(v0, b0, m0, tv, i + 2);
                    }
                    return Err(e);
                },
            }
            i = i + 1;
        }
        proof {
            assert(tv.take(i + 1) =~= tv);
        }
        Ok((ret, out))
    }
}

} // verus!
