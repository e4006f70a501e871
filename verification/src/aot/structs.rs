//! Which field layout each struct type (and each instantiation of a
//! generic struct) gets in the generated code.
use vstd::prelude::*;

use crate::aot::generics::{substitute_type, substituted, type_map_view};
use crate::aot::types::{
    clone_value_types, format_struct_type_name, lower_type, lower_types, lowering_error_message,
    struct_type_name, type_list_to_value_types, type_to_value_type, value_types_view,
    SpecLoweringError, SpecValueType, StructLowering, ValueType,
};
use crate::ast::SourceSpan;
use crate::names::NameMap;
use crate::text::{decimal, push_decimal};
use crate::typechecker::{
    clone_type, lemma_types_view, type_lists_equal, type_view, types_view, SpecType,
    StructDefinition, StructFieldDefinition, StructInstance, StructType, Type,
};

verus! {

/// What the code generator knows about structs: the lowered declarations,
/// the field types of each (instantiated) struct type by printed name and
/// its base struct, and the type checker's struct metadata.
#[derive(Debug)]
pub struct StructMetadata {
    pub structs: NameMap<StructLowering>,
    pub struct_field_variants: NameMap<Vec<ValueType>>,
    pub struct_variant_bases: NameMap<String>,
    pub struct_definitions_tc: NameMap<StructDefinition>,
    pub struct_instances_tc: NameMap<Vec<StructInstance>>,
    pub struct_call_metadata_tc: Vec<(SourceSpan, (String, StructInstance))>,
}

/// The field types of each struct type, as value-type sequences.
pub open spec fn variants_view(m: Map<Seq<char>, Vec<ValueType>>) -> Map<Seq<char>, Seq<SpecValueType>> {
    m.map_values(|v: Vec<ValueType>| value_types_view(v@))
}

/// The base struct of each struct type, as names.
pub open spec fn bases_view(m: Map<Seq<char>, String>) -> Map<Seq<char>, Seq<char>> {
    m.map_values(|s: String| s@)
}

/// The type arguments bound to the type parameters; a parameter named twice
/// takes its last argument.
pub open spec fn param_map(params: Seq<String>, args: Seq<SpecType>) -> Map<Seq<char>, SpecType>
    decreases params.len(),
{
    if params.len() == 0 {
        Map::empty()
    } else {
        param_map(params.drop_last(), args).insert(
            params.last()@,
            args[params.len() - 1],
        )
    }
}

/// The declared fields with the parameters substituted, each lowered; the
/// first field that cannot be lowered is reported.
pub open spec fn lowered_fields(fields: Seq<StructFieldDefinition>, m: Map<Seq<char>, SpecType>) -> Result<
    Seq<SpecValueType>,
    Seq<char>,
>
    decreases fields.len(),
{
    if fields.len() == 0 {
        Ok(Seq::empty())
    } else {
        match lowered_fields(fields.drop_last(), m) {
            Ok(vs) => match lower_type(substituted(type_view(fields.last().ty), m)) {
                Ok(v) => Ok(vs.push(v)),
                Err(e) => Err(lowering_error_message(e)),
            },
            Err(e) => Err(e),
        }
    }
}

pub open spec fn unknown_struct_message(name: Seq<char>) -> Seq<char> {
    "unknown struct '"@ + name + "' in metadata"@
}

pub open spec fn arity_message(name: Seq<char>, expected: nat, found: nat) -> Seq<char> {
    "struct '"@ + name + "' expected "@ + decimal(expected) + " type arguments, found "@ + decimal(
        found,
    )
}

/// The field types of `name[args]` from the struct's declaration.
pub open spec fn definition_fields(
    defs: Map<Seq<char>, StructDefinition>,
    name: Seq<char>,
    args: Seq<SpecType>,
) -> Result<Seq<SpecValueType>, Seq<char>> {
    if !defs.dom().contains(name) {
        Err(unknown_struct_message(name))
    } else if defs[name].type_parameters@.len() != args.len() {
        Err(arity_message(name, defs[name].type_parameters@.len(), args.len()))
    } else {
        lowered_fields(defs[name].fields@, param_map(defs[name].type_parameters@, args))
    }
}

/// The first instance at or after `i` whose type arguments are `args`.
pub open spec fn first_instance_from(insts: Seq<StructInstance>, args: Seq<SpecType>, i: int) -> Option<int>
    decreases insts.len() - i,
{
    if i < 0 || i >= insts.len() {
        None
    } else if types_view(insts[i].type_arguments@) == args {
        Some(i)
    } else {
        first_instance_from(insts, args, i + 1)
    }
}

/// The first call-site record at or after `i` of struct `name` with type
/// arguments `args`.
pub open spec fn first_call_from(
    calls: Seq<(SourceSpan, (String, StructInstance))>,
    name: Seq<char>,
    args: Seq<SpecType>,
    i: int,
) -> Option<int>
    decreases calls.len() - i,
{
    if i < 0 || i >= calls.len() {
        None
    } else if calls[i].1.0@ == name && types_view(calls[i].1.1.type_arguments@) == args {
        Some(i)
    } else {
        first_call_from(calls, name, args, i + 1)
    }
}

/// The lowered field types of an instance.
pub open spec fn instance_fields(inst: StructInstance) -> Result<Seq<SpecValueType>, Seq<char>> {
    match lower_types(types_view(inst.field_types@)) {
        Ok(v) => Ok(v),
        Err(e) => Err(lowering_error_message(e)),
    }
}

pub open spec fn missing_metadata_message(name: Seq<char>) -> Seq<char> {
    "missing struct metadata for '"@ + name + "'"@
}

/// Where the field types of struct type `name[args]` come from, in order:
/// nothing to do when they are already known; else the type checker's
/// instance with these arguments; else the declaration's own non-empty
/// field list; else the declaration with the arguments substituted; else a
/// call site of the struct with these arguments. `Ok(Some(fields))` means
/// the fields are recorded.
pub open spec fn variant_plan(m: StructMetadata, name: Seq<char>, args: Seq<SpecType>) -> Result<
    Option<Seq<SpecValueType>>,
    Seq<char>,
> {
    variant_plan_known(m.struct_field_variants@.dom(), m, name, args)
}

/// [`variant_plan`] with the struct types whose fields are known given
/// apart from the rest of the metadata.
pub open spec fn variant_plan_known(
    known: Set<Seq<char>>,
    m: StructMetadata,
    name: Seq<char>,
    args: Seq<SpecType>,
) -> Result<Option<Seq<SpecValueType>>, Seq<char>> {
    let variant = struct_type_name(name, args);
    let insts = m.struct_instances_tc@;
    if known.contains(variant) {
        Ok(None)
    } else if insts.dom().contains(name) && first_instance_from(insts[name]@, args, 0) is Some {
        match instance_fields(insts[name]@[first_instance_from(insts[name]@, args, 0)->0]) {
            Ok(v) => Ok(Some(v)),
            Err(e) => Err(e),
        }
    } else if m.structs@.dom().contains(name) && m.structs@[name].field_types@.len() > 0 {
        Ok(Some(value_types_view(m.structs@[name].field_types@)))
    } else if definition_fields(m.struct_definitions_tc@, name, args) is Ok {
        Ok(Some(definition_fields(m.struct_definitions_tc@, name, args)->Ok_0))
    } else if first_call_from(m.struct_call_metadata_tc@, name, args, 0) is Some {
        match instance_fields(
            m.struct_call_metadata_tc@[first_call_from(
                m.struct_call_metadata_tc@,
                name,
                args,
                0,
            )->0].1.1,
        ) {
            Ok(v) => Ok(Some(v)),
            Err(e) => Err(e),
        }
    } else {
        Err(missing_metadata_message(name))
    }
}

/// The field types and bases of struct types once the fields of
/// `name[args]` have been made sure of (see [`variant_plan`]).
pub open spec fn variant_tables_after(m: StructMetadata, name: Seq<char>, args: Seq<SpecType>) -> (
    Map<Seq<char>, Seq<SpecValueType>>,
    Map<Seq<char>, Seq<char>>,
) {
    variant_tables_after_in(
        variants_view(m.struct_field_variants@),
        bases_view(m.struct_variant_bases@),
        m,
        name,
        args,
    )
}

/// [`variant_tables_after`] with the struct-type tables given apart from
/// the rest of the metadata.
pub open spec fn variant_tables_after_in(
    variants: Map<Seq<char>, Seq<SpecValueType>>,
    bases: Map<Seq<char>, Seq<char>>,
    m: StructMetadata,
    name: Seq<char>,
    args: Seq<SpecType>,
) -> (Map<Seq<char>, Seq<SpecValueType>>, Map<Seq<char>, Seq<char>>) {
    let variant = struct_type_name(name, args);
    match variant_plan_known(variants.dom(), m, name, args) {
        Ok(None) => (
            variants,
            if bases.dom().contains(variant) {
                bases
            } else {
                bases.insert(variant, name)
            },
        ),
        Ok(Some(fields)) => (variants.insert(variant, fields), bases.insert(variant, name)),
        Err(_) => (variants, bases),
    }
}

proof fn lemma_lowered_fields_prefix_err(
    s: Seq<StructFieldDefinition>,
    k: int,
    m: Map<Seq<char>, SpecType>,
)
    requires
        0 <= k <= s.len(),
        lowered_fields(s.take(k), m) is Err,
    ensures
        lowered_fields(s, m) == lowered_fields(s.take(k), m),
    decreases s.len() - k,
{
    if k < s.len() {
        let t = s.take(k + 1);
        assert(t.drop_last() =~= s.take(k));
        lemma_lowered_fields_prefix_err(s, k + 1, m);
    } else {
        assert(s.take(k) =~= s);
    }
}

fn lower_instance_fields(inst: &StructInstance) -> (r: Result<Vec<ValueType>, String>)
    ensures
        match r {
            Ok(v) => instance_fields(*inst) == Ok::<Seq<SpecValueType>, Seq<char>>(
                value_types_view(v@),
            ),
            Err(e) => instance_fields(*inst) == Err::<Seq<SpecValueType>, Seq<char>>(e@),
        },
{
    match type_list_to_value_types(&inst.field_types) {
        Ok(v) => Ok(v),
        Err(e) => Err(e.message()),
    }
}

impl StructMetadata {
    /// Lowers the fields of `struct_type` from the struct's declaration,
    /// with its type parameters bound to the type arguments (see
    /// [`definition_fields`]).
    pub fn lower_struct_fields_from_definition(&self, struct_type: &StructType) -> (r: Result<
        Vec<ValueType>,
        String,
    >)
        ensures
            match r {
                Ok(v) => definition_fields(
                    self.struct_definitions_tc@,
                    struct_type.name@,
                    types_view(struct_type.type_arguments@),
                ) == Ok::<Seq<SpecValueType>, Seq<char>>(value_types_view(v@)),
                Err(e) => definition_fields(
                    self.struct_definitions_tc@,
                    struct_type.name@,
                    types_view(struct_type.type_arguments@),
                ) == Err::<Seq<SpecValueType>, Seq<char>>(e@),
            },
    {
        let ghost args = types_view(struct_type.type_arguments@);
        proof {
            lemma_types_view(struct_type.type_arguments@);
        }
        let definition = match self.struct_definitions_tc.get(struct_type.name.as_str()) {
            Some(d) => d,
            None => {
                let mut msg = String::new();
                msg.append("unknown struct '");
                msg.append(struct_type.name.as_str());
                msg.append("' in metadata");
                assert(msg@ =~= unknown_struct_message(struct_type.name@));
                return Err(msg);
            },
        };
        if definition.type_parameters.len() != struct_type.type_arguments.len() {
            let mut msg = String::new();
            msg.append("struct '");
            msg.append(struct_type.name.as_str());
            msg.append("' expected ");
            push_decimal(&mut msg, definition.type_parameters.len());
            msg.append(" type arguments, found ");
            push_decimal(&mut msg, struct_type.type_arguments.len());
            assert(msg@ =~= arity_message(
                struct_type.name@,
                definition.type_parameters@.len(),
                args.len(),
            ));
            return Err(msg);
        }
        let mut mapping: NameMap<Type> = NameMap::new();
        let mut i: usize = 0;
        proof {
            assert(type_map_view(mapping@) =~= param_map(definition.type_parameters@.take(0), args));
        }
        while i < definition.type_parameters.len()
            invariant
                i <= definition.type_parameters@.len(),
                definition.type_parameters@.len() == struct_type.type_arguments@.len(),
                args == types_view(struct_type.type_arguments@),
                args.len() == struct_type.type_arguments@.len(),
                forall|j: int|
                    0 <= j < args.len() ==> #[trigger] args[j] == type_view(
                        struct_type.type_arguments@[j],
                    ),
                type_map_view(mapping@) == param_map(
                    definition.type_parameters@.take(i as int),
                    args,
                ),
            decreases definition.type_parameters@.len() - i,
        {
            let arg = clone_type(&struct_type.type_arguments[i]);
            let ghost before = mapping@;
            mapping.insert(definition.type_parameters[i].clone(), arg);
            proof {
                let p = definition.type_parameters@.take(i + 1);
                assert(p.drop_last() =~= definition.type_parameters@.take(i as int));
                assert(p.last() == definition.type_parameters@[i as int]);
                assert(type_map_view(mapping@) =~= type_map_view(before).insert(
                    definition.type_parameters@[i as int]@,
                    arg@,
                ));
            }
            i = i + 1;
        }
        proof {
            assert(definition.type_parameters@.take(definition.type_parameters@.len() as int)
                =~= definition.type_parameters@);
        }
        let ghost m = type_map_view(mapping@);
        let ghost fields = definition.fields@;
        let mut lowered: Vec<ValueType> = Vec::new();
        let mut k: usize = 0;
        proof {
            assert(fields.take(0) =~= Seq::<StructFieldDefinition>::empty());
            assert(value_types_view(lowered@) =~= Seq::<SpecValueType>::empty());
        }
        while k < definition.fields.len()
            invariant
                k <= fields.len(),
                fields == definition.fields@,
                m == type_map_view(mapping@),
                m == param_map(definition.type_parameters@, args),
                args == types_view(struct_type.type_arguments@),
                definition.type_parameters@.len() == args.len(),
                self.struct_definitions_tc@.dom().contains(struct_type.name@),
                self.struct_definitions_tc@[struct_type.name@] == *definition,
                lowered_fields(fields.take(k as int), m) == Ok::<Seq<SpecValueType>, Seq<char>>(
                    value_types_view(lowered@),
                ),
            decreases fields.len() - k,
        {
            let field = &definition.fields[k];
            let substituted_ty = substitute_type(&field.ty, &mapping);
            let ghost p = fields.take(k + 1);
            proof {
                assert(p.drop_last() =~= fields.take(k as int));
                assert(p.last() == fields[k as int]);
            }
            match type_to_value_type(&substituted_ty) {
                Ok(v) => {
                    let ghost before = lowered@;
                    lowered.push(v);
                    proof {
                        assert(lowered@.drop_last() =~= before);
                    }
                },
                Err(e) => {
                    let msg = e.message();
                    proof {
                        assert(lower_type(substituted(type_view(p.last().ty), m)) == Err::<
                            SpecValueType,
                            SpecLoweringError,
                        >(e@));
                        assert(lowered_fields(p, m) == Err::<Seq<SpecValueType>, Seq<char>>(msg@));
                        lemma_lowered_fields_prefix_err(fields, k + 1, m);
                        assert(lowered_fields(fields, m) == Err::<Seq<SpecValueType>, Seq<char>>(
                            msg@,
                        ));
                    }
                    return Err(msg);
                },
            }
            k = k + 1;
        }
        proof {
            assert(fields.take(fields.len() as int) =~= fields);
        }
        Ok(lowered)
    }
}

fn find_instance(insts: &Vec<StructInstance>, args: &Vec<Type>) -> (r: Option<usize>)
    ensures
        match r {
            Some(i) => i < insts@.len() && first_instance_from(insts@, types_view(args@), 0) == Some(
                i as int,
            ),
            None => first_instance_from(insts@, types_view(args@), 0) is None,
        },
{
    let mut i: usize = 0;
    while i < insts.len()
        invariant
            i <= insts@.len(),
            first_instance_from(insts@, types_view(args@), i as int) == first_instance_from(
                insts@,
                types_view(args@),
                0,
            ),
        decreases insts@.len() - i,
    {
        if type_lists_equal(&insts[i].type_arguments, args) {
            return Some(i);
        }
        i = i + 1;
    }
    None
}

fn find_call(calls: &Vec<(SourceSpan, (String, StructInstance))>, name: &str, args: &Vec<Type>) -> (r:
    Option<usize>)
    ensures
        match r {
            Some(i) => i < calls@.len() && first_call_from(calls@, name@, types_view(args@), 0)
                == Some(i as int),
            None => first_call_from(calls@, name@, types_view(args@), 0) is None,
        },
{
    let mut i: usize = 0;
    while i < calls.len()
        invariant
            i <= calls@.len(),
            first_call_from(calls@, name@, types_view(args@), i as int) == first_call_from(
                calls@,
                name@,
                types_view(args@),
                0,
            ),
        decreases calls@.len() - i,
    {
        let entry = &calls[i];
        if crate::text::str_eq(entry.1.0.as_str(), name) && type_lists_equal(
            &entry.1.1.type_arguments,
            args,
        ) {
            return Some(i);
        }
        i = i + 1;
    }
    None
}

impl StructMetadata {
    fn record_variant(&mut self, variant_name: String, base: String, fields: Vec<ValueType>)
        ensures
            variants_view(final(self).struct_field_variants@) == variants_view(
                old(self).struct_field_variants@,
            ).insert(variant_name@, value_types_view(fields@)),
            bases_view(final(self).struct_variant_bases@) == bases_view(
                old(self).struct_variant_bases@,
            ).insert(variant_name@, base@),
            final(self).structs == old(self).structs,
            final(self).struct_definitions_tc == old(self).struct_definitions_tc,
            final(self).struct_instances_tc == old(self).struct_instances_tc,
            final(self).struct_call_metadata_tc == old(self).struct_call_metadata_tc,
    {
        let ghost v0 = self.struct_field_variants@;
        let ghost b0 = self.struct_variant_bases@;
        let ghost f = fields;
        let ghost b = base;
        self.struct_field_variants.insert(variant_name.clone(), fields);
        self.struct_variant_bases.insert(variant_name, base);
        proof {
            assert(variants_view(self.struct_field_variants@) =~= variants_view(v0).insert(
                variant_name@,
                value_types_view(f@),
            ));
            assert(bases_view(self.struct_variant_bases@) =~= bases_view(b0).insert(
                variant_name@,
                b@,
            ));
        }
    }

    /// Makes sure the field types of `struct_type` are recorded under its
    /// printed name, with its base struct (see [`variant_plan`] for where
    /// they are taken from); fails when no source knows the struct.
    pub fn ensure_struct_variant_metadata(&mut self, struct_type: &StructType) -> (r: Result<
        (),
        String,
    >)
        ensures
            final(self).structs == old(self).structs,
            final(self).struct_definitions_tc == old(self).struct_definitions_tc,
            final(self).struct_instances_tc == old(self).struct_instances_tc,
            final(self).struct_call_metadata_tc == old(self).struct_call_metadata_tc,
            (variants_view(final(self).struct_field_variants@), bases_view(
                final(self).struct_variant_bases@,
            )) == variant_tables_after(
                *old(self),
                struct_type.name@,
                types_view(struct_type.type_arguments@),
            ),
            ({
                let variant = struct_type_name(
                    struct_type.name@,
                    types_view(struct_type.type_arguments@),
                );
                let old_variants = variants_view(old(self).struct_field_variants@);
                let old_bases = bases_view(old(self).struct_variant_bases@);
                match variant_plan(
                    *old(self),
                    struct_type.name@,
                    types_view(struct_type.type_arguments@),
                ) {
                    Ok(None) => {
                        &&& r is Ok
                        &&& variants_view(final(self).struct_field_variants@) == old_variants
                        &&& bases_view(final(self).struct_variant_bases@) == if old_bases.dom().contains(
                            variant,
                        ) {
                            old_bases
                        } else {
                            old_bases.insert(variant, struct_type.name@)
                        }
                    },
                    Ok(Some(fields)) => {
                        &&& r is Ok
                        &&& variants_view(final(self).struct_field_variants@) == old_variants.insert(
                            variant,
                            fields,
                        )
                        &&& bases_view(final(self).struct_variant_bases@) == old_bases.insert(
                            variant,
                            struct_type.name@,
                        )
                    },
                    Err(msg) => {
                        &&& r matches Err(e) && e@ == msg
                        &&& variants_view(final(self).struct_field_variants@) == old_variants
                        &&& bases_view(final(self).struct_variant_bases@) == old_bases
                    },
                }
            }),
    {
        let ghost args = types_view(struct_type.type_arguments@);
        let ghost plan = variant_plan(*self, struct_type.name@, args);
        let variant_name = format_struct_type_name(struct_type);
        if self.struct_field_variants.contains_key(variant_name.as_str()) {
            if !self.struct_variant_bases.contains_key(variant_name.as_str()) {
                let ghost b0 = self.struct_variant_bases@;
                self.struct_variant_bases.insert(variant_name, struct_type.name.clone());
                proof {
                    assert(bases_view(self.struct_variant_bases@) =~= bases_view(b0).insert(
                        struct_type_name(struct_type.name@, args),
                        struct_type.name@,
                    ));
                }
            }
            return Ok(());
        }
        match self.struct_instances_tc.get(struct_type.name.as_str()) {
            Some(instances) => match find_instance(instances, &struct_type.type_arguments) {
                Some(i) => {
                    let fields = match lower_instance_fields(&instances[i]) {
                        Ok(f) => f,
                        Err(e) => return Err(e),
                    };
                    self.record_variant(variant_name, struct_type.name.clone(), fields);
                    return Ok(());
                },
                None => {},
            },
            None => {},
        }
        match self.structs.get(struct_type.name.as_str()) {
            Some(info) => {
                if info.field_types.len() > 0 {
                    let fields = clone_value_types(&info.field_types);
                    self.record_variant(variant_name, struct_type.name.clone(), fields);
                    return Ok(());
                }
            },
            None => {},
        }
        match self.lower_struct_fields_from_definition(struct_type) {
            Ok(fields) => {
                self.record_variant(variant_name, struct_type.name.clone(), fields);
                return Ok(());
            },
            Err(_) => {},
        }
        match find_call(
            &self.struct_call_metadata_tc,
            struct_type.name.as_str(),
            &struct_type.type_arguments,
        ) {
            Some(j) => {
                let fields = match lower_instance_fields(&self.struct_call_metadata_tc[j].1.1) {
                    Ok(f) => f,
                    Err(e) => return Err(e),
                };
                self.record_variant(variant_name, struct_type.name.clone(), fields);
                return Ok(());
            },
            None => {},
        }
        let mut msg = String::new();
        msg.append("missing struct metadata for '");
        msg.append(struct_type.name.as_str());
        msg.append("'");
        assert(msg@ =~= missing_metadata_message(struct_type.name@));
        Err(msg)
    }
}

/// The declared types of the fields.
pub open spec fn declared_field_types(fields: Seq<StructFieldDefinition>) -> Seq<SpecType> {
    Seq::new(fields.len(), |i: int| type_view(fields[i].ty))
}

/// The names of the fields.
pub open spec fn declared_field_names(fields: Seq<StructFieldDefinition>) -> Seq<Seq<char>> {
    Seq::new(fields.len(), |i: int| fields[i].name@)
}

/// The names held by a list of strings.
pub open spec fn names_view(names: Seq<String>) -> Seq<Seq<char>> {
    Seq::new(names.len(), |i: int| names[i]@)
}

/// Whether the type checker's struct `k` is registered up front: it is
/// known to the type checker but not declared in the module, it is not
/// generic, and every field type can be lowered.
pub open spec fn builtin_struct_eligible(m: StructMetadata, k: Seq<char>) -> bool {
    &&& m.struct_definitions_tc@.dom().contains(k)
    &&& !m.structs@.dom().contains(k)
    &&& m.struct_definitions_tc@[k].type_parameters@.len() == 0
    &&& lower_types(declared_field_types(m.struct_definitions_tc@[k].fields@)) is Ok
}

/// The lowered field types of a registered struct.
pub open spec fn builtin_struct_fields(m: StructMetadata, k: Seq<char>) -> Seq<SpecValueType> {
    lower_types(declared_field_types(m.struct_definitions_tc@[k].fields@))->Ok_0
}

/// Field variants after registration: kept where known, the lowered fields
/// of each registered struct elsewhere.
pub open spec fn variants_after_builtins(m: StructMetadata, seen: spec_fn(Seq<char>) -> bool) -> Map<
    Seq<char>,
    Seq<SpecValueType>,
> {
    let old_v = variants_view(m.struct_field_variants@);
    Map::new(
        |k: Seq<char>| old_v.dom().contains(k) || (seen(k) && builtin_struct_eligible(m, k)),
        |k: Seq<char>|
            if old_v.dom().contains(k) {
                old_v[k]
            } else {
                builtin_struct_fields(m, k)
            },
    )
}

/// Base structs after registration: kept where known, each registered
/// struct its own base elsewhere.
pub open spec fn bases_after_builtins(m: StructMetadata, seen: spec_fn(Seq<char>) -> bool) -> Map<
    Seq<char>,
    Seq<char>,
> {
    let old_b = bases_view(m.struct_variant_bases@);
    Map::new(
        |k: Seq<char>| old_b.dom().contains(k) || (seen(k) && builtin_struct_eligible(m, k)),
        |k: Seq<char>|
            if old_b.dom().contains(k) {
                old_b[k]
            } else {
                k
            },
    )
}

/// The structs after registration, as the invariant of the loop states it.
pub open spec fn builtins_registered(
    m: StructMetadata,
    n: StructMetadata,
    seen: spec_fn(Seq<char>) -> bool,
) -> bool {
    &&& forall|k: Seq<char>|
        #![trigger n.structs@.dom().contains(k)]
        n.structs@.dom().contains(k) <==> (m.structs@.dom().contains(k) || (seen(k)
            && builtin_struct_eligible(m, k)))
    &&& forall|k: Seq<char>|
        #![trigger n.structs@[k]]
        m.structs@.dom().contains(k) ==> n.structs@[k] == m.structs@[k]
    &&& forall|k: Seq<char>|
        #![trigger n.structs@[k]]
        seen(k) && builtin_struct_eligible(m, k) ==> {
            &&& names_view(n.structs@[k].field_names@) == declared_field_names(
                m.struct_definitions_tc@[k].fields@,
            )
            &&& value_types_view(n.structs@[k].field_types@) == builtin_struct_fields(m, k)
            &&& n.structs@[k].template_global is None
            &&& n.structs@[k].field_names_global is None
            &&& n.structs@[k].template_pointer is None
        }
    &&& variants_view(n.struct_field_variants@) == variants_after_builtins(m, seen)
    &&& bases_view(n.struct_variant_bases@) == bases_after_builtins(m, seen)
    &&& n.struct_definitions_tc == m.struct_definitions_tc
    &&& n.struct_instances_tc == m.struct_instances_tc
    &&& n.struct_call_metadata_tc == m.struct_call_metadata_tc
}

pub(crate) fn field_types_of(fields: &Vec<StructFieldDefinition>) -> (r: Vec<Type>)
    ensures
        types_view(r@) == declared_field_types(fields@),
{
    let mut r: Vec<Type> = Vec::new();
    let mut i: usize = 0;
    while i < fields.len()
        invariant
            i <= fields@.len(),
            r@.len() == i,
            forall|j: int| 0 <= j < i ==> type_view(#[trigger] r@[j]) == type_view(fields@[j].ty),
        decreases fields@.len() - i,
    {
        r.push(clone_type(&fields[i].ty));
        i = i + 1;
    }
    proof {
        lemma_types_view(r@);
        assert(types_view(r@) =~= declared_field_types(fields@));
    }
    r
}

pub(crate) fn field_names_of(fields: &Vec<StructFieldDefinition>) -> (r: Vec<String>)
    ensures
        names_view(r@) == declared_field_names(fields@),
{
    let mut r: Vec<String> = Vec::new();
    let mut i: usize = 0;
    while i < fields.len()
        invariant
            i <= fields@.len(),
            r@.len() == i,
            forall|j: int| 0 <= j < i ==> (#[trigger] r@[j])@ == fields@[j].name@,
        decreases fields@.len() - i,
    {
        r.push(fields[i].name.clone());
        i = i + 1;
    }
    assert(names_view(r@) =~= declared_field_names(fields@));
    r
}

impl StructMetadata {
    /// Registers, before the module's own structs are collected, each struct
    /// that the type checker knows and the module does not declare, when it
    /// is not generic and all its field types can be lowered (see
    /// [`builtin_struct_eligible`]); structs with fields of unknown type are
    /// skipped.
    pub fn register_builtin_structs(&mut self)
        ensures
            builtins_registered(
                *old(self),
                *final(self),
                |k: Seq<char>| old(self).struct_definitions_tc@.dom().contains(k),
            ),
    {
        let ghost m = *self;
        let ghost entries = self.struct_definitions_tc.entries@;
        let n = self.struct_definitions_tc.entries.len();
        let mut i: usize = 0;
        proof {
            let seen0 = |k: Seq<char>| exists|j: int| 0 <= j < 0 && entries[j].0@ == k;
            assert(variants_view(self.struct_field_variants@) =~= variants_after_builtins(m, seen0));
            assert(bases_view(self.struct_variant_bases@) =~= bases_after_builtins(m, seen0));
        }
        while i < n
            invariant
                n == entries.len(),
                i <= n,
                entries == self.struct_definitions_tc.entries@,
                m.struct_definitions_tc == self.struct_definitions_tc,
                builtins_registered(
                    m,
                    *self,
                    |k: Seq<char>| exists|j: int| 0 <= j < i && entries[j].0@ == k,
                ),
            decreases n - i,
        {
            let ghost before = *self;
            let ghost seen_i = |k: Seq<char>| exists|j: int| 0 <= j < i && entries[j].0@ == k;
            let ghost seen_next = |k: Seq<char>| exists|j: int| 0 <= j < i + 1 && entries[j].0@ == k;
            let ghost key = entries[i as int].0@;
            proof {
                crate::names::lemma_entries_map_dom(entries, key);
                assert(entries[i as int].0@ == key);
            }
            let name = self.struct_definitions_tc.entries[i].0.clone();
            let mut done = false;
            if !self.structs.contains_key(name.as_str()) {
                let definition = match self.struct_definitions_tc.get(name.as_str()) {
                    Some(d) => d,
                    None => {
                        assert(false);
                        return;
                    },
                };
                if definition.type_parameters.len() == 0 {
                    let tys = field_types_of(&definition.fields);
                    match type_list_to_value_types(&tys) {
                        Ok(lowered) => {
                            let ghost lv = value_types_view(lowered@);
                            proof {
                                assert(builtin_struct_fields(m, key) == lv);
                                assert(!(seen_i(key) && builtin_struct_eligible(m, key)));
                                assert forall|k: Seq<char>| k != key implies #[trigger] seen_next(k)
                                    == seen_i(k) by {
                                    if seen_next(k) {
                                        let j = choose|j: int|
                                            0 <= j < i + 1 && entries[j].0@ == k;
                                        assert(j != i);
                                    }
                                }
                            }
                            let names = field_names_of(&definition.fields);
                            let mut lowering = StructLowering::new();
                            lowering.field_names = names;
                            lowering.field_types = clone_value_types(&lowered);
                            let ghost v0 = self.struct_field_variants@;
                            let ghost b0 = self.struct_variant_bases@;
                            let ghost after_v = variants_after_builtins(m, seen_i);
                            let ghost after_b = bases_after_builtins(m, seen_i);
                            if !self.struct_field_variants.contains_key(name.as_str()) {
                                self.struct_field_variants.insert(name.clone(), lowered);
                                proof {
                                    assert(variants_view(self.struct_field_variants@) =~= variants_view(
                                        v0,
                                    ).insert(key, lv));
                                }
                            }
                            if !self.struct_variant_bases.contains_key(name.as_str()) {
                                self.struct_variant_bases.insert(name.clone(), name.clone());
                                proof {
                                    assert(bases_view(self.struct_variant_bases@) =~= bases_view(
                                        b0,
                                    ).insert(key, key));
                                }
                            }
                            self.structs.insert(name, lowering);
                            done = true;
                            proof {
                                assert(builtin_struct_eligible(m, key));
                                let goal_v = variants_after_builtins(m, seen_next);
                                let cur_v = variants_view(self.struct_field_variants@);
                                assert(cur_v == if after_v.dom().contains(key) {
                                    after_v
                                } else {
                                    after_v.insert(key, lv)
                                });
                                assert(cur_v =~= goal_v);
                                let goal_b = bases_after_builtins(m, seen_next);
                                let cur_b = bases_view(self.struct_variant_bases@);
                                assert(cur_b == if after_b.dom().contains(key) {
                                    after_b
                                } else {
                                    after_b.insert(key, key)
                                });
                                assert(cur_b =~= goal_b);
                                assert forall|k: Seq<char>|
                                    #![trigger self.structs@.dom().contains(k)]
                                    self.structs@.dom().contains(k) <==> (m.structs@.dom().contains(
                                        k,
                                    ) || (seen_next(k) && builtin_struct_eligible(m, k))) by {
                                    if k != key {
                                        assert(seen_next(k) == seen_i(k));
                                    }
                                }
                                assert forall|k: Seq<char>|
                                    #![trigger self.structs@[k]]
                                    seen_next(k) && builtin_struct_eligible(m, k) implies {
                                    &&& names_view(self.structs@[k].field_names@)
                                        == declared_field_names(
                                        m.struct_definitions_tc@[k].fields@,
                                    )
                                    &&& value_types_view(self.structs@[k].field_types@)
                                        == builtin_struct_fields(m, k)
                                    &&& self.structs@[k].template_global is None
                                    &&& self.structs@[k].field_names_global is None
                                    &&& self.structs@[k].template_pointer is None
                                } by {
                                    if k != key {
                                        assert(seen_next(k) == seen_i(k));
                                    }
                                }
                            }
                        },
                        Err(_) => {},
                    }
                }
            }
            if !done {
                proof {
                    assert(!builtin_struct_eligible(m, key) || before.structs@.dom().contains(key));
                    assert forall|k: Seq<char>|
                        seen_next(k) && builtin_struct_eligible(m, k) implies seen_i(k) by {
                        if k == key {
                            assert(before.structs@.dom().contains(key));
                            assert(seen_i(k));
                        } else {
                            let j = choose|j: int| 0 <= j < i + 1 && entries[j].0@ == k;
                            assert(j != i);
                        }
                    }
                    assert(variants_after_builtins(m, seen_next) =~= variants_after_builtins(
                        m,
                        seen_i,
                    ));
                    assert(bases_after_builtins(m, seen_next) =~= bases_after_builtins(m, seen_i));
                }
            }
            i = i + 1;
        }
        proof {
            let seen_all = |k: Seq<char>| exists|j: int| 0 <= j < n && entries[j].0@ == k;
            let has = |k: Seq<char>| m.struct_definitions_tc@.dom().contains(k);
            assert forall|k: Seq<char>| #[trigger] seen_all(k) == has(k) by {
                crate::names::lemma_entries_map_dom(entries, k);
            }
            assert(variants_after_builtins(m, seen_all) =~= variants_after_builtins(m, has));
            assert(bases_after_builtins(m, seen_all) =~= bases_after_builtins(m, has));
        }
    }
}

} // verus!
