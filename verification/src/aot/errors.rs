//! The lowered fields of error variants: looked up in the type checker's
//! error declarations and resolved in the current generic scopes the first
//! time a variant is needed.
use vstd::prelude::*;

use crate::aot::collect::resolved_values;
use crate::aot::scopes::GenericBindings;
use crate::aot::structs::{bases_view, names_view, variants_view, StructMetadata};
use crate::aot::types::{value_types_view, ErrorVariantLowering, IrRef, SpecValueType, ValueType};
use crate::names::{lemma_entries_map_first, lemma_entries_map_update, NameMap};
use crate::text::str_eq;
use crate::typechecker::{
    types_view, ErrorDefinition, ErrorFieldDefinition, ErrorVariantDefinition, SpecType, Type,
};

verus! {

/// The first variant at or after `i` named `v`.
pub open spec fn variant_index_from(vs: Seq<ErrorVariantDefinition>, v: Seq<char>, i: int) -> Option<
    int,
>
    decreases vs.len() - i,
{
    if i < 0 || i >= vs.len() {
        None
    } else if vs[i].name@ == v {
        Some(i)
    } else {
        variant_index_from(vs, v, i + 1)
    }
}

/// The declaration of variant `v` of error `e`.
pub open spec fn error_variant_definition(
    defs: Map<Seq<char>, ErrorDefinition>,
    e: Seq<char>,
    v: Seq<char>,
) -> Result<ErrorVariantDefinition, Seq<char>> {
    if !defs.dom().contains(e) {
        Err("unknown error '"@ + e + "'"@)
    } else {
        match variant_index_from(defs[e].variants@, v, 0) {
            Some(i) => Ok(defs[e].variants@[i]),
            None => Err("error '"@ + e + "' has no variant '"@ + v + "'"@),
        }
    }
}

/// Whether variant `v` of error `e` still has to be filled in: it is not
/// known, or known without fields.
pub open spec fn needs_variant_fields(
    errors: Map<Seq<char>, NameMap<ErrorVariantLowering>>,
    e: Seq<char>,
    v: Seq<char>,
) -> bool {
    !(errors.dom().contains(e) && errors[e]@.dom().contains(v)
        && errors[e]@[v].field_names@.len() > 0)
}

/// The declared field names of a variant.
pub open spec fn error_field_names(fields: Seq<ErrorFieldDefinition>) -> Seq<Seq<char>> {
    fields.map_values(|f: ErrorFieldDefinition| f.name@)
}

/// The declared field types of a variant.
pub open spec fn error_field_types(fields: Seq<ErrorFieldDefinition>) -> Seq<SpecType> {
    fields.map_values(|f: ErrorFieldDefinition| f.ty@)
}

/// The LLVM globals of a variant's lowering.
pub open spec fn variant_globals(l: ErrorVariantLowering) -> (Option<IrRef>, Option<IrRef>, Option<IrRef>) {
    (l.template_global, l.field_names_global, l.template_pointer)
}

pub(crate) fn find_variant(vs: &Vec<ErrorVariantDefinition>, v: &str) -> (r: Option<usize>)
    ensures
        match r {
            Some(i) => variant_index_from(vs@, v@, 0) == Some(i as int) && i < vs@.len(),
            None => variant_index_from(vs@, v@, 0) is None,
        },
{
    let mut i: usize = 0;
    while i < vs.len()
        invariant
            i <= vs@.len(),
            variant_index_from(vs@, v@, i as int) == variant_index_from(vs@, v@, 0),
        decreases vs@.len() - i,
    {
        if str_eq(vs[i].name.as_str(), v) {
            return Some(i);
        }
        i = i + 1;
    }
    None
}

fn field_parts(fields: &Vec<ErrorFieldDefinition>) -> (r: (Vec<String>, Vec<Type>))
    ensures
        names_view(r.0@) == error_field_names(fields@),
        types_view(r.1@) == error_field_types(fields@),
{
    let mut names: Vec<String> = Vec::new();
    let mut types: Vec<Type> = Vec::new();
    let mut i: usize = 0;
    while i < fields.len()
        invariant
            i <= fields@.len(),
            names@.len() == i,
            types@.len() == i,
            forall|j: int| 0 <= j < i ==> (#[trigger] names@[j])@ == fields@[j].name@,
            forall|j: int| 0 <= j < i ==> (#[trigger] types@[j])@ == fields@[j].ty@,
        decreases fields@.len() - i,
    {
        names.push(fields[i].name.clone());
        types.push(crate::typechecker::clone_type(&fields[i].ty));
        i = i + 1;
    }
    proof {
        crate::typechecker::lemma_types_view(types@);
        assert(names_view(names@) =~= error_field_names(fields@));
        assert(types_view(types@) =~= error_field_types(fields@));
    }
    (names, types)
}

/// Makes sure variant `variant_name` of error `error_name` has its fields
/// (`ensure_error_variant_metadata`): a variant already known with fields
/// is left as it is; otherwise its declaration is looked up and its field
/// types are resolved in order against the struct metadata (see
/// [`resolved_values`]), and the variant gets the field names and types,
/// keeping the LLVM globals it had.
pub fn ensure_error_variant_metadata(
    errors: &mut NameMap<NameMap<ErrorVariantLowering>>,
    error_definitions: &NameMap<ErrorDefinition>,
    structs: &mut StructMetadata,
    generics: &GenericBindings,
    error_name: &str,
    variant_name: &str,
) -> (r: Result<(), String>)
    ensures
        final(structs).structs == old(structs).structs,
        final(structs).struct_definitions_tc == old(structs).struct_definitions_tc,
        final(structs).struct_instances_tc == old(structs).struct_instances_tc,
        final(structs).struct_call_metadata_tc == old(structs).struct_call_metadata_tc,
        !needs_variant_fields(old(errors)@, error_name@, variant_name@) ==> {
            &&& r is Ok
            &&& final(errors)@ == old(errors)@
            &&& final(structs).struct_field_variants@ == old(structs).struct_field_variants@
            &&& final(structs).struct_variant_bases@ == old(structs).struct_variant_bases@
        },
        needs_variant_fields(old(errors)@, error_name@, variant_name@) ==> match error_variant_definition(
            error_definitions@,
            error_name@,
            variant_name@,
        ) {
            Err(msg) => {
                &&& r matches Err(m) && m@ == msg
                &&& final(errors)@ == old(errors)@
                &&& final(structs).struct_field_variants@ == old(structs).struct_field_variants@
                &&& final(structs).struct_variant_bases@ == old(structs).struct_variant_bases@
            },
            Ok(def) => {
                let (res, vt, bt) = resolved_values(
                    variants_view(old(structs).struct_field_variants@),
                    bases_view(old(structs).struct_variant_bases@),
                    *old(structs),
                    generics.scopes@,
                    error_field_types(def.fields@),
                );
                &&& variants_view(final(structs).struct_field_variants@) == vt
                &&& bases_view(final(structs).struct_variant_bases@) == bt
                &&& match res {
                    Err(msg) => r matches Err(m) && m@ == msg && final(errors)@ == old(errors)@,
                    Ok(ts) => {
                        let had_error = old(errors)@.dom().contains(error_name@);
                        let old_inner = if had_error {
                            old(errors)@[error_name@]@
                        } else {
                            Map::empty()
                        };
                        let new_inner = final(errors)@[error_name@]@;
                        &&& r is Ok
                        &&& final(errors)@.dom() == old(errors)@.dom().insert(error_name@)
                        &&& forall|k: Seq<char>|
                            k != error_name@ && #[trigger] old(errors)@.dom().contains(k)
                                ==> final(errors)@[k] == old(errors)@[k]
                        &&& new_inner.dom() == old_inner.dom().insert(variant_name@)
                        &&& forall|w: Seq<char>|
                            w != variant_name@ && #[trigger] old_inner.dom().contains(w)
                                ==> new_inner[w] == old_inner[w]
                        &&& names_view(new_inner[variant_name@].field_names@) == error_field_names(
                            def.fields@,
                        )
                        &&& value_types_view(new_inner[variant_name@].field_types@) == ts
                        &&& variant_globals(new_inner[variant_name@]) == if old_inner.dom().contains(
                            variant_name@,
                        ) {
                            variant_globals(old_inner[variant_name@])
                        } else {
                            (None, None, None)
                        }
                    },
                }
            },
        },
{
    let needs = match errors.get(error_name) {
        Some(inner) => match inner.get(variant_name) {
            Some(entry) => entry.field_names.len() == 0,
            None => true,
        },
        None => true,
    };
    if !needs {
        return Ok(());
    }
    let definition = match error_definitions.get(error_name) {
        Some(d) => d,
        None => {
            let mut msg = String::from_str("unknown error '");
            msg.append(error_name);
            msg.append("'");
            return Err(msg);
        },
    };
    let variant_def = match find_variant(&definition.variants, variant_name) {
        Some(i) => &definition.variants[i],
        None => {
            let mut msg = String::from_str("error '");
            msg.append(error_name);
            msg.append("' has no variant '");
            msg.append(variant_name);
            msg.append("'");
            return Err(msg);
        },
    };
    let (field_names, field_specs) = field_parts(&variant_def.fields);
    let field_types = match structs.resolve_types_with_bindings_to_values(generics, &field_specs) {
        Ok(ts) => ts,
        Err(e) => return Err(e),
    };
    let ghost ts = value_types_view(field_types@);
    let ghost errors0 = errors@;
    let mut inner: NameMap<ErrorVariantLowering> = match errors.index_of(error_name) {
        Some(i) => {
            proof {
                lemma_entries_map_first(errors.entries@, error_name@, i as int);
            }
            let ghost entries = errors.entries@;
            let (key, table) = errors.entries.remove(i);
            let empty: NameMap<ErrorVariantLowering> = NameMap::new();
            errors.entries.insert(i, (key, empty));
            proof {
                assert(errors.entries@ =~= entries.update(i as int, (key, empty)));
                lemma_entries_map_update(entries, error_name@, i as int, (key, empty));
            }
            table
        },
        None => NameMap::new(),
    };
    let ghost inner0 = inner@;
    match inner.index_of(variant_name) {
        Some(j) => {
            proof {
                lemma_entries_map_first(inner.entries@, variant_name@, j as int);
            }
            let ghost entries = inner.entries@;
            let (key, mut entry) = inner.entries.remove(j);
            entry.field_names = field_names;
            entry.field_types = field_types;
            let ghost e = (key, entry);
            inner.entries.insert(j, (key, entry));
            proof {
                assert(inner.entries@ =~= entries.update(j as int, e));
                lemma_entries_map_update(entries, variant_name@, j as int, e);
            }
        },
        None => {
            let mut entry = ErrorVariantLowering::new();
            entry.field_names = field_names;
            entry.field_types = field_types;
            inner.insert(String::from_str(variant_name), entry);
        },
    }
    errors.insert(String::from_str(error_name), inner);
    proof {
        assert(errors@.dom() =~= errors0.dom().insert(error_name@));
        assert(inner0 == if errors0.dom().contains(error_name@) {
            errors0[error_name@]@
        } else {
            Map::<Seq<char>, ErrorVariantLowering>::empty()
        });
    }
    Ok(())
}

} // verus!
