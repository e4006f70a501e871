//! Collecting the structs a module declares: every declared name is known
//! before any field annotation is read (so fields may name structs
//! declared later), then each non-generic struct gets its field types.
use vstd::prelude::*;

use crate::aot::generics::resolved;
use crate::aot::scopes::GenericBindings;
use crate::aot::structs::{
    bases_view, names_view, variant_plan, variant_plan_known, variant_tables_after,
    variant_tables_after_in, variants_view, StructMetadata,
};
use crate::aot::type_parser::{
    generic_value_types, lexemes_text, parse_type, parse_type_text, trimmed,
};
use crate::aot::types::{
    clone_value_types, lemma_value_types_view, lower_type, lowering_error_message,
    type_to_value_type, value_types_view, IrRef, SpecValueType, StructLowering, ValueType,
};
use crate::ast::{Statement, StructField, TypeExpression};
use crate::names::{lemma_entries_map_first, lemma_entries_map_update, NameMap};
use crate::typechecker::{lemma_types_view, types_view, SpecType, Type};

verus! {

/// The type an annotation stands for (see [`parse_type_text`]).
pub open spec fn annotation_type(
    te: TypeExpression,
    g: spec_fn(Seq<char>) -> Option<SpecValueType>,
    st: Set<Seq<char>>,
) -> Result<SpecValueType, Seq<char>> {
    parse_type_text(trimmed(lexemes_text(te.tokens@)), g, st)
}

/// The types of the fields, read in order; the first annotation that
/// cannot be read is the error.
pub open spec fn annotated_field_types(
    fields: Seq<StructField>,
    g: spec_fn(Seq<char>) -> Option<SpecValueType>,
    st: Set<Seq<char>>,
) -> Result<Seq<SpecValueType>, Seq<char>>
    decreases fields.len(),
{
    if fields.len() == 0 {
        Ok(Seq::empty())
    } else {
        match annotated_field_types(fields.drop_last(), g, st) {
            Ok(ts) => match annotation_type(fields.last().type_annotation, g, st) {
                Ok(t) => Ok(ts.push(t)),
                Err(e) => Err(e),
            },
            Err(e) => Err(e),
        }
    }
}

/// The names of the fields, in order.
pub open spec fn struct_field_names(fields: Seq<StructField>) -> Seq<Seq<char>> {
    fields.map_values(|f: StructField| f.name@)
}

/// The struct tables as the collection sees them: the field names and
/// types of each struct, the field types of each struct type, and the base
/// struct of each struct type.
pub struct StructTables {
    pub fields: Map<Seq<char>, (Seq<Seq<char>>, Seq<SpecValueType>)>,
    pub variants: Map<Seq<char>, Seq<SpecValueType>>,
    pub bases: Map<Seq<char>, Seq<char>>,
}

pub open spec fn lowering_fields(l: StructLowering) -> (Seq<Seq<char>>, Seq<SpecValueType>) {
    (names_view(l.field_names@), value_types_view(l.field_types@))
}

pub open spec fn lowering_globals(l: StructLowering) -> (Option<IrRef>, Option<IrRef>, Option<IrRef>) {
    (l.template_global, l.field_names_global, l.template_pointer)
}

/// The tables of `m`.
pub open spec fn tables_of(m: StructMetadata) -> StructTables {
    StructTables {
        fields: m.structs@.map_values(|l: StructLowering| lowering_fields(l)),
        variants: variants_view(m.struct_field_variants@),
        bases: bases_view(m.struct_variant_bases@),
    }
}

/// Each declared struct that is not known yet, added with no fields.
pub open spec fn declared_structs(
    fields: Map<Seq<char>, (Seq<Seq<char>>, Seq<SpecValueType>)>,
    stmts: Seq<Statement>,
) -> Map<Seq<char>, (Seq<Seq<char>>, Seq<SpecValueType>)>
    decreases stmts.len(),
{
    if stmts.len() == 0 {
        fields
    } else {
        let f = declared_structs(fields, stmts.drop_last());
        match stmts.last() {
            Statement::Struct(s) => if f.dom().contains(s.name@) {
                f
            } else {
                f.insert(s.name@, (Seq::empty(), Seq::empty()))
            },
            _ => f,
        }
    }
}

/// The LLVM globals of each struct once the declared ones are known: kept
/// for the known ones, none for the new ones.
pub open spec fn declared_globals(
    globals: Map<Seq<char>, (Option<IrRef>, Option<IrRef>, Option<IrRef>)>,
    stmts: Seq<Statement>,
) -> Map<Seq<char>, (Option<IrRef>, Option<IrRef>, Option<IrRef>)>
    decreases stmts.len(),
{
    if stmts.len() == 0 {
        globals
    } else {
        let f = declared_globals(globals, stmts.drop_last());
        match stmts.last() {
            Statement::Struct(s) => if f.dom().contains(s.name@) {
                f
            } else {
                f.insert(s.name@, (None, None, None))
            },
            _ => f,
        }
    }
}

/// One struct declaration: a non-generic struct gets its fields' names and
/// types (a generic one its names only); its field types become the first
/// variant of its name when there are any; it is its own base.
pub open spec fn collect_struct_step(
    t: StructTables,
    s: crate::ast::StructStatement,
    g: spec_fn(Seq<char>) -> Option<SpecValueType>,
    st: Set<Seq<char>>,
) -> Result<StructTables, Seq<char>> {
    let types = if s.type_parameters@.len() == 0 {
        annotated_field_types(s.fields@, g, st)
    } else {
        Ok(Seq::empty())
    };
    match types {
        Ok(ts) => {
            let name = s.name@;
            let fields = if t.fields.dom().contains(name) {
                t.fields.insert(name, (struct_field_names(s.fields@), ts))
            } else {
                t.fields
            };
            let variants = if fields.dom().contains(name) && fields[name].1.len() > 0
                && !t.variants.dom().contains(name) {
                t.variants.insert(name, fields[name].1)
            } else {
                t.variants
            };
            let bases = if t.bases.dom().contains(name) {
                t.bases
            } else {
                t.bases.insert(name, name)
            };
            Ok(StructTables { fields, variants, bases })
        },
        Err(e) => Err(e),
    }
}

/// The declarations in order; the first annotation that cannot be read
/// stops the collection.
pub open spec fn collect_structs_from(
    t: StructTables,
    stmts: Seq<Statement>,
    g: spec_fn(Seq<char>) -> Option<SpecValueType>,
    st: Set<Seq<char>>,
) -> Result<StructTables, Seq<char>>
    decreases stmts.len(),
{
    if stmts.len() == 0 {
        Ok(t)
    } else {
        match collect_structs_from(t, stmts.drop_last(), g, st) {
            Ok(t1) => match stmts.last() {
                Statement::Struct(s) => collect_struct_step(t1, s, g, st),
                _ => Ok(t1),
            },
            Err(e) => Err(e),
        }
    }
}

/// The whole collection: the declared structs are added, then each
/// declaration is read against all of them.
pub open spec fn collected_structs(
    m: StructMetadata,
    stmts: Seq<Statement>,
    g: spec_fn(Seq<char>) -> Option<SpecValueType>,
) -> Result<StructTables, Seq<char>> {
    let t = tables_of(m);
    let declared = declared_structs(t.fields, stmts);
    collect_structs_from(
        StructTables { fields: declared, variants: t.variants, bases: t.bases },
        stmts,
        g,
        declared.dom(),
    )
}

proof fn lemma_field_types_error_stays(
    fields: Seq<StructField>,
    g: spec_fn(Seq<char>) -> Option<SpecValueType>,
    st: Set<Seq<char>>,
    k: int,
    e: Seq<char>,
)
    requires
        0 <= k <= fields.len(),
        annotated_field_types(fields.take(k), g, st) == Err::<Seq<SpecValueType>, Seq<char>>(e),
    ensures
        annotated_field_types(fields, g, st) == Err::<Seq<SpecValueType>, Seq<char>>(e),
    decreases fields.len() - k,
{
    if k < fields.len() {
        assert(fields.take(k + 1).drop_last() =~= fields.take(k));
        lemma_field_types_error_stays(fields, g, st, k + 1, e);
    } else {
        assert(fields.take(k) =~= fields);
    }
}

fn names_of_fields(fields: &Vec<StructField>) -> (r: Vec<String>)
    ensures
        names_view(r@) == struct_field_names(fields@),
{
    let mut r: Vec<String> = Vec::new();
    let mut i: usize = 0;
    while i < fields.len()
        invariant
            i <= fields@.len(),
            r@.len() == i,
            forall|j: int| 0 <= j < i ==> (#[trigger] r@[j])@ == fields@[j].name@,
        decreases fields@.len() - i,
    {
        r.push(fields[i].name.clone());
        i = i + 1;
    }
    assert(names_view(r@) =~= struct_field_names(fields@));
    r
}

fn read_field_types(
    fields: &Vec<StructField>,
    generics: &GenericBindings,
    structs: &NameMap<StructLowering>,
) -> (r: Result<Vec<ValueType>, String>)
    ensures
        match r {
            Ok(ts) => annotated_field_types(
                fields@,
                generic_value_types(generics.scopes@),
                structs@.dom(),
            ) == Ok::<Seq<SpecValueType>, Seq<char>>(value_types_view(ts@)),
            Err(e) => annotated_field_types(
                fields@,
                generic_value_types(generics.scopes@),
                structs@.dom(),
            ) == Err::<Seq<SpecValueType>, Seq<char>>(e@),
        },
{
    let ghost g = generic_value_types(generics.scopes@);
    let ghost st = structs@.dom();
    let mut ts: Vec<ValueType> = Vec::new();
    let mut i: usize = 0;
    proof {
        assert(fields@.take(0) =~= Seq::<StructField>::empty());
        assert(value_types_view(ts@) =~= Seq::<SpecValueType>::empty());
    }
    while i < fields.len()
        invariant
            i <= fields@.len(),
            g == generic_value_types(generics.scopes@),
            st == structs@.dom(),
            annotated_field_types(fields@.take(i as int), g, st) == Ok::<
                Seq<SpecValueType>,
                Seq<char>,
            >(value_types_view(ts@)),
        decreases fields@.len() - i,
    {
        proof {
            assert(fields@.take(i + 1).drop_last() =~= fields@.take(i as int));
            assert(fields@.take(i + 1).last() == fields@[i as int]);
        }
        match parse_type(&fields[i].type_annotation, generics, structs) {
            Ok(t) => {
                let ghost before = ts@;
                assert(annotation_type(fields@[i as int].type_annotation, g, st) == Ok::<
                    SpecValueType,
                    Seq<char>,
                >(t@));
                ts.push(t);
                proof {
                    lemma_value_types_view(before);
                    lemma_value_types_view(ts@);
                    assert(value_types_view(ts@) =~= value_types_view(before).push(t@));
                }
            },
            Err(e) => {
                proof {
                    lemma_field_types_error_stays(fields@, g, st, i + 1, e@);
                }
                return Err(e);
            },
        }
        i = i + 1;
    }
    proof {
        assert(fields@.take(i as int) =~= fields@);
    }
    Ok(ts)
}

proof fn lemma_collect_error_stays(
    t: StructTables,
    stmts: Seq<Statement>,
    g: spec_fn(Seq<char>) -> Option<SpecValueType>,
    st: Set<Seq<char>>,
    k: int,
    e: Seq<char>,
)
    requires
        0 <= k <= stmts.len(),
        collect_structs_from(t, stmts.take(k), g, st) == Err::<StructTables, Seq<char>>(e),
    ensures
        collect_structs_from(t, stmts, g, st) == Err::<StructTables, Seq<char>>(e),
    decreases stmts.len() - k,
{
    if k < stmts.len() {
        assert(stmts.take(k + 1).drop_last() =~= stmts.take(k));
        lemma_collect_error_stays(t, stmts, g, st, k + 1, e);
    } else {
        assert(stmts.take(k) =~= stmts);
    }
}

/// Every struct a module declares is known when field annotations are
/// read, so a field may name a struct declared after it.
pub proof fn lemma_declared_contains(
    fields: Map<Seq<char>, (Seq<Seq<char>>, Seq<SpecValueType>)>,
    stmts: Seq<Statement>,
    j: int,
)
    requires
        0 <= j < stmts.len(),
        stmts[j] is Struct,
    ensures
        declared_structs(fields, stmts).dom().contains(stmts[j]->Struct_0.name@),
    decreases stmts.len(),
{
    if j < stmts.len() - 1 {
        assert(stmts.drop_last()[j] == stmts[j]);
        lemma_declared_contains(fields, stmts.drop_last(), j);
    }
}

impl StructMetadata {
    /// Collects the structs a module declares: each
    /// declared name is added first, then each declaration in order gets
    /// its field names and, when it is not generic, its field types read
    /// against all known structs and the generic parameters in scope (see
    /// [`collected_structs`]). The LLVM globals of the structs are not
    /// touched; new structs have none yet.
    pub fn collect_structs(&mut self, statements: &[Statement], generics: &GenericBindings) -> (r:
        Result<(), String>)
        ensures
            match r {
                Ok(()) => collected_structs(
                    *old(self),
                    statements@,
                    generic_value_types(generics.scopes@),
                ) == Ok::<StructTables, Seq<char>>(tables_of(*final(self))),
                Err(e) => collected_structs(
                    *old(self),
                    statements@,
                    generic_value_types(generics.scopes@),
                ) == Err::<StructTables, Seq<char>>(e@),
            },
            final(self).structs@.map_values(|l: StructLowering| lowering_globals(l))
                == declared_globals(
                old(self).structs@.map_values(|l: StructLowering| lowering_globals(l)),
                statements@,
            ),
            final(self).struct_definitions_tc == old(self).struct_definitions_tc,
            final(self).struct_instances_tc == old(self).struct_instances_tc,
            final(self).struct_call_metadata_tc == old(self).struct_call_metadata_tc,
    {
        let ghost m0 = *self;
        let ghost g = generic_value_types(generics.scopes@);
        let ghost fields0 = tables_of(m0).fields;
        let ghost globals0 = m0.structs@.map_values(|l: StructLowering| lowering_globals(l));
        let mut i: usize = 0;
        proof {
            assert(statements@.take(0) =~= Seq::<Statement>::empty());
        }
        while i < statements.len()
            invariant
                i <= statements@.len(),
                fields0 == tables_of(m0).fields,
                globals0 == m0.structs@.map_values(|l: StructLowering| lowering_globals(l)),
                self.structs@.map_values(|l: StructLowering| lowering_fields(l)) == declared_structs(
                    fields0,
                    statements@.take(i as int),
                ),
                self.structs@.map_values(|l: StructLowering| lowering_globals(l)) == declared_globals(
                    globals0,
                    statements@.take(i as int),
                ),
                self.struct_field_variants == m0.struct_field_variants,
                self.struct_variant_bases == m0.struct_variant_bases,
                self.struct_definitions_tc == m0.struct_definitions_tc,
                self.struct_instances_tc == m0.struct_instances_tc,
                self.struct_call_metadata_tc == m0.struct_call_metadata_tc,
            decreases statements@.len() - i,
        {
            proof {
                assert(statements@.take(i + 1).drop_last() =~= statements@.take(i as int));
                assert(statements@.take(i + 1).last() == statements@[i as int]);
            }
            match &statements[i] {
                Statement::Struct(st) => {
                    if !self.structs.contains_key(st.name.as_str()) {
                        let ghost before = self.structs@;
                        let fresh = StructLowering::new();
                        proof {
                            assert(names_view(fresh.field_names@) =~= Seq::<Seq<char>>::empty());
                            assert(value_types_view(fresh.field_types@) =~= Seq::<
                                SpecValueType,
                            >::empty());
                        }
                        self.structs.insert(st.name.clone(), fresh);
                        proof {
                            assert(self.structs@.map_values(
                                |l: StructLowering| lowering_fields(l),
                            ) =~= before.map_values(|l: StructLowering| lowering_fields(l)).insert(
                                st.name@,
                                (Seq::<Seq<char>>::empty(), Seq::<SpecValueType>::empty()),
                            ));
                            assert(self.structs@.map_values(
                                |l: StructLowering| lowering_globals(l),
                            ) =~= before.map_values(|l: StructLowering| lowering_globals(l)).insert(
                                st.name@,
                                (None, None, None),
                            ));
                        }
                    }
                },
                _ => {},
            }
            i = i + 1;
        }
        proof {
            assert(statements@.take(i as int) =~= statements@);
        }
        let ghost declared = self.structs@.map_values(|l: StructLowering| lowering_fields(l));
        let ghost dom = self.structs@.dom();
        let ghost globals1 = self.structs@.map_values(|l: StructLowering| lowering_globals(l));
        let ghost t1 = StructTables {
            fields: declared,
            variants: variants_view(m0.struct_field_variants@),
            bases: bases_view(m0.struct_variant_bases@),
        };
        proof {
            assert(declared.dom() =~= dom);
            assert(statements@.take(0) =~= Seq::<Statement>::empty());
            assert(tables_of(*self) =~= t1);
        }
        let mut i: usize = 0;
        while i < statements.len()
            invariant
                i <= statements@.len(),
                g == generic_value_types(generics.scopes@),
                m0 == *old(self),
                self.structs@.dom() == dom,
                declared.dom() == dom,
                declared == declared_structs(tables_of(m0).fields, statements@),
                globals1 == declared_globals(
                    m0.structs@.map_values(|l: StructLowering| lowering_globals(l)),
                    statements@,
                ),
                t1 == (StructTables {
                    fields: declared,
                    variants: variants_view(m0.struct_field_variants@),
                    bases: bases_view(m0.struct_variant_bases@),
                }),
                collect_structs_from(t1, statements@.take(i as int), g, dom) == Ok::<
                    StructTables,
                    Seq<char>,
                >(tables_of(*self)),
                self.structs@.map_values(|l: StructLowering| lowering_globals(l)) == globals1,
                self.struct_definitions_tc == m0.struct_definitions_tc,
                self.struct_instances_tc == m0.struct_instances_tc,
                self.struct_call_metadata_tc == m0.struct_call_metadata_tc,
            decreases statements@.len() - i,
        {
            proof {
                assert(statements@.take(i + 1).drop_last() =~= statements@.take(i as int));
                assert(statements@.take(i + 1).last() == statements@[i as int]);
            }
            match &statements[i] {
                Statement::Struct(st) => {
                    let ghost t = tables_of(*self);
                    let field_names = names_of_fields(&st.fields);
                    let field_types = if st.type_parameters.len() == 0 {
                        match read_field_types(&st.fields, generics, &self.structs) {
                            Ok(ts) => ts,
                            Err(e) => {
                                proof {
                                    lemma_collect_error_stays(t1, statements@, g, dom, i + 1, e@);
                                }
                                return Err(e);
                            },
                        }
                    } else {
                        let empty: Vec<ValueType> = Vec::new();
                        proof {
                            assert(value_types_view(empty@) =~= Seq::<SpecValueType>::empty());
                        }
                        empty
                    };
                    let ghost types_view = value_types_view(field_types@);
                    proof {
                        lemma_declared_contains(tables_of(m0).fields, statements@, i as int);
                    }
                    match self.structs.index_of(st.name.as_str()) {
                        Some(k) => {
                            let ghost entries = self.structs.entries@;
                            let (key, mut entry) = self.structs.entries.remove(k);
                            entry.field_names = field_names;
                            entry.field_types = field_types;
                            let ghost e = (key, entry);
                            self.structs.entries.insert(k, (key, entry));
                            proof {
                                assert(self.structs.entries@ =~= entries.update(k as int, e));
                                lemma_entries_map_first(entries, st.name@, k as int);
                                lemma_entries_map_update(entries, st.name@, k as int, e);
                                assert(self.structs@.dom() =~= dom);
                            }
                        },
                        None => {},
                    }
                    proof {
                        assert(tables_of(*self).fields =~= t.fields.insert(
                            st.name@,
                            (struct_field_names(st.fields@), types_view),
                        ));
                    }
                    match self.structs.get(st.name.as_str()) {
                        Some(entry) => {
                            if entry.field_types.len() > 0
                                && !self.struct_field_variants.contains_key(st.name.as_str()) {
                                let copy = clone_value_types(&entry.field_types);
                                let ghost vb = self.struct_field_variants@;
                                self.struct_field_variants.insert(st.name.clone(), copy);
                                proof {
                                    assert(variants_view(self.struct_field_variants@)
                                        =~= variants_view(vb).insert(st.name@, types_view));
                                }
                            }
                        },
                        None => {},
                    }
                    if !self.struct_variant_bases.contains_key(st.name.as_str()) {
                        let ghost bb = self.struct_variant_bases@;
                        self.struct_variant_bases.insert(st.name.clone(), st.name.clone());
                        proof {
                            assert(bases_view(self.struct_variant_bases@) =~= bases_view(bb).insert(
                                st.name@,
                                st.name@,
                            ));
                        }
                    }
                    proof {
                        assert(tables_of(*self) =~= collect_struct_step(t, *st, g, dom)->Ok_0);
                    }
                },
                _ => {},
            }
            i = i + 1;
        }
        proof {
            assert(statements@.take(i as int) =~= statements@);
        }
        Ok(())
    }
}

/// What resolving a type to its representation gives: the type with its
/// generic parameters bound; for a struct type, its field types must be
/// known or found (see [`variant_plan`]); then the resolved type lowered.
pub open spec fn resolved_value_type(
    m: StructMetadata,
    scopes: Seq<NameMap<(Type, ValueType)>>,
    t: SpecType,
) -> Result<SpecValueType, Seq<char>> {
    resolved_value_type_in(m.struct_field_variants@.dom(), m, scopes, t)
}

/// [`resolved_value_type`] with the struct types whose fields are known
/// given apart from the rest of the metadata.
pub open spec fn resolved_value_type_in(
    known: Set<Seq<char>>,
    m: StructMetadata,
    scopes: Seq<NameMap<(Type, ValueType)>>,
    t: SpecType,
) -> Result<SpecValueType, Seq<char>> {
    match resolved(t, scopes) {
        Ok(r) => {
            let plan = match r {
                SpecType::Struct(name, args) => match variant_plan_known(known, m, name, args) {
                    Ok(_) => Ok(()),
                    Err(e) => Err(e),
                },
                _ => Ok(()),
            };
            match plan {
                Ok(()) => match lower_type(r) {
                    Ok(v) => Ok(v),
                    Err(e) => Err(lowering_error_message(e)),
                },
                Err(e) => Err(e),
            }
        },
        Err(e) => Err(e),
    }
}

/// The struct-type tables after resolving `t`: a struct type gets its
/// fields recorded (see [`variant_tables_after_in`]); other types change
/// nothing.
pub open spec fn tables_after_resolving(
    variants: Map<Seq<char>, Seq<SpecValueType>>,
    bases: Map<Seq<char>, Seq<char>>,
    m: StructMetadata,
    scopes: Seq<NameMap<(Type, ValueType)>>,
    t: SpecType,
) -> (Map<Seq<char>, Seq<SpecValueType>>, Map<Seq<char>, Seq<char>>) {
    match resolved(t, scopes) {
        Ok(SpecType::Struct(name, args)) => variant_tables_after_in(variants, bases, m, name, args),
        _ => (variants, bases),
    }
}

/// Resolving a list of types in order, each against the struct-type tables
/// the previous ones left: the representations (or the first error) and
/// the tables at the end.
pub open spec fn resolved_values(
    variants: Map<Seq<char>, Seq<SpecValueType>>,
    bases: Map<Seq<char>, Seq<char>>,
    m: StructMetadata,
    scopes: Seq<NameMap<(Type, ValueType)>>,
    ts: Seq<SpecType>,
) -> (Result<Seq<SpecValueType>, Seq<char>>, Map<Seq<char>, Seq<SpecValueType>>, Map<
    Seq<char>,
    Seq<char>,
>)
    decreases ts.len(),
{
    if ts.len() == 0 {
        (Ok(Seq::empty()), variants, bases)
    } else {
        let (r, v1, b1) = resolved_values(variants, bases, m, scopes, ts.drop_last());
        match r {
            Ok(vs) => {
                let t = ts.last();
                let (v2, b2) = tables_after_resolving(v1, b1, m, scopes, t);
                match resolved_value_type_in(v1.dom(), m, scopes, t) {
                    Ok(x) => (Ok(vs.push(x)), v2, b2),
                    Err(e) => (Err(e), v2, b2),
                }
            },
            Err(e) => (Err(e), v1, b1),
        }
    }
}

proof fn lemma_resolved_values_error_stays(
    variants: Map<Seq<char>, Seq<SpecValueType>>,
    bases: Map<Seq<char>, Seq<char>>,
    m: StructMetadata,
    scopes: Seq<NameMap<(Type, ValueType)>>,
    ts: Seq<SpecType>,
    k: int,
)
    requires
        0 <= k <= ts.len(),
        resolved_values(variants, bases, m, scopes, ts.take(k)).0 is Err,
    ensures
        resolved_values(variants, bases, m, scopes, ts) == resolved_values(
            variants,
            bases,
            m,
            scopes,
            ts.take(k),
        ),
    decreases ts.len() - k,
{
    if k < ts.len() {
        assert(ts.take(k + 1).drop_last() =~= ts.take(k));
        lemma_resolved_values_error_stays(variants, bases, m, scopes, ts, k + 1);
    } else {
        assert(ts.take(k) =~= ts);
    }
}

impl StructMetadata {
    /// The representation of a checked type in the current generic scopes: its generic parameters are
    /// bound, a struct type gets its field types recorded (see
    /// [`StructMetadata::ensure_struct_variant_metadata`]), and the result
    /// is lowered.
    pub fn resolve_type_with_bindings_to_value(&mut self, generics: &GenericBindings, ty: &Type) -> (r:
        Result<ValueType, String>)
        ensures
            match r {
                Ok(v) => resolved_value_type(*old(self), generics.scopes@, ty@) == Ok::<
                    SpecValueType,
                    Seq<char>,
                >(v@),
                Err(e) => resolved_value_type(*old(self), generics.scopes@, ty@) == Err::<
                    SpecValueType,
                    Seq<char>,
                >(e@),
            },
            (variants_view(final(self).struct_field_variants@), bases_view(
                final(self).struct_variant_bases@,
            )) == match resolved(ty@, generics.scopes@) {
                Ok(SpecType::Struct(name, args)) => variant_tables_after(*old(self), name, args),
                _ => (
                    variants_view(old(self).struct_field_variants@),
                    bases_view(old(self).struct_variant_bases@),
                ),
            },
            final(self).structs == old(self).structs,
            final(self).struct_definitions_tc == old(self).struct_definitions_tc,
            final(self).struct_instances_tc == old(self).struct_instances_tc,
            final(self).struct_call_metadata_tc == old(self).struct_call_metadata_tc,
    {
        let resolved_ty = match generics.resolve_type_with_bindings(ty) {
            Ok(t) => t,
            Err(e) => return Err(e),
        };
        match &resolved_ty {
            Type::Struct(struct_type) => {
                match self.ensure_struct_variant_metadata(struct_type) {
                    Ok(()) => {},
                    Err(e) => return Err(e),
                }
            },
            _ => {},
        }
        match type_to_value_type(&resolved_ty) {
            Ok(v) => Ok(v),
            Err(e) => Err(e.message()),
        }
    }
}

impl StructMetadata {
    /// Resolves a list of types to their representations, in order (see
    /// [`resolved_values`]); the first error stops the list.
    pub fn resolve_types_with_bindings_to_values(
        &mut self,
        generics: &GenericBindings,
        ts: &Vec<Type>,
    ) -> (r: Result<Vec<ValueType>, String>)
        ensures
            ({
                let (res, v, b) = resolved_values(
                    variants_view(old(self).struct_field_variants@),
                    bases_view(old(self).struct_variant_bases@),
                    *old(self),
                    generics.scopes@,
                    types_view(ts@),
                );
                &&& match r {
                    Ok(vs) => res == Ok::<Seq<SpecValueType>, Seq<char>>(value_types_view(vs@)),
                    Err(e) => res == Err::<Seq<SpecValueType>, Seq<char>>(e@),
                }
                &&& variants_view(final(self).struct_field_variants@) == v
                &&& bases_view(final(self).struct_variant_bases@) == b
            }),
            final(self).structs == old(self).structs,
            final(self).struct_definitions_tc == old(self).struct_definitions_tc,
            final(self).struct_instances_tc == old(self).struct_instances_tc,
            final(self).struct_call_metadata_tc == old(self).struct_call_metadata_tc,
    {
        let ghost m0 = *self;
        let ghost tv = types_view(ts@);
        let ghost v0 = variants_view(self.struct_field_variants@);
        let ghost b0 = bases_view(self.struct_variant_bases@);
        proof {
            lemma_types_view(ts@);
        }
        let mut out: Vec<ValueType> = Vec::new();
        let mut i: usize = 0;
        proof {
            assert(tv.take(0) =~= Seq::<SpecType>::empty());
            assert(value_types_view(out@) =~= Seq::<SpecValueType>::empty());
        }
        while i < ts.len()
            invariant
                i <= ts@.len(),
                tv == types_view(ts@),
                tv.len() == ts@.len(),
                forall|j: int| 0 <= j < ts@.len() ==> #[trigger] tv[j] == ts@[j]@,
                m0 == *old(self),
                v0 == variants_view(m0.struct_field_variants@),
                b0 == bases_view(m0.struct_variant_bases@),
                resolved_values(v0, b0, m0, generics.scopes@, tv.take(i as int)) == (
                    Ok::<Seq<SpecValueType>, Seq<char>>(value_types_view(out@)),
                    variants_view(self.struct_field_variants@),
                    bases_view(self.struct_variant_bases@),
                ),
                self.structs == m0.structs,
                self.struct_definitions_tc == m0.struct_definitions_tc,
                self.struct_instances_tc == m0.struct_instances_tc,
                self.struct_call_metadata_tc == m0.struct_call_metadata_tc,
            decreases ts@.len() - i,
        {
            proof {
                assert(tv.take(i + 1).drop_last() =~= tv.take(i as int));
                assert(tv.take(i + 1).last() == ts@[i as int]@);
            }
            let ghost before = *self;
            match self.resolve_type_with_bindings_to_value(generics, &ts[i]) {
                Ok(v) => {
                    let ghost prev = out@;
                    out.push(v);
                    proof {
                        lemma_value_types_view(prev);
                        lemma_value_types_view(out@);
                        assert(value_types_view(out@) =~= value_types_view(prev).push(v@));
                    }
                },
                Err(e) => {
                    proof {
                        lemma_resolved_values_error_stays(v0, b0, m0, generics.scopes@, tv, i + 1);
                        assert(tv.take(ts@.len() as int) =~= tv);
                    }
                    return Err(e);
                },
            }
            i = i + 1;
        }
        proof {
            assert(tv.take(i as int) =~= tv);
        }
        Ok(out)
    }
}

} // verus!
