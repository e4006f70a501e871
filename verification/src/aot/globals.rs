//! Top-level bindings: which ones a module declares, and the type and
//! slot each one needs.
use vstd::prelude::*;

use crate::aot::backend::{check_global_slot, global_slot_check, slot_views, span_description};
use crate::aot::collect::{resolved_value_type, tables_after_resolving};
use crate::aot::scopes::GenericBindings;
use crate::aot::structs::{bases_view, variants_view, StructMetadata};
use crate::aot::types::{GlobalBindingSlot, IrRef, SpecValueType, ValueType};
use crate::ast::{SourceSpan, Statement, VarBinding, VarStatement};
use crate::names::NameMap;
use crate::typechecker::{clone_type, SpecType, Type};

verus! {

/// The bindings one `var` or `const` statement declares: each one's name,
/// span and whether it may be assigned.
pub open spec fn statement_bindings(v: VarStatement) -> Seq<(Seq<char>, SourceSpan, bool)> {
    v.bindings@.map_values(|b: VarBinding| (b.name@, b.span, !v.is_const))
}

/// The top-level bindings of a module, in order: each one's name, span and
/// whether it may be assigned (it is declared with `var`, not `const`).
pub open spec fn global_bindings(stmts: Seq<Statement>) -> Seq<(Seq<char>, SourceSpan, bool)>
    decreases stmts.len(),
{
    if stmts.len() == 0 {
        Seq::empty()
    } else {
        global_bindings(stmts.drop_last()) + match stmts.last() {
            Statement::Var(v) => statement_bindings(v),
            _ => Seq::empty(),
        }
    }
}

/// The plain view of a list of bindings.
pub open spec fn binding_entries_view(r: Seq<(String, SourceSpan, bool)>) -> Seq<
    (Seq<char>, SourceSpan, bool),
> {
    r.map_values(|e: (String, SourceSpan, bool)| (e.0@, e.1, e.2))
}

/// The top-level bindings of a module (see [`global_bindings`]).
pub fn global_bindings_of(statements: &[Statement]) -> (r: Vec<(String, SourceSpan, bool)>)
    ensures
        binding_entries_view(r@) == global_bindings(statements@),
{
    let mut r: Vec<(String, SourceSpan, bool)> = Vec::new();
    let mut i: usize = 0;
    proof {
        assert(statements@.take(0) =~= Seq::<Statement>::empty());
        assert(binding_entries_view(r@) =~= Seq::<(Seq<char>, SourceSpan, bool)>::empty());
    }
    while i < statements.len()
        invariant
            i <= statements@.len(),
            binding_entries_view(r@) == global_bindings(statements@.take(i as int)),
        decreases statements@.len() - i,
    {
        proof {
            assert(statements@.take(i + 1).drop_last() =~= statements@.take(i as int));
            assert(statements@.take(i + 1).last() == statements@[i as int]);
        }
        match &statements[i] {
            Statement::Var(var) => {
                let ghost before = r@;
                let mut j: usize = 0;
                while j < var.bindings.len()
                    invariant
                        j <= var.bindings@.len(),
                        r@.len() == before.len() + j,
                        forall|k: int| 0 <= k < before.len() ==> #[trigger] r@[k] == before[k],
                        forall|k: int|
                            0 <= k < j ==> {
                                &&& (#[trigger] r@[before.len() + k]).0@ == var.bindings@[k].name@
                                &&& r@[before.len() + k].1 == var.bindings@[k].span
                                &&& r@[before.len() + k].2 == !var.is_const
                            },
                    decreases var.bindings@.len() - j,
                {
                    let b = &var.bindings[j];
                    r.push((b.name.clone(), b.span, !var.is_const));
                    j = j + 1;
                }
                proof {
                    let lhs = binding_entries_view(r@);
                    let rhs = binding_entries_view(before) + statement_bindings(*var);
                    assert forall|k: int| 0 <= k < lhs.len() implies lhs[k] == rhs[k] by {
                        if k < before.len() {
                            assert(r@[k] == before[k]);
                        } else {
                            let m = k - before.len();
                            assert(r@[before.len() + m].0@ == var.bindings@[m].name@);
                        }
                    }
                    assert(lhs =~= rhs);
                }
            },
            _ => {
                proof {
                    assert(binding_entries_view(r@) =~= global_bindings(statements@.take(i + 1)));
                }
            },
        }
        i = i + 1;
    }
    proof {
        assert(statements@.take(i as int) =~= statements@);
    }
    r
}

/// The first entry at or after `i` recorded for `span`.
pub open spec fn span_entry_from(table: Seq<(SourceSpan, Type)>, span: SourceSpan, i: int) -> Option<
    int,
>
    decreases table.len() - i,
{
    if i < 0 || i >= table.len() {
        None
    } else if table[i].0 == span {
        Some(i)
    } else {
        span_entry_from(table, span, i + 1)
    }
}

/// The checked type recorded for a binding's span.
pub open spec fn binding_type_at(table: Seq<(SourceSpan, Type)>, span: SourceSpan) -> Option<SpecType> {
    match span_entry_from(table, span, 0) {
        Some(i) => Some(table[i].1@),
        None => None,
    }
}

/// The checked type recorded for `span`.
pub fn lookup_binding_type(table: &Vec<(SourceSpan, Type)>, span: SourceSpan) -> (r: Option<Type>)
    ensures
        match r {
            Some(t) => binding_type_at(table@, span) == Some(t@),
            None => binding_type_at(table@, span) is None,
        },
{
    let mut i: usize = 0;
    while i < table.len()
        invariant
            i <= table@.len(),
            span_entry_from(table@, span, i as int) == span_entry_from(table@, span, 0),
        decreases table@.len() - i,
    {
        if table[i].0 == span {
            return Some(clone_type(&table[i].1));
        }
        i = i + 1;
    }
    None
}

/// What a top-level binding needs: the representation of its recorded
/// type, and its slot if it has one (`None` asks for a new one); a missing
/// type, a type that cannot be resolved, or a slot of another type or
/// mutability is an error.
pub open spec fn global_binding_plan(
    m: StructMetadata,
    scopes: Seq<NameMap<(Type, ValueType)>>,
    table: Seq<(SourceSpan, Type)>,
    slots: Map<Seq<char>, (SpecValueType, bool, IrRef)>,
    name: Seq<char>,
    span: SourceSpan,
    mutable: bool,
) -> Result<(SpecValueType, Option<IrRef>), Seq<char>> {
    match binding_type_at(table, span) {
        None => Err(
            "missing type information for top-level binding '"@ + name + "' at "@
                + span_description(span),
        ),
        Some(t) => match resolved_value_type(m, scopes, t) {
            Err(e) => Err(e),
            Ok(v) => match global_slot_check(slots, name, v, mutable) {
                Ok(p) => Ok((v, p)),
                Err(e) => Err(e),
            },
        },
    }
}

impl StructMetadata {
    /// Plans the slot of one top-level binding (see
    /// [`global_binding_plan`]); resolving its type records the fields of a
    /// struct type (see [`tables_after_resolving`]).
    pub fn global_binding_slot(
        &mut self,
        generics: &GenericBindings,
        binding_types: &Vec<(SourceSpan, Type)>,
        slots: &NameMap<GlobalBindingSlot>,
        name: &str,
        span: SourceSpan,
        mutable: bool,
    ) -> (r: Result<(ValueType, Option<IrRef>), String>)
        ensures
            match r {
                Ok((v, p)) => global_binding_plan(
                    *old(self),
                    generics.scopes@,
                    binding_types@,
                    slot_views(slots@),
                    name@,
                    span,
                    mutable,
                ) == Ok::<(SpecValueType, Option<IrRef>), Seq<char>>((v@, p)),
                Err(e) => global_binding_plan(
                    *old(self),
                    generics.scopes@,
                    binding_types@,
                    slot_views(slots@),
                    name@,
                    span,
                    mutable,
                ) == Err::<(SpecValueType, Option<IrRef>), Seq<char>>(e@),
            },
            (variants_view(final(self).struct_field_variants@), bases_view(
                final(self).struct_variant_bases@,
            )) == match binding_type_at(binding_types@, span) {
                Some(t) => tables_after_resolving(
                    variants_view(old(self).struct_field_variants@),
                    bases_view(old(self).struct_variant_bases@),
                    *old(self),
                    generics.scopes@,
                    t,
                ),
                None => (
                    variants_view(old(self).struct_field_variants@),
                    bases_view(old(self).struct_variant_bases@),
                ),
            },
            final(self).structs == old(self).structs,
            final(self).struct_definitions_tc == old(self).struct_definitions_tc,
            final(self).struct_instances_tc == old(self).struct_instances_tc,
            final(self).struct_call_metadata_tc == old(self).struct_call_metadata_tc,
    {
        let ty = match lookup_binding_type(binding_types, span) {
            Some(t) => t,
            None => {
                let mut msg = String::from_str("missing type information for top-level binding '");
                msg.append(name);
                msg.append("' at ");
                let d = crate::aot::backend::describe_span(span);
                msg.append(d.as_str());
                return Err(msg);
            },
        };
        let value_type = match self.resolve_type_with_bindings_to_value(generics, &ty) {
            Ok(v) => v,
            Err(e) => return Err(e),
        };
        match check_global_slot(slots, name, &value_type, mutable) {
            Ok(p) => Ok((value_type, p)),
            Err(e) => Err(e),
        }
    }
}

} // verus!
