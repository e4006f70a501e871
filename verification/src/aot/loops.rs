//! Loops: the variables a loop binds, and how the locals a loop body
//! assigns are carried around the loop.
use vstd::prelude::*;

use crate::analysis::strings_view;
use crate::aot::types::{clone_value_type, IrRef, LocalVariable, SpecValueType, ValueType};
use crate::ast::ForPattern;
use crate::names::NameMap;

verus! {

/// The value a loop-carried variable enters the loop with: its SSA value,
/// or a load of its stack slot.
#[derive(Debug, Clone, Copy, PartialEq, Eq, Structural)]
pub enum LoopEntryValue {
    Value(IrRef),
    Load(IrRef),
}

/// A variable assigned in a `while` loop body is carried by a PHI node of
/// the loop header when it is a mutable local with a value or a slot; it
/// enters with its value, else with a load of its slot.
pub open spec fn loop_phi_entry(locals: Map<Seq<char>, LocalVariable>, name: Seq<char>) -> Option<
    LoopEntryValue,
> {
    if locals.dom().contains(name) && locals[name].mutable {
        match locals[name].value {
            Some(v) => Some(LoopEntryValue::Value(v)),
            None => match locals[name].pointer {
                Some(p) => Some(LoopEntryValue::Load(p)),
                None => None,
            },
        }
    } else {
        None
    }
}

/// The PHI-carried variables of a `while` loop, in the order of `names`:
/// each one's name, entry value and type.
pub open spec fn loop_phi_plan(locals: Map<Seq<char>, LocalVariable>, names: Seq<Seq<char>>) -> Seq<
    (Seq<char>, LoopEntryValue, SpecValueType),
>
    decreases names.len(),
{
    if names.len() == 0 {
        Seq::empty()
    } else {
        loop_phi_plan(locals, names.drop_last()) + match loop_phi_entry(locals, names.last()) {
            Some(e) => seq![(names.last(), e, locals[names.last()].ty@)],
            None => Seq::empty(),
        }
    }
}

/// The plain view of a list of loop-carried variables.
pub open spec fn phi_entries_view(r: Seq<(String, LoopEntryValue, ValueType)>) -> Seq<
    (Seq<char>, LoopEntryValue, SpecValueType),
> {
    r.map_values(|e: (String, LoopEntryValue, ValueType)| (e.0@, e.1, e.2@))
}

/// The PHI-carried variables of a `while` loop whose body assigns
/// `mutated` (see [`loop_phi_plan`]).
pub fn loop_phi_variables(locals: &NameMap<LocalVariable>, mutated: &Vec<String>) -> (r: Vec<
    (String, LoopEntryValue, ValueType),
>)
    ensures
        phi_entries_view(r@) == loop_phi_plan(locals@, strings_view(mutated@)),
{
    let ghost names = strings_view(mutated@);
    let mut r: Vec<(String, LoopEntryValue, ValueType)> = Vec::new();
    let mut i: usize = 0;
    proof {
        assert(names.take(0) =~= Seq::<Seq<char>>::empty());
        assert(phi_entries_view(r@) =~= Seq::<(Seq<char>, LoopEntryValue, SpecValueType)>::empty());
    }
    while i < mutated.len()
        invariant
            i <= mutated@.len(),
            names == strings_view(mutated@),
            phi_entries_view(r@) == loop_phi_plan(locals@, names.take(i as int)),
        decreases mutated@.len() - i,
    {
        proof {
            assert(names.take(i + 1).drop_last() =~= names.take(i as int));
            assert(names.take(i + 1).last() == mutated@[i as int]@);
        }
        let name = &mutated[i];
        let ghost before = r@;
        let entry = match locals.get(name.as_str()) {
            Some(var) => {
                if var.mutable {
                    match var.value {
                        Some(v) => Some((LoopEntryValue::Value(v), clone_value_type(&var.ty))),
                        None => match var.pointer {
                            Some(p) => Some((LoopEntryValue::Load(p), clone_value_type(&var.ty))),
                            None => None,
                        },
                    }
                } else {
                    None
                }
            },
            None => None,
        };
        match entry {
            Some((e, ty)) => {
                r.push((name.clone(), e, ty));
                proof {
                    assert(phi_entries_view(r@) =~= phi_entries_view(before) + seq![
                        (name@, e, ty@),
                    ]);
                }
            },
            None => {},
        }
        proof {
            assert(phi_entries_view(r@) =~= loop_phi_plan(locals@, names.take(i + 1)));
        }
        i = i + 1;
    }
    proof {
        assert(names.take(i as int) =~= names);
    }
    r
}

/// A variable assigned in a `for` loop body that is a mutable local held
/// as an SSA value moves to a stack slot, which starts from that value.
pub open spec fn loop_slot_entry(locals: Map<Seq<char>, LocalVariable>, name: Seq<char>) -> Option<
    IrRef,
> {
    if locals.dom().contains(name) && locals[name].mutable && locals[name].pointer is None {
        locals[name].value
    } else {
        None
    }
}

/// The variables a `for` loop moves to stack slots, in the order of
/// `names`: each one's name, current value and type.
pub open spec fn loop_slot_plan(locals: Map<Seq<char>, LocalVariable>, names: Seq<Seq<char>>) -> Seq<
    (Seq<char>, IrRef, SpecValueType),
>
    decreases names.len(),
{
    if names.len() == 0 {
        Seq::empty()
    } else {
        loop_slot_plan(locals, names.drop_last()) + match loop_slot_entry(locals, names.last()) {
            Some(v) => seq![(names.last(), v, locals[names.last()].ty@)],
            None => Seq::empty(),
        }
    }
}

/// The plain view of a list of variables moved to slots.
pub open spec fn slot_entries_view(r: Seq<(String, IrRef, ValueType)>) -> Seq<
    (Seq<char>, IrRef, SpecValueType),
> {
    r.map_values(|e: (String, IrRef, ValueType)| (e.0@, e.1, e.2@))
}

/// The variables a `for` loop whose body assigns `mutated` moves to stack
/// slots (see [`loop_slot_plan`]).
pub fn loop_slot_conversions(locals: &NameMap<LocalVariable>, mutated: &Vec<String>) -> (r: Vec<
    (String, IrRef, ValueType),
>)
    ensures
        slot_entries_view(r@) == loop_slot_plan(locals@, strings_view(mutated@)),
{
    let ghost names = strings_view(mutated@);
    let mut r: Vec<(String, IrRef, ValueType)> = Vec::new();
    let mut i: usize = 0;
    proof {
        assert(names.take(0) =~= Seq::<Seq<char>>::empty());
        assert(slot_entries_view(r@) =~= Seq::<(Seq<char>, IrRef, SpecValueType)>::empty());
    }
    while i < mutated.len()
        invariant
            i <= mutated@.len(),
            names == strings_view(mutated@),
            slot_entries_view(r@) == loop_slot_plan(locals@, names.take(i as int)),
        decreases mutated@.len() - i,
    {
        proof {
            assert(names.take(i + 1).drop_last() =~= names.take(i as int));
            assert(names.take(i + 1).last() == mutated@[i as int]@);
        }
        let name = &mutated[i];
        let ghost before = r@;
        let entry = match locals.get(name.as_str()) {
            Some(var) => {
                if var.mutable && var.pointer.is_none() {
                    match var.value {
                        Some(v) => Some((v, clone_value_type(&var.ty))),
                        None => None,
                    }
                } else {
                    None
                }
            },
            None => None,
        };
        match entry {
            Some((v, ty)) => {
                r.push((name.clone(), v, ty));
                proof {
                    assert(slot_entries_view(r@) =~= slot_entries_view(before) + seq![
                        (name@, v, ty@),
                    ]);
                }
            },
            None => {},
        }
        proof {
            assert(slot_entries_view(r@) =~= loop_slot_plan(locals@, names.take(i + 1)));
        }
        i = i + 1;
    }
    proof {
        assert(names.take(i as int) =~= names);
    }
    r
}

/// The variables a `for` loop binds for each element, with their types:
/// a list binds its element; a dictionary binds its key (a string) and,
/// with a pair pattern, its value; anything else is an error.
pub open spec fn for_loop_plan(iterator: SpecValueType, pattern: ForPattern) -> Result<
    Seq<(Seq<char>, SpecValueType)>,
    Seq<char>,
> {
    match iterator {
        SpecValueType::List(element) => match pattern {
            ForPattern::Single(x) => Ok(seq![(x.name@, *element)]),
            ForPattern::Pair(_, _) => Err("for loop with two variables requires a Dict iterator"@),
        },
        SpecValueType::Dict(value) => match pattern {
            ForPattern::Single(x) => Ok(seq![(x.name@, SpecValueType::String)]),
            ForPattern::Pair(k, v) => Ok(seq![(k.name@, SpecValueType::String), (v.name@, *value)]),
        },
        _ => Err("for loop iterator must be a List or Dict"@),
    }
}

/// The plain view of a list of loop variables.
pub open spec fn loop_variables_view(r: Seq<(String, ValueType)>) -> Seq<(Seq<char>, SpecValueType)> {
    r.map_values(|e: (String, ValueType)| (e.0@, e.1@))
}

/// The variables a `for` loop over a value of `iterator_type` binds (see
/// [`for_loop_plan`]), in the order they are bound.
pub fn for_loop_variables(iterator_type: &ValueType, pattern: &ForPattern) -> (r: Result<
    Vec<(String, ValueType)>,
    String,
>)
    ensures
        match r {
            Ok(v) => for_loop_plan(iterator_type@, *pattern) == Ok::<
                Seq<(Seq<char>, SpecValueType)>,
                Seq<char>,
            >(loop_variables_view(v@)),
            Err(e) => for_loop_plan(iterator_type@, *pattern) == Err::<
                Seq<(Seq<char>, SpecValueType)>,
                Seq<char>,
            >(e@),
        },
{
    match iterator_type {
        ValueType::List(element) => match pattern {
            ForPattern::Single(x) => {
                let v = vec![(x.name.clone(), clone_value_type(element))];
                assert(loop_variables_view(v@) =~= seq![(x.name@, element@)]);
                Ok(v)
            },
            ForPattern::Pair(_, _) => Err(
                String::from_str("for loop with two variables requires a Dict iterator"),
            ),
        },
        ValueType::Dict(value) => match pattern {
            ForPattern::Single(x) => {
                let v = vec![(x.name.clone(), ValueType::String)];
                assert(loop_variables_view(v@) =~= seq![(x.name@, SpecValueType::String)]);
                Ok(v)
            },
            ForPattern::Pair(k, val) => {
                let v = vec![
                    (k.name.clone(), ValueType::String),
                    (val.name.clone(), clone_value_type(value)),
                ];
                assert(loop_variables_view(v@) =~= seq![
                    (k.name@, SpecValueType::String),
                    (val.name@, value@),
                ]);
                Ok(v)
            },
        },
        _ => Err(String::from_str("for loop iterator must be a List or Dict")),
    }
}

} // verus!
