//! Closures made from lambdas: the symbol of a lambda's function and the
//! types of the values it captures.
use vstd::prelude::*;

use crate::analysis::strings_view;
use crate::aot::types::{clone_value_type, value_types_view, IrRef, LocalVariable, SpecValueType, ValueType};
use crate::ast::LambdaExpression;
use crate::names::NameMap;
use crate::text::{decimal, push_decimal};

verus! {

/// The symbol of the function that holds the body of lambda `id`.
pub open spec fn lambda_symbol(id: nat) -> Seq<char> {
    "lambda_"@ + decimal(id)
}

/// The symbol of the function that holds the body of lambda `id`.
pub fn lambda_function_name(id: usize) -> (r: String)
    ensures
        r@ == lambda_symbol(id as nat),
{
    let mut out = String::from_str("lambda_");
    push_decimal(&mut out, id);
    out
}

/// The message for a lambda whose signature was not recorded.
pub open spec fn missing_lambda_signature_message(id: nat) -> Seq<char> {
    "missing lambda signature for id "@ + decimal(id)
}

/// The message for a lambda whose signature was not recorded (see
/// [`missing_lambda_signature_message`]).
pub fn missing_lambda_signature_error(id: usize) -> (r: String)
    ensures
        r@ == missing_lambda_signature_message(id as nat),
{
    let mut out = String::from_str("missing lambda signature for id ");
    push_decimal(&mut out, id);
    out
}

/// The message for a captured name that is not a local where the lambda
/// stands.
pub open spec fn undefined_capture_message(name: Seq<char>, id: nat) -> Seq<char> {
    "capture '"@ + name + "' is undefined in lambda "@ + decimal(id)
}

/// The types of the captures, in order, from the locals where the lambda
/// stands; the first capture that is not a local is the error.
pub open spec fn capture_types_from(locals: Map<Seq<char>, LocalVariable>, names: Seq<Seq<char>>, id: nat) -> Result<
    Seq<SpecValueType>,
    Seq<char>,
>
    decreases names.len(),
{
    if names.len() == 0 {
        Ok(Seq::empty())
    } else {
        match capture_types_from(locals, names.drop_last(), id) {
            Err(e) => Err(e),
            Ok(ts) => if locals.dom().contains(names.last()) {
                Ok(ts.push(locals[names.last()].ty@))
            } else {
                Err(undefined_capture_message(names.last(), id))
            },
        }
    }
}

/// The types of the values lambda `id` captures: those recorded for it
/// before, if any, else those of the captured locals; either way there must
/// be one type for each captured name.
pub open spec fn capture_types_plan(
    recorded: Option<Seq<SpecValueType>>,
    locals: Map<Seq<char>, LocalVariable>,
    names: Seq<Seq<char>>,
    id: nat,
) -> Result<Seq<SpecValueType>, Seq<char>> {
    let types = match recorded {
        Some(ts) => Ok(ts),
        None => capture_types_from(locals, names, id),
    };
    match types {
        Err(e) => Err(e),
        Ok(ts) => if ts.len() != names.len() {
            Err("capture metadata mismatch for lambda "@ + decimal(id))
        } else {
            Ok(ts)
        },
    }
}

/// The types of the values lambda `id` captures (see
/// [`capture_types_plan`]); `recorded` holds the types recorded for it
/// before, if any.
pub fn lambda_capture_types(
    recorded: Option<&Vec<ValueType>>,
    locals: &NameMap<LocalVariable>,
    captures: &Vec<String>,
    id: usize,
) -> (r: Result<Vec<ValueType>, String>)
    ensures
        match r {
            Ok(ts) => capture_types_plan(
                match recorded {
                    Some(v) => Some(value_types_view(v@)),
                    None => None,
                },
                locals@,
                strings_view(captures@),
                id as nat,
            ) == Ok::<Seq<SpecValueType>, Seq<char>>(value_types_view(ts@)),
            Err(e) => capture_types_plan(
                match recorded {
                    Some(v) => Some(value_types_view(v@)),
                    None => None,
                },
                locals@,
                strings_view(captures@),
                id as nat,
            ) == Err::<Seq<SpecValueType>, Seq<char>>(e@),
        },
{
    let types = match recorded {
        Some(v) => crate::aot::types::clone_value_types(v),
        None => {
            let ghost names = strings_view(captures@);
            let mut ts: Vec<ValueType> = Vec::new();
            let mut i: usize = 0;
            proof {
                assert(names.take(0) =~= Seq::<Seq<char>>::empty());
                assert(value_types_view(ts@) =~= Seq::<SpecValueType>::empty());
            }
            while i < captures.len()
                invariant
                    i <= captures@.len(),
                    recorded is None,
                    names == strings_view(captures@),
                    capture_types_from(locals@, names.take(i as int), id as nat) == Ok::<
                        Seq<SpecValueType>,
                        Seq<char>,
                    >(value_types_view(ts@)),
                decreases captures@.len() - i,
            {
                proof {
                    assert(names.take(i + 1).drop_last() =~= names.take(i as int));
                    assert(names.take(i + 1).last() == captures@[i as int]@);
                }
                match locals.get(captures[i].as_str()) {
                    Some(var) => {
                        let ghost before = ts@;
                        ts.push(clone_value_type(&var.ty));
                        proof {
                            assert(ts@.drop_last() =~= before);
                        }
                    },
                    None => {
                        let mut msg = String::from_str("capture '");
                        msg.append(captures[i].as_str());
                        msg.append("' is undefined in lambda ");
                        push_decimal(&mut msg, id);
                        proof {
                            lemma_capture_error_sticks(locals@, names, id as nat, i + 1);
                            assert(names.take(captures@.len() as int) =~= names);
                        }
                        return Err(msg);
                    },
                }
                i = i + 1;
            }
            proof {
                assert(names.take(i as int) =~= names);
            }
            ts
        },
    };
    proof {
        crate::aot::types::lemma_value_types_view(types@);
        match recorded {
            Some(v) => crate::aot::types::lemma_value_types_view(v@),
            None => {},
        }
    }
    if types.len() != captures.len() {
        let mut msg = String::from_str("capture metadata mismatch for lambda ");
        push_decimal(&mut msg, id);
        return Err(msg);
    }
    Ok(types)
}

/// Once a capture is missing, more captures keep the error.
proof fn lemma_capture_error_sticks(
    locals: Map<Seq<char>, LocalVariable>,
    names: Seq<Seq<char>>,
    id: nat,
    k: int,
)
    requires
        0 <= k <= names.len(),
        capture_types_from(locals, names.take(k), id) is Err,
    ensures
        capture_types_from(locals, names, id) == capture_types_from(locals, names.take(k), id),
    decreases names.len(),
{
    if k == names.len() {
        assert(names.take(k) =~= names);
    } else {
        assert(names.drop_last().take(k) =~= names.take(k));
        lemma_capture_error_sticks(locals, names.drop_last(), id, k);
    }
}

/// The position of the last of `names` equal to `name`, if any: where a
/// name of a lambda's body is bound, a parameter hiding a capture.
pub open spec fn last_binding(names: Seq<Seq<char>>, name: Seq<char>) -> Option<int>
    decreases names.len(),
{
    if names.len() == 0 {
        None
    } else if names.last() == name {
        Some(names.len() - 1)
    } else {
        last_binding(names.drop_last(), name)
    }
}

/// A mutable local held in stack slot `slot`, of type `ty`.
pub open spec fn slot_local(l: LocalVariable, slot: IrRef, ty: SpecValueType) -> bool {
    &&& l.pointer == Some(slot)
    &&& l.value is None
    &&& l.ty@ == ty
    &&& l.mutable
}

/// `after` is `before` with `names[i]` bound to slot `slots[i]` of type
/// `types[i]`, in order, so that the last binding of a name wins.
pub open spec fn binds_slots(
    before: Map<Seq<char>, LocalVariable>,
    after: Map<Seq<char>, LocalVariable>,
    names: Seq<Seq<char>>,
    types: Seq<SpecValueType>,
    slots: Seq<IrRef>,
) -> bool {
    &&& after.dom() == before.dom().union(names.to_set())
    &&& forall|k: Seq<char>|
        #[trigger] after.dom().contains(k) ==> match last_binding(names, k) {
            Some(j) => slot_local(after[k], slots[j], types[j]),
            None => after[k] == before[k],
        }
}

/// The bindings of `names`, zipped with `types` (as far as both go), each
/// to its slot.
pub fn bind_slot_locals(
    locals: &mut NameMap<LocalVariable>,
    names: &Vec<String>,
    types: &Vec<ValueType>,
    slots: &Vec<IrRef>,
)
    requires
        slots@.len() >= names@.len(),
        types@.len() >= names@.len(),
    ensures
        binds_slots(
            old(locals)@,
            final(locals)@,
            strings_view(names@),
            value_types_view(types@),
            slots@,
        ),
{
    let ghost before = locals@;
    let ghost all = strings_view(names@);
    let ghost tys = value_types_view(types@);
    proof {
        crate::aot::types::lemma_value_types_view(types@);
        assert(all.take(0) =~= Seq::<Seq<char>>::empty());
        assert(all.take(0).to_set() =~= Set::<Seq<char>>::empty());
        assert(locals@.dom() =~= before.dom().union(all.take(0).to_set()));
    }
    let mut i: usize = 0;
    while i < names.len()
        invariant
            i <= names@.len(),
            slots@.len() >= names@.len(),
            types@.len() >= names@.len(),
            all == strings_view(names@),
            tys == value_types_view(types@),
            tys.len() == types@.len(),
            forall|j: int| 0 <= j < types@.len() ==> #[trigger] tys[j] == types@[j]@,
            binds_slots(before, locals@, all.take(i as int), tys, slots@),
        decreases names@.len() - i,
    {
        let ghost prev = locals@;
        let ghost old_names = all.take(i as int);
        let ghost new_names = all.take(i + 1);
        proof {
            assert(new_names.drop_last() =~= old_names);
            assert(new_names.last() == names@[i as int]@);
            assert(new_names.to_set() =~= old_names.to_set().insert(names@[i as int]@)) by {
                assert forall|x: Seq<char>| new_names.to_set().contains(x) <==> old_names.to_set().insert(
                    names@[i as int]@,
                ).contains(x) by {
                    if new_names.contains(x) {
                        let j = choose|j: int| 0 <= j < new_names.len() && new_names[j] == x;
                        if j < i {
                            assert(old_names[j] == x);
                        }
                    }
                    if old_names.contains(x) {
                        let j = choose|j: int| 0 <= j < old_names.len() && old_names[j] == x;
                        assert(new_names[j] == x);
                    }
                    if x == names@[i as int]@ {
                        assert(new_names[i as int] == x);
                    }
                }
            }
        }
        locals.insert(
            names[i].clone(),
            LocalVariable { pointer: Some(slots[i]), value: None, ty: clone_value_type(&types[i]), mutable: true },
        );
        proof {
            assert(locals@.dom() =~= before.dom().union(new_names.to_set()));
            assert forall|k: Seq<char>| #[trigger] locals@.dom().contains(k) implies match last_binding(
                new_names,
                k,
            ) {
                Some(j) => slot_local(locals@[k], slots@[j], tys[j]),
                None => locals@[k] == before[k],
            } by {
                if k != names@[i as int]@ {
                    assert(prev.dom().contains(k));
                }
            }
        }
        i = i + 1;
    }
    proof {
        assert(all.take(i as int) =~= all);
    }
}

/// The locals of the body of `lambda`: each capture, then each parameter
/// (zipped with the signature's parameter types), in its own stack slot
/// and mutable; a parameter hides a capture of the same name.
pub fn lambda_locals(
    lambda: &LambdaExpression,
    param_types: &Vec<ValueType>,
    capture_names: &Vec<String>,
    capture_types: &Vec<ValueType>,
    capture_slots: &Vec<IrRef>,
    param_slots: &Vec<IrRef>,
) -> (r: NameMap<LocalVariable>)
    requires
        capture_types@.len() == capture_names@.len(),
        capture_slots@.len() == capture_names@.len(),
        param_types@.len() == lambda.parameters@.len(),
        param_slots@.len() == lambda.parameters@.len(),
    ensures
        binds_slots(
            Map::empty(),
            r@,
            strings_view(capture_names@) + Seq::new(
                lambda.parameters@.len(),
                |i: int| lambda.parameters@[i].name@,
            ),
            value_types_view(capture_types@) + value_types_view(param_types@),
            capture_slots@ + param_slots@,
        ),
{
    let mut names: Vec<String> = capture_names.clone();
    let mut types: Vec<ValueType> = crate::aot::types::clone_value_types(capture_types);
    let mut slots: Vec<IrRef> = capture_slots.clone();
    let ghost pnames = Seq::new(lambda.parameters@.len(), |i: int| lambda.parameters@[i].name@);
    proof {
        assert(strings_view(names@) =~= strings_view(capture_names@));
        assert(slots@ =~= capture_slots@);
        crate::aot::types::lemma_value_types_view(param_types@);
    }
    let mut i: usize = 0;
    while i < lambda.parameters.len()
        invariant
            i <= lambda.parameters@.len(),
            param_types@.len() == lambda.parameters@.len(),
            param_slots@.len() == lambda.parameters@.len(),
            capture_types@.len() == capture_names@.len(),
            capture_slots@.len() == capture_names@.len(),
            pnames == Seq::new(lambda.parameters@.len(), |i: int| lambda.parameters@[i].name@),
            strings_view(names@) == strings_view(capture_names@) + pnames.take(i as int),
            value_types_view(types@) == value_types_view(capture_types@) + value_types_view(
                param_types@,
            ).take(i as int),
            types@.len() == names@.len(),
            slots@ == capture_slots@ + param_slots@.take(i as int),
        decreases lambda.parameters@.len() - i,
    {
        let ghost (n0, t0, s0) = (names@, types@, slots@);
        names.push(lambda.parameters[i].name.clone());
        types.push(clone_value_type(&param_types[i]));
        slots.push(param_slots[i]);
        proof {
            assert(strings_view(names@) =~= strings_view(n0).push(lambda.parameters@[i as int].name@));
            assert(pnames.take(i + 1) =~= pnames.take(i as int).push(pnames[i as int]));
            assert(strings_view(names@) =~= strings_view(capture_names@) + pnames.take(i + 1));
            crate::aot::types::lemma_value_types_view(types@);
            crate::aot::types::lemma_value_types_view(t0);
            assert(value_types_view(types@) =~= value_types_view(t0).push(param_types@[i as int]@));
            crate::aot::types::lemma_value_types_view(param_types@);
            let pv = value_types_view(param_types@);
            assert(pv.take(i + 1) =~= pv.take(i as int).push(pv[i as int]));
            assert(value_types_view(types@) =~= value_types_view(capture_types@) + value_types_view(
                param_types@,
            ).take(i + 1));
            assert(slots@ =~= capture_slots@ + param_slots@.take(i + 1));
        }
        i = i + 1;
    }
    proof {
        assert(pnames.take(i as int) =~= pnames);
        assert(value_types_view(param_types@).take(i as int) =~= value_types_view(param_types@));
        assert(param_slots@.take(i as int) =~= param_slots@);
    }
    let mut locals: NameMap<LocalVariable> = NameMap::new();
    bind_slot_locals(&mut locals, &names, &types, &slots);
    proof {
        assert(Map::<Seq<char>, LocalVariable>::empty().dom() =~= Set::<Seq<char>>::empty());
    }
    locals
}

} // verus!
