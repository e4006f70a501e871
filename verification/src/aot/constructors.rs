//! Struct constructor calls: which field each argument sets.
use vstd::prelude::*;

use crate::analysis::strings_view;
use crate::aot::type_debug::{debug_value_type, value_type_debug};
use crate::aot::types::{seq_join, SpecValueType, ValueType};
use crate::ast::CallArgument;
use crate::text::{decimal, push_decimal, str_eq};

verus! {

/// The name of each argument, `None` for a positional one.
pub open spec fn argument_names(args: Seq<CallArgument>) -> Seq<Option<Seq<char>>> {
    args.map_values(
        |a: CallArgument|
            match a.name {
                Some(n) => Some(n@),
                None => None,
            },
    )
}

/// The field indices as integers.
pub open spec fn index_seq(v: Seq<usize>) -> Seq<int> {
    v.map_values(|x: usize| x as int)
}

/// The last field named `f`: a name declared twice finds its later field.
pub open spec fn last_field_index(fields: Seq<Seq<char>>, f: Seq<char>) -> Option<int>
    decreases fields.len(),
{
    if fields.len() == 0 {
        None
    } else if fields.last() == f {
        Some(fields.len() - 1)
    } else {
        last_field_index(fields.drop_last(), f)
    }
}

/// Named arguments, in order: the field each one sets, up to the first
/// unknown field or the first field set twice, which is the error.
pub open spec fn named_slots(name: Seq<char>, fields: Seq<Seq<char>>, names: Seq<
    Option<Seq<char>>,
>) -> (Seq<int>, Option<Seq<char>>)
    decreases names.len(),
{
    if names.len() == 0 {
        (Seq::empty(), None)
    } else {
        let (s, e) = named_slots(name, fields, names.drop_last());
        if e is Some {
            (s, e)
        } else {
            match names.last() {
                None => (s, e),
                Some(f) => match last_field_index(fields, f) {
                    None => (
                        s,
                        Some("struct '"@ + name + "' has no field named '"@ + f + "'"@),
                    ),
                    Some(i) => if s.contains(i) {
                        (
                            s,
                            Some(
                                "field '"@ + f + "' provided multiple times to struct '"@ + name
                                    + "'"@,
                            ),
                        )
                    } else {
                        (s.push(i), None)
                    },
                },
            }
        }
    }
}

/// The fields, in order, whose index is not in `seen`.
pub open spec fn missing_fields(fields: Seq<Seq<char>>, seen: Seq<int>) -> Seq<Seq<char>>
    decreases fields.len(),
{
    if fields.len() == 0 {
        Seq::empty()
    } else if seen.contains(fields.len() - 1) {
        missing_fields(fields.drop_last(), seen)
    } else {
        missing_fields(fields.drop_last(), seen).push(fields.last())
    }
}

/// Whether some argument is named.
pub open spec fn has_named_argument(names: Seq<Option<Seq<char>>>) -> bool {
    exists|i: int| 0 <= i < names.len() && names[i] is Some
}

/// Whether some argument is positional.
pub open spec fn has_positional_argument(names: Seq<Option<Seq<char>>>) -> bool {
    exists|i: int| 0 <= i < names.len() && names[i] is None
}

/// How the arguments of a constructor call of struct `name` map to its
/// fields: the field each argument sets, in argument order, as far as the
/// arguments are valid, and the error that stops the call, if any.
/// Named and positional arguments cannot be mixed; positional arguments
/// set the fields in order and must match their number; named arguments
/// must name a field, each at most once, and leave none out.
pub open spec fn struct_argument_plan(
    name: Seq<char>,
    fields: Seq<Seq<char>>,
    names: Seq<Option<Seq<char>>>,
) -> (Seq<int>, Option<Seq<char>>) {
    if has_named_argument(names) && has_positional_argument(names) {
        (Seq::empty(), Some("cannot mix named and positional arguments in struct constructor"@))
    } else if !has_named_argument(names) {
        if names.len() != fields.len() {
            (
                Seq::empty(),
                Some(
                    "struct '"@ + name + "' expects "@ + decimal(fields.len()) + " arguments, found "@
                        + decimal(names.len()),
                ),
            )
        } else {
            (Seq::new(names.len(), |i: int| i), None)
        }
    } else {
        let (s, e) = named_slots(name, fields, names);
        if e is Some {
            (s, e)
        } else if missing_fields(fields, s).len() > 0 {
            (
                s,
                Some(
                    "missing fields for struct '"@ + name + "': "@ + seq_join(
                        missing_fields(fields, s),
                        ", "@,
                    ),
                ),
            )
        } else {
            (s, None)
        }
    }
}

/// Once named arguments have met an error, later arguments change nothing.
proof fn lemma_named_error_sticks(
    name: Seq<char>,
    fields: Seq<Seq<char>>,
    names: Seq<Option<Seq<char>>>,
    k: int,
)
    requires
        0 <= k <= names.len(),
        named_slots(name, fields, names.take(k)).1 is Some,
    ensures
        named_slots(name, fields, names) == named_slots(name, fields, names.take(k)),
    decreases names.len(),
{
    if k == names.len() {
        assert(names.take(k) =~= names);
    } else {
        assert(names.drop_last().take(k) =~= names.take(k));
        lemma_named_error_sticks(name, fields, names.drop_last(), k);
    }
}

/// The last field with a name is one of the fields.
proof fn lemma_last_field_index_in_range(fields: Seq<Seq<char>>, f: Seq<char>)
    ensures
        last_field_index(fields, f) matches Some(i) ==> 0 <= i < fields.len(),
    decreases fields.len(),
{
    if fields.len() > 0 && fields.last() != f {
        lemma_last_field_index_in_range(fields.drop_last(), f);
    }
}

/// Named arguments set distinct fields, each one of the struct's.
proof fn lemma_named_slots_distinct(name: Seq<char>, fields: Seq<Seq<char>>, names: Seq<
    Option<Seq<char>>,
>)
    ensures
        named_slots(name, fields, names).0.no_duplicates(),
        forall|k: int|
            0 <= k < named_slots(name, fields, names).0.len() ==> 0 <= #[trigger] named_slots(
                name,
                fields,
                names,
            ).0[k] < fields.len(),
    decreases names.len(),
{
    if names.len() > 0 {
        lemma_named_slots_distinct(name, fields, names.drop_last());
        match names.last() {
            Some(f) => lemma_last_field_index_in_range(fields, f),
            None => {},
        }
    }
}

/// With no field missing, every field index has been set.
proof fn lemma_no_missing_field(fields: Seq<Seq<char>>, seen: Seq<int>)
    requires
        missing_fields(fields, seen).len() == 0,
    ensures
        forall|i: int| 0 <= i < fields.len() ==> seen.contains(i),
    decreases fields.len(),
{
    if fields.len() > 0 {
        lemma_no_missing_field(fields.drop_last(), seen);
    }
}

/// A constructor call that is accepted sets every field of the struct
/// exactly once.
pub proof fn lemma_accepted_call_sets_each_field_once(
    name: Seq<char>,
    fields: Seq<Seq<char>>,
    names: Seq<Option<Seq<char>>>,
)
    requires
        struct_argument_plan(name, fields, names).1 is None,
    ensures
        struct_argument_plan(name, fields, names).0.len() == fields.len(),
        struct_argument_plan(name, fields, names).0.no_duplicates(),
        forall|i: int|
            0 <= i < fields.len() ==> #[trigger] struct_argument_plan(name, fields, names).0.contains(
                i,
            ),
{
    let s = struct_argument_plan(name, fields, names).0;
    if !has_named_argument(names) {
        assert forall|i: int| 0 <= i < fields.len() implies s.contains(i) by {
            assert(s[i] == i);
        }
    } else {
        lemma_named_slots_distinct(name, fields, names);
        lemma_no_missing_field(fields, s);
        assert(s.to_set() =~= vstd::set_lib::set_int_range(0, fields.len() as int));
        vstd::set_lib::lemma_int_range(0, fields.len() as int);
        s.unique_seq_to_set();
    }
}

/// The last field named `f`, found by a scan.
fn find_last_field(fields: &Vec<String>, f: &str) -> (r: Option<usize>)
    ensures
        match r {
            Some(i) => last_field_index(strings_view(fields@), f@) == Some(i as int),
            None => last_field_index(strings_view(fields@), f@) is None,
        },
        r matches Some(i) ==> i < fields@.len(),
{
    let mut j: usize = fields.len();
    assert(fields@.take(fields@.len() as int) =~= fields@);
    while j > 0
        invariant
            j <= fields@.len(),
            last_field_index(strings_view(fields@), f@) == last_field_index(
                strings_view(fields@.take(j as int)),
                f@,
            ),
        decreases j,
    {
        proof {
            assert(strings_view(fields@.take(j as int)).drop_last() =~= strings_view(
                fields@.take(j - 1),
            ));
        }
        if str_eq(fields[j - 1].as_str(), f) {
            return Some(j - 1);
        }
        j = j - 1;
    }
    None
}

/// Which field each argument of a constructor call of struct `name` sets
/// (see [`struct_argument_plan`]). The first part lists the fields set by
/// the arguments that come before the error, if there is one.
pub fn struct_argument_slots(name: &str, field_names: &Vec<String>, arguments: &[CallArgument]) -> (r: (
    Vec<usize>,
    Option<String>,
))
    ensures
        (index_seq(r.0@), match r.1 {
            Some(e) => Some(e@),
            None => None,
        }) == struct_argument_plan(name@, strings_view(field_names@), argument_names(arguments@)),
{
    let ghost fields = strings_view(field_names@);
    let ghost names = argument_names(arguments@);
    let mut has_named = false;
    let mut has_positional = false;
    let mut i: usize = 0;
    while i < arguments.len()
        invariant
            i <= arguments@.len(),
            names == argument_names(arguments@),
            has_named <==> exists|k: int| 0 <= k < i && names[k] is Some,
            has_positional <==> exists|k: int| 0 <= k < i && names[k] is None,
        decreases arguments@.len() - i,
    {
        assert(names[i as int] is Some <==> arguments@[i as int].name is Some);
        if arguments[i].name.is_some() {
            has_named = true;
        } else {
            has_positional = true;
        }
        i = i + 1;
    }
    if has_named && has_positional {
        return (
            Vec::new(),
            Some(String::from_str("cannot mix named and positional arguments in struct constructor")),
        );
    }
    let field_count = field_names.len();
    if !has_named {
        if arguments.len() != field_count {
            let mut msg = String::from_str("struct '");
            msg.append(name);
            msg.append("' expects ");
            push_decimal(&mut msg, field_count);
            msg.append(" arguments, found ");
            push_decimal(&mut msg, arguments.len());
            return (Vec::new(), Some(msg));
        }
        let mut slots: Vec<usize> = Vec::new();
        let mut k: usize = 0;
        while k < arguments.len()
            invariant
                k <= arguments@.len(),
                slots@.len() == k,
                forall|j: int| 0 <= j < k ==> #[trigger] slots@[j] == j,
            decreases arguments@.len() - k,
        {
            slots.push(k);
            k = k + 1;
        }
        assert(index_seq(slots@) =~= Seq::new(names.len(), |i: int| i));
        return (slots, None);
    }
    let mut slots: Vec<usize> = Vec::new();
    let mut seen: Vec<bool> = Vec::new();
    let mut k: usize = 0;
    while k < field_count
        invariant
            k <= field_count,
            field_count == field_names@.len(),
            seen@.len() == k,
            forall|j: int| 0 <= j < k ==> !#[trigger] seen@[j],
        decreases field_count - k,
    {
        seen.push(false);
        k = k + 1;
    }
    proof {
        assert(names.take(0) =~= Seq::<Option<Seq<char>>>::empty());
        assert(index_seq(slots@) =~= Seq::<int>::empty());
    }
    let mut i: usize = 0;
    while i < arguments.len()
        invariant
            i <= arguments@.len(),
            names == argument_names(arguments@),
            fields == strings_view(field_names@),
            field_count == field_names@.len(),
            has_named_argument(names),
            !has_positional_argument(names),
            seen@.len() == field_count,
            named_slots(name@, fields, names.take(i as int)) == (
                index_seq(slots@),
                None::<Seq<char>>,
            ),
            forall|j: int| 0 <= j < field_count ==> (#[trigger] seen@[j] <==> index_seq(slots@).contains(j)),
            forall|j: int| 0 <= j < slots@.len() ==> #[trigger] slots@[j] < field_count,
        decreases arguments@.len() - i,
    {
        proof {
            assert(names.take(i + 1).drop_last() =~= names.take(i as int));
            assert(names.take(i + 1).last() == names[i as int]);
        }
        match &arguments[i].name {
            None => {
                assert(names.take(i + 1).last() is None);
            },
            Some(field) => {
                assert(names[i as int] == Some(field@));
                match find_last_field(field_names, field.as_str()) {
                    None => {
                        let mut msg = String::from_str("struct '");
                        msg.append(name);
                        msg.append("' has no field named '");
                        msg.append(field.as_str());
                        msg.append("'");
                        proof {
                            lemma_named_error_sticks(name@, fields, names, i + 1);
                        }
                        return (slots, Some(msg));
                    },
                    Some(index) => {
                        if seen[index] {
                            let mut msg = String::from_str("field '");
                            msg.append(field.as_str());
                            msg.append("' provided multiple times to struct '");
                            msg.append(name);
                            msg.append("'");
                            proof {
                                lemma_named_error_sticks(name@, fields, names, i + 1);
                            }
                            return (slots, Some(msg));
                        }
                        let ghost before = index_seq(slots@);
                        slots.push(index);
                        seen.set(index, true);
                        proof {
                            assert(index_seq(slots@) =~= before.push(index as int));
                            assert forall|j: int| 0 <= j < field_count implies (#[trigger] seen@[j]
                                <==> index_seq(slots@).contains(j)) by {
                                if j == index {
                                    assert(index_seq(slots@)[before.len() as int] == j);
                                } else if index_seq(slots@).contains(j) {
                                    let w = choose|w: int| 0 <= w < index_seq(slots@).len() && index_seq(slots@)[w] == j;
                                    assert(w < before.len());
                                    assert(before[w] == j);
                                } else if before.contains(j) {
                                    let w = choose|w: int| 0 <= w < before.len() && before[w] == j;
                                    assert(index_seq(slots@)[w] == j);
                                }
                            }
                        }
                    },
                }
            },
        }
        i = i + 1;
    }
    proof {
        assert(names.take(i as int) =~= names);
    }
    let ghost s = index_seq(slots@);
    let mut msg = String::from_str("missing fields for struct '");
    msg.append(name);
    msg.append("': ");
    let ghost head = msg@;
    let mut any_missing = false;
    let mut j: usize = 0;
    proof {
        assert(fields.take(0) =~= Seq::<Seq<char>>::empty());
    }
    while j < field_count
        invariant
            j <= field_count,
            field_count == field_names@.len(),
            fields == strings_view(field_names@),
            seen@.len() == field_count,
            s == index_seq(slots@),
            forall|k: int| 0 <= k < field_count ==> (#[trigger] seen@[k] <==> s.contains(k)),
            any_missing == (missing_fields(fields.take(j as int), s).len() > 0),
            msg@ == head + seq_join(missing_fields(fields.take(j as int), s), ", "@),
        decreases field_count - j,
    {
        proof {
            assert(fields.take(j + 1).drop_last() =~= fields.take(j as int));
            assert(fields.take(j + 1).last() == fields[j as int]);
        }
        if !seen[j] {
            let ghost parts = missing_fields(fields.take(j as int), s);
            if any_missing {
                msg.append(", ");
            }
            msg.append(field_names[j].as_str());
            any_missing = true;
            proof {
                let np = parts.push(fields[j as int]);
                assert(np.drop_last() =~= parts);
                if parts.len() == 0 {
                    assert(np.len() == 1);
                    assert(seq_join(np, ", "@) == np[0]);
                }
                assert(msg@ =~= head + seq_join(np, ", "@));
            }
        }
        j = j + 1;
    }
    proof {
        assert(fields.take(field_count as int) =~= fields);
    }
    if any_missing {
        (slots, Some(msg))
    } else {
        (slots, None)
    }
}

/// The message for an argument whose value does not convert to the type
/// of the field it sets.
pub open spec fn field_conversion_message(
    field: Seq<char>,
    name: Seq<char>,
    expected: SpecValueType,
    error: Seq<char>,
) -> Seq<char> {
    "field '"@ + field + "' in struct '"@ + name + "' expects "@ + value_type_debug(expected)
        + ": "@ + error
}

/// The message for an argument whose value does not convert to the type
/// of the field it sets (see [`field_conversion_message`]).
pub fn struct_field_error(field: &str, name: &str, expected: &ValueType, error: &str) -> (r: String)
    ensures
        r@ == field_conversion_message(field@, name@, expected@, error@),
{
    let mut msg = String::from_str("field '");
    msg.append(field);
    msg.append("' in struct '");
    msg.append(name);
    msg.append("' expects ");
    let shown = debug_value_type(expected);
    msg.append(shown.as_str());
    msg.append(": ");
    msg.append(error);
    msg
}

} // verus!
