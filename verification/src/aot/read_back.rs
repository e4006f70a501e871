//! What the type printer writes, the annotation reader reads back: the
//! printed name of a type, read as an annotation, is the type's lowered
//! representation.
use vstd::prelude::*;

use crate::aot::type_parser::{
    ident_end, is_ident_char, lemma_skip_ws, optional_suffix, parse_params_at, parse_type_at,
    parse_type_text, skip_ws,
};
use crate::aot::types::{
    joined_type_names, lower_type, lower_types, printed_type_name, SpecValueType,
};
use crate::text::{is_ascii_alphanumeric, spec_is_whitespace};
use crate::typechecker::SpecType;

verus! {

/// The types whose printed name reads back: the basic types, and lists,
/// dictionaries, functions and optionals of them, where no optional wraps a
/// function type directly (the `?` after a function type's name belongs to
/// its return type).
pub open spec fn reads_back(t: SpecType) -> bool
    decreases t,
{
    match t {
        SpecType::Bool => true,
        SpecType::Int => true,
        SpecType::Float => true,
        SpecType::String => true,
        SpecType::Nil => true,
        SpecType::Void => true,
        SpecType::List(inner) => reads_back(*inner),
        SpecType::Dict(inner) => reads_back(*inner),
        SpecType::Optional(inner) => reads_back(*inner) && !(*inner is Function),
        SpecType::Function(params, ret) => all_read_back(params) && reads_back(*ret),
        _ => false,
    }
}

/// Every type of the list reads back.
pub open spec fn all_read_back(ts: Seq<SpecType>) -> bool
    decreases ts,
{
    if ts.len() == 0 {
        true
    } else {
        all_read_back(ts.drop_last()) && reads_back(ts.last())
    }
}

/// A character that may follow a printed type inside a larger one.
pub open spec fn closes_type(c: char) -> bool {
    c == ']' || c == ',' || c == ')'
}

proof fn lemma_all_read_back(ts: Seq<SpecType>)
    ensures
        all_read_back(ts) <==> forall|i: int| 0 <= i < ts.len() ==> reads_back(#[trigger] ts[i]),
    decreases ts.len(),
{
    if ts.len() > 0 {
        lemma_all_read_back(ts.drop_last());
        if all_read_back(ts) {
            assert forall|i: int| 0 <= i < ts.len() implies reads_back(#[trigger] ts[i]) by {
                if i < ts.len() - 1 {
                    assert(ts.drop_last()[i] == ts[i]);
                }
            }
        }
        if forall|i: int| 0 <= i < ts.len() ==> reads_back(#[trigger] ts[i]) {
            assert forall|i: int| 0 <= i < ts.drop_last().len() implies reads_back(
                #[trigger] ts.drop_last()[i],
            ) by {
                assert(ts.drop_last()[i] == ts[i]);
            }
        }
    }
}

/// The parts of a run of text that is a concatenation.
proof fn lemma_split(s: Seq<char>, i: int, a: Seq<char>, b: Seq<char>)
    requires
        0 <= i,
        i + a.len() + b.len() <= s.len(),
        s.subrange(i, i + a.len() + b.len()) == a + b,
    ensures
        s.subrange(i, i + a.len()) == a,
        s.subrange(i + a.len(), i + a.len() + b.len()) == b,
{
    assert(s.subrange(i, i + a.len()) =~= (a + b).subrange(0, a.len() as int));
    assert((a + b).subrange(0, a.len() as int) =~= a);
    assert(s.subrange(i + a.len(), i + a.len() + b.len()) =~= (a + b).subrange(
        a.len() as int,
        (a.len() + b.len()) as int,
    ));
    assert((a + b).subrange(a.len() as int, (a.len() + b.len()) as int) =~= b);
}

/// Skipping whitespace stops at once on a character that is not
/// whitespace, and at the end.
proof fn lemma_skip_ws_stops(s: Seq<char>, i: int)
    requires
        0 <= i <= s.len(),
        i < s.len() ==> !spec_is_whitespace(s[i]),
    ensures
        skip_ws(s, i) == i,
{
}

/// A word of ASCII letters, followed by a character that cannot continue
/// an identifier, is read as that identifier.
proof fn lemma_word_at(s: Seq<char>, i: int, w: Seq<char>)
    requires
        0 <= i,
        i + w.len() <= s.len(),
        w.len() > 0,
        s.subrange(i, i + w.len()) == w,
        forall|j: int| 0 <= j < w.len() ==> is_ascii_alphanumeric(#[trigger] w[j]),
        i + w.len() < s.len() ==> !is_ident_char(s[i + w.len()]),
    ensures
        skip_ws(s, i) == i,
        ident_end(s, i) == i + w.len(),
        s.subrange(skip_ws(s, i), ident_end(s, i)) == w,
    decreases w.len(),
{
    assert(s[i] == w[0]);
    assert(is_ascii_alphanumeric(w[0]));
    if w.len() == 1 {
        assert(s[i] == w[0]);
        assert(ident_end(s, i + 1) == i + 1);
    } else {
        let w1 = w.subrange(1, w.len() as int);
        assert(s.subrange(i + 1, i + 1 + w1.len()) =~= w1);
        assert forall|j: int| 0 <= j < w1.len() implies is_ascii_alphanumeric(#[trigger] w1[j]) by {
            assert(w1[j] == w[j + 1]);
        }
        lemma_word_at(s, i + 1, w1);
    }
}

proof fn lemma_skip_ws_idempotent(s: Seq<char>, i: int)
    requires
        0 <= i <= s.len(),
    ensures
        skip_ws(s, skip_ws(s, i)) == skip_ws(s, i),
{
    lemma_skip_ws(s, i);
}

/// Reading starts after any whitespace.
proof fn lemma_parse_after_ws(
    s: Seq<char>,
    i: int,
    g: spec_fn(Seq<char>) -> Option<SpecValueType>,
    st: Set<Seq<char>>,
)
    requires
        0 <= i <= s.len(),
    ensures
        parse_type_at(s, i, g, st) == parse_type_at(s, skip_ws(s, i), g, st),
        parse_params_at(s, i, g, st) == parse_params_at(s, skip_ws(s, i), g, st),
{
    lemma_skip_ws(s, i);
    lemma_skip_ws_idempotent(s, i);
}

/// A closing character ends the run of `?` marks at once.
proof fn lemma_suffix_stops(s: Seq<char>, q: int, t: SpecValueType)
    requires
        0 <= q <= s.len(),
        q < s.len() ==> closes_type(s[q]),
    ensures
        optional_suffix(s, q, t) == (t, q),
{
    lemma_skip_ws_stops(s, q);
}

/// A list of names joined by a separator, taken apart from the front.
proof fn lemma_joined_front(ts: Seq<SpecType>, sep: Seq<char>)
    requires
        ts.len() >= 2,
    ensures
        joined_type_names(ts, sep) == printed_type_name(ts[0]) + sep + joined_type_names(
            ts.subrange(1, ts.len() as int),
            sep,
        ),
    decreases ts.len(),
{
    let rest = ts.subrange(1, ts.len() as int);
    if ts.len() == 2 {
        assert(rest.len() == 1);
        assert(rest[0] == ts[1]);
        assert(ts.drop_last().len() == 1);
        assert(ts.drop_last()[0] == ts[0]);
        assert(joined_type_names(rest, sep) == printed_type_name(ts[1]));
        assert(joined_type_names(ts.drop_last(), sep) == printed_type_name(ts[0]));
        assert(joined_type_names(ts, sep) == joined_type_names(ts.drop_last(), sep) + sep
            + printed_type_name(ts.last()));
    } else {
        lemma_joined_front(ts.drop_last(), sep);
        assert(ts.drop_last().subrange(1, ts.len() - 1) =~= rest.drop_last());
        assert(rest.last() == ts.last());
        assert(ts.drop_last()[0] == ts[0]);
        let p0 = printed_type_name(ts[0]);
        let jr = joined_type_names(rest.drop_last(), sep);
        let pl = printed_type_name(ts.last());
        assert(joined_type_names(rest, sep) == jr + sep + pl);
        assert(joined_type_names(ts, sep) == (p0 + sep + jr) + sep + pl);
        assert((p0 + sep + jr) + sep + pl =~= p0 + sep + (jr + sep + pl));
    }
}

/// The lowered list of types that all read back, taken apart from the
/// front.
proof fn lemma_lower_types_front(ts: Seq<SpecType>)
    requires
        ts.len() >= 1,
        lower_types(ts) is Ok,
    ensures
        lower_type(ts[0]) is Ok,
        lower_types(ts.subrange(1, ts.len() as int)) is Ok,
        lower_types(ts)->Ok_0 == seq![lower_type(ts[0])->Ok_0] + lower_types(
            ts.subrange(1, ts.len() as int),
        )->Ok_0,
    decreases ts.len(),
{
    let rest = ts.subrange(1, ts.len() as int);
    if ts.len() == 1 {
        assert(ts.drop_last().len() == 0);
        assert(rest.len() == 0);
        assert(lower_types(rest)->Ok_0 =~= Seq::<SpecValueType>::empty());
        assert(lower_types(ts)->Ok_0 =~= seq![lower_type(ts[0])->Ok_0]);
    } else {
        lemma_lower_types_front(ts.drop_last());
        assert(ts.drop_last().subrange(1, ts.len() - 1) =~= rest.drop_last());
        assert(rest.last() == ts.last());
        assert(ts.drop_last()[0] == ts[0]);
        assert(lower_types(ts)->Ok_0 =~= seq![lower_type(ts[0])->Ok_0] + lower_types(
            rest,
        )->Ok_0);
    }
}

/// A type that reads back can be lowered.
proof fn lemma_reads_back_lowers(t: SpecType)
    requires
        reads_back(t),
    ensures
        lower_type(t) is Ok,
    decreases t,
{
    match t {
        SpecType::List(inner) => lemma_reads_back_lowers(*inner),
        SpecType::Dict(inner) => lemma_reads_back_lowers(*inner),
        SpecType::Optional(inner) => lemma_reads_back_lowers(*inner),
        SpecType::Function(params, ret) => {
            lemma_all_read_back_lowers(params);
            lemma_reads_back_lowers(*ret);
        },
        _ => {},
    }
}

proof fn lemma_all_read_back_lowers(ts: Seq<SpecType>)
    requires
        all_read_back(ts),
    ensures
        lower_types(ts) is Ok,
    decreases ts,
{
    if ts.len() > 0 {
        lemma_all_read_back_lowers(ts.drop_last());
        lemma_reads_back_lowers(ts.last());
    }
}

/// A printed type that reads back starts with an ASCII letter.
proof fn lemma_printed_starts(t: SpecType)
    requires
        reads_back(t),
    ensures
        printed_type_name(t).len() > 0,
        is_ascii_alphanumeric(printed_type_name(t)[0]),
    decreases t,
{
    reveal_strlit("Bool");
    reveal_strlit("Int");
    reveal_strlit("Float");
    reveal_strlit("String");
    reveal_strlit("Nil");
    reveal_strlit("Void");
    reveal_strlit("List[");
    reveal_strlit("Dict[String, ");
    reveal_strlit("Func(");
    reveal_strlit("?");
    match t {
        SpecType::Optional(inner) => {
            lemma_printed_starts(*inner);
            assert((printed_type_name(*inner) + "?"@)[0] == printed_type_name(*inner)[0]);
        },
        SpecType::List(inner) => {
            assert(printed_type_name(t)[0] == 'L');
        },
        SpecType::Dict(inner) => {
            assert(printed_type_name(t)[0] == 'D');
        },
        SpecType::Function(params, ret) => {
            assert(printed_type_name(t)[0] == 'F');
        },
        _ => {},
    }
}

/// A printed basic type is read as its lowered form.
proof fn lemma_read_simple(
    t: SpecType,
    s: Seq<char>,
    i: int,
    g: spec_fn(Seq<char>) -> Option<SpecValueType>,
    st: Set<Seq<char>>,
)
    requires
        t is Bool || t is Int || t is Float || t is String || t is Nil || t is Void,
        0 <= i,
        i + printed_type_name(t).len() <= s.len(),
        s.subrange(i, i + printed_type_name(t).len()) == printed_type_name(t),
        i + printed_type_name(t).len() < s.len() ==> (closes_type(
            s[i + printed_type_name(t).len()],
        ) || s[i + printed_type_name(t).len()] == '?'),
    ensures
        lower_type(t) is Ok,
        parse_type_at(s, i, g, st) == Ok::<(SpecValueType, int), Seq<char>>(
            optional_suffix(s, i + printed_type_name(t).len(), lower_type(t)->Ok_0),
        ),
{
    reveal_strlit("Bool");
    reveal_strlit("Int");
    reveal_strlit("Float");
    reveal_strlit("String");
    reveal_strlit("Nil");
    reveal_strlit("Void");
    let w = printed_type_name(t);
    lemma_word_at(s, i, w);
    let k = i + w.len();
    assert(skip_ws(s, i) == i);
    assert(ident_end(s, i) == k);
    assert(s.subrange(i, k) == w);
    match t {
        SpecType::Int => {
            assert(s.subrange(skip_ws(s, i), ident_end(s, i)) == "Int"@);
            assert(parse_type_at(s, i, g, st) == Ok::<(SpecValueType, int), Seq<char>>(
                optional_suffix(s, k, SpecValueType::Int),
            ));
        },
        SpecType::Float => {
            assert(s.subrange(skip_ws(s, i), ident_end(s, i)) == "Float"@);
            assert(parse_type_at(s, i, g, st) == Ok::<(SpecValueType, int), Seq<char>>(
                optional_suffix(s, k, SpecValueType::Float),
            ));
        },
        SpecType::Bool => {
            assert(s.subrange(skip_ws(s, i), ident_end(s, i)) == "Bool"@);
            assert(parse_type_at(s, i, g, st) == Ok::<(SpecValueType, int), Seq<char>>(
                optional_suffix(s, k, SpecValueType::Bool),
            ));
        },
        SpecType::String => {
            assert(s.subrange(skip_ws(s, i), ident_end(s, i)) == "String"@);
            assert(parse_type_at(s, i, g, st) == Ok::<(SpecValueType, int), Seq<char>>(
                optional_suffix(s, k, SpecValueType::String),
            ));
        },
        SpecType::Nil => {
            assert("Nil"@[0] != "Int"@[0]);
            assert(s.subrange(skip_ws(s, i), ident_end(s, i)) == "Nil"@);
            assert(parse_type_at(s, i, g, st) == Ok::<(SpecValueType, int), Seq<char>>(
                optional_suffix(s, k, SpecValueType::Void),
            ));
        },
        SpecType::Void => {
            assert("Void"@[0] != "Bool"@[0]);
            assert("Void"@[0] != "Nil"@[0]);
            assert(s.subrange(skip_ws(s, i), ident_end(s, i)) == "Void"@);
            assert(parse_type_at(s, i, g, st) == Ok::<(SpecValueType, int), Seq<char>>(
                optional_suffix(s, k, SpecValueType::Void),
            ));
        },
        _ => {},
    }
}

proof fn lemma_keyword_letters()
    ensures
        "List"@ != "Bool"@,
        "List"@ != "Void"@,
        "Dict"@ != "Bool"@,
        "Dict"@ != "Void"@,
        "Dict"@ != "List"@,
        "Func"@ != "Bool"@,
        "Func"@ != "Void"@,
        "Func"@ != "List"@,
        "Func"@ != "Dict"@,
{
    reveal_strlit("Bool");
    reveal_strlit("Void");
    reveal_strlit("List");
    reveal_strlit("Dict");
    reveal_strlit("Func");
    assert("List"@[0] != "Bool"@[0]);
    assert("List"@[0] != "Void"@[0]);
    assert("Dict"@[0] != "Bool"@[0]);
    assert("Dict"@[0] != "Void"@[0]);
    assert("Dict"@[0] != "List"@[0]);
    assert("Func"@[0] != "Bool"@[0]);
    assert("Func"@[0] != "Void"@[0]);
    assert("Func"@[0] != "List"@[0]);
    assert("Func"@[0] != "Dict"@[0]);
}

/// The printed name of a type that reads back, followed by a closing
/// character (or by `?` when it is not a function type) or by the end of
/// the text, is read as the lowered type, followed by whatever `?` marks
/// come next.
proof fn lemma_read_printed(
    t: SpecType,
    s: Seq<char>,
    i: int,
    g: spec_fn(Seq<char>) -> Option<SpecValueType>,
    st: Set<Seq<char>>,
)
    requires
        reads_back(t),
        0 <= i,
        i + printed_type_name(t).len() <= s.len(),
        s.subrange(i, i + printed_type_name(t).len()) == printed_type_name(t),
        i + printed_type_name(t).len() < s.len() ==> (closes_type(
            s[i + printed_type_name(t).len()],
        ) || (s[i + printed_type_name(t).len()] == '?' && !(t is Function))),
    ensures
        lower_type(t) is Ok,
        parse_type_at(s, i, g, st) == Ok::<(SpecValueType, int), Seq<char>>(
            optional_suffix(s, i + printed_type_name(t).len(), lower_type(t)->Ok_0),
        ),
    decreases t,
{
    reveal_strlit("Bool");
    reveal_strlit("Int");
    reveal_strlit("Float");
    reveal_strlit("String");
    reveal_strlit("Nil");
    reveal_strlit("Void");
    reveal_strlit("List");
    reveal_strlit("Dict");
    reveal_strlit("Func");
    reveal_strlit("List[");
    reveal_strlit("Dict[String, ");
    reveal_strlit("Func(");
    reveal_strlit(") -> ");
    reveal_strlit("]");
    reveal_strlit("?");
    lemma_keyword_letters();
    lemma_reads_back_lowers(t);
    let n = printed_type_name(t).len();
    match t {
        SpecType::List(inner) => {
            let pi = printed_type_name(*inner);
            lemma_split(s, i, "List["@ + pi, "]"@);
            lemma_split(s, i, "List["@, pi);
            assert(s.subrange(i, i + 4) =~= "List"@);
            assert(s.subrange(i, i + 5)[4] == s[i + 4]);
            assert(s[i + 4] == '[');
            lemma_word_at(s, i, "List"@);
            lemma_skip_ws_stops(s, i + 4);
            let e = i + 5 + pi.len();
            assert(s.subrange(e, e + 1)[0] == s[e]);
            assert(s[e] == ']');
            lemma_read_printed(*inner, s, i + 5, g, st);
            lemma_suffix_stops(s, e, lower_type(*inner)->Ok_0);
            lemma_skip_ws_stops(s, e);
            assert(e + 1 == i + n);
        },
        SpecType::Dict(inner) => {
            let pi = printed_type_name(*inner);
            lemma_split(s, i, "Dict[String, "@ + pi, "]"@);
            lemma_split(s, i, "Dict[String, "@, pi);
            assert(s.subrange(i, i + 4) =~= "Dict"@);
            assert(s.subrange(i, i + 13)[4] == s[i + 4]);
            assert(s[i + 4] == '[');
            lemma_word_at(s, i, "Dict"@);
            lemma_skip_ws_stops(s, i + 4);
            reveal_strlit("Dict[");
            reveal_strlit(", ");
            assert("Dict[String, "@ =~= ("Dict["@ + "String"@) + ", "@);
            lemma_split(s, i, "Dict["@ + "String"@, ", "@);
            lemma_split(s, i, "Dict["@, "String"@);
            assert(s.subrange(i + 11, i + 13)[0] == s[i + 11]);
            assert(s.subrange(i + 11, i + 13)[1] == s[i + 12]);
            assert(s[i + 11] == ',');
            lemma_read_simple(SpecType::String, s, i + 5, g, st);
            lemma_suffix_stops(s, i + 11, SpecValueType::String);
            lemma_skip_ws_stops(s, i + 11);
            assert(s[i + 12] == ' ');
            lemma_printed_starts(*inner);
            assert(s[i + 13] == pi[0]);
            lemma_skip_ws_stops(s, i + 13);
            assert(skip_ws(s, i + 12) == i + 13);
            lemma_parse_after_ws(s, i + 12, g, st);
            let e = i + 13 + pi.len();
            assert(s.subrange(e, e + 1)[0] == s[e]);
            assert(s[e] == ']');
            lemma_read_printed(*inner, s, i + 13, g, st);
            lemma_suffix_stops(s, e, lower_type(*inner)->Ok_0);
            lemma_skip_ws_stops(s, e);
            assert(e + 1 == i + n);
        },
        SpecType::Optional(inner) => {
            let pi = printed_type_name(*inner);
            lemma_split(s, i, pi, "?"@);
            assert(s.subrange(i + pi.len(), i + pi.len() + 1)[0] == s[i + pi.len()]);
            assert(s[i + pi.len()] == '?');
            lemma_read_printed(*inner, s, i, g, st);
            lemma_skip_ws_stops(s, i + pi.len());
        },
        SpecType::Function(params, ret) => {
            let j = joined_type_names(params, ", "@);
            let pr = printed_type_name(*ret);
            lemma_split(s, i, "Func("@ + j + ") -> "@, pr);
            lemma_split(s, i, "Func("@ + j, ") -> "@);
            lemma_split(s, i, "Func("@, j);
            assert(s.subrange(i, i + 4) =~= "Func"@);
            assert(s.subrange(i, i + 5)[4] == s[i + 4]);
            assert(s[i + 4] == '(');
            lemma_word_at(s, i, "Func"@);
            lemma_skip_ws_stops(s, i + 4);
            let q = i + 5 + j.len();
            assert(s.subrange(q, q + 5)[0] == s[q]);
            assert(s.subrange(q, q + 5)[1] == s[q + 1]);
            assert(s.subrange(q, q + 5)[2] == s[q + 2]);
            assert(s.subrange(q, q + 5)[3] == s[q + 3]);
            assert(s.subrange(q, q + 5)[4] == s[q + 4]);
            assert(s[q] == ')');
            assert(s.subrange(i + 5, q) == j);
            lemma_read_printed_params(params, s, i + 5, g, st);
            assert(s[q + 1] == ' ');
            assert(s[q + 2] == '-');
            assert(s[q + 3] == '>');
            assert(s[q + 4] == ' ');
            lemma_skip_ws_stops(s, q + 2);
            assert(skip_ws(s, q + 1) == q + 2);
            lemma_printed_starts(*ret);
            assert(s[q + 5] == pr[0]);
            lemma_skip_ws_stops(s, q + 5);
            assert(skip_ws(s, q + 4) == q + 5);
            lemma_parse_after_ws(s, q + 4, g, st);
            lemma_read_printed(*ret, s, q + 5, g, st);
            lemma_suffix_stops(s, q + 5 + pr.len(), lower_type(*ret)->Ok_0);
            assert(q + 5 + pr.len() == i + n);
        },
        _ => {
            lemma_read_simple(t, s, i, g, st);
        },
    }
}

/// The printed parameter list of a function type, followed by `)`, is read
/// as the lowered parameter types.
proof fn lemma_read_printed_params(
    ps: Seq<SpecType>,
    s: Seq<char>,
    i: int,
    g: spec_fn(Seq<char>) -> Option<SpecValueType>,
    st: Set<Seq<char>>,
)
    requires
        all_read_back(ps),
        0 <= i,
        i + joined_type_names(ps, ", "@).len() < s.len(),
        s.subrange(i, i + joined_type_names(ps, ", "@).len()) == joined_type_names(ps, ", "@),
        s[i + joined_type_names(ps, ", "@).len()] == ')',
    ensures
        lower_types(ps) is Ok,
        parse_params_at(s, i, g, st) == Ok::<(Seq<SpecValueType>, int), Seq<char>>(
            (lower_types(ps)->Ok_0, i + joined_type_names(ps, ", "@).len() + 1),
        ),
    decreases ps,
{
    reveal_strlit(", ");
    lemma_all_read_back_lowers(ps);
    lemma_all_read_back(ps);
    if ps.len() == 0 {
        lemma_skip_ws_stops(s, i);
    } else {
        let p0 = printed_type_name(ps[0]);
        assert(reads_back(ps[0]));
        lemma_printed_starts(ps[0]);
        lemma_lower_types_front(ps);
        if ps.len() == 1 {
            assert(joined_type_names(ps, ", "@) == p0);
            assert(s[i] == p0[0]);
            lemma_skip_ws_stops(s, i);
            let e = i + p0.len();
            lemma_read_printed(ps[0], s, i, g, st);
            lemma_suffix_stops(s, e, lower_type(ps[0])->Ok_0);
            lemma_skip_ws_stops(s, e);
            let rest = ps.subrange(1, 1);
            assert(lower_types(rest)->Ok_0 =~= Seq::<SpecValueType>::empty());
            assert(lower_types(ps)->Ok_0 =~= seq![lower_type(ps[0])->Ok_0]);
        } else {
            let rest = ps.subrange(1, ps.len() as int);
            let jr = joined_type_names(rest, ", "@);
            lemma_joined_front(ps, ", "@);
            lemma_split(s, i, p0 + ", "@, jr);
            lemma_split(s, i, p0, ", "@);
            assert(s[i] == p0[0]);
            lemma_skip_ws_stops(s, i);
            let e = i + p0.len();
            assert(s.subrange(e, e + 2)[0] == s[e]);
            assert(s.subrange(e, e + 2)[1] == s[e + 1]);
            assert(s[e] == ',');
            lemma_read_printed(ps[0], s, i, g, st);
            lemma_suffix_stops(s, e, lower_type(ps[0])->Ok_0);
            lemma_skip_ws_stops(s, e);
            assert(s[e + 1] == ' ');
            assert(all_read_back(rest)) by {
                lemma_all_read_back(rest);
                assert forall|k: int| 0 <= k < rest.len() implies reads_back(#[trigger] rest[k]) by {
                    assert(rest[k] == ps[k + 1]);
                }
            }
            assert(rest[0] == ps[1]);
            assert(reads_back(rest[0]));
            lemma_joined_front_starts(rest);
            lemma_printed_starts(rest[0]);
            assert(s.subrange(e + 2, e + 2 + jr.len())[0] == s[e + 2]);
            assert(s[e + 2] == jr[0]);
            lemma_skip_ws_stops(s, e + 2);
            assert(skip_ws(s, e + 1) == e + 2);
            lemma_parse_after_ws(s, e + 1, g, st);
            lemma_read_printed_params(rest, s, e + 2, g, st);
        }
    }
}

/// A non-empty joined list starts as its first printed name does.
proof fn lemma_joined_front_starts(ts: Seq<SpecType>)
    requires
        ts.len() > 0,
        reads_back(ts[0]),
    ensures
        joined_type_names(ts, ", "@).len() > 0,
        joined_type_names(ts, ", "@)[0] == printed_type_name(ts[0])[0],
{
    lemma_printed_starts(ts[0]);
    if ts.len() >= 2 {
        lemma_joined_front(ts, ", "@);
    }
}

/// The printed name of a type that reads back (see [`reads_back`]), read
/// as a type annotation, is the type's lowered representation, whatever
/// generic parameters and structs are in scope.
pub proof fn lemma_printed_type_reads_back(
    t: SpecType,
    g: spec_fn(Seq<char>) -> Option<SpecValueType>,
    st: Set<Seq<char>>,
)
    requires
        reads_back(t),
    ensures
        lower_type(t) is Ok,
        parse_type_text(printed_type_name(t), g, st) == Ok::<SpecValueType, Seq<char>>(
            lower_type(t)->Ok_0,
        ),
{
    let s = printed_type_name(t);
    assert(s.subrange(0, s.len() as int) =~= s);
    lemma_read_printed(t, s, 0, g, st);
    lemma_suffix_stops(s, s.len() as int, lower_type(t)->Ok_0);
    lemma_skip_ws_stops(s, s.len() as int);
}

} // verus!
