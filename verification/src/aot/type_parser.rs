//! Reading type annotations (`List[Int]`, `Dict[String, Bool]`,
//! `Func(Int) -> String`, `Point?`) into the back end's value types.
use vstd::prelude::*;

use crate::aot::scopes::{generic_binding, GenericBindings};
use crate::aot::types::{value_types_view, SpecValueType, StructLowering, ValueType};
use crate::typechecker::Type;
use crate::text::chars_eq;
use crate::ast::{Token, TypeExpression};
use crate::names::NameMap;
use crate::text::{
    char_is_alphanumeric, char_is_whitespace, chars_of, owned, push_chars, slice_chars,
    spec_is_alphanumeric, spec_is_whitespace, string_from_chars,
};

verus! {

/// A character that may appear in a type identifier.
pub open spec fn is_ident_char(c: char) -> bool {
    spec_is_alphanumeric(c) || c == '_'
}

/// The first position at or after `i` that is not whitespace.
pub open spec fn skip_ws(s: Seq<char>, i: int) -> int
    decreases s.len() - i,
{
    if 0 <= i < s.len() && spec_is_whitespace(s[i]) {
        skip_ws(s, i + 1)
    } else {
        i
    }
}

/// The end of the identifier that starts at `i`.
pub open spec fn ident_end(s: Seq<char>, i: int) -> int
    decreases s.len() - i,
{
    if 0 <= i < s.len() && is_ident_char(s[i]) {
        ident_end(s, i + 1)
    } else {
        i
    }
}

pub proof fn lemma_skip_ws(s: Seq<char>, i: int)
    requires
        0 <= i <= s.len(),
    ensures
        i <= skip_ws(s, i) <= s.len(),
        forall|j: int| i <= j < skip_ws(s, i) ==> spec_is_whitespace(#[trigger] s[j]),
        skip_ws(s, i) < s.len() ==> !spec_is_whitespace(s[skip_ws(s, i)]),
    decreases s.len() - i,
{
    if i < s.len() && spec_is_whitespace(s[i]) {
        lemma_skip_ws(s, i + 1);
    }
}

pub proof fn lemma_ident_end(s: Seq<char>, i: int)
    requires
        0 <= i <= s.len(),
    ensures
        i <= ident_end(s, i) <= s.len(),
        forall|j: int| i <= j < ident_end(s, i) ==> is_ident_char(#[trigger] s[j]),
        ident_end(s, i) < s.len() ==> !is_ident_char(s[ident_end(s, i)]),
    decreases s.len() - i,
{
    if i < s.len() && is_ident_char(s[i]) {
        lemma_ident_end(s, i + 1);
    }
}

/// Whether the character at `p` is `c`.
pub open spec fn char_at(s: Seq<char>, p: int, c: char) -> bool {
    0 <= p < s.len() && s[p] == c
}

pub open spec fn unsupported_type_message(name: Seq<char>) -> Seq<char> {
    "unsupported type '"@ + name + "' in LLVM backend"@
}

/// `t` followed by any number of `?` (each one wrapping it in an optional),
/// read from position `q`; the end position is after the whitespace that
/// follows.
pub open spec fn optional_suffix(s: Seq<char>, q: int, t: SpecValueType) -> (SpecValueType, int)
    decreases s.len() - q,
{
    if 0 <= q <= s.len() {
        let r = skip_ws(s, q);
        if char_at(s, r, '?') {
            proof {
                lemma_skip_ws(s, q);
            }
            optional_suffix(s, r + 1, SpecValueType::Optional(Box::new(t)))
        } else {
            (t, r)
        }
    } else {
        (t, q)
    }
}

/// The type written at position `i`, and the position after it. Names are
/// the built-in types, the generic parameters bound by `g`, and the
/// structs in `st`.
pub open spec fn parse_type_at(
    s: Seq<char>,
    i: int,
    g: spec_fn(Seq<char>) -> Option<SpecValueType>,
    st: Set<Seq<char>>,
) -> Result<(SpecValueType, int), Seq<char>>
    decreases s.len() - i, 0int,
{
    if i < 0 || i > s.len() {
        Err("expected type identifier"@)
    } else {
        let j = skip_ws(s, i);
        let k = ident_end(s, j);
        proof {
            lemma_skip_ws(s, i);
            lemma_ident_end(s, j);
        }
        if k == j {
            Err("expected type identifier"@)
        } else {
            let id = s.subrange(j, k);
            let p = skip_ws(s, k);
            proof {
                lemma_skip_ws(s, k);
            }
            let base: Result<(SpecValueType, int), Seq<char>> = if id == "Int"@ {
                Ok((SpecValueType::Int, k))
            } else if id == "Float"@ {
                Ok((SpecValueType::Float, k))
            } else if id == "Bool"@ {
                Ok((SpecValueType::Bool, k))
            } else if id == "String"@ {
                Ok((SpecValueType::String, k))
            } else if id == "Nil"@ {
                Ok((SpecValueType::Void, k))
            } else if id == "Void"@ {
                Ok((SpecValueType::Void, k))
            } else if id == "List"@ {
                if char_at(s, p, '[') {
                    match parse_type_at(s, p + 1, g, st) {
                        Ok((inner, q)) => {
                            let r = skip_ws(s, q);
                            if char_at(s, r, ']') {
                                Ok((SpecValueType::List(Box::new(inner)), r + 1))
                            } else {
                                Err("expected ']' to close list type"@)
                            }
                        },
                        Err(e) => Err(e),
                    }
                } else {
                    Err("expected '[' after 'List'"@)
                }
            } else if id == "Dict"@ {
                if !char_at(s, p, '[') {
                    Err("expected '[' after 'Dict'"@)
                } else {
                    match parse_type_at(s, p + 1, g, st) {
                        Ok((key, q)) => {
                            let r = skip_ws(s, q);
                            if !(p < q <= s.len()) {
                                Err("expected type identifier"@)
                            } else if !char_at(s, r, ',') {
                                Err("expected ',' after dict key type"@)
                            } else {
                                proof {
                                    lemma_skip_ws(s, q);
                                }
                                match parse_type_at(s, r + 1, g, st) {
                                    Ok((value, q2)) => {
                                        let r2 = skip_ws(s, q2);
                                        if !char_at(s, r2, ']') {
                                            Err("expected ']' to close dict type"@)
                                        } else if key != SpecValueType::String {
                                            Err("Dict key type must be String in LLVM backend"@)
                                        } else {
                                            Ok((SpecValueType::Dict(Box::new(value)), r2 + 1))
                                        }
                                    },
                                    Err(e) => Err(e),
                                }
                            }
                        },
                        Err(e) => Err(e),
                    }
                }
            } else if id == "Func"@ || id == "Function"@ || id == "Fn"@ {
                if !char_at(s, p, '(') {
                    Err("expected '(' after function type"@)
                } else {
                    match parse_params_at(s, p + 1, g, st) {
                        Ok((params, q)) => {
                            let r = skip_ws(s, q);
                            if !(p < q <= s.len()) {
                                Err("expected type identifier"@)
                            } else if char_at(s, r, '-') && char_at(s, r + 1, '>') {
                                proof {
                                    lemma_skip_ws(s, q);
                                }
                                match parse_type_at(s, r + 2, g, st) {
                                    Ok((ret, q2)) => Ok(
                                        (SpecValueType::Function(params, Box::new(ret)), q2),
                                    ),
                                    Err(e) => Err(e),
                                }
                            } else {
                                Err("expected '->' in function type"@)
                            }
                        },
                        Err(e) => Err(e),
                    }
                }
            } else {
                match g(id) {
                    Some(v) => Ok((v, k)),
                    None => if st.contains(id) {
                        Ok((SpecValueType::Struct(id), k))
                    } else {
                        Err(unsupported_type_message(id))
                    },
                }
            };
            match base {
                Ok((t, q)) => Ok(optional_suffix(s, q, t)),
                Err(e) => Err(e),
            }
        }
    }
}

/// The parameter list of a function type from position `i` (just after
/// `(`) up to and including `)`; a trailing comma is allowed.
pub open spec fn parse_params_at(
    s: Seq<char>,
    i: int,
    g: spec_fn(Seq<char>) -> Option<SpecValueType>,
    st: Set<Seq<char>>,
) -> Result<(Seq<SpecValueType>, int), Seq<char>>
    decreases s.len() - i, 1int,
{
    if i < 0 || i > s.len() {
        Err("expected type identifier"@)
    } else {
        let j = skip_ws(s, i);
        proof {
            lemma_skip_ws(s, i);
        }
        if char_at(s, j, ')') {
            Ok((Seq::empty(), j + 1))
        } else {
            match parse_type_at(s, j, g, st) {
                Ok((t, q)) => {
                    let r = skip_ws(s, q);
                    if !(j < q <= s.len()) {
                        Err("expected type identifier"@)
                    } else if char_at(s, r, ',') {
                        proof {
                            lemma_skip_ws(s, q);
                        }
                        match parse_params_at(s, r + 1, g, st) {
                            Ok((ts, q2)) => Ok((seq![t] + ts, q2)),
                            Err(e) => Err(e),
                        }
                    } else if char_at(s, r, ')') {
                        Ok((seq![t], r + 1))
                    } else {
                        Err("expected ',' or ')' in function type"@)
                    }
                },
                Err(e) => Err(e),
            }
        }
    }
}

proof fn lemma_optional_suffix(s: Seq<char>, q: int, t: SpecValueType)
    requires
        0 <= q <= s.len(),
    ensures
        q <= optional_suffix(s, q, t).1 <= s.len(),
    decreases s.len() - q,
{
    lemma_skip_ws(s, q);
    let r = skip_ws(s, q);
    if char_at(s, r, '?') {
        lemma_optional_suffix(s, r + 1, SpecValueType::Optional(Box::new(t)));
    }
}

/// A successful parse ends after its start and within the text.
pub proof fn lemma_parse_type_at_advances(
    s: Seq<char>,
    i: int,
    g: spec_fn(Seq<char>) -> Option<SpecValueType>,
    st: Set<Seq<char>>,
)
    ensures
        parse_type_at(s, i, g, st) matches Ok((_, q)) ==> i < q <= s.len(),
    decreases s.len() - i, 0int,
{
    if 0 <= i <= s.len() {
        lemma_skip_ws(s, i);
        let j = skip_ws(s, i);
        lemma_ident_end(s, j);
        let k = ident_end(s, j);
        if k != j {
            lemma_skip_ws(s, k);
            let p = skip_ws(s, k);
            let id = s.subrange(j, k);
            if char_at(s, p, '[') {
                lemma_parse_type_at_advances(s, p + 1, g, st);
                if let Ok((_, q)) = parse_type_at(s, p + 1, g, st) {
                    lemma_skip_ws(s, q);
                    let r = skip_ws(s, q);
                    if char_at(s, r, ',') {
                        lemma_parse_type_at_advances(s, r + 1, g, st);
                        if let Ok((_, q2)) = parse_type_at(s, r + 1, g, st) {
                            lemma_skip_ws(s, q2);
                        }
                    }
                    if char_at(s, r, ']') {
                        assert(r + 1 <= s.len());
                    }
                }
            }
            if char_at(s, p, '(') {
                lemma_parse_params_at_advances(s, p + 1, g, st);
                if let Ok((_, q)) = parse_params_at(s, p + 1, g, st) {
                    lemma_skip_ws(s, q);
                    let r = skip_ws(s, q);
                    if char_at(s, r, '-') && char_at(s, r + 1, '>') {
                        lemma_parse_type_at_advances(s, r + 2, g, st);
                    }
                }
            }
            assert forall|t: SpecValueType, b: int| i < b <= s.len() implies {
                let o = #[trigger] optional_suffix(s, b, t);
                i < o.1 <= s.len()
            } by {
                lemma_optional_suffix(s, b, t);
            }
        }
    }
}

/// A successful parameter list ends after its start and within the text.
pub proof fn lemma_parse_params_at_advances(
    s: Seq<char>,
    i: int,
    g: spec_fn(Seq<char>) -> Option<SpecValueType>,
    st: Set<Seq<char>>,
)
    ensures
        parse_params_at(s, i, g, st) matches Ok((_, q)) ==> i < q <= s.len(),
    decreases s.len() - i, 1int,
{
    if 0 <= i <= s.len() {
        lemma_skip_ws(s, i);
        let j = skip_ws(s, i);
        if !char_at(s, j, ')') {
            lemma_parse_type_at_advances(s, j, g, st);
            if let Ok((_, q)) = parse_type_at(s, j, g, st) {
                lemma_skip_ws(s, q);
                let r = skip_ws(s, q);
                if char_at(s, r, ',') {
                    lemma_parse_params_at_advances(s, r + 1, g, st);
                }
            }
        }
    }
}

/// What a generic parameter name stands for in an annotation: the
/// representation bound to it in the innermost scope that binds it.
pub open spec fn generic_value_types(scopes: Seq<NameMap<(Type, ValueType)>>) -> spec_fn(
    Seq<char>,
) -> Option<SpecValueType> {
    |n: Seq<char>|
        match generic_binding(scopes, n) {
            Some(b) => Some(b.1),
            None => None,
        }
}

/// An exec parse result compared with the spec parser's.
pub open spec fn read_as(
    r: Result<(ValueType, usize), String>,
    spec: Result<(SpecValueType, int), Seq<char>>,
) -> bool {
    match r {
        Ok((t, q)) => spec matches Ok((t2, q2)) && t2 == t@ && q2 == q as int,
        Err(e) => spec matches Err(e2) && e2 == e@,
    }
}

/// An exec parameter-list result compared with the spec parser's.
pub open spec fn params_read_as(
    r: Result<(Vec<ValueType>, usize), String>,
    spec: Result<(Seq<SpecValueType>, int), Seq<char>>,
) -> bool {
    match r {
        Ok((ts, q)) => spec matches Ok((ts2, q2)) && ts2 == value_types_view(ts@) && q2 == q as int,
        Err(e) => spec matches Err(e2) && e2 == e@,
    }
}

fn skip_whitespace(s: &[char], i: usize) -> (r: usize)
    requires
        i <= s@.len(),
    ensures
        r as int == skip_ws(s@, i as int),
{
    let mut k = i;
    while k < s.len() && char_is_whitespace(s[k])
        invariant
            i <= k <= s@.len(),
            skip_ws(s@, k as int) == skip_ws(s@, i as int),
        decreases s@.len() - k,
    {
        k = k + 1;
    }
    k
}

fn identifier_end(s: &[char], i: usize) -> (r: usize)
    requires
        i <= s@.len(),
    ensures
        r as int == ident_end(s@, i as int),
{
    let mut k = i;
    while k < s.len() && (char_is_alphanumeric(s[k]) || s[k] == '_')
        invariant
            i <= k <= s@.len(),
            ident_end(s@, k as int) == ident_end(s@, i as int),
        decreases s@.len() - k,
    {
        k = k + 1;
    }
    k
}

fn char_is(s: &[char], p: usize, c: char) -> (b: bool)
    ensures
        b == char_at(s@, p as int, c),
{
    p < s.len() && s[p] == c
}

fn word_is(id: &[char], word: &str) -> (b: bool)
    ensures
        b == (id@ == word@),
{
    let w = chars_of(word);
    chars_eq(id, w.as_slice())
}

fn read_optional_suffix(s: &[char], q: usize, t: ValueType) -> (r: (ValueType, usize))
    requires
        q <= s@.len(),
    ensures
        optional_suffix(s@, q as int, t@) == (r.0@, r.1 as int),
    decreases s@.len() - q,
{
    let n = s.len();
    let r = skip_whitespace(s, q);
    proof {
        lemma_skip_ws(s@, q as int);
    }
    if char_is(s, r, '?') {
        assert(r < n);
        read_optional_suffix(s, r + 1, ValueType::Optional(Box::new(t)))
    } else {
        (t, r)
    }
}

/// Reads the type written at position `i` (see [`parse_type_at`]).
pub fn read_type_at(
    s: &[char],
    i: usize,
    generics: &GenericBindings,
    structs: &NameMap<StructLowering>,
) -> (r: Result<(ValueType, usize), String>)
    requires
        i <= s@.len(),
    ensures
        read_as(
            r,
            parse_type_at(s@, i as int, generic_value_types(generics.scopes@), structs@.dom()),
        ),
    decreases s@.len() - i, 0int,
{
    let ghost g = generic_value_types(generics.scopes@);
    let ghost st = structs@.dom();
    let n = s.len();
    let j = skip_whitespace(s, i);
    proof {
        lemma_skip_ws(s@, i as int);
    }
    let k = identifier_end(s, j);
    proof {
        lemma_ident_end(s@, j as int);
    }
    if k == j {
        return Err(owned("expected type identifier"));
    }
    let id = slice_chars(s, j, k);
    let p = skip_whitespace(s, k);
    proof {
        lemma_skip_ws(s@, k as int);
    }
    let base: Result<(ValueType, usize), String> = if word_is(&id, "Int") {
        Ok((ValueType::Int, k))
    } else if word_is(&id, "Float") {
        Ok((ValueType::Float, k))
    } else if word_is(&id, "Bool") {
        Ok((ValueType::Bool, k))
    } else if word_is(&id, "String") {
        Ok((ValueType::String, k))
    } else if word_is(&id, "Nil") {
        Ok((ValueType::Void, k))
    } else if word_is(&id, "Void") {
        Ok((ValueType::Void, k))
    } else if word_is(&id, "List") {
        if char_is(s, p, '[') {
            match read_type_at(s, p + 1, generics, structs) {
                Ok((inner, q)) => {
                    proof {
                        lemma_parse_type_at_advances(s@, p + 1, g, st);
                    }
                    let r = skip_whitespace(s, q);
                    if char_is(s, r, ']') {
                        Ok((ValueType::List(Box::new(inner)), r + 1))
                    } else {
                        Err(owned("expected ']' to close list type"))
                    }
                },
                Err(e) => Err(e),
            }
        } else {
            Err(owned("expected '[' after 'List'"))
        }
    } else if word_is(&id, "Dict") {
        if !char_is(s, p, '[') {
            Err(owned("expected '[' after 'Dict'"))
        } else {
            match read_type_at(s, p + 1, generics, structs) {
                Ok((key, q)) => {
                    proof {
                        lemma_parse_type_at_advances(s@, p + 1, g, st);
                    }
                    let r = skip_whitespace(s, q);
                    proof {
                        lemma_skip_ws(s@, q as int);
                    }
                    if !char_is(s, r, ',') {
                        Err(owned("expected ',' after dict key type"))
                    } else {
                        match read_type_at(s, r + 1, generics, structs) {
                            Ok((value, q2)) => {
                                proof {
                                    lemma_parse_type_at_advances(s@, r + 1, g, st);
                                }
                                let r2 = skip_whitespace(s, q2);
                                if !char_is(s, r2, ']') {
                                    Err(owned("expected ']' to close dict type"))
                                } else if !matches!(key, ValueType::String) {
                                    Err(owned("Dict key type must be String in LLVM backend"))
                                } else {
                                    Ok((ValueType::Dict(Box::new(value)), r2 + 1))
                                }
                            },
                            Err(e) => Err(e),
                        }
                    }
                },
                Err(e) => Err(e),
            }
        }
    } else if word_is(&id, "Func") || word_is(&id, "Function") || word_is(&id, "Fn") {
        if !char_is(s, p, '(') {
            Err(owned("expected '(' after function type"))
        } else {
            match read_params_at(s, p + 1, generics, structs) {
                Ok((params, q)) => {
                    proof {
                        lemma_parse_params_at_advances(s@, p + 1, g, st);
                    }
                    let r = skip_whitespace(s, q);
                    proof {
                        lemma_skip_ws(s@, q as int);
                    }
                    if char_is(s, r, '-') && char_is(s, r + 1, '>') {
                        match read_type_at(s, r + 2, generics, structs) {
                            Ok((ret, q2)) => Ok((ValueType::Function(params, Box::new(ret)), q2)),
                            Err(e) => Err(e),
                        }
                    } else {
                        Err(owned("expected '->' in function type"))
                    }
                },
                Err(e) => Err(e),
            }
        }
    } else {
        let name = string_from_chars(id.as_slice());
        match generics.lookup_generic_value_type(name.as_str()) {
            Some(v) => Ok((v, k)),
            None => if structs.contains_key(name.as_str()) {
                Ok((ValueType::Struct(name), k))
            } else {
                let mut msg = owned("unsupported type '");
                push_chars(&mut msg, id.as_slice());
                let tail = chars_of("' in LLVM backend");
                push_chars(&mut msg, tail.as_slice());
                Err(msg)
            },
        }
    };
    match base {
        Ok((t, q)) => {
            proof {
                lemma_parse_type_at_advances(s@, i as int, g, st);
            }
            Ok(read_optional_suffix(s, q, t))
        },
        Err(e) => Err(e),
    }
}

/// Reads a parameter list from position `i`, just after `(`
/// (see [`parse_params_at`]).
pub fn read_params_at(
    s: &[char],
    i: usize,
    generics: &GenericBindings,
    structs: &NameMap<StructLowering>,
) -> (r: Result<(Vec<ValueType>, usize), String>)
    requires
        i <= s@.len(),
    ensures
        params_read_as(
            r,
            parse_params_at(s@, i as int, generic_value_types(generics.scopes@), structs@.dom()),
        ),
    decreases s@.len() - i, 1int,
{
    let ghost g = generic_value_types(generics.scopes@);
    let ghost st = structs@.dom();
    let n = s.len();
    let j = skip_whitespace(s, i);
    proof {
        lemma_skip_ws(s@, i as int);
    }
    if char_is(s, j, ')') {
        let empty: Vec<ValueType> = Vec::new();
        proof {
            assert(value_types_view(empty@) =~= Seq::<SpecValueType>::empty());
        }
        return Ok((empty, j + 1));
    }
    match read_type_at(s, j, generics, structs) {
        Ok((t, q)) => {
            proof {
                lemma_parse_type_at_advances(s@, j as int, g, st);
            }
            let r = skip_whitespace(s, q);
            proof {
                lemma_skip_ws(s@, q as int);
            }
            if char_is(s, r, ',') {
                match read_params_at(s, r + 1, generics, structs) {
                    Ok((rest, q2)) => {
                        let mut all: Vec<ValueType> = Vec::new();
                        all.push(t);
                        let mut rest = rest;
                        let ghost rest_seq = rest@;
                        all.append(&mut rest);
                        proof {
                            crate::aot::types::lemma_value_types_view(all@);
                            crate::aot::types::lemma_value_types_view(rest_seq);
                            assert(value_types_view(all@) =~= seq![t@] + value_types_view(
                                rest_seq,
                            ));
                        }
                        Ok((all, q2))
                    },
                    Err(e) => Err(e),
                }
            } else if char_is(s, r, ')') {
                let mut one: Vec<ValueType> = Vec::new();
                one.push(t);
                proof {
                    crate::aot::types::lemma_value_types_view(one@);
                    assert(value_types_view(one@) =~= seq![t@]);
                }
                Ok((one, r + 1))
            } else {
                Err(owned("expected ',' or ')' in function type"))
            }
        },
        Err(e) => Err(e),
    }
}

/// A whole annotation: one type, then nothing but whitespace.
pub open spec fn parse_type_text(
    s: Seq<char>,
    g: spec_fn(Seq<char>) -> Option<SpecValueType>,
    st: Set<Seq<char>>,
) -> Result<SpecValueType, Seq<char>> {
    match parse_type_at(s, 0, g, st) {
        Ok((t, q)) => if skip_ws(s, q) < s.len() {
            Err("unexpected trailing characters in type annotation '"@ + s + "'"@)
        } else {
            Ok(t)
        },
        Err(e) => Err(e),
    }
}

/// The end of `s[..e]` once trailing whitespace is dropped.
pub open spec fn trim_end(s: Seq<char>, e: int) -> int
    decreases e,
{
    if 0 < e <= s.len() && spec_is_whitespace(s[e - 1]) {
        trim_end(s, e - 1)
    } else {
        e
    }
}

/// `s` without leading and trailing whitespace (`str::trim`).
pub open spec fn trimmed(s: Seq<char>) -> Seq<char> {
    let a = skip_ws(s, 0);
    let b = trim_end(s, s.len() as int);
    if a < b {
        s.subrange(a, b)
    } else {
        Seq::empty()
    }
}

/// The characters of a string slice without leading and trailing
/// whitespace.
pub fn trim_chars(s: &[char]) -> (r: Vec<char>)
    ensures
        r@ == trimmed(s@),
{
    let n = s.len();
    let a = skip_whitespace(s, 0);
    let mut b = n;
    while b > 0 && char_is_whitespace(s[b - 1])
        invariant
            b <= n == s@.len(),
            trim_end(s@, b as int) == trim_end(s@, n as int),
        decreases b,
    {
        b = b - 1;
    }
    if a < b {
        slice_chars(s, a, b)
    } else {
        Vec::new()
    }
}

/// Reads a whole type annotation: one type, with
/// nothing but whitespace after it. Generic parameters bound in
/// `generics` and the structs in `structs` are known by name.
pub fn parse_type_from_str(
    repr: &str,
    generics: &GenericBindings,
    structs: &NameMap<StructLowering>,
) -> (r: Result<ValueType, String>)
    ensures
        match r {
            Ok(t) => parse_type_text(repr@, generic_value_types(generics.scopes@), structs@.dom())
                == Ok::<SpecValueType, Seq<char>>(t@),
            Err(e) => parse_type_text(repr@, generic_value_types(generics.scopes@), structs@.dom())
                == Err::<SpecValueType, Seq<char>>(e@),
        },
{
    let s = chars_of(repr);
    match read_type_at(s.as_slice(), 0, generics, structs) {
        Ok((t, q)) => {
            proof {
                lemma_parse_type_at_advances(
                    s@,
                    0,
                    generic_value_types(generics.scopes@),
                    structs@.dom(),
                );
            }
            let r = skip_whitespace(s.as_slice(), q);
            if r < s.len() {
                let mut msg = owned("unexpected trailing characters in type annotation '");
                push_chars(&mut msg, s.as_slice());
                let tail = chars_of("'");
                push_chars(&mut msg, tail.as_slice());
                Err(msg)
            } else {
                Ok(t)
            }
        },
        Err(e) => Err(e),
    }
}

/// The text of an annotation: its tokens' lexemes run together.
pub open spec fn lexemes_text(tokens: Seq<Token>) -> Seq<char>
    decreases tokens.len(),
{
    if tokens.len() == 0 {
        Seq::empty()
    } else {
        lexemes_text(tokens.drop_last()) + tokens.last().lexeme@
    }
}

/// Reads a type annotation written in the source: its
/// tokens' text, trimmed, read as by [`parse_type_from_str`].
pub fn parse_type(
    type_expr: &TypeExpression,
    generics: &GenericBindings,
    structs: &NameMap<StructLowering>,
) -> (r: Result<ValueType, String>)
    ensures
        match r {
            Ok(t) => parse_type_text(
                trimmed(lexemes_text(type_expr.tokens@)),
                generic_value_types(generics.scopes@),
                structs@.dom(),
            ) == Ok::<SpecValueType, Seq<char>>(t@),
            Err(e) => parse_type_text(
                trimmed(lexemes_text(type_expr.tokens@)),
                generic_value_types(generics.scopes@),
                structs@.dom(),
            ) == Err::<SpecValueType, Seq<char>>(e@),
        },
{
    let mut text = String::new();
    let mut i: usize = 0;
    while i < type_expr.tokens.len()
        invariant
            i <= type_expr.tokens@.len(),
            text@ == lexemes_text(type_expr.tokens@.take(i as int)),
        decreases type_expr.tokens@.len() - i,
    {
        proof {
            assert(type_expr.tokens@.take(i + 1).drop_last() =~= type_expr.tokens@.take(i as int));
        }
        text.append(type_expr.tokens[i].lexeme.as_str());
        i = i + 1;
    }
    proof {
        assert(type_expr.tokens@.take(i as int) =~= type_expr.tokens@);
    }
    let cs = chars_of(text.as_str());
    let t = trim_chars(cs.as_slice());
    let repr = string_from_chars(t.as_slice());
    parse_type_from_str(repr.as_str(), generics, structs)
}

} // verus!
