//! The debug rendering of value types (`{:?}`), which the back end's
//! diagnostics quote: `List(Int)`, `Struct("Point")`,
//! `Function([Int, String], Void)`.
use vstd::prelude::*;

use crate::aot::types::{SpecValueType, ValueType};
use crate::text::{chars_of, push_char, push_chars};

verus! {

/// The lowercase hexadecimal digits of `n`, without leading zeros.
pub open spec fn hex_digits(n: nat) -> Seq<char>
    decreases n,
{
    if n < 16 {
        seq![hex_digit(n)]
    } else {
        hex_digits(n / 16).push(hex_digit(n % 16))
    }
}

pub open spec fn hex_digit(d: nat) -> char {
    if d < 10 {
        ((d + 48) as u8) as char
    } else {
        ((d + 87) as u8) as char
    }
}

/// What `char::escape_debug` gives for a character above U+007F: the
/// character itself when it is printable, else a `\u{..}` escape.
pub uninterp spec fn unicode_escape_debug(c: char) -> Seq<char>;

/// A character as a string's debug rendering writes it: the usual
/// backslash escapes, printable ASCII as it is, other ASCII as `\u{..}`.
pub open spec fn debug_char(c: char) -> Seq<char> {
    if c == '\0' {
        seq!['\\', '0']
    } else if c == '\t' {
        seq!['\\', 't']
    } else if c == '\r' {
        seq!['\\', 'r']
    } else if c == '\n' {
        seq!['\\', 'n']
    } else if c == '\\' {
        seq!['\\', '\\']
    } else if c == '"' {
        seq!['\\', '"']
    } else if ' ' <= c && c <= '~' {
        seq![c]
    } else if c <= '\x7f' {
        seq!['\\', 'u', '{'] + hex_digits(c as nat) + seq!['}']
    } else {
        unicode_escape_debug(c)
    }
}

/// The escaped characters of a string.
pub open spec fn debug_chars(s: Seq<char>) -> Seq<char>
    decreases s.len(),
{
    if s.len() == 0 {
        Seq::empty()
    } else {
        debug_chars(s.drop_last()) + debug_char(s.last())
    }
}

/// A string's debug rendering: quoted and escaped.
pub open spec fn debug_string(s: Seq<char>) -> Seq<char> {
    seq!['"'] + debug_chars(s) + seq!['"']
}

/// The debug rendering of a value type.
pub open spec fn value_type_debug(t: SpecValueType) -> Seq<char>
    decreases t,
{
    match t {
        SpecValueType::Int => "Int"@,
        SpecValueType::Float => "Float"@,
        SpecValueType::Bool => "Bool"@,
        SpecValueType::String => "String"@,
        SpecValueType::Void => "Void"@,
        SpecValueType::List(inner) => "List("@ + value_type_debug(*inner) + ")"@,
        SpecValueType::Dict(inner) => "Dict("@ + value_type_debug(*inner) + ")"@,
        SpecValueType::Optional(inner) => "Optional("@ + value_type_debug(*inner) + ")"@,
        SpecValueType::Function(params, ret) => "Function(["@ + value_types_debug(params) + "], "@
            + value_type_debug(*ret) + ")"@,
        SpecValueType::Struct(name) => "Struct("@ + debug_string(name) + ")"@,
        SpecValueType::Error { error_name, variant_name } => "Error { error_name: "@
            + debug_string(error_name) + ", variant_name: "@ + match variant_name {
            Some(v) => "Some("@ + debug_string(v) + ")"@,
            None => "None"@,
        } + " }"@,
    }
}

/// The debug renderings of a list of value types, separated by `, `.
pub open spec fn value_types_debug(ts: Seq<SpecValueType>) -> Seq<char>
    decreases ts,
{
    if ts.len() == 0 {
        Seq::empty()
    } else if ts.len() == 1 {
        value_type_debug(ts[0])
    } else {
        value_types_debug(ts.drop_last()) + ", "@ + value_type_debug(ts.last())
    }
}

/// Calls `char::escape_debug` on a character above U+007F. Trusted: the
/// result is the named escape of `c`, which depends on `c` alone; the
/// Unicode tables that decide it are not restated.
#[verifier::external_body]
fn escape_non_ascii(c: char) -> (r: String)
    requires
        c > '\x7f',
    ensures
        r@ == unicode_escape_debug(c),
{
    format!("{}", c.escape_debug())
}

fn hex_digit_char(d: u32) -> (c: char)
    requires
        d < 16,
    ensures
        c == hex_digit(d as nat),
{
    let b: u8 = if d < 10 {
        (d + 48) as u8
    } else {
        (d + 87) as u8
    };
    b as char
}

fn push_hex(out: &mut String, n: u32)
    ensures
        final(out)@ == old(out)@ + hex_digits(n as nat),
    decreases n,
{
    if n >= 16 {
        push_hex(out, n / 16);
    }
    push_char(out, hex_digit_char(n % 16));
    assert(final(out)@ =~= old(out)@ + hex_digits(n as nat));
}

fn push_debug_char(out: &mut String, c: char)
    ensures
        final(out)@ == old(out)@ + debug_char(c),
{
    if c == '\0' {
        push_char(out, '\\');
        push_char(out, '0');
    } else if c == '\t' {
        push_char(out, '\\');
        push_char(out, 't');
    } else if c == '\r' {
        push_char(out, '\\');
        push_char(out, 'r');
    } else if c == '\n' {
        push_char(out, '\\');
        push_char(out, 'n');
    } else if c == '\\' {
        push_char(out, '\\');
        push_char(out, '\\');
    } else if c == '"' {
        push_char(out, '\\');
        push_char(out, '"');
    } else if ' ' <= c && c <= '~' {
        push_char(out, c);
    } else if c <= '\x7f' {
        push_char(out, '\\');
        push_char(out, 'u');
        push_char(out, '{');
        push_hex(out, c as u32);
        push_char(out, '}');
    } else {
        let e = escape_non_ascii(c);
        out.append(e.as_str());
    }
    assert(final(out)@ =~= old(out)@ + debug_char(c));
}

/// Appends a string's debug rendering: quoted and escaped.
pub fn push_debug_string(out: &mut String, s: &str)
    ensures
        final(out)@ == old(out)@ + debug_string(s@),
{
    let cs = chars_of(s);
    push_char(out, '"');
    let ghost start = out@;
    let mut i: usize = 0;
    while i < cs.len()
        invariant
            i <= cs@.len(),
            cs@ == s@,
            out@ == start + debug_chars(cs@.take(i as int)),
        decreases cs@.len() - i,
    {
        proof {
            assert(cs@.take(i + 1).drop_last() =~= cs@.take(i as int));
            assert(cs@.take(i + 1).last() == cs@[i as int]);
        }
        push_debug_char(out, cs[i]);
        proof {
            assert(out@ =~= start + debug_chars(cs@.take(i + 1)));
        }
        i = i + 1;
    }
    proof {
        assert(cs@.take(i as int) =~= s@);
    }
    push_char(out, '"');
    assert(final(out)@ =~= old(out)@ + debug_string(s@));
}

/// Appends the debug rendering of a value type (what `{:?}` writes).
pub fn push_value_type_debug(out: &mut String, ty: &ValueType)
    ensures
        final(out)@ == old(out)@ + value_type_debug(ty@),
    decreases ty,
{
    let ghost before = out@;
    match ty {
        ValueType::Int => out.append("Int"),
        ValueType::Float => out.append("Float"),
        ValueType::Bool => out.append("Bool"),
        ValueType::String => out.append("String"),
        ValueType::Void => out.append("Void"),
        ValueType::List(inner) => {
            out.append("List(");
            push_value_type_debug(out, inner);
            out.append(")");
        },
        ValueType::Dict(inner) => {
            out.append("Dict(");
            push_value_type_debug(out, inner);
            out.append(")");
        },
        ValueType::Optional(inner) => {
            out.append("Optional(");
            push_value_type_debug(out, inner);
            out.append(")");
        },
        ValueType::Function(params, ret) => {
            out.append("Function([");
            push_value_types_debug(out, params);
            out.append("], ");
            push_value_type_debug(out, ret);
            out.append(")");
        },
        ValueType::Struct(name) => {
            out.append("Struct(");
            push_debug_string(out, name.as_str());
            out.append(")");
        },
        ValueType::Error { error_name, variant_name } => {
            out.append("Error { error_name: ");
            push_debug_string(out, error_name.as_str());
            out.append(", variant_name: ");
            match variant_name {
                Some(v) => {
                    out.append("Some(");
                    push_debug_string(out, v.as_str());
                    out.append(")");
                },
                None => out.append("None"),
            }
            out.append(" }");
        },
    }
    assert(out@ =~= before + value_type_debug(ty@));
}

/// Appends the debug renderings of a list of value types, separated by
/// `, `.
pub fn push_value_types_debug(out: &mut String, params: &Vec<ValueType>)
    ensures
        final(out)@ == old(out)@ + value_types_debug(
            crate::aot::types::value_types_view(params@),
        ),
    decreases params,
{
    let ghost mid = out@;
    let mut i: usize = 0;
    proof {
        assert(value_types_debug(crate::aot::types::value_types_view(params@.take(0)))
            =~= Seq::<char>::empty());
    }
    while i < params.len()
        invariant
            i <= params@.len(),
            out@ == mid + value_types_debug(
                crate::aot::types::value_types_view(params@.take(i as int)),
            ),
        decreases params@.len() - i,
    {
        proof {
            crate::aot::types::lemma_value_types_view(params@.take(i + 1));
            crate::aot::types::lemma_value_types_view(params@.take(i as int));
            assert(crate::aot::types::value_types_view(params@.take(i + 1)).drop_last()
                =~= crate::aot::types::value_types_view(params@.take(i as int)));
        }
        if i > 0 {
            out.append(", ");
        }
        push_value_type_debug(out, &params[i]);
        proof {
            let vs = crate::aot::types::value_types_view(params@.take(i + 1));
            assert(vs.last() == params@[i as int]@);
            assert(out@ =~= mid + value_types_debug(vs));
        }
        i = i + 1;
    }
    proof {
        assert(params@.take(i as int) =~= params@);
    }
}

/// The debug rendering of a value type.
pub fn debug_value_type(ty: &ValueType) -> (r: String)
    ensures
        r@ == value_type_debug(ty@),
{
    let mut out = String::new();
    push_value_type_debug(&mut out, ty);
    assert(out@ =~= value_type_debug(ty@));
    out
}

} // verus!
