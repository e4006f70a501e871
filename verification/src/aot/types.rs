//! The value types of the LLVM back end, and how checked types are named,
//! lowered and mangled.
use vstd::prelude::*;

use crate::text::{ascii_alphanumeric, chars_of, is_ascii_alphanumeric, push_char, str_eq};
use crate::typechecker::{
    lemma_types_view, opt_string_view, type_view, types_view, SpecType, StructType, Type,
};

verus! {

/// How a lowered value is represented by the generated code.
#[derive(Debug)]
pub enum ValueType {
    Int,
    Float,
    Bool,
    String,
    List(Box<ValueType>),
    Dict(Box<ValueType>),
    Function(Vec<ValueType>, Box<ValueType>),
    Struct(String),
    Error { error_name: String, variant_name: Option<String> },
    Optional(Box<ValueType>),
    Void,
}

/// The mathematical value of a [`ValueType`].
pub enum SpecValueType {
    Int,
    Float,
    Bool,
    String,
    List(Box<SpecValueType>),
    Dict(Box<SpecValueType>),
    Function(Seq<SpecValueType>, Box<SpecValueType>),
    Struct(Seq<char>),
    Error { error_name: Seq<char>, variant_name: Option<Seq<char>> },
    Optional(Box<SpecValueType>),
    Void,
}

pub open spec fn value_type_view(t: ValueType) -> SpecValueType
    decreases t,
{
    match t {
        ValueType::Int => SpecValueType::Int,
        ValueType::Float => SpecValueType::Float,
        ValueType::Bool => SpecValueType::Bool,
        ValueType::String => SpecValueType::String,
        ValueType::List(inner) => SpecValueType::List(Box::new(value_type_view(*inner))),
        ValueType::Dict(inner) => SpecValueType::Dict(Box::new(value_type_view(*inner))),
        ValueType::Function(params, ret) => SpecValueType::Function(
            value_types_view(params@),
            Box::new(value_type_view(*ret)),
        ),
        ValueType::Struct(name) => SpecValueType::Struct(name@),
        ValueType::Error { error_name, variant_name } => SpecValueType::Error {
            error_name: error_name@,
            variant_name: opt_string_view(variant_name),
        },
        ValueType::Optional(inner) => SpecValueType::Optional(Box::new(value_type_view(*inner))),
        ValueType::Void => SpecValueType::Void,
    }
}

pub open spec fn value_types_view(s: Seq<ValueType>) -> Seq<SpecValueType>
    decreases s,
{
    if s.len() == 0 {
        Seq::empty()
    } else {
        value_types_view(s.drop_last()).push(value_type_view(s.last()))
    }
}

impl View for ValueType {
    type V = SpecValueType;

    open spec fn view(&self) -> SpecValueType {
        value_type_view(*self)
    }
}

pub proof fn lemma_value_types_view(s: Seq<ValueType>)
    ensures
        value_types_view(s).len() == s.len(),
        forall|i: int|
            0 <= i < s.len() ==> #[trigger] value_types_view(s)[i] == value_type_view(s[i]),
    decreases s.len(),
{
    if s.len() > 0 {
        lemma_value_types_view(s.drop_last());
        assert forall|i: int| 0 <= i < s.len() implies #[trigger] value_types_view(s)[i]
            == value_type_view(s[i]) by {
            if i < s.len() - 1 {
                assert(s.drop_last()[i] == s[i]);
            }
        }
    }
}

pub proof fn lemma_value_types_view_ext(a: Seq<ValueType>, b: Seq<ValueType>)
    requires
        a.len() == b.len(),
        forall|i: int| 0 <= i < a.len() ==> value_type_view(#[trigger] a[i]) == value_type_view(b[i]),
    ensures
        value_types_view(a) == value_types_view(b),
{
    lemma_value_types_view(a);
    lemma_value_types_view(b);
    assert(value_types_view(a) =~= value_types_view(b));
}

fn clone_opt_string(s: &Option<String>) -> (r: Option<String>)
    ensures
        opt_string_view(r) == opt_string_view(*s),
{
    match s {
        Some(x) => Some(x.clone()),
        None => None,
    }
}

/// A copy of a value type.
pub fn clone_value_type(t: &ValueType) -> (r: ValueType)
    ensures
        r@ == t@,
    decreases t,
{
    match t {
        ValueType::Int => ValueType::Int,
        ValueType::Float => ValueType::Float,
        ValueType::Bool => ValueType::Bool,
        ValueType::String => ValueType::String,
        ValueType::List(inner) => ValueType::List(Box::new(clone_value_type(inner))),
        ValueType::Dict(inner) => ValueType::Dict(Box::new(clone_value_type(inner))),
        ValueType::Function(params, ret) => {
            let ps = clone_value_types(params);
            let r = clone_value_type(ret);
            ValueType::Function(ps, Box::new(r))
        },
        ValueType::Struct(name) => ValueType::Struct(name.clone()),
        ValueType::Error { error_name, variant_name } => ValueType::Error {
            error_name: error_name.clone(),
            variant_name: clone_opt_string(variant_name),
        },
        ValueType::Optional(inner) => ValueType::Optional(Box::new(clone_value_type(inner))),
        ValueType::Void => ValueType::Void,
    }
}

/// A copy of a list of value types.
pub fn clone_value_types(v: &Vec<ValueType>) -> (r: Vec<ValueType>)
    ensures
        r@.len() == v@.len(),
        value_types_view(r@) == value_types_view(v@),
    decreases v,
{
    let mut r: Vec<ValueType> = Vec::new();
    let mut i: usize = 0;
    while i < v.len()
        invariant
            i <= v@.len(),
            r@.len() == i,
            forall|j: int| 0 <= j < i ==> value_type_view(#[trigger] r@[j]) == value_type_view(v@[j]),
        decreases v@.len() - i,
    {
        let c = clone_value_type(&v[i]);
        r.push(c);
        i = i + 1;
    }
    proof {
        lemma_value_types_view_ext(r@, v@);
    }
    r
}

fn opt_string_eq(a: &Option<String>, b: &Option<String>) -> (r: bool)
    ensures
        r == (opt_string_view(*a) == opt_string_view(*b)),
{
    match (a, b) {
        (Some(x), Some(y)) => *x == *y,
        (None, None) => true,
        _ => false,
    }
}

/// Whether two value types are the same (`==` on `ValueType`).
pub fn value_types_equal(a: &ValueType, b: &ValueType) -> (r: bool)
    ensures
        r == (a@ == b@),
    decreases a,
{
    match (a, b) {
        (ValueType::Int, ValueType::Int) => true,
        (ValueType::Float, ValueType::Float) => true,
        (ValueType::Bool, ValueType::Bool) => true,
        (ValueType::String, ValueType::String) => true,
        (ValueType::List(x), ValueType::List(y)) => value_types_equal(x, y),
        (ValueType::Dict(x), ValueType::Dict(y)) => value_types_equal(x, y),
        (ValueType::Function(px, rx), ValueType::Function(py, ry)) => {
            if !value_type_lists_equal(px, py) {
                return false;
            }
            value_types_equal(rx, ry)
        },
        (ValueType::Struct(x), ValueType::Struct(y)) => *x == *y,
        (
            ValueType::Error { error_name: nx, variant_name: vx },
            ValueType::Error { error_name: ny, variant_name: vy },
        ) => {
            if !(*nx == *ny) {
                return false;
            }
            opt_string_eq(vx, vy)
        },
        (ValueType::Optional(x), ValueType::Optional(y)) => value_types_equal(x, y),
        (ValueType::Void, ValueType::Void) => true,
        _ => false,
    }
}

/// Whether two value-type lists are equal element by element.
pub fn value_type_lists_equal(a: &Vec<ValueType>, b: &Vec<ValueType>) -> (r: bool)
    ensures
        r == (value_types_view(a@) == value_types_view(b@)),
    decreases a,
{
    proof {
        lemma_value_types_view(a@);
        lemma_value_types_view(b@);
    }
    if a.len() != b.len() {
        return false;
    }
    let mut i: usize = 0;
    while i < a.len()
        invariant
            a@.len() == b@.len(),
            i <= a@.len(),
            value_types_view(a@).len() == a@.len(),
            value_types_view(b@).len() == b@.len(),
            forall|j: int|
                0 <= j < a@.len() ==> #[trigger] value_types_view(a@)[j] == value_type_view(a@[j]),
            forall|j: int|
                0 <= j < b@.len() ==> #[trigger] value_types_view(b@)[j] == value_type_view(b@[j]),
            forall|j: int| 0 <= j < i ==> value_type_view(#[trigger] a@[j]) == value_type_view(b@[j]),
        decreases a@.len() - i,
    {
        if !value_types_equal(&a[i], &b[i]) {
            assert(value_types_view(a@)[i as int] != value_types_view(b@)[i as int]);
            return false;
        }
        i = i + 1;
    }
    proof {
        lemma_value_types_view_ext(a@, b@);
    }
    true
}

/// Whether a failed call aborts the current function (`Propagate`) or
/// leaves the error for a surrounding `catch` (`Capture`).
#[derive(Debug, Clone, Copy, PartialEq, Eq, Structural)]
pub enum ErrorHandlingMode {
    Propagate,
    Capture,
}

/// The lowered parameter and return types of a lambda.
#[derive(Debug)]
pub struct LambdaSignature {
    pub param_types: Vec<ValueType>,
    pub return_type: ValueType,
}

/// The printed name of a checked type, as the back end spells it in
/// diagnostics and symbol names.
pub open spec fn printed_type_name(t: SpecType) -> Seq<char>
    decreases t,
{
    match t {
        SpecType::Bool => "Bool"@,
        SpecType::Int => "Int"@,
        SpecType::Float => "Float"@,
        SpecType::String => "String"@,
        SpecType::Nil => "Nil"@,
        SpecType::Void => "Void"@,
        SpecType::List(inner) => "List["@ + printed_type_name(*inner) + "]"@,
        SpecType::Dict(inner) => "Dict[String, "@ + printed_type_name(*inner) + "]"@,
        SpecType::Optional(inner) => printed_type_name(*inner) + "?"@,
        SpecType::Function(params, ret) => "Func("@ + joined_type_names(params, ", "@) + ") -> "@
            + printed_type_name(*ret),
        SpecType::Struct(name, args) => if args.len() == 0 {
            name
        } else {
            name + "["@ + joined_type_names(args, ","@) + "]"@
        },
        SpecType::Enum(name) => name,
        SpecType::Union(name) => name,
        SpecType::Error(name, variant) => match variant {
            Some(v) => name + "."@ + v,
            None => name,
        },
        SpecType::GenericParameter(name) => name,
        SpecType::Unknown => "Unknown"@,
    }
}

/// The names of `ts`, separated by `sep`.
pub open spec fn joined_type_names(ts: Seq<SpecType>, sep: Seq<char>) -> Seq<char>
    decreases ts,
{
    if ts.len() == 0 {
        Seq::empty()
    } else if ts.len() == 1 {
        printed_type_name(ts[0])
    } else {
        joined_type_names(ts.drop_last(), sep) + sep + printed_type_name(ts.last())
    }
}

/// The name of a struct type applied to arguments: `Name` or `Name[A,B]`.
pub open spec fn struct_type_name(name: Seq<char>, args: Seq<SpecType>) -> Seq<char> {
    printed_type_name(SpecType::Struct(name, args))
}

proof fn lemma_joined_step(s: Seq<SpecType>, sep: Seq<char>, i: int)
    requires
        0 <= i < s.len(),
    ensures
        joined_type_names(s.take(i + 1), sep) == joined_type_names(s.take(i), sep) + (if i == 0 {
            Seq::<char>::empty()
        } else {
            sep
        }) + printed_type_name(s[i]),
{
    let t = s.take(i + 1);
    if i == 0 {
        assert(joined_type_names(s.take(0), sep) =~= Seq::<char>::empty());
        assert(t[0] == s[0]);
        assert(joined_type_names(t, sep) =~= joined_type_names(s.take(i), sep) + Seq::<char>::empty()
            + printed_type_name(s[i]));
    } else {
        assert(t.drop_last() =~= s.take(i));
        assert(t.last() == s[i]);
    }
}

fn write_type_name(out: &mut String, ty: &Type)
    ensures
        final(out)@ == old(out)@ + printed_type_name(ty@),
    decreases ty,
{
    match ty {
        Type::Bool => out.append("Bool"),
        Type::Int => out.append("Int"),
        Type::Float => out.append("Float"),
        Type::String => out.append("String"),
        Type::Nil => out.append("Nil"),
        Type::Void => out.append("Void"),
        Type::List(inner) => {
            out.append("List[");
            write_type_name(out, inner);
            out.append("]");
        },
        Type::Dict(inner) => {
            out.append("Dict[String, ");
            write_type_name(out, inner);
            out.append("]");
        },
        Type::Optional(inner) => {
            write_type_name(out, inner);
            out.append("?");
        },
        Type::Function(params, ret) => {
            out.append("Func(");
            write_type_names(out, params, ", ");
            out.append(") -> ");
            write_type_name(out, ret);
        },
        Type::Struct(st) => {
            write_struct_type_name(out, st);
        },
        Type::Enum(e) => out.append(e.name.as_str()),
        Type::Union(u) => out.append(u.name.as_str()),
        Type::Error(e) => {
            out.append(e.name.as_str());
            match &e.variant {
                Some(v) => {
                    out.append(".");
                    out.append(v.as_str());
                },
                None => {},
            }
        },
        Type::GenericParameter(name) => out.append(name.as_str()),
        Type::Unknown => out.append("Unknown"),
    }
    proof {
        assert(final(out)@ =~= old(out)@ + printed_type_name(ty@));
    }
}

fn write_struct_type_name(out: &mut String, st: &StructType)
    ensures
        final(out)@ == old(out)@ + struct_type_name(st.name@, types_view(st.type_arguments@)),
    decreases st,
{
    proof {
        lemma_types_view(st.type_arguments@);
    }
    out.append(st.name.as_str());
    if st.type_arguments.len() > 0 {
        out.append("[");
        write_type_names(out, &st.type_arguments, ",");
        out.append("]");
    }
    proof {
        assert(final(out)@ =~= old(out)@ + struct_type_name(st.name@, types_view(st.type_arguments@)));
    }
}

fn write_type_names(out: &mut String, ts: &Vec<Type>, sep: &str)
    ensures
        final(out)@ == old(out)@ + joined_type_names(types_view(ts@), sep@),
    decreases ts,
{
    let ghost s = types_view(ts@);
    proof {
        lemma_types_view(ts@);
        assert(joined_type_names(s.take(0), sep@) =~= Seq::<char>::empty());
        assert(out@ =~= old(out)@ + joined_type_names(s.take(0), sep@));
    }
    let mut i: usize = 0;
    while i < ts.len()
        invariant
            i <= ts@.len(),
            s == types_view(ts@),
            s.len() == ts@.len(),
            forall|j: int| 0 <= j < ts@.len() ==> #[trigger] s[j] == type_view(ts@[j]),
            out@ == old(out)@ + joined_type_names(s.take(i as int), sep@),
        decreases ts@.len() - i,
    {
        proof {
            lemma_joined_step(s, sep@, i as int);
        }
        let ghost before = out@;
        if i > 0 {
            out.append(sep);
        }
        write_type_name(out, &ts[i]);
        proof {
            assert(out@ =~= old(out)@ + joined_type_names(s.take(i + 1), sep@));
        }
        i = i + 1;
    }
    proof {
        assert(s.take(ts@.len() as int) =~= s);
    }
}

/// The printed name of a type, e.g. `List[Int]`, `Func(Int, Bool) -> String`,
/// `Pair[Int,String]` or `Int?` (see [`printed_type_name`]).
pub fn format_type_name(ty: &Type) -> (r: String)
    ensures
        r@ == printed_type_name(ty@),
{
    let mut out = String::new();
    write_type_name(&mut out, ty);
    proof {
        assert(out@ =~= printed_type_name(ty@));
    }
    out
}

/// The printed name of a struct type: its name, followed by its type
/// arguments in brackets, separated by commas, when there are any.
pub fn format_struct_type_name(struct_type: &StructType) -> (r: String)
    ensures
        r@ == struct_type_name(struct_type.name@, types_view(struct_type.type_arguments@)),
{
    let mut out = String::new();
    write_struct_type_name(&mut out, struct_type);
    proof {
        assert(out@ =~= struct_type_name(
            struct_type.name@,
            types_view(struct_type.type_arguments@),
        ));
    }
    out
}

/// Why a checked type has no representation in the back end.
#[derive(Debug)]
pub enum LoweringError {
    /// An enum type (named).
    UnsupportedEnum(String),
    /// A union type (named).
    UnsupportedUnion(String),
    /// A generic parameter that was not substituted (named).
    GenericParameter(String),
    /// The type checker could not infer the type.
    UnknownType,
}

pub enum SpecLoweringError {
    UnsupportedEnum(Seq<char>),
    UnsupportedUnion(Seq<char>),
    GenericParameter(Seq<char>),
    UnknownType,
}

impl View for LoweringError {
    type V = SpecLoweringError;

    open spec fn view(&self) -> SpecLoweringError {
        match self {
            LoweringError::UnsupportedEnum(n) => SpecLoweringError::UnsupportedEnum(n@),
            LoweringError::UnsupportedUnion(n) => SpecLoweringError::UnsupportedUnion(n@),
            LoweringError::GenericParameter(n) => SpecLoweringError::GenericParameter(n@),
            LoweringError::UnknownType => SpecLoweringError::UnknownType,
        }
    }
}

pub open spec fn lowering_error_message(e: SpecLoweringError) -> Seq<char> {
    match e {
        SpecLoweringError::UnsupportedEnum(n) => "LLVM backend does not yet support enums like '"@
            + n + "'"@,
        SpecLoweringError::UnsupportedUnion(n) => "LLVM backend does not yet support union '"@ + n
            + "'"@,
        SpecLoweringError::GenericParameter(n) => "cannot lower generic parameter '"@ + n
            + "' in LLVM backend"@,
        SpecLoweringError::UnknownType => "cannot lower Unknown type in LLVM backend"@,
    }
}

impl LoweringError {
    /// The diagnostic text of the error.
    pub fn message(&self) -> (r: String)
        ensures
            r@ == lowering_error_message(self@),
    {
        let mut out = String::new();
        match self {
            LoweringError::UnsupportedEnum(n) => {
                out.append("LLVM backend does not yet support enums like '");
                out.append(n.as_str());
                out.append("'");
            },
            LoweringError::UnsupportedUnion(n) => {
                out.append("LLVM backend does not yet support union '");
                out.append(n.as_str());
                out.append("'");
            },
            LoweringError::GenericParameter(n) => {
                out.append("cannot lower generic parameter '");
                out.append(n.as_str());
                out.append("' in LLVM backend");
            },
            LoweringError::UnknownType => {
                out.append("cannot lower Unknown type in LLVM backend");
            },
        }
        proof {
            assert(out@ =~= lowering_error_message(self@));
        }
        out
    }
}

/// How a checked type is represented: `Nil` becomes `Void`, a struct type
/// becomes its printed name, enums, unions, generic parameters and unknown
/// types have no representation. The first failing component decides.
pub open spec fn lower_type(t: SpecType) -> Result<SpecValueType, SpecLoweringError>
    decreases t,
{
    match t {
        SpecType::Bool => Ok(SpecValueType::Bool),
        SpecType::Int => Ok(SpecValueType::Int),
        SpecType::Float => Ok(SpecValueType::Float),
        SpecType::String => Ok(SpecValueType::String),
        SpecType::Nil => Ok(SpecValueType::Void),
        SpecType::Void => Ok(SpecValueType::Void),
        SpecType::List(inner) => match lower_type(*inner) {
            Ok(v) => Ok(SpecValueType::List(Box::new(v))),
            Err(e) => Err(e),
        },
        SpecType::Function(params, ret) => match lower_types(params) {
            Ok(ps) => match lower_type(*ret) {
                Ok(r) => Ok(SpecValueType::Function(ps, Box::new(r))),
                Err(e) => Err(e),
            },
            Err(e) => Err(e),
        },
        SpecType::Struct(name, args) => Ok(
            SpecValueType::Struct(printed_type_name(SpecType::Struct(name, args))),
        ),
        SpecType::Enum(name) => Err(SpecLoweringError::UnsupportedEnum(name)),
        SpecType::Union(name) => Err(SpecLoweringError::UnsupportedUnion(name)),
        SpecType::GenericParameter(name) => Err(SpecLoweringError::GenericParameter(name)),
        SpecType::Dict(inner) => match lower_type(*inner) {
            Ok(v) => Ok(SpecValueType::Dict(Box::new(v))),
            Err(e) => Err(e),
        },
        SpecType::Optional(inner) => match lower_type(*inner) {
            Ok(v) => Ok(SpecValueType::Optional(Box::new(v))),
            Err(e) => Err(e),
        },
        SpecType::Error(name, variant) => Ok(
            SpecValueType::Error { error_name: name, variant_name: variant },
        ),
        SpecType::Unknown => Err(SpecLoweringError::UnknownType),
    }
}

/// Lowers each type in order; the first failure is the result.
pub open spec fn lower_types(ts: Seq<SpecType>) -> Result<Seq<SpecValueType>, SpecLoweringError>
    decreases ts,
{
    if ts.len() == 0 {
        Ok(Seq::empty())
    } else {
        match lower_types(ts.drop_last()) {
            Ok(vs) => match lower_type(ts.last()) {
                Ok(v) => Ok(vs.push(v)),
                Err(e) => Err(e),
            },
            Err(e) => Err(e),
        }
    }
}

/// The exec result of lowering, compared with [`lower_type`].
pub open spec fn lowered_as(r: Result<ValueType, LoweringError>, t: SpecType) -> bool {
    match r {
        Ok(v) => lower_type(t) == Ok::<SpecValueType, SpecLoweringError>(v@),
        Err(e) => lower_type(t) == Err::<SpecValueType, SpecLoweringError>(e@),
    }
}

/// The exec result of lowering a list, compared with [`lower_types`].
pub open spec fn lowered_list_as(r: Result<Vec<ValueType>, LoweringError>, ts: Seq<SpecType>) -> bool {
    match r {
        Ok(v) => lower_types(ts) == Ok::<Seq<SpecValueType>, SpecLoweringError>(value_types_view(v@)),
        Err(e) => lower_types(ts) == Err::<Seq<SpecValueType>, SpecLoweringError>(e@),
    }
}

/// Lowers a checked type to the representation the back end uses
/// (see [`lower_type`]).
pub fn type_to_value_type(ty: &Type) -> (r: Result<ValueType, LoweringError>)
    ensures
        lowered_as(r, ty@),
    decreases ty,
{
    match ty {
        Type::Bool => Ok(ValueType::Bool),
        Type::Int => Ok(ValueType::Int),
        Type::Float => Ok(ValueType::Float),
        Type::String => Ok(ValueType::String),
        Type::Nil => Ok(ValueType::Void),
        Type::Void => Ok(ValueType::Void),
        Type::List(inner) => match type_to_value_type(inner) {
            Ok(v) => Ok(ValueType::List(Box::new(v))),
            Err(e) => Err(e),
        },
        Type::Function(params, return_type) => {
            let lowered_params = match type_list_to_value_types(params) {
                Ok(ps) => ps,
                Err(e) => return Err(e),
            };
            match type_to_value_type(return_type) {
                Ok(r) => Ok(ValueType::Function(lowered_params, Box::new(r))),
                Err(e) => Err(e),
            }
        },
        Type::Struct(struct_type) => Ok(ValueType::Struct(format_struct_type_name(struct_type))),
        Type::Enum(enum_type) => Err(LoweringError::UnsupportedEnum(enum_type.name.clone())),
        Type::Union(union_type) => Err(LoweringError::UnsupportedUnion(union_type.name.clone())),
        Type::GenericParameter(name) => Err(LoweringError::GenericParameter(name.clone())),
        Type::Dict(inner) => match type_to_value_type(inner) {
            Ok(v) => Ok(ValueType::Dict(Box::new(v))),
            Err(e) => Err(e),
        },
        Type::Optional(inner) => match type_to_value_type(inner) {
            Ok(v) => Ok(ValueType::Optional(Box::new(v))),
            Err(e) => Err(e),
        },
        Type::Error(error_type) => Ok(
            ValueType::Error {
                error_name: error_type.name.clone(),
                variant_name: clone_opt_string(&error_type.variant),
            },
        ),
        Type::Unknown => Err(LoweringError::UnknownType),
    }
}

/// Lowers each type of a list in order, stopping at the first failure.
pub fn type_list_to_value_types(ts: &Vec<Type>) -> (r: Result<Vec<ValueType>, LoweringError>)
    ensures
        lowered_list_as(r, types_view(ts@)),
    decreases ts,
{
    let ghost s = types_view(ts@);
    proof {
        lemma_types_view(ts@);
        assert(s.take(0) =~= Seq::<SpecType>::empty());
        assert(value_types_view(Seq::<ValueType>::empty()) =~= Seq::<SpecValueType>::empty());
    }
    let mut out: Vec<ValueType> = Vec::new();
    let mut i: usize = 0;
    while i < ts.len()
        invariant
            i <= ts@.len(),
            s == types_view(ts@),
            s.len() == ts@.len(),
            forall|j: int| 0 <= j < ts@.len() ==> #[trigger] s[j] == type_view(ts@[j]),
            lower_types(s.take(i as int)) == Ok::<Seq<SpecValueType>, SpecLoweringError>(
                value_types_view(out@),
            ),
        decreases ts@.len() - i,
    {
        let ghost prefix = s.take(i + 1);
        proof {
            assert(prefix.drop_last() =~= s.take(i as int));
            assert(prefix.last() == s[i as int]);
        }
        match type_to_value_type(&ts[i]) {
            Ok(v) => {
                let ghost before = out@;
                out.push(v);
                proof {
                    assert(out@.drop_last() =~= before);
                    assert(value_types_view(out@) == value_types_view(before).push(value_type_view(v)));
                }
            },
            Err(e) => {
                proof {
                    lemma_lower_types_prefix_err(s, i as int + 1);
                }
                return Err(e);
            },
        }
        i = i + 1;
    }
    proof {
        assert(s.take(ts@.len() as int) =~= s);
    }
    Ok(out)
}

/// Once a prefix fails to lower, the whole list fails with the same error.
proof fn lemma_lower_types_prefix_err(s: Seq<SpecType>, k: int)
    requires
        0 <= k <= s.len(),
        lower_types(s.take(k)) is Err,
    ensures
        lower_types(s) == lower_types(s.take(k)),
    decreases s.len() - k,
{
    if k < s.len() {
        let t = s.take(k + 1);
        assert(t.drop_last() =~= s.take(k));
        lemma_lower_types_prefix_err(s, k + 1);
    } else {
        assert(s.take(k) =~= s);
    }
}

/// A character as it may appear in a symbol: ASCII letters, digits and `_`
/// stay, everything else becomes `_`.
pub open spec fn sanitize_char(c: char) -> char {
    if is_ascii_alphanumeric(c) || c == '_' {
        c
    } else {
        '_'
    }
}

/// Each character of `s` made symbol-safe.
pub open spec fn sanitized(s: Seq<char>) -> Seq<char> {
    Seq::new(s.len(), |i: int| sanitize_char(s[i]))
}

/// Makes a name usable inside a symbol: every character that is not an
/// ASCII letter, digit or `_` becomes `_`.
pub fn sanitize_symbol_component(component: &str) -> (r: String)
    ensures
        r@ == sanitized(component@),
{
    let cs = chars_of(component);
    let mut out = String::new();
    let mut i: usize = 0;
    while i < cs.len()
        invariant
            cs@ == component@,
            i <= cs@.len(),
            out@ == sanitized(cs@).take(i as int),
        decreases cs@.len() - i,
    {
        let c = cs[i];
        let keep = ascii_alphanumeric(c) || c == '_';
        if keep {
            push_char(&mut out, c);
        } else {
            push_char(&mut out, '_');
        }
        i = i + 1;
        assert(out@ =~= sanitized(cs@).take(i as int));
    }
    assert(sanitized(cs@).take(cs@.len() as int) =~= sanitized(cs@));
    out
}

/// Sanitising is idempotent: a sanitised name is left as it is.
pub proof fn lemma_sanitize_idempotent(s: Seq<char>)
    ensures
        sanitized(sanitized(s)) == sanitized(s),
{
    assert(sanitized(sanitized(s)) =~= sanitized(s));
}

/// A sanitised name has the length of the given name and only ASCII letters,
/// digits and `_`.
pub proof fn lemma_sanitized_is_symbol(s: Seq<char>)
    ensures
        sanitized(s).len() == s.len(),
        forall|i: int|
            0 <= i < s.len() ==> is_ascii_alphanumeric(#[trigger] sanitized(s)[i]) || sanitized(
                s,
            )[i] == '_',
{
}

/// The parts joined by `sep`.
pub open spec fn seq_join(parts: Seq<Seq<char>>, sep: Seq<char>) -> Seq<char>
    decreases parts.len(),
{
    if parts.len() == 0 {
        Seq::empty()
    } else if parts.len() == 1 {
        parts[0]
    } else {
        seq_join(parts.drop_last(), sep) + sep + parts.last()
    }
}

/// The symbol name of a generic function instantiated with `args`: the
/// name alone without arguments, else `name$g` followed by the sanitised
/// argument names separated by `$`.
pub open spec fn mangled_name(name: Seq<char>, args: Seq<SpecType>) -> Seq<char> {
    if args.len() == 0 {
        name
    } else {
        name + "$g"@ + seq_join(
            Seq::new(args.len(), |i: int| sanitized(printed_type_name(args[i]))),
            "$"@,
        )
    }
}

/// The symbol name of a function instance (see [`mangled_name`]).
pub fn mangle_function_name(name: &str, type_arguments: &[Type]) -> (r: String)
    ensures
        r@ == mangled_name(name@, types_view(type_arguments@)),
{
    let ghost args = types_view(type_arguments@);
    proof {
        lemma_types_view(type_arguments@);
    }
    let mut out = String::new();
    out.append(name);
    if type_arguments.len() == 0 {
        assert(out@ =~= name@);
        return out;
    }
    out.append("$g");
    let ghost parts = Seq::new(args.len(), |i: int| sanitized(printed_type_name(args[i])));
    let ghost head = out@;
    proof {
        assert(seq_join(parts.take(0), "$"@) =~= Seq::<char>::empty());
        assert(out@ =~= head + seq_join(parts.take(0), "$"@));
    }
    let mut i: usize = 0;
    while i < type_arguments.len()
        invariant
            i <= type_arguments@.len(),
            args == types_view(type_arguments@),
            args.len() == type_arguments@.len(),
            forall|j: int|
                0 <= j < type_arguments@.len() ==> #[trigger] args[j] == type_view(
                    type_arguments@[j],
                ),
            parts == Seq::new(args.len(), |i: int| sanitized(printed_type_name(args[i]))),
            out@ == head + seq_join(parts.take(i as int), "$"@),
        decreases type_arguments@.len() - i,
    {
        let printed = format_type_name(&type_arguments[i]);
        let component = sanitize_symbol_component(printed.as_str());
        if i > 0 {
            out.append("$");
        }
        out.append(component.as_str());
        proof {
            let t = parts.take(i + 1);
            if i == 0 {
                assert(t.len() == 1);
                assert(seq_join(t, "$"@) == t[0]);
            } else {
                assert(t.drop_last() =~= parts.take(i as int));
            }
            assert(out@ =~= head + seq_join(parts.take(i + 1), "$"@));
        }
        i = i + 1;
    }
    proof {
        assert(parts.take(args.len() as int) =~= parts);
    }
    out
}

/// An LLVM value (instruction result, global or function) of the module
/// being emitted, by the number the emitter gave it.
pub type IrRef = u64;

/// The lowered fields of a struct, and the LLVM globals that describe it.
#[derive(Debug)]
pub struct StructLowering {
    pub field_names: Vec<String>,
    pub field_types: Vec<ValueType>,
    pub template_global: Option<IrRef>,
    pub field_names_global: Option<IrRef>,
    pub template_pointer: Option<IrRef>,
}

/// The position of the first field called `name`.
pub fn position_of(names: &Vec<String>, name: &str) -> (r: Option<usize>)
    ensures
        match r {
            Some(i) => i < names@.len() && names@[i as int]@ == name@ && forall|j: int|
                0 <= j < i ==> names@[j]@ != name@,
            None => forall|j: int| 0 <= j < names@.len() ==> names@[j]@ != name@,
        },
{
    let mut i: usize = 0;
    while i < names.len()
        invariant
            i <= names@.len(),
            forall|j: int| 0 <= j < i ==> names@[j]@ != name@,
        decreases names@.len() - i,
    {
        if str_eq(names[i].as_str(), name) {
            return Some(i);
        }
        i = i + 1;
    }
    None
}

impl StructLowering {
    /// A struct with no fields known yet and no globals emitted.
    pub fn new() -> (s: Self)
        ensures
            s.field_names@.len() == 0,
            s.field_types@.len() == 0,
            s.template_global is None,
            s.field_names_global is None,
            s.template_pointer is None,
    {
        StructLowering {
            field_names: Vec::new(),
            field_types: Vec::new(),
            template_global: None,
            field_names_global: None,
            template_pointer: None,
        }
    }

    /// The index of the first field called `name`.
    pub fn field_index(&self, name: &str) -> (r: Option<usize>)
        ensures
            match r {
                Some(i) => i < self.field_names@.len() && self.field_names@[i as int]@ == name@
                    && forall|j: int| 0 <= j < i ==> self.field_names@[j]@ != name@,
                None => forall|j: int|
                    0 <= j < self.field_names@.len() ==> self.field_names@[j]@ != name@,
            },
    {
        position_of(&self.field_names, name)
    }
}

impl Default for StructLowering {
    fn default() -> (s: Self)
        ensures
            s.field_names@.len() == 0,
            s.field_types@.len() == 0,
            s.template_global is None,
            s.field_names_global is None,
            s.template_pointer is None,
    {
        Self::new()
    }
}

/// The lowered fields of one error variant, and its LLVM globals.
#[derive(Debug)]
pub struct ErrorVariantLowering {
    pub field_names: Vec<String>,
    pub field_types: Vec<ValueType>,
    pub template_global: Option<IrRef>,
    pub field_names_global: Option<IrRef>,
    pub template_pointer: Option<IrRef>,
}

impl ErrorVariantLowering {
    /// A variant with no fields known yet and no globals emitted.
    pub fn new() -> (s: Self)
        ensures
            s.field_names@.len() == 0,
            s.field_types@.len() == 0,
            s.template_global is None,
            s.field_names_global is None,
            s.template_pointer is None,
    {
        ErrorVariantLowering {
            field_names: Vec::new(),
            field_types: Vec::new(),
            template_global: None,
            field_names_global: None,
            template_pointer: None,
        }
    }
}

impl Default for ErrorVariantLowering {
    fn default() -> (s: Self)
        ensures
            s.field_names@.len() == 0,
            s.field_types@.len() == 0,
            s.template_global is None,
            s.field_names_global is None,
            s.template_pointer is None,
    {
        Self::new()
    }
}

/// A top-level binding: its LLVM global, type and mutability.
#[derive(Debug)]
pub struct GlobalBindingSlot {
    pub pointer: IrRef,
    pub ty: ValueType,
    pub mutable: bool,
    pub initialized: bool,
}

/// A local variable: a stack slot for a mutable variable, or the SSA value
/// of an immutable parameter.
#[derive(Debug)]
pub struct LocalVariable {
    pub pointer: Option<IrRef>,
    pub value: Option<IrRef>,
    pub ty: ValueType,
    pub mutable: bool,
}

/// A declared function: its LLVM function and lowered signature.
#[derive(Debug)]
pub struct FunctionSignature {
    pub value: IrRef,
    pub return_type: ValueType,
    pub param_types: Vec<ValueType>,
    pub can_throw: bool,
}

/// A compiled expression: the LLVM value that holds it and its type.
#[derive(Debug)]
pub enum ExprValue {
    Int(IrRef),
    Float(IrRef),
    Bool(IrRef),
    String(IrRef),
    List { pointer: IrRef, element_type: Box<ValueType> },
    Dict { pointer: IrRef, value_type: Box<ValueType> },
    Struct { pointer: IrRef, struct_name: String },
    Error { pointer: IrRef, error_name: String, variant_name: Option<String> },
    Closure { pointer: IrRef, param_types: Vec<ValueType>, return_type: Box<ValueType> },
    Optional { value: IrRef, inner: Box<ValueType> },
    Void,
}

/// The type of a compiled expression.
pub open spec fn expr_value_type(e: ExprValue) -> SpecValueType {
    match e {
        ExprValue::Int(_) => SpecValueType::Int,
        ExprValue::Float(_) => SpecValueType::Float,
        ExprValue::Bool(_) => SpecValueType::Bool,
        ExprValue::String(_) => SpecValueType::String,
        ExprValue::List { element_type, .. } => SpecValueType::List(
            Box::new(value_type_view(*element_type)),
        ),
        ExprValue::Dict { value_type, .. } => SpecValueType::Dict(
            Box::new(value_type_view(*value_type)),
        ),
        ExprValue::Struct { struct_name, .. } => SpecValueType::Struct(struct_name@),
        ExprValue::Error { error_name, variant_name, .. } => SpecValueType::Error {
            error_name: error_name@,
            variant_name: opt_string_view(variant_name),
        },
        ExprValue::Closure { param_types, return_type, .. } => SpecValueType::Function(
            value_types_view(param_types@),
            Box::new(value_type_view(*return_type)),
        ),
        ExprValue::Optional { inner, .. } => SpecValueType::Optional(
            Box::new(value_type_view(*inner)),
        ),
        ExprValue::Void => SpecValueType::Void,
    }
}

/// The LLVM value that holds a compiled expression (none for `Void`).
pub open spec fn expr_value_ref(e: ExprValue) -> Option<IrRef> {
    match e {
        ExprValue::Int(v) => Some(v),
        ExprValue::Float(v) => Some(v),
        ExprValue::Bool(v) => Some(v),
        ExprValue::String(v) => Some(v),
        ExprValue::List { pointer, .. } => Some(pointer),
        ExprValue::Dict { pointer, .. } => Some(pointer),
        ExprValue::Struct { pointer, .. } => Some(pointer),
        ExprValue::Error { pointer, .. } => Some(pointer),
        ExprValue::Closure { pointer, .. } => Some(pointer),
        ExprValue::Optional { value, .. } => Some(value),
        ExprValue::Void => None,
    }
}

impl ExprValue {
    /// The value type of the expression.
    pub fn ty(&self) -> (r: ValueType)
        ensures
            r@ == expr_value_type(*self),
    {
        match self {
            ExprValue::Int(_) => ValueType::Int,
            ExprValue::Float(_) => ValueType::Float,
            ExprValue::Bool(_) => ValueType::Bool,
            ExprValue::String(_) => ValueType::String,
            ExprValue::List { element_type, .. } => ValueType::List(
                Box::new(clone_value_type(element_type)),
            ),
            ExprValue::Dict { value_type, .. } => ValueType::Dict(
                Box::new(clone_value_type(value_type)),
            ),
            ExprValue::Struct { struct_name, .. } => ValueType::Struct(struct_name.clone()),
            ExprValue::Error { error_name, variant_name, .. } => ValueType::Error {
                error_name: error_name.clone(),
                variant_name: clone_opt_string(variant_name),
            },
            ExprValue::Closure { param_types, return_type, .. } => ValueType::Function(
                clone_value_types(param_types),
                Box::new(clone_value_type(return_type)),
            ),
            ExprValue::Optional { inner, .. } => ValueType::Optional(
                Box::new(clone_value_type(inner)),
            ),
            ExprValue::Void => ValueType::Void,
        }
    }

    /// The LLVM value of the expression, if it has one.
    pub fn into_basic_value(self) -> (r: Option<IrRef>)
        ensures
            r == expr_value_ref(self),
    {
        match self {
            ExprValue::Int(v) => Some(v),
            ExprValue::Float(v) => Some(v),
            ExprValue::Bool(v) => Some(v),
            ExprValue::String(ptr) => Some(ptr),
            ExprValue::List { pointer, .. } => Some(pointer),
            ExprValue::Dict { pointer, .. } => Some(pointer),
            ExprValue::Struct { pointer, .. } => Some(pointer),
            ExprValue::Error { pointer, .. } => Some(pointer),
            ExprValue::Closure { pointer, .. } => Some(pointer),
            ExprValue::Optional { value, .. } => Some(value),
            ExprValue::Void => None,
        }
    }

    /// The integer value; any other kind of value is refused.
    pub fn into_int(self) -> (r: Result<IrRef, String>)
        ensures
            match self {
                ExprValue::Int(v) => r == Ok::<IrRef, String>(v),
                _ => r matches Err(m) && m@ == "expected Int value"@,
            },
    {
        match self {
            ExprValue::Int(v) => Ok(v),
            _ => Err(crate::text::owned("expected Int value")),
        }
    }

    /// The boolean value; any other kind of value is refused.
    pub fn into_bool(self) -> (r: Result<IrRef, String>)
        ensures
            match self {
                ExprValue::Bool(v) => r == Ok::<IrRef, String>(v),
                _ => r matches Err(m) && m@ == "expected Bool value"@,
            },
    {
        match self {
            ExprValue::Bool(v) => Ok(v),
            _ => Err(crate::text::owned("expected Bool value")),
        }
    }

    /// The string pointer; any other kind of value is refused.
    pub fn into_string(self) -> (r: Result<IrRef, String>)
        ensures
            match self {
                ExprValue::String(p) => r == Ok::<IrRef, String>(p),
                _ => r matches Err(m) && m@ == "expected String value"@,
            },
    {
        match self {
            ExprValue::String(ptr) => Ok(ptr),
            _ => Err(crate::text::owned("expected String value")),
        }
    }
}

/// The value of type `ty` held in LLVM value `value`; a `Void` value holds
/// nothing.
pub fn basic_value_to_expr_value(value: IrRef, ty: &ValueType) -> (r: ExprValue)
    ensures
        expr_value_type(r) == ty@,
        expr_value_ref(r) == (if ty@ is Void { None } else { Some(value) }),
{
    match ty {
        ValueType::Int => ExprValue::Int(value),
        ValueType::Float => ExprValue::Float(value),
        ValueType::Bool => ExprValue::Bool(value),
        ValueType::String => ExprValue::String(value),
        ValueType::List(inner) => ExprValue::List { pointer: value, element_type: Box::new(clone_value_type(inner)) },
        ValueType::Dict(inner) => ExprValue::Dict { pointer: value, value_type: Box::new(clone_value_type(inner)) },
        ValueType::Struct(name) => ExprValue::Struct { pointer: value, struct_name: name.clone() },
        ValueType::Error { error_name, variant_name } => ExprValue::Error {
            pointer: value,
            error_name: error_name.clone(),
            variant_name: clone_opt_string(variant_name),
        },
        ValueType::Function(params, ret) => ExprValue::Closure {
            pointer: value,
            param_types: clone_value_types(params),
            return_type: Box::new(clone_value_type(ret)),
        },
        ValueType::Optional(inner) => ExprValue::Optional { value, inner: Box::new(clone_value_type(inner)) },
        ValueType::Void => ExprValue::Void,
    }
}

/// The value of type `ty` held in LLVM value `value` (see
/// [`basic_value_to_expr_value`]); `Void` is refused, with `message`.
fn value_of_type(value: IrRef, ty: &ValueType, message: &str) -> (r: Result<ExprValue, String>)
    ensures
        ty@ is Void ==> (r matches Err(e) && e@ == message@),
        !(ty@ is Void) ==> (r matches Ok(v) && expr_value_type(v) == ty@ && expr_value_ref(v) == Some(
            value,
        )),
{
    if let ValueType::Void = ty {
        return Err(crate::text::owned(message));
    }
    Ok(basic_value_to_expr_value(value, ty))
}

/// The value of type `ty` that a call or a fold produced in `value` (see
/// [`basic_value_to_expr_value`]); `Void` is refused.
pub fn basic_to_expr_value(value: IrRef, ty: &ValueType) -> (r: Result<ExprValue, String>)
    ensures
        ty@ is Void ==> (r matches Err(e) && e@ == "cannot convert void to ExprValue"@),
        !(ty@ is Void) ==> (r matches Ok(v) && expr_value_type(v) == ty@ && expr_value_ref(v) == Some(
            value,
        )),
{
    value_of_type(value, ty, "cannot convert void to ExprValue")
}

/// The value of type `ty` loaded from a stack slot or global into `value`
/// (see [`basic_value_to_expr_value`]); `Void` cannot be loaded.
pub fn loaded_value(value: IrRef, ty: &ValueType) -> (r: Result<ExprValue, String>)
    ensures
        ty@ is Void ==> (r matches Err(e) && e@ == "void value cannot be loaded"@),
        !(ty@ is Void) ==> (r matches Ok(v) && expr_value_type(v) == ty@ && expr_value_ref(v) == Some(
            value,
        )),
{
    value_of_type(value, ty, "void value cannot be loaded")
}

/// Exactly the values of type `Void` hold no LLVM value; so rebuilding a
/// value from its type and its LLVM value (see
/// [`basic_value_to_expr_value`]) gives back both.
pub proof fn lemma_only_void_holds_nothing(e: ExprValue)
    ensures
        expr_value_type(e) is Void <==> expr_value_ref(e) is None,
{
}

/// An error type with a variant prints as the error's name, a dot and the
/// variant; one without a variant prints as its name.
pub proof fn lemma_error_type_name(name: Seq<char>, variant: Option<Seq<char>>)
    ensures
        variant matches Some(v) ==> printed_type_name(SpecType::Error(name, variant)) == name + "."@ + v,
        variant is None ==> printed_type_name(SpecType::Error(name, variant)) == name,
{
}

/// Two variants of one error type print (and so mangle) apart.
pub proof fn lemma_error_variants_print_apart(name: Seq<char>, v1: Seq<char>, v2: Seq<char>)
    requires
        v1 != v2,
    ensures
        printed_type_name(SpecType::Error(name, Some(v1))) != printed_type_name(SpecType::Error(name, Some(v2))),
{
    lemma_error_type_name(name, Some(v1));
    lemma_error_type_name(name, Some(v2));
    let p = name + "."@;
    assert((p + v1).skip(p.len() as int) =~= v1);
    assert((p + v2).skip(p.len() as int) =~= v2);
}

/// Lowering keeps an error type's name and its variant (or its lack of
/// one).
pub proof fn lemma_lowering_keeps_error_variant(name: Seq<char>, variant: Option<Seq<char>>)
    ensures
        lower_type(SpecType::Error(name, variant)) matches Ok(SpecValueType::Error { error_name: n, variant_name: v })
            && n == name && v == variant,
{
}

/// Two error types that differ (in name or variant) lower to different
/// value types.
pub proof fn lemma_lowering_error_types_injective(
    n1: Seq<char>,
    v1: Option<Seq<char>>,
    n2: Seq<char>,
    v2: Option<Seq<char>>,
)
    requires
        n1 != n2 || v1 != v2,
    ensures
        lower_type(SpecType::Error(n1, v1)) != lower_type(SpecType::Error(n2, v2)),
{
    lemma_lowering_keeps_error_variant(n1, v1);
    lemma_lowering_keeps_error_variant(n2, v2);
}

} // verus!
