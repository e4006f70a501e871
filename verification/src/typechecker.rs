//! The checked types of Tea programs, as the type checker reports them to
//! the back end, with their mathematical model.
use vstd::prelude::*;

verus! {

/// A struct type applied to type arguments (`Pair[Int, String]`).
#[derive(Debug)]
pub struct StructType {
    pub name: String,
    pub type_arguments: Vec<Type>,
}

#[derive(Debug)]
pub struct EnumType {
    pub name: String,
}

#[derive(Debug)]
pub struct UnionType {
    pub name: String,
}

/// An error type, or one variant of it.
#[derive(Debug)]
pub struct ErrorType {
    pub name: String,
    pub variant: Option<String>,
}

#[derive(Debug)]
pub enum Type {
    Bool,
    Int,
    Float,
    String,
    Nil,
    Void,
    List(Box<Type>),
    Dict(Box<Type>),
    Optional(Box<Type>),
    Function(Vec<Type>, Box<Type>),
    Struct(StructType),
    Enum(EnumType),
    Union(UnionType),
    Error(ErrorType),
    GenericParameter(String),
    Unknown,
}

/// The mathematical value of a [`Type`]: names are character sequences.
pub enum SpecType {
    Bool,
    Int,
    Float,
    String,
    Nil,
    Void,
    List(Box<SpecType>),
    Dict(Box<SpecType>),
    Optional(Box<SpecType>),
    Function(Seq<SpecType>, Box<SpecType>),
    Struct(Seq<char>, Seq<SpecType>),
    Enum(Seq<char>),
    Union(Seq<char>),
    Error(Seq<char>, Option<Seq<char>>),
    GenericParameter(Seq<char>),
    Unknown,
}

pub open spec fn opt_string_view(s: Option<String>) -> Option<Seq<char>> {
    match s {
        Some(x) => Some(x@),
        None => None,
    }
}

pub open spec fn type_view(t: Type) -> SpecType
    decreases t,
{
    match t {
        Type::Bool => SpecType::Bool,
        Type::Int => SpecType::Int,
        Type::Float => SpecType::Float,
        Type::String => SpecType::String,
        Type::Nil => SpecType::Nil,
        Type::Void => SpecType::Void,
        Type::List(inner) => SpecType::List(Box::new(type_view(*inner))),
        Type::Dict(inner) => SpecType::Dict(Box::new(type_view(*inner))),
        Type::Optional(inner) => SpecType::Optional(Box::new(type_view(*inner))),
        Type::Function(params, ret) => SpecType::Function(
            types_view(params@),
            Box::new(type_view(*ret)),
        ),
        Type::Struct(st) => SpecType::Struct(st.name@, types_view(st.type_arguments@)),
        Type::Enum(e) => SpecType::Enum(e.name@),
        Type::Union(u) => SpecType::Union(u.name@),
        Type::Error(e) => SpecType::Error(e.name@, opt_string_view(e.variant)),
        Type::GenericParameter(name) => SpecType::GenericParameter(name@),
        Type::Unknown => SpecType::Unknown,
    }
}

pub open spec fn types_view(s: Seq<Type>) -> Seq<SpecType>
    decreases s,
{
    if s.len() == 0 {
        Seq::empty()
    } else {
        types_view(s.drop_last()).push(type_view(s.last()))
    }
}

impl View for Type {
    type V = SpecType;

    open spec fn view(&self) -> SpecType {
        type_view(*self)
    }
}

pub proof fn lemma_types_view(s: Seq<Type>)
    ensures
        types_view(s).len() == s.len(),
        forall|i: int| 0 <= i < s.len() ==> #[trigger] types_view(s)[i] == type_view(s[i]),
    decreases s.len(),
{
    if s.len() > 0 {
        lemma_types_view(s.drop_last());
        assert forall|i: int| 0 <= i < s.len() implies #[trigger] types_view(s)[i] == type_view(
            s[i],
        ) by {
            if i < s.len() - 1 {
                assert(s.drop_last()[i] == s[i]);
            }
        }
    }
}

/// Two type lists with the same element views have the same view.
pub proof fn lemma_types_view_ext(a: Seq<Type>, b: Seq<Type>)
    requires
        a.len() == b.len(),
        forall|i: int| 0 <= i < a.len() ==> type_view(#[trigger] a[i]) == type_view(b[i]),
    ensures
        types_view(a) == types_view(b),
{
    lemma_types_view(a);
    lemma_types_view(b);
    assert(types_view(a) =~= types_view(b));
}

fn clone_opt_string(s: &Option<String>) -> (r: Option<String>)
    ensures
        opt_string_view(r) == opt_string_view(*s),
{
    match s {
        Some(x) => Some(x.clone()),
        None => None,
    }
}

/// A copy of a type.
pub fn clone_type(t: &Type) -> (r: Type)
    ensures
        r@ == t@,
    decreases t,
{
    match t {
        Type::Bool => Type::Bool,
        Type::Int => Type::Int,
        Type::Float => Type::Float,
        Type::String => Type::String,
        Type::Nil => Type::Nil,
        Type::Void => Type::Void,
        Type::List(inner) => Type::List(Box::new(clone_type(inner))),
        Type::Dict(inner) => Type::Dict(Box::new(clone_type(inner))),
        Type::Optional(inner) => Type::Optional(Box::new(clone_type(inner))),
        Type::Function(params, ret) => {
            let ps = clone_types(params);
            let r = clone_type(ret);
            Type::Function(ps, Box::new(r))
        },
        Type::Struct(st) => {
            let args = clone_types(&st.type_arguments);
            Type::Struct(StructType { name: st.name.clone(), type_arguments: args })
        },
        Type::Enum(e) => Type::Enum(EnumType { name: e.name.clone() }),
        Type::Union(u) => Type::Union(UnionType { name: u.name.clone() }),
        Type::Error(e) => Type::Error(
            ErrorType { name: e.name.clone(), variant: clone_opt_string(&e.variant) },
        ),
        Type::GenericParameter(name) => Type::GenericParameter(name.clone()),
        Type::Unknown => Type::Unknown,
    }
}

/// A copy of a list of types.
pub fn clone_types(v: &Vec<Type>) -> (r: Vec<Type>)
    ensures
        r@.len() == v@.len(),
        types_view(r@) == types_view(v@),
    decreases v,
{
    let mut r: Vec<Type> = Vec::new();
    let mut i: usize = 0;
    while i < v.len()
        invariant
            i <= v@.len(),
            r@.len() == i,
            forall|j: int| 0 <= j < i ==> type_view(#[trigger] r@[j]) == type_view(v@[j]),
        decreases v@.len() - i,
    {
        let c = clone_type(&v[i]);
        r.push(c);
        i = i + 1;
    }
    proof {
        lemma_types_view_ext(r@, v@);
    }
    r
}

fn opt_string_eq(a: &Option<String>, b: &Option<String>) -> (r: bool)
    ensures
        r == (opt_string_view(*a) == opt_string_view(*b)),
{
    match (a, b) {
        (Some(x), Some(y)) => *x == *y,
        (None, None) => true,
        _ => false,
    }
}

/// Whether two types are the same type.
pub fn types_equal(a: &Type, b: &Type) -> (r: bool)
    ensures
        r == (a@ == b@),
    decreases a,
{
    match (a, b) {
        (Type::Bool, Type::Bool) => true,
        (Type::Int, Type::Int) => true,
        (Type::Float, Type::Float) => true,
        (Type::String, Type::String) => true,
        (Type::Nil, Type::Nil) => true,
        (Type::Void, Type::Void) => true,
        (Type::List(x), Type::List(y)) => types_equal(x, y),
        (Type::Dict(x), Type::Dict(y)) => types_equal(x, y),
        (Type::Optional(x), Type::Optional(y)) => types_equal(x, y),
        (Type::Function(px, rx), Type::Function(py, ry)) => {
            if !type_lists_equal(px, py) {
                return false;
            }
            types_equal(rx, ry)
        },
        (Type::Struct(x), Type::Struct(y)) => {
            if !(x.name == y.name) {
                return false;
            }
            type_lists_equal(&x.type_arguments, &y.type_arguments)
        },
        (Type::Enum(x), Type::Enum(y)) => x.name == y.name,
        (Type::Union(x), Type::Union(y)) => x.name == y.name,
        (Type::Error(x), Type::Error(y)) => {
            if !(x.name == y.name) {
                return false;
            }
            opt_string_eq(&x.variant, &y.variant)
        },
        (Type::GenericParameter(x), Type::GenericParameter(y)) => *x == *y,
        (Type::Unknown, Type::Unknown) => true,
        _ => false,
    }
}

/// Whether two type lists are equal element by element.
pub fn type_lists_equal(a: &Vec<Type>, b: &Vec<Type>) -> (r: bool)
    ensures
        r == (types_view(a@) == types_view(b@)),
    decreases a,
{
    proof {
        lemma_types_view(a@);
        lemma_types_view(b@);
    }
    if a.len() != b.len() {
        return false;
    }
    let mut i: usize = 0;
    while i < a.len()
        invariant
            a@.len() == b@.len(),
            i <= a@.len(),
            types_view(a@).len() == a@.len(),
            types_view(b@).len() == b@.len(),
            forall|j: int| 0 <= j < a@.len() ==> #[trigger] types_view(a@)[j] == type_view(a@[j]),
            forall|j: int| 0 <= j < b@.len() ==> #[trigger] types_view(b@)[j] == type_view(b@[j]),
            forall|j: int| 0 <= j < i ==> type_view(#[trigger] a@[j]) == type_view(b@[j]),
        decreases a@.len() - i,
    {
        if !types_equal(&a[i], &b[i]) {
            assert(types_view(a@)[i as int] != types_view(b@)[i as int]);
            return false;
        }
        i = i + 1;
    }
    proof {
        lemma_types_view_ext(a@, b@);
    }
    true
}

/// A field of a struct definition, with its declared type.
#[derive(Debug)]
pub struct StructFieldDefinition {
    pub name: String,
    pub ty: Type,
}

/// A struct as declared: its type parameters and fields, in order.
#[derive(Debug)]
pub struct StructDefinition {
    pub name: String,
    pub type_parameters: Vec<String>,
    pub fields: Vec<StructFieldDefinition>,
}

/// One instantiation of a generic struct: its type arguments and the field
/// types that result.
#[derive(Debug)]
pub struct StructInstance {
    pub type_arguments: Vec<Type>,
    pub field_types: Vec<Type>,
}

/// One instantiation of a generic function.
#[derive(Debug)]
pub struct FunctionInstance {
    pub type_arguments: Vec<Type>,
    pub param_types: Vec<Type>,
    pub return_type: Type,
}

/// A field of an error variant.
#[derive(Debug)]
pub struct ErrorFieldDefinition {
    pub name: String,
    pub ty: Type,
}

/// A variant of an error type.
#[derive(Debug)]
pub struct ErrorVariantDefinition {
    pub name: String,
    pub fields: Vec<ErrorFieldDefinition>,
}

/// An error type as declared, with its variants.
#[derive(Debug)]
pub struct ErrorDefinition {
    pub name: String,
    pub variants: Vec<ErrorVariantDefinition>,
}

/// An enum as declared.
#[derive(Debug)]
pub struct EnumDefinition {
    pub name: String,
    pub variants: Vec<String>,
}

} // verus!
