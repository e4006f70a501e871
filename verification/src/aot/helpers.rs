//! Layouts and optimisation hints that the LLVM emitter writes into the
//! generated module.
use vstd::prelude::*;

use crate::aot::types::{SpecValueType, ValueType};
use crate::text::owned;

verus! {

/// The tag of a boxed `TeaValue`, whose layout is
/// `{ tag: i32, padding: i32, payload: i64 }`.
#[derive(Debug, Clone, Copy, PartialEq, Eq, Structural)]
pub enum TeaValueTag {
    Int,
    Float,
    Bool,
    String,
    List,
    Dict,
    Struct,
    Error,
    Closure,
    Nil,
}

/// The number that the runtime uses for each tag.
pub open spec fn tag_code(tag: TeaValueTag) -> u64 {
    match tag {
        TeaValueTag::Int => 0,
        TeaValueTag::Float => 1,
        TeaValueTag::Bool => 2,
        TeaValueTag::String => 3,
        TeaValueTag::List => 4,
        TeaValueTag::Dict => 5,
        TeaValueTag::Struct => 6,
        TeaValueTag::Error => 7,
        TeaValueTag::Closure => 8,
        TeaValueTag::Nil => 9,
    }
}

impl TeaValueTag {
    /// The tag value as a `u64`, for an LLVM integer constant.
    pub fn as_u64(self) -> (r: u64)
        ensures
            r == tag_code(self),
    {
        match self {
            TeaValueTag::Int => 0,
            TeaValueTag::Float => 1,
            TeaValueTag::Bool => 2,
            TeaValueTag::String => 3,
            TeaValueTag::List => 4,
            TeaValueTag::Dict => 5,
            TeaValueTag::Struct => 6,
            TeaValueTag::Error => 7,
            TeaValueTag::Closure => 8,
            TeaValueTag::Nil => 9,
        }
    }
}

/// Distinct tags have distinct codes, each below ten.
pub proof fn lemma_tag_codes_distinct(a: TeaValueTag, b: TeaValueTag)
    ensures
        tag_code(a) < 10,
        tag_code(a) == tag_code(b) ==> a == b,
{
}

/// Field index of the tag in a `TeaValue`.
pub const TEA_VALUE_TAG_FIELD: u32 = 0;

/// Field index of the padding word in a `TeaValue`.
pub const TEA_VALUE_PADDING_FIELD: u32 = 1;

/// How a value's bits become the 64-bit payload of a `TeaValue`.
#[derive(Debug, Clone, Copy, PartialEq, Eq, Structural)]
pub enum PayloadEncoding {
    /// The integer itself.
    Integer,
    /// The bits of the float.
    FloatBits,
    /// The boolean, zero-extended.
    ZeroExtendedBool,
    /// The address the pointer holds.
    PointerAddress,
    /// Zero (nil has no payload).
    Zero,
}

/// How a value of type `t` is boxed into a `TeaValue`: its tag and how its
/// payload is made; an optional is a `TeaValue` already.
pub open spec fn boxing_of(t: SpecValueType) -> Option<(TeaValueTag, PayloadEncoding)> {
    match t {
        SpecValueType::Int => Some((TeaValueTag::Int, PayloadEncoding::Integer)),
        SpecValueType::Float => Some((TeaValueTag::Float, PayloadEncoding::FloatBits)),
        SpecValueType::Bool => Some((TeaValueTag::Bool, PayloadEncoding::ZeroExtendedBool)),
        SpecValueType::String => Some((TeaValueTag::String, PayloadEncoding::PointerAddress)),
        SpecValueType::List(_) => Some((TeaValueTag::List, PayloadEncoding::PointerAddress)),
        SpecValueType::Dict(_) => Some((TeaValueTag::Dict, PayloadEncoding::PointerAddress)),
        SpecValueType::Struct(_) => Some((TeaValueTag::Struct, PayloadEncoding::PointerAddress)),
        SpecValueType::Error { .. } => Some((TeaValueTag::Error, PayloadEncoding::PointerAddress)),
        SpecValueType::Function(_, _) => Some(
            (TeaValueTag::Closure, PayloadEncoding::PointerAddress),
        ),
        SpecValueType::Void => Some((TeaValueTag::Nil, PayloadEncoding::Zero)),
        SpecValueType::Optional(_) => None,
    }
}

/// How a value of the given type is boxed into a `TeaValue` (see
/// [`boxing_of`]).
pub fn tea_value_boxing(ty: &ValueType) -> (r: Option<(TeaValueTag, PayloadEncoding)>)
    ensures
        r == boxing_of(ty@),
{
    match ty {
        ValueType::Int => Some((TeaValueTag::Int, PayloadEncoding::Integer)),
        ValueType::Float => Some((TeaValueTag::Float, PayloadEncoding::FloatBits)),
        ValueType::Bool => Some((TeaValueTag::Bool, PayloadEncoding::ZeroExtendedBool)),
        ValueType::String => Some((TeaValueTag::String, PayloadEncoding::PointerAddress)),
        ValueType::List(_) => Some((TeaValueTag::List, PayloadEncoding::PointerAddress)),
        ValueType::Dict(_) => Some((TeaValueTag::Dict, PayloadEncoding::PointerAddress)),
        ValueType::Struct(_) => Some((TeaValueTag::Struct, PayloadEncoding::PointerAddress)),
        ValueType::Error { .. } => Some((TeaValueTag::Error, PayloadEncoding::PointerAddress)),
        ValueType::Function(_, _) => Some((TeaValueTag::Closure, PayloadEncoding::PointerAddress)),
        ValueType::Void => Some((TeaValueTag::Nil, PayloadEncoding::Zero)),
        ValueType::Optional(_) => None,
    }
}

/// The tag a value of type `t` is boxed with.
pub open spec fn boxing_tag(t: SpecValueType) -> Option<TeaValueTag> {
    match boxing_of(t) {
        Some((tag, _)) => Some(tag),
        None => None,
    }
}

/// Boxing is faithful: values of different kinds get different tags.
pub proof fn lemma_boxing_tags_distinct(a: SpecValueType, b: SpecValueType)
    requires
        boxing_tag(a) is Some,
        boxing_tag(a) == boxing_tag(b),
    ensures
        a is Int <==> b is Int,
        a is Float <==> b is Float,
        a is Bool <==> b is Bool,
        a is String <==> b is String,
        a is List <==> b is List,
        a is Dict <==> b is Dict,
        a is Struct <==> b is Struct,
        a is Error <==> b is Error,
        a is Function <==> b is Function,
        a is Void <==> b is Void,
{
}

/// How a payload is read back as a value.
#[derive(Debug, Clone, Copy, PartialEq, Eq, Structural)]
pub enum PayloadDecoding {
    /// The payload is the integer.
    Integer,
    /// The payload's bits are the float.
    FloatBits,
    /// The boolean is whether the payload is not zero.
    NonZero,
    /// The payload is an address, turned back into a pointer.
    PointerAddress,
}

/// How a `TeaValue` is read back as a value of a given type.
#[derive(Debug, Clone, Copy, PartialEq, Eq, Structural)]
pub enum Unboxing {
    /// An optional is the `TeaValue` itself.
    Whole,
    /// `Void` reads nothing.
    Nothing,
    /// Any other type is read from the payload.
    Payload(PayloadDecoding),
}

/// How a `TeaValue` is read back as a value of type `t`.
pub open spec fn unboxing_of(t: SpecValueType) -> Unboxing {
    match t {
        SpecValueType::Optional(_) => Unboxing::Whole,
        SpecValueType::Void => Unboxing::Nothing,
        SpecValueType::Int => Unboxing::Payload(PayloadDecoding::Integer),
        SpecValueType::Float => Unboxing::Payload(PayloadDecoding::FloatBits),
        SpecValueType::Bool => Unboxing::Payload(PayloadDecoding::NonZero),
        _ => Unboxing::Payload(PayloadDecoding::PointerAddress),
    }
}

/// How a `TeaValue` is read back as a value of the given type (see
/// [`unboxing_of`]).
pub fn tea_value_unboxing(ty: &ValueType) -> (r: Unboxing)
    ensures
        r == unboxing_of(ty@),
{
    match ty {
        ValueType::Optional(_) => Unboxing::Whole,
        ValueType::Void => Unboxing::Nothing,
        ValueType::Int => Unboxing::Payload(PayloadDecoding::Integer),
        ValueType::Float => Unboxing::Payload(PayloadDecoding::FloatBits),
        ValueType::Bool => Unboxing::Payload(PayloadDecoding::NonZero),
        _ => Unboxing::Payload(PayloadDecoding::PointerAddress),
    }
}

/// How a bare payload (a struct field's, say) is read as a value of the
/// given type; an optional or `Void` has no payload of its own.
pub fn payload_decoding(ty: &ValueType) -> (r: Result<PayloadDecoding, String>)
    ensures
        match unboxing_of(ty@) {
            Unboxing::Payload(d) => r == Ok::<PayloadDecoding, String>(d),
            _ => r matches Err(e) && e@ == "payload_to_expr doesn't handle Optional or Void"@,
        },
{
    match tea_value_unboxing(ty) {
        Unboxing::Payload(d) => Ok(d),
        _ => Err(String::from_str("payload_to_expr doesn't handle Optional or Void")),
    }
}

/// The decoding that reads back what an encoding wrote.
pub open spec fn decoding_for(e: PayloadEncoding) -> Option<PayloadDecoding> {
    match e {
        PayloadEncoding::Integer => Some(PayloadDecoding::Integer),
        PayloadEncoding::FloatBits => Some(PayloadDecoding::FloatBits),
        PayloadEncoding::ZeroExtendedBool => Some(PayloadDecoding::NonZero),
        PayloadEncoding::PointerAddress => Some(PayloadDecoding::PointerAddress),
        PayloadEncoding::Zero => None,
    }
}

/// Reading a `TeaValue` back as the type it was boxed from undoes the
/// boxing: the payload is decoded the way it was encoded, `nil` reads
/// nothing, and an optional, which is not boxed, is taken whole.
pub proof fn lemma_unboxing_undoes_boxing(t: SpecValueType)
    ensures
        match boxing_of(t) {
            Some((_, PayloadEncoding::Zero)) => unboxing_of(t) == Unboxing::Nothing,
            Some((_, e)) => unboxing_of(t) == Unboxing::Payload(decoding_for(e).unwrap()),
            None => unboxing_of(t) == Unboxing::Whole,
        },
{
}

/// The runtime accessor that reads a `TeaValue` as a value of type `t`, for
/// the types a loop can iterate over.
pub open spec fn value_accessor(t: SpecValueType) -> Option<Seq<char>> {
    match t {
        SpecValueType::Int => Some("tea_value_as_int"@),
        SpecValueType::Float => Some("tea_value_as_float"@),
        SpecValueType::Bool => Some("tea_value_as_bool"@),
        SpecValueType::String => Some("tea_value_as_string"@),
        SpecValueType::List(_) => Some("tea_value_as_list"@),
        SpecValueType::Dict(_) => Some("tea_value_as_dict"@),
        _ => None,
    }
}

/// The runtime accessor that reads a `TeaValue` as a value of the given
/// type (see [`value_accessor`]); other types are refused.
pub fn tea_value_accessor(ty: &ValueType) -> (r: Result<String, String>)
    ensures
        match value_accessor(ty@) {
            Some(a) => r matches Ok(s) && s@ == a,
            None => r matches Err(e) && e@ == "unsupported element type for for-loop: "@
                + crate::aot::type_debug::value_type_debug(ty@),
        },
{
    let name = match ty {
        ValueType::Int => "tea_value_as_int",
        ValueType::Float => "tea_value_as_float",
        ValueType::Bool => "tea_value_as_bool",
        ValueType::String => "tea_value_as_string",
        ValueType::List(_) => "tea_value_as_list",
        ValueType::Dict(_) => "tea_value_as_dict",
        _ => {
            let mut msg = String::from_str("unsupported element type for for-loop: ");
            let shown = crate::aot::type_debug::debug_value_type(ty);
            msg.append(shown.as_str());
            return Err(msg);
        },
    };
    Ok(String::from_str(name))
}

/// Field index of the 64-bit payload in a `TeaValue`.
pub const TEA_VALUE_PAYLOAD_FIELD: u32 = 2;

/// The constant of one loop-metadata entry: an `i1` or an `i32`.
#[derive(Debug, Clone, Copy, PartialEq, Eq, Structural)]
pub enum MetadataConstant {
    I1(u64),
    I32(u64),
}

/// One `!{!"key", value}` node of a loop's `llvm.loop` metadata.
#[derive(Debug)]
pub struct LoopMetadataEntry {
    pub key: String,
    pub value: MetadataConstant,
}

/// Collects the nodes of a loop's `llvm.loop` metadata; the emitter then
/// attaches them, after a self-reference, to the loop's back edge.
#[derive(Debug)]
pub struct LoopMetadataBuilder {
    pub nodes: Vec<LoopMetadataEntry>,
}

/// The keys and constants of a builder's nodes, in order.
pub open spec fn metadata_entries(b: LoopMetadataBuilder) -> Seq<(Seq<char>, MetadataConstant)> {
    Seq::new(b.nodes@.len(), |i: int| (b.nodes@[i].key@, b.nodes@[i].value))
}

impl LoopMetadataBuilder {
    /// A builder with no nodes.
    pub fn new() -> (b: Self)
        ensures
            metadata_entries(b) == Seq::<(Seq<char>, MetadataConstant)>::empty(),
    {
        let b = LoopMetadataBuilder { nodes: Vec::new() };
        assert(metadata_entries(b) =~= Seq::<(Seq<char>, MetadataConstant)>::empty());
        b
    }

    /// Adds a boolean node (`1` for true, `0` for false, as an `i1`).
    pub fn with_bool(self, key: &str, value: bool) -> (b: Self)
        ensures
            metadata_entries(b) == metadata_entries(self).push(
                (key@, MetadataConstant::I1(if value { 1 } else { 0 })),
            ),
    {
        let mut this = self;
        let c = if value { 1 } else { 0 };
        this.nodes.push(LoopMetadataEntry { key: owned(key), value: MetadataConstant::I1(c) });
        assert(metadata_entries(this) =~= metadata_entries(self).push(
            (key@, MetadataConstant::I1(if value { 1 } else { 0 })),
        ));
        this
    }

    /// Adds an `i32` node.
    pub fn with_i32(self, key: &str, value: u32) -> (b: Self)
        ensures
            metadata_entries(b) == metadata_entries(self).push(
                (key@, MetadataConstant::I32(value as u64)),
            ),
    {
        let mut this = self;
        this.nodes.push(
            LoopMetadataEntry { key: owned(key), value: MetadataConstant::I32(value as u64) },
        );
        assert(metadata_entries(this) =~= metadata_entries(self).push(
            (key@, MetadataConstant::I32(value as u64)),
        ));
        this
    }
}

/// The optimisation hints that every loop of the generated code carries.
pub open spec fn loop_hints() -> Seq<(Seq<char>, MetadataConstant)> {
    seq![
        ("llvm.loop.vectorize.enable"@, MetadataConstant::I1(1)),
        ("llvm.loop.vectorize.width"@, MetadataConstant::I32(4)),
        ("llvm.loop.vectorize.scalable.enable"@, MetadataConstant::I1(0)),
        ("llvm.loop.interleave.count"@, MetadataConstant::I32(4)),
        ("llvm.loop.unroll.enable"@, MetadataConstant::I1(1)),
    ]
}

/// The loop metadata that the back end attaches to each loop: vectorise
/// with width 4 (not scalable), interleave 4 and unroll.
pub fn loop_optimization_metadata() -> (b: LoopMetadataBuilder)
    ensures
        metadata_entries(b) == loop_hints(),
{
    let b = LoopMetadataBuilder::new().with_bool("llvm.loop.vectorize.enable", true).with_i32(
        "llvm.loop.vectorize.width",
        4,
    ).with_bool("llvm.loop.vectorize.scalable.enable", false).with_i32(
        "llvm.loop.interleave.count",
        4,
    ).with_bool("llvm.loop.unroll.enable", true);
    assert(metadata_entries(b) =~= loop_hints());
    b
}

} // verus!
