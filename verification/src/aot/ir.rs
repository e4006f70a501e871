//! The library's own account of what it builds in LLVM: a model of the
//! LLVM types it obtains, and a log of the operations it makes LLVM perform,
//! in order, each with the arguments the library gave it (a name is the
//! name asked for; LLVM makes names unique on its own). The wrappers around inkwell say, each of the one call it
//! makes, what it adds to the log or which type it returns; the verified
//! emitters are stated over these.
use vstd::prelude::*;

use crate::ast::BinaryOperator;
use inkwell::types::StructType as LlvmStructType;
use inkwell::types::{BasicTypeEnum, FunctionType};
use inkwell::values::{
    BasicMetadataValueEnum, BasicValueEnum, FloatValue, FunctionValue, GlobalValue, InstructionValue, IntValue,
    MetadataValue, PointerValue,
};

verus! {

/// An LLVM type: an integer of some width, `double`, a byte pointer, a
/// struct type, or an array of some length.
pub enum IrType<'ctx> {
    Int(u32),
    Double,
    BytePointer,
    Struct(LlvmStructType<'ctx>),
    Array(Box<IrType<'ctx>>, u32),
}

/// An LLVM type together with what it is; only the wrappers of this crate
/// that obtain types make one.
pub struct Typed<'ctx> {
    pub(crate) ty: BasicTypeEnum<'ctx>,
    pub(crate) model: Ghost<IrType<'ctx>>,
}

impl<'ctx> Typed<'ctx> {
    /// What the type is.
    pub closed spec fn model(&self) -> IrType<'ctx> {
        self.model@
    }

    /// The LLVM type.
    pub fn ty(&self) -> BasicTypeEnum<'ctx> {
        self.ty
    }
}

/// An LLVM function type together with its result (`None`: `void`) and
/// parameter types; only the wrappers of this crate that obtain function
/// types make one.
pub struct TypedFunction<'ctx> {
    pub(crate) ty: FunctionType<'ctx>,
    pub(crate) result: Ghost<Option<IrType<'ctx>>>,
    pub(crate) params: Ghost<Seq<IrType<'ctx>>>,
}

impl<'ctx> TypedFunction<'ctx> {
    /// The result type (`None`: `void`).
    pub closed spec fn result(&self) -> Option<IrType<'ctx>> {
        self.result@
    }

    /// The parameter types.
    pub closed spec fn params(&self) -> Seq<IrType<'ctx>> {
        self.params@
    }

    /// The LLVM function type.
    pub fn ty(&self) -> FunctionType<'ctx> {
        self.ty
    }
}

/// The types of a list of typed LLVM types.
pub open spec fn models<'ctx>(ts: Seq<Typed<'ctx>>) -> Seq<IrType<'ctx>> {
    ts.map_values(|t: Typed<'ctx>| t.model())
}

/// One operation performed in LLVM, with the values it produced.
pub enum IrOp<'ctx> {
    /// A new struct type with no body yet, asked to be named so (LLVM
    /// appends a number when the context already has a struct of that
    /// name).
    NamedStruct(LlvmStructType<'ctx>, Seq<char>),
    /// The struct type was given these fields (not packed).
    StructBody(LlvmStructType<'ctx>, Seq<IrType<'ctx>>),
    /// The integer constant of this width and value.
    Constant(IntValue<'ctx>, u32, u64),
    /// A stack slot of the struct type, asked to be named so (LLVM appends
    /// a number when the name is in use in the function).
    Alloca(PointerValue<'ctx>, LlvmStructType<'ctx>, Seq<char>),
    /// A pointer (first) to the field of this index of the struct the
    /// second pointer points to.
    FieldPointer(PointerValue<'ctx>, PointerValue<'ctx>, u32),
    /// The integer stored through the pointer.
    Store(PointerValue<'ctx>, IntValue<'ctx>),
    /// The value loaded through the pointer, asked to be named so (LLVM
    /// appends a number when the name is in use in the function).
    Load(BasicValueEnum<'ctx>, PointerValue<'ctx>, Seq<char>),
    /// The enum attribute of this kind id and value added to the function.
    Attribute(FunctionValue<'ctx>, u32, u64),
    /// The id (first) of the metadata kind of this name.
    MetadataKind(u32, Seq<char>),
    /// A metadata node holding these operands.
    Node(MetadataValue<'ctx>, Seq<BasicMetadataValueEnum<'ctx>>),
    /// A metadata string holding this text, as an operand.
    MetadataString(BasicMetadataValueEnum<'ctx>, Seq<char>),
    /// A metadata node as an operand.
    NodeOperand(BasicMetadataValueEnum<'ctx>, MetadataValue<'ctx>),
    /// An integer constant as an operand.
    IntOperand(BasicMetadataValueEnum<'ctx>, IntValue<'ctx>),
    /// Every use of the first node replaced by the second.
    ReplaceUses(MetadataValue<'ctx>, MetadataValue<'ctx>),
    /// The node attached to the instruction under this metadata kind id.
    SetMetadata(InstructionValue<'ctx>, MetadataValue<'ctx>, u32),
    /// A function of this result type (`None`: `void`) and parameter types
    /// added to the module, local to it when the flag is set, asked to be
    /// named so (LLVM appends a number when the module already has a
    /// global of that name).
    Function(FunctionValue<'ctx>, Seq<char>, Option<IrType<'ctx>>, Seq<IrType<'ctx>>, bool),
    /// A global of this type added to the module, asked to be named so
    /// (LLVM appends a number when the name is in use).
    Global(GlobalValue<'ctx>, Seq<char>, IrType<'ctx>),
    /// The global made private to the module.
    PrivateLinkage(GlobalValue<'ctx>),
    /// The zero (or null) constant of this type.
    Zero(BasicValueEnum<'ctx>, IrType<'ctx>),
    /// The global given this initial value.
    Initializer(GlobalValue<'ctx>, BasicValueEnum<'ctx>),
    /// The bits of the float, as an `i64`.
    FloatBits(IntValue<'ctx>, FloatValue<'ctx>),
    /// The integer zero-extended to an `i64`.
    ZeroExtend(IntValue<'ctx>, IntValue<'ctx>),
    /// The address the pointer holds, as an `i64`.
    Address(IntValue<'ctx>, PointerValue<'ctx>),
    /// The constant of the struct type with these field values.
    ConstStruct(BasicValueEnum<'ctx>, LlvmStructType<'ctx>, Seq<IntValue<'ctx>>),
    /// The integer result of the arithmetic operator on two integers
    /// (division and remainder signed).
    IntArithmetic(IntValue<'ctx>, BinaryOperator, IntValue<'ctx>, IntValue<'ctx>),
    /// The float result of the arithmetic operator on two floats.
    FloatArithmetic(FloatValue<'ctx>, BinaryOperator, FloatValue<'ctx>, FloatValue<'ctx>),
    /// The signed integer converted to a `double`.
    IntToFloat(FloatValue<'ctx>, IntValue<'ctx>),
    /// The `i1` result of the comparison operator on two integers (signed).
    IntCompare(IntValue<'ctx>, BinaryOperator, IntValue<'ctx>, IntValue<'ctx>),
    /// A call of the function with these pointer arguments, and its result
    /// when it is an integer.
    Call(FunctionValue<'ctx>, Seq<PointerValue<'ctx>>, Option<IntValue<'ctx>>),
    /// The integer truncated to an `i1`.
    Truncate(IntValue<'ctx>, IntValue<'ctx>),
    /// The boolean negated.
    Not(IntValue<'ctx>, IntValue<'ctx>),
    /// The `i1` result of the comparison operator on two floats (ordered).
    FloatCompare(IntValue<'ctx>, BinaryOperator, FloatValue<'ctx>, FloatValue<'ctx>),
    /// The `double` whose bits the `i64` holds.
    FloatFromBits(FloatValue<'ctx>, IntValue<'ctx>),
    /// The pointer (`i8*`) whose address the `i64` holds.
    PointerFromAddress(PointerValue<'ctx>, IntValue<'ctx>),
    /// The integer field of this index of the struct value.
    ExtractField(IntValue<'ctx>, BasicValueEnum<'ctx>, u32),
    /// A call of the function with no arguments, and its result when it
    /// has one.
    NullaryCall(FunctionValue<'ctx>, Option<BasicValueEnum<'ctx>>),
    /// The `i1` that says whether the pointer is null.
    IsNull(IntValue<'ctx>, PointerValue<'ctx>),
}

/// The operations performed in LLVM so far, in order; only the wrappers
/// of this crate add to it.
pub struct EmitLog<'ctx> {
    pub(crate) ops: Ghost<Seq<IrOp<'ctx>>>,
}

impl<'ctx> View for EmitLog<'ctx> {
    type V = Seq<IrOp<'ctx>>;

    closed spec fn view(&self) -> Seq<IrOp<'ctx>> {
        self.ops@
    }
}

impl<'ctx> EmitLog<'ctx> {
    /// A log with no operations.
    pub fn new() -> (r: Self)
        ensures
            r@ == Seq::<IrOp<'ctx>>::empty(),
    {
        EmitLog { ops: Ghost(Seq::empty()) }
    }
}

} // verus!
