//! Emitting into an LLVM module through inkwell: function attributes, loop
//! metadata and `TeaValue` construction. Each wrapper records in the
//! emission log (see [`crate::aot::ir`]) the operation it had LLVM perform;
//! the emitters are stated over that log.
use vstd::prelude::*;

use crate::aot::backend::{function_attribute_names, function_attributes};
use crate::aot::helpers::{
    loop_hints, loop_optimization_metadata, metadata_entries, payload_decoding, tag_code, tea_value_unboxing,
    unboxing_of, LoopMetadataBuilder, MetadataConstant, PayloadDecoding, TeaValueTag, Unboxing, TEA_VALUE_PAYLOAD_FIELD,
};
use crate::aot::types::{SpecValueType, ValueType};
use crate::aot::arithmetic::{arithmetic_message, is_arithmetic};
use crate::aot::ir::{EmitLog, IrOp};
use crate::ast::BinaryOperator;
use inkwell::attributes::{Attribute, AttributeLoc};
use inkwell::builder::{Builder, BuilderError};
use inkwell::context::Context;
use inkwell::AddressSpace;
use inkwell::{FloatPredicate, IntPredicate};
use inkwell::types::StructType as LlvmStructType;
use inkwell::values::{
    BasicMetadataValueEnum, BasicValueEnum, FloatValue, FunctionValue, InstructionValue, IntValue, MetadataValue,
    PointerValue,
};

verus! {

#[verifier::external_type_specification]
#[verifier::external_body]
pub struct ExContext(Context);

#[verifier::external_type_specification]
#[verifier::external_body]
pub struct ExBuilder<'ctx>(Builder<'ctx>);

#[verifier::external_type_specification]
#[verifier::external_body]
pub struct ExBuilderError(BuilderError);

#[verifier::external_type_specification]
#[verifier::external_body]
pub struct ExAttribute(Attribute);

#[verifier::external_type_specification]
#[verifier::external_body]
pub struct ExFunctionValue<'ctx>(FunctionValue<'ctx>);

#[verifier::external_type_specification]
#[verifier::external_body]
pub struct ExLlvmStructType<'ctx>(LlvmStructType<'ctx>);

#[verifier::external_type_specification]
#[verifier::external_body]
pub struct ExIntValue<'ctx>(IntValue<'ctx>);

#[verifier::external_type_specification]
#[verifier::external_body]
pub struct ExPointerValue<'ctx>(PointerValue<'ctx>);

#[verifier::external_type_specification]
#[verifier::external_body]
pub struct ExFloatValue<'ctx>(FloatValue<'ctx>);

#[verifier::external_type_specification]
#[verifier::external_body]
pub struct ExBasicValueEnum<'ctx>(BasicValueEnum<'ctx>);

#[verifier::external_type_specification]
#[verifier::external_body]
pub struct ExBasicMetadataValueEnum<'ctx>(BasicMetadataValueEnum<'ctx>);

#[verifier::external_type_specification]
#[verifier::external_body]
pub struct ExInstructionValue<'ctx>(InstructionValue<'ctx>);

#[verifier::external_type_specification]
#[verifier::external_body]
pub struct ExMetadataValue<'ctx>(MetadataValue<'ctx>);

/// The kind id LLVM gives the enum attribute called `name` (zero for an
/// unknown name), from LLVM's own table of attributes.
pub uninterp spec fn enum_kind_id(name: Seq<char>) -> u32;

/// `Attribute::get_named_enum_kind_id`: the kind id of the enum attribute
/// called `name` (see [`enum_kind_id`]).
#[verifier::external_body]
fn named_enum_kind_id(name: &str) -> (r: u32)
    ensures
        r == enum_kind_id(name@),
{
    Attribute::get_named_enum_kind_id(name)
}

/// An enum attribute with the kind id and value it was made with; only
/// [`create_enum_attribute`] makes one.
pub struct EnumAttribute {
    attribute: Attribute,
    kind: Ghost<u32>,
    value: Ghost<u64>,
}

impl EnumAttribute {
    /// The kind id the attribute was made with.
    pub closed spec fn kind(&self) -> u32 {
        self.kind@
    }

    /// The value the attribute was made with.
    pub closed spec fn value(&self) -> u64 {
        self.value@
    }
}

/// `Context::create_enum_attribute`: an enum attribute of kind `kind_id`
/// with value `val`.
#[verifier::external_body]
fn create_enum_attribute(context: &Context, kind_id: u32, val: u64) -> (r: EnumAttribute)
    ensures
        r.kind() == kind_id,
        r.value() == val,
{
    EnumAttribute { attribute: context.create_enum_attribute(kind_id, val), kind: Ghost(kind_id), value: Ghost(val) }
}

/// `FunctionValue::add_attribute` at the function itself
/// (`AttributeLoc::Function`), recorded in the log.
#[verifier::external_body]
fn add_attribute_to_function<'ctx>(log: &mut EmitLog<'ctx>, function: FunctionValue<'ctx>, attribute: &EnumAttribute)
    ensures
        final(log)@ == old(log)@.push(IrOp::Attribute(function, attribute.kind(), attribute.value())),
{
    function.add_attribute(AttributeLoc::Function, attribute.attribute)
}

/// Adds the enum attribute called `name`, with value 0, to a function.
pub fn add_function_attr<'ctx>(log: &mut EmitLog<'ctx>, context: &Context, function: FunctionValue<'ctx>, name: &str)
    ensures
        final(log)@ == old(log)@.push(IrOp::Attribute(function, enum_kind_id(name@), 0)),
{
    let kind = named_enum_kind_id(name);
    let attribute = create_enum_attribute(context, kind, 0);
    add_attribute_to_function(log, function, &attribute);
}

/// The attributes given to a function, in order (see
/// [`function_attributes`]).
pub open spec fn attribute_ops<'ctx>(function: FunctionValue<'ctx>, can_throw: bool, is_small: bool) -> Seq<IrOp<'ctx>> {
    function_attributes(can_throw, is_small).map_values(
        |n: Seq<char>| IrOp::Attribute(function, enum_kind_id(n), 0),
    )
}

/// Adds to a function, in order, the attributes the back end chooses for
/// it (see [`function_attributes`]).
pub fn add_function_attributes<'ctx>(
    log: &mut EmitLog<'ctx>,
    context: &Context,
    function: FunctionValue<'ctx>,
    can_throw: bool,
    is_small: bool,
)
    ensures
        final(log)@ == old(log)@ + attribute_ops(function, can_throw, is_small),
{
    let names = function_attribute_names(can_throw, is_small);
    let ghost all = function_attributes(can_throw, is_small);
    let ghost start = log@;
    proof {
        assert(names@.map_values(|n: String| n@) == all);
        assert(log@ =~= start + all.take(0).map_values(|n: Seq<char>| IrOp::Attribute(function, enum_kind_id(n), 0)));
    }
    let mut i: usize = 0;
    while i < names.len()
        invariant
            i <= names@.len(),
            names@.map_values(|n: String| n@) == all,
            log@ == start + all.take(i as int).map_values(
                |n: Seq<char>| IrOp::Attribute(function, enum_kind_id(n), 0),
            ),
        decreases names@.len() - i,
    {
        proof {
            assert(all[i as int] == names@[i as int]@);
            assert(all.take(i + 1) =~= all.take(i as int).push(all[i as int]));
        }
        add_function_attr(log, context, function, names[i].as_str());
        proof {
            assert(log@ =~= start + all.take(i + 1).map_values(
                |n: Seq<char>| IrOp::Attribute(function, enum_kind_id(n), 0),
            ));
        }
        i = i + 1;
    }
    proof {
        assert(all.take(i as int) =~= all);
    }
}

/// `Context::get_kind_id`: the id of the metadata kind called `key`,
/// recorded in the log.
#[verifier::external_body]
fn metadata_kind_id<'ctx>(log: &mut EmitLog<'ctx>, context: &Context, key: &str) -> (r: u32)
    ensures
        final(log)@ == old(log)@.push(IrOp::MetadataKind(r, key@)),
{
    context.get_kind_id(key)
}

/// `Context::metadata_node`: a metadata node holding `values`, recorded in
/// the log.
#[verifier::external_body]
fn metadata_node<'ctx>(log: &mut EmitLog<'ctx>, context: &'ctx Context, values: &[BasicMetadataValueEnum<'ctx>]) -> (r:
    MetadataValue<'ctx>)
    ensures
        final(log)@ == old(log)@.push(IrOp::Node(r, values@)),
{
    context.metadata_node(values)
}

/// `Context::metadata_string`: a metadata string holding `text`, as a
/// metadata operand, recorded in the log.
#[verifier::external_body]
fn metadata_string<'ctx>(log: &mut EmitLog<'ctx>, context: &'ctx Context, text: &str) -> (r: BasicMetadataValueEnum<'ctx>)
    ensures
        final(log)@ == old(log)@.push(IrOp::MetadataString(r, text@)),
{
    context.metadata_string(text).into()
}

/// A metadata node as a metadata operand (the `From` conversion of
/// inkwell), recorded in the log.
#[verifier::external_body]
fn node_operand<'ctx>(log: &mut EmitLog<'ctx>, node: MetadataValue<'ctx>) -> (r: BasicMetadataValueEnum<'ctx>)
    ensures
        final(log)@ == old(log)@.push(IrOp::NodeOperand(r, node)),
{
    node.into()
}

/// `IntType::const_int` of `Context::i32_type`, without sign extension:
/// the `i32` constant `value`, recorded in the log.
#[verifier::external_body]
fn const_i32<'ctx>(log: &mut EmitLog<'ctx>, context: &'ctx Context, value: u64) -> (r: IntValue<'ctx>)
    requires
        value < 0x1_0000_0000,
    ensures
        final(log)@ == old(log)@.push(IrOp::Constant(r, 32, value)),
{
    context.i32_type().const_int(value, false)
}

/// `IntType::const_int` of `Context::bool_type`, without sign extension:
/// the `i1` constant `value`, recorded in the log.
#[verifier::external_body]
fn const_i1<'ctx>(log: &mut EmitLog<'ctx>, context: &'ctx Context, value: u64) -> (r: IntValue<'ctx>)
    requires
        value < 2,
    ensures
        final(log)@ == old(log)@.push(IrOp::Constant(r, 1, value)),
{
    context.bool_type().const_int(value, false)
}

/// An integer constant as a metadata operand (the `From` conversion of
/// inkwell), recorded in the log.
#[verifier::external_body]
fn int_operand<'ctx>(log: &mut EmitLog<'ctx>, value: IntValue<'ctx>) -> (r: BasicMetadataValueEnum<'ctx>)
    ensures
        final(log)@ == old(log)@.push(IrOp::IntOperand(r, value)),
{
    value.into()
}

/// `MetadataValue::replace_all_uses_with`: every use of `node` becomes a
/// use of `other`, recorded in the log.
#[verifier::external_body]
fn replace_all_uses<'ctx>(log: &mut EmitLog<'ctx>, node: MetadataValue<'ctx>, other: &MetadataValue<'ctx>)
    ensures
        final(log)@ == old(log)@.push(IrOp::ReplaceUses(node, *other)),
{
    node.replace_all_uses_with(other)
}

/// `InstructionValue::set_metadata`: attaches `node` to `instruction` under
/// metadata kind `kind_id`, recorded in the log; an error, with nothing
/// recorded, when the instruction cannot hold it.
#[verifier::external_body]
fn set_instruction_metadata<'ctx>(
    log: &mut EmitLog<'ctx>,
    instruction: InstructionValue<'ctx>,
    node: MetadataValue<'ctx>,
    kind_id: u32,
) -> (r: Result<(), &'static str>)
    ensures
        r is Ok ==> final(log)@ == old(log)@.push(IrOp::SetMetadata(instruction, node, kind_id)),
        r is Err ==> final(log)@ == old(log)@,
{
    instruction.set_metadata(node, kind_id)
}

/// Whether a loop-metadata constant fits its width.
pub open spec fn constant_fits(c: MetadataConstant) -> bool {
    match c {
        MetadataConstant::I1(v) => v < 2,
        MetadataConstant::I32(v) => v < 0x1_0000_0000,
    }
}

/// The width and value of a loop-metadata constant.
pub open spec fn constant_bits(c: MetadataConstant) -> (u32, u64) {
    match c {
        MetadataConstant::I1(v) => (1, v),
        MetadataConstant::I32(v) => (32, v),
    }
}

/// The values that attaching loop metadata produced: the kind id, the
/// self-referencing node and its operand, per entry the key string, the
/// constant, its operand, the pair node and its operand, and the whole
/// node.
pub struct LoopNodes<'ctx> {
    pub kind: u32,
    pub loop_id: MetadataValue<'ctx>,
    pub first: BasicMetadataValueEnum<'ctx>,
    pub keys: Seq<BasicMetadataValueEnum<'ctx>>,
    pub constants: Seq<IntValue<'ctx>>,
    pub constant_operands: Seq<BasicMetadataValueEnum<'ctx>>,
    pub pairs: Seq<MetadataValue<'ctx>>,
    pub pair_operands: Seq<BasicMetadataValueEnum<'ctx>>,
    pub whole: MetadataValue<'ctx>,
}

/// The operations of entry `i`: its key string, its constant and that as an
/// operand, the `(key, constant)` node and that as an operand.
pub open spec fn entry_ops<'ctx>(w: LoopNodes<'ctx>, entries: Seq<(Seq<char>, MetadataConstant)>, i: int) -> Seq<
    IrOp<'ctx>,
> {
    seq![
        IrOp::MetadataString(w.keys[i], entries[i].0),
        IrOp::Constant(w.constants[i], constant_bits(entries[i].1).0, constant_bits(entries[i].1).1),
        IrOp::IntOperand(w.constant_operands[i], w.constants[i]),
        IrOp::Node(w.pairs[i], seq![w.keys[i], w.constant_operands[i]]),
        IrOp::NodeOperand(w.pair_operands[i], w.pairs[i]),
    ]
}

/// The operations of the first `n` entries, in order.
pub open spec fn entries_ops<'ctx>(w: LoopNodes<'ctx>, entries: Seq<(Seq<char>, MetadataConstant)>, n: int) -> Seq<
    IrOp<'ctx>,
>
    decreases n,
{
    if n <= 0 {
        Seq::empty()
    } else {
        entries_ops(w, entries, n - 1) + entry_ops(w, entries, n - 1)
    }
}

/// What attaching loop metadata with these entries to `instruction`
/// records: the `llvm.loop` kind, an empty node and its operand, the
/// entries' nodes, the whole node (the empty node's operand, then the
/// entries'), the empty node's uses replaced by the whole node, and (when
/// the instruction can hold it) the whole node attached under that kind.
pub open spec fn loop_metadata_ops<'ctx>(
    w: LoopNodes<'ctx>,
    instruction: InstructionValue<'ctx>,
    entries: Seq<(Seq<char>, MetadataConstant)>,
    attached: bool,
) -> Seq<IrOp<'ctx>> {
    seq![
        IrOp::MetadataKind(w.kind, "llvm.loop"@),
        IrOp::Node(w.loop_id, Seq::empty()),
        IrOp::NodeOperand(w.first, w.loop_id),
    ] + entries_ops(w, entries, entries.len() as int) + seq![
        IrOp::Node(w.whole, seq![w.first] + w.pair_operands),
        IrOp::ReplaceUses(w.loop_id, w.whole),
    ] + (if attached {
        seq![IrOp::SetMetadata(instruction, w.whole, w.kind)]
    } else {
        Seq::empty()
    })
}

/// Whether `w` holds one value of each kind per entry.
pub open spec fn sized<'ctx>(w: LoopNodes<'ctx>, n: int) -> bool {
    &&& w.keys.len() == n
    &&& w.constants.len() == n
    &&& w.constant_operands.len() == n
    &&& w.pairs.len() == n
    &&& w.pair_operands.len() == n
}

/// Attaches a loop's metadata to an instruction (the loop's back edge): a
/// `llvm.loop` node whose first operand is the node itself, as LLVM
/// requires, followed by one `(key, constant)` node per entry, in order
/// (see [`loop_metadata_ops`]).
pub fn attach_to<'ctx>(
    metadata: &LoopMetadataBuilder,
    log: &mut EmitLog<'ctx>,
    context: &'ctx Context,
    instruction: InstructionValue<'ctx>,
)
    requires
        forall|i: int|
            0 <= i < metadata_entries(*metadata).len() ==> constant_fits(#[trigger] metadata_entries(*metadata)[i].1),
    ensures
        exists|w: LoopNodes<'ctx>, attached: bool|
            sized(w, metadata_entries(*metadata).len() as int) && final(log)@ == old(log)@ + loop_metadata_ops(
                w,
                instruction,
                metadata_entries(*metadata),
                attached,
            ),
{
    let ghost entries = metadata_entries(*metadata);
    let ghost start = log@;
    let kind = metadata_kind_id(log, context, "llvm.loop");
    let no_operands: Vec<BasicMetadataValueEnum<'ctx>> = Vec::new();
    let loop_id = metadata_node(log, context, no_operands.as_slice());
    let first = node_operand(log, loop_id);
    let mut operands: Vec<BasicMetadataValueEnum<'ctx>> = Vec::new();
    operands.push(first);
    let ghost mut w = LoopNodes {
        kind,
        loop_id,
        first,
        keys: Seq::empty(),
        constants: Seq::empty(),
        constant_operands: Seq::empty(),
        pairs: Seq::empty(),
        pair_operands: Seq::empty(),
        whole: loop_id,
    };
    let ghost head = seq![
        IrOp::MetadataKind(kind, "llvm.loop"@),
        IrOp::Node(loop_id, Seq::<BasicMetadataValueEnum<'ctx>>::empty()),
        IrOp::NodeOperand(first, loop_id),
    ];
    proof {
        assert(no_operands@ =~= Seq::<BasicMetadataValueEnum<'ctx>>::empty());
        assert(log@ =~= start + head + entries_ops(w, entries, 0));
        assert(operands@ =~= seq![first] + w.pair_operands);
    }
    let mut i: usize = 0;
    while i < metadata.nodes.len()
        invariant
            i <= metadata.nodes@.len(),
            entries == metadata_entries(*metadata),
            entries.len() == metadata.nodes@.len(),
            forall|j: int| 0 <= j < entries.len() ==> constant_fits(#[trigger] entries[j].1),
            sized(w, i as int),
            w.kind == kind && w.loop_id == loop_id && w.first == first,
            head == seq![
                IrOp::MetadataKind(kind, "llvm.loop"@),
                IrOp::Node(loop_id, Seq::<BasicMetadataValueEnum<'ctx>>::empty()),
                IrOp::NodeOperand(first, loop_id),
            ],
            log@ == start + head + entries_ops(w, entries, i as int),
            operands@ == seq![first] + w.pair_operands,
        decreases metadata.nodes@.len() - i,
    {
        let node = &metadata.nodes[i];
        let ghost log_before = log@;
        proof {
            assert(entries[i as int] == (node.key@, node.value));
            assert(constant_fits(entries[i as int].1));
        }
        let key = metadata_string(log, context, node.key.as_str());
        let value = match node.value {
            MetadataConstant::I1(v) => const_i1(log, context, v),
            MetadataConstant::I32(v) => const_i32(log, context, v),
        };
        let value_operand = int_operand(log, value);
        let mut pair_operands: Vec<BasicMetadataValueEnum<'ctx>> = Vec::new();
        pair_operands.push(key);
        pair_operands.push(value_operand);
        let pair = metadata_node(log, context, pair_operands.as_slice());
        let pair_operand = node_operand(log, pair);
        operands.push(pair_operand);
        let ghost before = w;
        proof {
            w = LoopNodes {
                keys: w.keys.push(key),
                constants: w.constants.push(value),
                constant_operands: w.constant_operands.push(value_operand),
                pairs: w.pairs.push(pair),
                pair_operands: w.pair_operands.push(pair_operand),
                ..w
            };
            assert(entries[i as int] == (node.key@, node.value));
            assert forall|k: int| 0 <= k <= i implies #[trigger] entries_ops(w, entries, k) == entries_ops(
                before,
                entries,
                k,
            ) by {
                lemma_entries_ops_prefix(before, w, entries, k);
            }
            assert(pair_operands@ =~= seq![key, value_operand]);
            assert(entry_ops(w, entries, i as int) =~= seq![
                IrOp::MetadataString(key, node.key@),
                IrOp::Constant(value, constant_bits(node.value).0, constant_bits(node.value).1),
                IrOp::IntOperand(value_operand, value),
                IrOp::Node(pair, seq![key, value_operand]),
                IrOp::NodeOperand(pair_operand, pair),
            ]);
            assert(log@ =~= log_before + entry_ops(w, entries, i as int));
            assert(entries_ops(w, entries, i as int) == entries_ops(before, entries, i as int));
            assert(entries_ops(w, entries, i + 1) == entries_ops(w, entries, i as int) + entry_ops(
                w,
                entries,
                i as int,
            ));
            assert(log@ =~= start + head + entries_ops(w, entries, i + 1));
            assert(operands@ =~= seq![first] + w.pair_operands);
        }
        i = i + 1;
    }
    let ghost after_entries = log@;
    let loop_metadata = metadata_node(log, context, operands.as_slice());
    replace_all_uses(log, loop_id, &loop_metadata);
    let ghost before_set = log@;
    let set = set_instruction_metadata(log, instruction, loop_metadata, kind);
    let attached = set.is_ok();
    proof {
        let w0 = w;
        w = LoopNodes { whole: loop_metadata, ..w };
        lemma_entries_ops_prefix(w0, w, entries, entries.len() as int);
        assert(i == entries.len());
        assert(before_set =~= after_entries + seq![
            IrOp::Node(loop_metadata, seq![first] + w.pair_operands),
            IrOp::ReplaceUses(loop_id, loop_metadata),
        ]);
        if attached {
            assert(log@ =~= before_set.push(IrOp::SetMetadata(instruction, loop_metadata, kind)));
        } else {
            assert(log@ == before_set);
        }
        assert(log@ =~= start + loop_metadata_ops(w, instruction, entries, attached));
    }
}

/// The operations of the first `k` entries depend only on the values of
/// those entries.
proof fn lemma_entries_ops_prefix<'ctx>(
    a: LoopNodes<'ctx>,
    b: LoopNodes<'ctx>,
    entries: Seq<(Seq<char>, MetadataConstant)>,
    k: int,
)
    requires
        0 <= k,
        k <= a.keys.len(),
        k <= a.constants.len(),
        k <= a.constant_operands.len(),
        k <= a.pairs.len(),
        k <= a.pair_operands.len(),
        forall|j: int| 0 <= j < k ==> b.keys[j] == a.keys[j] && b.constants[j] == a.constants[j]
            && b.constant_operands[j] == a.constant_operands[j] && b.pairs[j] == a.pairs[j]
            && b.pair_operands[j] == a.pair_operands[j],
    ensures
        entries_ops(a, entries, k) == entries_ops(b, entries, k),
    decreases k,
{
    if k > 0 {
        lemma_entries_ops_prefix(a, b, entries, k - 1);
        assert(entry_ops(a, entries, k - 1) =~= entry_ops(b, entries, k - 1));
    }
}

/// Attaches the back end's loop optimisation hints (see
/// [`loop_optimization_metadata`] and [`attach_to`]) to a loop's back edge.
pub fn add_loop_metadata<'ctx>(log: &mut EmitLog<'ctx>, context: &'ctx Context, instruction: InstructionValue<'ctx>)
    ensures
        exists|w: LoopNodes<'ctx>, attached: bool|
            sized(w, loop_hints().len() as int) && final(log)@ == old(log)@ + loop_metadata_ops(
                w,
                instruction,
                loop_hints(),
                attached,
            ),
{
    let hints = loop_optimization_metadata();
    proof {
        assert forall|i: int| 0 <= i < loop_hints().len() implies constant_fits(#[trigger] loop_hints()[i].1) by {}
    }
    attach_to(&hints, log, context, instruction);
}

/// The texts of `BuilderError`'s variants, in their order of declaration.
pub open spec fn builder_messages() -> Seq<Seq<char>> {
    seq![
        "Builder position is not set"@,
        "Alignment error"@,
        "Aggregate extract index out of range"@,
        "Bitwidth of a value is incorrect"@,
        "Pointee type does not match the value's type"@,
        "Values do not have the same type"@,
        "Ordering error or mismatch"@,
        "GEP pointee is not a struct"@,
        "GEP index out of range"@,
    ]
}

/// Whether `m` is the text of one of `BuilderError`'s variants.
pub open spec fn is_builder_message(m: Seq<char>) -> bool {
    builder_messages().contains(m)
}

/// Every text of a `BuilderError` begins with a capital letter.
pub proof fn lemma_builder_message_capitalised(m: Seq<char>)
    requires
        is_builder_message(m),
    ensures
        m.len() > 0,
        'A' <= m[0] <= 'Z',
{
    reveal_strlit("Builder position is not set");
    reveal_strlit("Alignment error");
    reveal_strlit("Aggregate extract index out of range");
    reveal_strlit("Bitwidth of a value is incorrect");
    reveal_strlit("Pointee type does not match the value's type");
    reveal_strlit("Values do not have the same type");
    reveal_strlit("Ordering error or mismatch");
    reveal_strlit("GEP pointee is not a struct");
    reveal_strlit("GEP index out of range");
    let i = choose|i: int| 0 <= i < builder_messages().len() && builder_messages()[i] == m;
    assert(0 <= i < 9);
}

/// `BuilderError`'s `Display`: the `#[error(..)]` text of its variant (one
/// of [`builder_messages`]).
#[verifier::external_body]
pub(crate) fn builder_error_text(e: BuilderError) -> (r: String)
    ensures
        is_builder_message(r@),
{
    e.to_string()
}

/// No text of a `BuilderError` begins with a small letter.
pub proof fn lemma_lowercase_not_builder_message(m: Seq<char>)
    requires
        m.len() > 0,
        'a' <= m[0] <= 'z',
    ensures
        !is_builder_message(m),
{
    if is_builder_message(m) {
        lemma_builder_message_capitalised(m);
    }
}

/// The messages of arithmetic on operands it does not take are no
/// builder's texts.
proof fn lemma_arithmetic_message_not_builder(op: BinaryOperator)
    ensures
        !is_builder_message(arithmetic_message(op)),
{
    reveal_strlit("add expects numeric, string, or list operands");
    reveal_strlit("sub expects numeric operands");
    reveal_strlit("mul expects numeric operands");
    reveal_strlit("div expects numeric operands");
    reveal_strlit("mod expects numeric operands");
    lemma_lowercase_not_builder_message(arithmetic_message(op));
}

/// `Builder::build_alloca`: a stack slot of type `ty`, asked to be named
/// `name` (LLVM appends a number when the function already has a value of
/// that name), recorded in the log with the name asked for, or the
/// builder's error (when it is not positioned), with nothing recorded.
#[verifier::external_body]
fn build_alloca<'ctx>(log: &mut EmitLog<'ctx>, builder: &Builder<'ctx>, ty: LlvmStructType<'ctx>, name: &str) -> (r: Result<
    PointerValue<'ctx>,
    BuilderError,
>)
    ensures
        r matches Ok(p) ==> final(log)@ == old(log)@.push(IrOp::Alloca(p, ty, name@)),
        r is Err ==> final(log)@ == old(log)@,
{
    builder.build_alloca(ty, name)
}

/// `Builder::build_struct_gep`: a pointer to field `index` of the struct
/// `ptr` points to, recorded in the log, or the builder's error, with
/// nothing recorded.
#[verifier::external_body]
fn build_struct_gep<'ctx>(log: &mut EmitLog<'ctx>, builder: &Builder<'ctx>, ptr: PointerValue<'ctx>, index: u32, name: &str) -> (r: Result<
    PointerValue<'ctx>,
    BuilderError,
>)
    ensures
        r matches Ok(p) ==> final(log)@ == old(log)@.push(IrOp::FieldPointer(p, ptr, index)),
        r is Err ==> final(log)@ == old(log)@,
{
    builder.build_struct_gep(ptr, index, name)
}

/// `Builder::build_store` of an integer: stores `value` through `ptr`,
/// recorded in the log, or the builder's error, with nothing recorded.
#[verifier::external_body]
fn build_store<'ctx>(log: &mut EmitLog<'ctx>, builder: &Builder<'ctx>, ptr: PointerValue<'ctx>, value: IntValue<'ctx>) -> (r: Result<
    InstructionValue<'ctx>,
    BuilderError,
>)
    ensures
        r is Ok ==> final(log)@ == old(log)@.push(IrOp::Store(ptr, value)),
        r is Err ==> final(log)@ == old(log)@,
{
    builder.build_store(ptr, value)
}

/// `Builder::build_load`: the value `ptr` points to, asked to be named
/// `name` (LLVM appends a number when the name is in use), recorded in the
/// log with the name asked for, or the builder's error, with nothing
/// recorded.
#[verifier::external_body]
fn build_load<'ctx>(log: &mut EmitLog<'ctx>, builder: &Builder<'ctx>, ptr: PointerValue<'ctx>, name: &str) -> (r: Result<
    BasicValueEnum<'ctx>,
    BuilderError,
>)
    ensures
        r matches Ok(v) ==> final(log)@ == old(log)@.push(IrOp::Load(v, ptr, name@)),
        r is Err ==> final(log)@ == old(log)@,
{
    builder.build_load(ptr, name)
}

/// The names of the slot and of the loaded value of a `TeaValue` built for
/// `name`.
pub open spec fn tea_value_names(name: Seq<char>) -> (Seq<char>, Seq<char>) {
    ("tea_val_"@ + name, "tea_val_"@ + name + "_loaded"@)
}

fn tea_value_name_strings(name: &str) -> (r: (String, String))
    ensures
        (r.0@, r.1@) == tea_value_names(name@),
{
    let mut slot = String::from_str("tea_val_");
    slot.append(name);
    let mut loaded = String::from_str("tea_val_");
    loaded.append(name);
    loaded.append("_loaded");
    (slot, loaded)
}

/// The values that building a `TeaValue` produced: the slot, the pointers
/// to its three fields, the two `i32` constants and the loaded value.
pub struct TeaValueNodes<'ctx> {
    pub slot: PointerValue<'ctx>,
    pub tag_ptr: PointerValue<'ctx>,
    pub tag: IntValue<'ctx>,
    pub padding_ptr: PointerValue<'ctx>,
    pub padding: IntValue<'ctx>,
    pub payload_ptr: PointerValue<'ctx>,
    pub loaded: BasicValueEnum<'ctx>,
}

/// What building a `TeaValue` records: a slot of `ty` named for `name`;
/// field 0 set to the `i32` constant of the tag's code, field 1 to the
/// `i32` constant 0, field 2 to the payload; then the slot loaded.
pub open spec fn tea_value_ops<'ctx>(
    w: TeaValueNodes<'ctx>,
    ty: LlvmStructType<'ctx>,
    tag: TeaValueTag,
    payload: IntValue<'ctx>,
    name: Seq<char>,
) -> Seq<IrOp<'ctx>> {
    seq![
        IrOp::Alloca(w.slot, ty, tea_value_names(name).0),
        IrOp::FieldPointer(w.tag_ptr, w.slot, 0),
        IrOp::Constant(w.tag, 32, tag_code(tag)),
        IrOp::Store(w.tag_ptr, w.tag),
        IrOp::FieldPointer(w.padding_ptr, w.slot, 1),
        IrOp::Constant(w.padding, 32, 0),
        IrOp::Store(w.padding_ptr, w.padding),
        IrOp::FieldPointer(w.payload_ptr, w.slot, 2),
        IrOp::Store(w.payload_ptr, payload),
        IrOp::Load(w.loaded, w.slot, tea_value_names(name).1),
    ]
}

/// Builds a `TeaValue` `{ tag: i32, padding: i32, payload: i64 }` on the
/// stack (see [`tea_value_ops`]): the tag's code in field 0, a zero
/// padding in field 1 and the payload in field 2, then loads it. The first
/// builder error stops the construction; what was emitted before it stays.
pub fn build_tea_value<'ctx>(
    log: &mut EmitLog<'ctx>,
    context: &'ctx Context,
    builder: &Builder<'ctx>,
    tea_value_type: LlvmStructType<'ctx>,
    tag: TeaValueTag,
    payload: IntValue<'ctx>,
    name: &str,
) -> (r: Result<BasicValueEnum<'ctx>, String>)
    ensures
        r matches Ok(v) ==> exists|w: TeaValueNodes<'ctx>|
            w.loaded == v && final(log)@ == old(log)@ + tea_value_ops(w, tea_value_type, tag, payload, name@),
        r is Err ==> exists|w: TeaValueNodes<'ctx>, k: int|
            0 <= k < 10 && final(log)@ == old(log)@ + tea_value_ops(w, tea_value_type, tag, payload, name@).take(k),
        r matches Err(e) ==> is_builder_message(e@),
{
    let ghost start = log@;
    let (slot_name, loaded_name) = tea_value_name_strings(name);
    let slot = match build_alloca(log, builder, tea_value_type, slot_name.as_str()) {
        Ok(p) => p,
        Err(e) => {
            proof {
                let w = TeaValueNodes { slot: arbitrary(), tag_ptr: arbitrary(), tag: arbitrary(), padding_ptr: arbitrary(), padding: arbitrary(), payload_ptr: arbitrary(), loaded: arbitrary() };
                assert(log@ =~= start + tea_value_ops(w, tea_value_type, tag, payload, name@).take(0));
            }
            return Err(builder_error_text(e));
        },
    };
    let ghost mut w = TeaValueNodes { slot, tag_ptr: arbitrary(), tag: arbitrary(), padding_ptr: arbitrary(), padding: arbitrary(), payload_ptr: arbitrary(), loaded: arbitrary() };
    let tag_ptr = match build_struct_gep(log, builder, slot, 0, "tag_ptr") {
        Ok(p) => p,
        Err(e) => {
            proof {
                assert(log@ =~= start + tea_value_ops(w, tea_value_type, tag, payload, name@).take(1));
            }
            return Err(builder_error_text(e));
        },
    };
    proof { w = TeaValueNodes { tag_ptr, ..w }; }
    let tag_value = const_i32(log, context, tag.as_u64());
    proof { w = TeaValueNodes { tag: tag_value, ..w }; }
    match build_store(log, builder, tag_ptr, tag_value) {
        Ok(_) => {},
        Err(e) => {
            proof {
                assert(log@ =~= start + tea_value_ops(w, tea_value_type, tag, payload, name@).take(3));
            }
            return Err(builder_error_text(e));
        },
    }
    let padding_ptr = match build_struct_gep(log, builder, slot, 1, "padding_ptr") {
        Ok(p) => p,
        Err(e) => {
            proof {
                assert(log@ =~= start + tea_value_ops(w, tea_value_type, tag, payload, name@).take(4));
            }
            return Err(builder_error_text(e));
        },
    };
    proof { w = TeaValueNodes { padding_ptr, ..w }; }
    let padding = const_i32(log, context, 0);
    proof { w = TeaValueNodes { padding, ..w }; }
    match build_store(log, builder, padding_ptr, padding) {
        Ok(_) => {},
        Err(e) => {
            proof {
                assert(log@ =~= start + tea_value_ops(w, tea_value_type, tag, payload, name@).take(6));
            }
            return Err(builder_error_text(e));
        },
    }
    let payload_ptr = match build_struct_gep(log, builder, slot, TEA_VALUE_PAYLOAD_FIELD, "payload_ptr") {
        Ok(p) => p,
        Err(e) => {
            proof {
                assert(log@ =~= start + tea_value_ops(w, tea_value_type, tag, payload, name@).take(7));
            }
            return Err(builder_error_text(e));
        },
    };
    proof { w = TeaValueNodes { payload_ptr, ..w }; }
    match build_store(log, builder, payload_ptr, payload) {
        Ok(_) => {},
        Err(e) => {
            proof {
                assert(log@ =~= start + tea_value_ops(w, tea_value_type, tag, payload, name@).take(8));
            }
            return Err(builder_error_text(e));
        },
    }
    match build_load(log, builder, slot, loaded_name.as_str()) {
        Ok(v) => {
            proof {
                w = TeaValueNodes { loaded: v, ..w };
                assert(log@ =~= start + tea_value_ops(w, tea_value_type, tag, payload, name@));
            }
            Ok(v)
        },
        Err(e) => {
            proof {
                assert(log@ =~= start + tea_value_ops(w, tea_value_type, tag, payload, name@).take(9));
            }
            Err(builder_error_text(e))
        },
    }
}

/// `IntType::const_int` of `Context::i64_type`, without sign extension:
/// the `i64` constant `value`, recorded in the log.
#[verifier::external_body]
fn const_i64<'ctx>(log: &mut EmitLog<'ctx>, context: &'ctx Context, value: u64) -> (r: IntValue<'ctx>)
    ensures
        final(log)@ == old(log)@.push(IrOp::Constant(r, 64, value)),
{
    context.i64_type().const_int(value, false)
}

/// `StructType::const_named_struct`: the constant of struct type `ty` with
/// these field values, recorded in the log.
#[verifier::external_body]
fn const_named_struct<'ctx>(log: &mut EmitLog<'ctx>, ty: LlvmStructType<'ctx>, fields: &[IntValue<'ctx>]) -> (r:
    BasicValueEnum<'ctx>)
    ensures
        final(log)@ == old(log)@.push(IrOp::ConstStruct(r, ty, fields@)),
{
    let values: Vec<BasicValueEnum<'ctx>> = fields.iter().map(|f| (*f).into()).collect();
    ty.const_named_struct(&values).into()
}

/// `Builder::build_bit_cast` of a float to `i64`: its bits, recorded in the
/// log, or the builder's error, with nothing recorded.
#[verifier::external_body]
fn build_float_bits<'ctx>(
    log: &mut EmitLog<'ctx>,
    context: &'ctx Context,
    builder: &Builder<'ctx>,
    value: FloatValue<'ctx>,
    name: &str,
) -> (r: Result<IntValue<'ctx>, BuilderError>)
    ensures
        r matches Ok(v) ==> final(log)@ == old(log)@.push(IrOp::FloatBits(v, value)),
        r is Err ==> final(log)@ == old(log)@,
{
    builder.build_bit_cast(value, context.i64_type(), name).map(|b| b.into_int_value())
}

/// `Builder::build_int_z_extend` to `i64`, recorded in the log, or the
/// builder's error, with nothing recorded.
#[verifier::external_body]
fn build_zero_extend<'ctx>(
    log: &mut EmitLog<'ctx>,
    context: &'ctx Context,
    builder: &Builder<'ctx>,
    value: IntValue<'ctx>,
    name: &str,
) -> (r: Result<IntValue<'ctx>, BuilderError>)
    ensures
        r matches Ok(v) ==> final(log)@ == old(log)@.push(IrOp::ZeroExtend(v, value)),
        r is Err ==> final(log)@ == old(log)@,
{
    builder.build_int_z_extend(value, context.i64_type(), name)
}

/// `Builder::build_ptr_to_int` to `i64`: the address the pointer holds,
/// recorded in the log, or the builder's error, with nothing recorded.
#[verifier::external_body]
fn build_address<'ctx>(
    log: &mut EmitLog<'ctx>,
    context: &'ctx Context,
    builder: &Builder<'ctx>,
    value: PointerValue<'ctx>,
    name: &str,
) -> (r: Result<IntValue<'ctx>, BuilderError>)
    ensures
        r matches Ok(v) ==> final(log)@ == old(log)@.push(IrOp::Address(v, value)),
        r is Err ==> final(log)@ == old(log)@,
{
    builder.build_ptr_to_int(value, context.i64_type(), name)
}

/// A compiled expression as LLVM holds it: an `i64`, a `double`, an `i1`,
/// a pointer to a heap value of some kind, a `TeaValue` (an optional), or
/// nothing.
#[derive(Clone, Copy)]
pub enum LlvmValue<'ctx> {
    Int(IntValue<'ctx>),
    Float(FloatValue<'ctx>),
    Bool(IntValue<'ctx>),
    String(PointerValue<'ctx>),
    List(PointerValue<'ctx>),
    Dict(PointerValue<'ctx>),
    Struct(PointerValue<'ctx>),
    Error(PointerValue<'ctx>),
    Closure(PointerValue<'ctx>),
    Optional(BasicValueEnum<'ctx>),
    Void,
}

/// The tag a value is boxed with (see [`crate::aot::helpers::boxing_of`])
/// and the name its `TeaValue` is built under.
pub open spec fn boxing_plan<'ctx>(v: LlvmValue<'ctx>) -> (TeaValueTag, Seq<char>) {
    match v {
        LlvmValue::Int(_) => (TeaValueTag::Int, "int"@),
        LlvmValue::Float(_) => (TeaValueTag::Float, "float"@),
        LlvmValue::Bool(_) => (TeaValueTag::Bool, "bool"@),
        LlvmValue::String(_) => (TeaValueTag::String, "string"@),
        LlvmValue::List(_) => (TeaValueTag::List, "list"@),
        LlvmValue::Dict(_) => (TeaValueTag::Dict, "dict"@),
        LlvmValue::Struct(_) => (TeaValueTag::Struct, "struct"@),
        LlvmValue::Error(_) => (TeaValueTag::Error, "error"@),
        LlvmValue::Closure(_) => (TeaValueTag::Closure, "closure"@),
        _ => (TeaValueTag::Nil, "nil"@),
    }
}

/// What making the `i64` payload of a value records: nothing for an
/// integer (which is its own payload), the float's bits, the boolean
/// zero-extended, or the pointer's address.
pub open spec fn payload_ops<'ctx>(v: LlvmValue<'ctx>, payload: IntValue<'ctx>) -> Seq<IrOp<'ctx>> {
    match v {
        LlvmValue::Int(_) => Seq::empty(),
        LlvmValue::Float(f) => seq![IrOp::FloatBits(payload, f)],
        LlvmValue::Bool(b) => seq![IrOp::ZeroExtend(payload, b)],
        LlvmValue::String(p) | LlvmValue::List(p) | LlvmValue::Dict(p) | LlvmValue::Struct(p)
        | LlvmValue::Error(p) | LlvmValue::Closure(p) => seq![IrOp::Address(payload, p)],
        _ => Seq::empty(),
    }
}

/// The constant nil `TeaValue`: tag 9 (`Nil`), zero padding, zero payload.
pub open spec fn nil_ops<'ctx>(
    ty: LlvmStructType<'ctx>,
    tag: IntValue<'ctx>,
    padding: IntValue<'ctx>,
    payload: IntValue<'ctx>,
    r: BasicValueEnum<'ctx>,
) -> Seq<IrOp<'ctx>> {
    seq![
        IrOp::Constant(tag, 32, tag_code(TeaValueTag::Nil)),
        IrOp::Constant(padding, 32, 0),
        IrOp::Constant(payload, 64, 0),
        IrOp::ConstStruct(r, ty, seq![tag, padding, payload]),
    ]
}

/// What boxing `value` (neither an optional nor nothing) records: its
/// payload `p` made (see [`payload_ops`]), then the `TeaValue` built with
/// its tag (see [`tea_value_ops`]).
pub open spec fn boxing_ops<'ctx>(
    ty: LlvmStructType<'ctx>,
    value: LlvmValue<'ctx>,
    p: IntValue<'ctx>,
    w: TeaValueNodes<'ctx>,
) -> Seq<IrOp<'ctx>> {
    payload_ops(value, p) + tea_value_ops(w, ty, boxing_plan(value).0, p, boxing_plan(value).1)
}

/// The `TeaValue` that holds a compiled value (see [`boxing_plan`]): an
/// optional is one already; nothing becomes the constant nil; any other
/// value has its `i64` payload made (see [`payload_ops`]) and is built
/// with its tag (see [`tea_value_ops`]). The first builder error stops it;
/// what was emitted before stays.
pub fn expr_to_tea_value<'ctx>(
    log: &mut EmitLog<'ctx>,
    context: &'ctx Context,
    builder: &Builder<'ctx>,
    tea_value_type: LlvmStructType<'ctx>,
    value: LlvmValue<'ctx>,
) -> (r: Result<BasicValueEnum<'ctx>, String>)
    ensures
        value matches LlvmValue::Optional(v) ==> r == Ok::<BasicValueEnum<'ctx>, String>(v) && final(log)@ == old(log)@,
        value is Void ==> (r matches Ok(v) && exists|
            tag: IntValue<'ctx>,
            padding: IntValue<'ctx>,
            payload: IntValue<'ctx>,
            nil: BasicValueEnum<'ctx>,
        |
            nil == v && final(log)@ == old(log)@ + nil_ops(tea_value_type, tag, padding, payload, nil)),
        !(value is Optional) && !(value is Void) ==> {
            &&& r matches Ok(v) ==> exists|p: IntValue<'ctx>, w: TeaValueNodes<'ctx>|
                w.loaded == v && (value matches LlvmValue::Int(i) ==> p == i) && final(log)@ == old(log)@ + payload_ops(value, p) + tea_value_ops(
                    w,
                    tea_value_type,
                    boxing_plan(value).0,
                    p,
                    boxing_plan(value).1,
                )
            &&& r is Err ==> old(log)@.len() <= final(log)@.len() && final(log)@.take(old(log)@.len() as int) == old(log)@
            &&& r matches Err(e) ==> is_builder_message(e@) && exists|p: IntValue<'ctx>, w: TeaValueNodes<'ctx>, k: int|
                (value matches LlvmValue::Int(i) ==> p == i) && 0 <= k < boxing_ops(tea_value_type, value, p, w).len()
                    && final(log)@ == old(log)@ + #[trigger] boxing_ops(tea_value_type, value, p, w).take(k)
        },
{
    let ghost start = log@;
    let (payload, tag, name) = match value {
        LlvmValue::Optional(v) => return Ok(v),
        LlvmValue::Void => {
            let tag = const_i32(log, context, 9);
            let padding = const_i32(log, context, 0);
            let payload = const_i64(log, context, 0);
            let mut fields: Vec<IntValue<'ctx>> = Vec::new();
            fields.push(tag);
            fields.push(padding);
            fields.push(payload);
            let v = const_named_struct(log, tea_value_type, fields.as_slice());
            proof {
                assert(fields@ =~= seq![tag, padding, payload]);
                assert(log@ =~= start + nil_ops(tea_value_type, tag, padding, payload, v));
            }
            return Ok(v);
        },
        LlvmValue::Int(i) => (i, TeaValueTag::Int, "int"),
        LlvmValue::Float(f) => match build_float_bits(log, context, builder, f, "float_bits") {
            Ok(p) => (p, TeaValueTag::Float, "float"),
            Err(e) => {
                proof {
                    let w: TeaValueNodes<'ctx> = arbitrary();
                    assert(log@ =~= start + boxing_ops(tea_value_type, value, arbitrary(), w).take(0));
                }
                return Err(builder_error_text(e));
            },
        },
        LlvmValue::Bool(b) => match build_zero_extend(log, context, builder, b, "bool_i64") {
            Ok(p) => (p, TeaValueTag::Bool, "bool"),
            Err(e) => {
                proof {
                    let w: TeaValueNodes<'ctx> = arbitrary();
                    assert(log@ =~= start + boxing_ops(tea_value_type, value, arbitrary(), w).take(0));
                }
                return Err(builder_error_text(e));
            },
        },
        LlvmValue::String(ptr) => match build_address(log, context, builder, ptr, "ptr_i64") {
            Ok(p) => (p, TeaValueTag::String, "string"),
            Err(e) => {
                proof {
                    let w: TeaValueNodes<'ctx> = arbitrary();
                    assert(log@ =~= start + boxing_ops(tea_value_type, value, arbitrary(), w).take(0));
                }
                return Err(builder_error_text(e));
            },
        },
        LlvmValue::List(ptr) => match build_address(log, context, builder, ptr, "ptr_i64") {
            Ok(p) => (p, TeaValueTag::List, "list"),
            Err(e) => {
                proof {
                    let w: TeaValueNodes<'ctx> = arbitrary();
                    assert(log@ =~= start + boxing_ops(tea_value_type, value, arbitrary(), w).take(0));
                }
                return Err(builder_error_text(e));
            },
        },
        LlvmValue::Dict(ptr) => match build_address(log, context, builder, ptr, "ptr_i64") {
            Ok(p) => (p, TeaValueTag::Dict, "dict"),
            Err(e) => {
                proof {
                    let w: TeaValueNodes<'ctx> = arbitrary();
                    assert(log@ =~= start + boxing_ops(tea_value_type, value, arbitrary(), w).take(0));
                }
                return Err(builder_error_text(e));
            },
        },
        LlvmValue::Struct(ptr) => match build_address(log, context, builder, ptr, "ptr_i64") {
            Ok(p) => (p, TeaValueTag::Struct, "struct"),
            Err(e) => {
                proof {
                    let w: TeaValueNodes<'ctx> = arbitrary();
                    assert(log@ =~= start + boxing_ops(tea_value_type, value, arbitrary(), w).take(0));
                }
                return Err(builder_error_text(e));
            },
        },
        LlvmValue::Error(ptr) => match build_address(log, context, builder, ptr, "ptr_i64") {
            Ok(p) => (p, TeaValueTag::Error, "error"),
            Err(e) => {
                proof {
                    let w: TeaValueNodes<'ctx> = arbitrary();
                    assert(log@ =~= start + boxing_ops(tea_value_type, value, arbitrary(), w).take(0));
                }
                return Err(builder_error_text(e));
            },
        },
        LlvmValue::Closure(ptr) => match build_address(log, context, builder, ptr, "ptr_i64") {
            Ok(p) => (p, TeaValueTag::Closure, "closure"),
            Err(e) => {
                proof {
                    let w: TeaValueNodes<'ctx> = arbitrary();
                    assert(log@ =~= start + boxing_ops(tea_value_type, value, arbitrary(), w).take(0));
                }
                return Err(builder_error_text(e));
            },
        },
    };
    proof {
        reveal_strlit("int");
        reveal_strlit("float");
        reveal_strlit("bool");
        reveal_strlit("string");
        reveal_strlit("list");
        reveal_strlit("dict");
        reveal_strlit("struct");
        reveal_strlit("error");
        reveal_strlit("closure");
        assert(tag == boxing_plan(value).0 && name@ == boxing_plan(value).1);
        assert(log@ =~= start + payload_ops(value, payload));
    }
    let ghost mid = log@;
    let r = build_tea_value(log, context, builder, tea_value_type, tag, payload, name);
    proof {
        if r is Err {
            let (w, k) = choose|w: TeaValueNodes<'ctx>, k: int|
                0 <= k < 10 && log@ == mid + tea_value_ops(w, tea_value_type, tag, payload, name@).take(k);
            assert(log@.take(start.len() as int) =~= start);
            let pk = payload_ops(value, payload).len() + k;
            assert(boxing_ops(tea_value_type, value, payload, w).take(pk) =~= payload_ops(value, payload) + tea_value_ops(w, tea_value_type, tag, payload, name@).take(k));
            assert(log@ =~= start + boxing_ops(tea_value_type, value, payload, w).take(pk));
        } else {
            let w = choose|w: TeaValueNodes<'ctx>|
                w.loaded == r->Ok_0 && log@ == mid + tea_value_ops(w, tea_value_type, tag, payload, name@);
            assert(log@ =~= start + payload_ops(value, payload) + tea_value_ops(w, tea_value_type, tag, payload, name@));
        }
    }
    r
}

/// `Builder::build_bit_cast` of an `i64` to `double`: the float whose bits
/// the integer holds, recorded in the log, or the builder's error, with
/// nothing recorded.
#[verifier::external_body]
fn build_float_from_bits<'ctx>(
    log: &mut EmitLog<'ctx>,
    context: &'ctx Context,
    builder: &Builder<'ctx>,
    value: IntValue<'ctx>,
    name: &str,
) -> (r: Result<FloatValue<'ctx>, BuilderError>)
    ensures
        r matches Ok(v) ==> final(log)@ == old(log)@.push(IrOp::FloatFromBits(v, value)),
        r is Err ==> final(log)@ == old(log)@,
{
    builder.build_bit_cast(value, context.f64_type(), name).map(|b| b.into_float_value())
}

/// `Builder::build_int_to_ptr` to `i8*`: the pointer whose address the
/// integer holds, recorded in the log, or the builder's error, with
/// nothing recorded.
#[verifier::external_body]
fn build_address_pointer<'ctx>(
    log: &mut EmitLog<'ctx>,
    context: &'ctx Context,
    builder: &Builder<'ctx>,
    value: IntValue<'ctx>,
    name: &str,
) -> (r: Result<PointerValue<'ctx>, BuilderError>)
    ensures
        r matches Ok(p) ==> final(log)@ == old(log)@.push(IrOp::PointerFromAddress(p, value)),
        r is Err ==> final(log)@ == old(log)@,
{
    builder.build_int_to_ptr(value, context.i8_type().ptr_type(AddressSpace::default()), name)
}

/// `Builder::build_extract_value` of field `index` of a struct value: when
/// `value` is a struct whose field `index` is an integer, that field,
/// recorded in the log; or the builder's error (its position unset, or a
/// struct of no more than `index` fields), with nothing recorded. A value
/// that is not a struct, or a field that is not an integer, gives none.
/// Left unsaid: what the log holds after none (for a struct, LLVM has made
/// the extraction).
#[verifier::external_body]
fn build_extract_int_field<'ctx>(
    log: &mut EmitLog<'ctx>,
    builder: &Builder<'ctx>,
    value: BasicValueEnum<'ctx>,
    index: u32,
    name: &str,
) -> (r: Result<Option<IntValue<'ctx>>, BuilderError>)
    ensures
        r matches Ok(Some(p)) ==> final(log)@ == old(log)@.push(IrOp::ExtractField(p, value, index)),
        r is Err ==> final(log)@ == old(log)@,
{
    match value {
        BasicValueEnum::StructValue(s) => builder.build_extract_value(s, index, name).map(|f| match f {
            BasicValueEnum::IntValue(i) => Some(i),
            _ => None,
        }),
        _ => Ok(None),
    }
}

/// The pointer a value of a pointer-held type holds, if it is one.
pub open spec fn pointer_of<'ctx>(v: LlvmValue<'ctx>) -> Option<PointerValue<'ctx>> {
    match v {
        LlvmValue::String(p) | LlvmValue::List(p) | LlvmValue::Dict(p) | LlvmValue::Struct(p)
        | LlvmValue::Error(p) | LlvmValue::Closure(p) => Some(p),
        _ => None,
    }
}

/// The value of type `ty` that pointer `p` holds, for the types whose
/// payload is an address (strings, lists, dicts, structs, errors and
/// closures).
pub open spec fn pointer_value<'ctx>(ty: SpecValueType, p: PointerValue<'ctx>) -> LlvmValue<'ctx> {
    match ty {
        SpecValueType::String => LlvmValue::String(p),
        SpecValueType::List(_) => LlvmValue::List(p),
        SpecValueType::Dict(_) => LlvmValue::Dict(p),
        SpecValueType::Struct(_) => LlvmValue::Struct(p),
        SpecValueType::Error { .. } => LlvmValue::Error(p),
        SpecValueType::Function(_, _) => LlvmValue::Closure(p),
        _ => LlvmValue::Void,
    }
}

/// What reading payload `payload` back as a value of type `ty` records when
/// it gives `result` (see [`crate::aot::helpers::unboxing_of`]): nothing
/// for an integer, which is the payload itself; the float whose bits it
/// holds; the boolean that it differs from the constant zero `zero`; or
/// the pointer whose address it holds. None when `result` is not what the
/// type reads back as.
pub open spec fn read_back_ops<'ctx>(
    ty: SpecValueType,
    payload: IntValue<'ctx>,
    zero: IntValue<'ctx>,
    result: LlvmValue<'ctx>,
) -> Option<Seq<IrOp<'ctx>>> {
    match unboxing_of(ty) {
        Unboxing::Payload(PayloadDecoding::Integer) => if result == LlvmValue::Int(payload) {
            Some(Seq::empty())
        } else {
            None
        },
        Unboxing::Payload(PayloadDecoding::FloatBits) => match result {
            LlvmValue::Float(f) => Some(seq![IrOp::FloatFromBits(f, payload)]),
            _ => None,
        },
        Unboxing::Payload(PayloadDecoding::NonZero) => match result {
            LlvmValue::Bool(b) => Some(
                seq![IrOp::Constant(zero, 64, 0), IrOp::IntCompare(b, BinaryOperator::NotEqual, payload, zero)],
            ),
            _ => None,
        },
        Unboxing::Payload(PayloadDecoding::PointerAddress) => match pointer_of(result) {
            Some(p) => if result == pointer_value(ty, p) {
                Some(seq![IrOp::PointerFromAddress(p, payload)])
            } else {
                None
            },
            None => None,
        },
        _ => None,
    }
}

/// The value of the given pointer-held type that `p` holds (see
/// [`pointer_value`]).
fn pointer_value_of<'ctx>(ty: &ValueType, p: PointerValue<'ctx>) -> (r: LlvmValue<'ctx>)
    ensures
        r == pointer_value(ty@, p),
{
    match ty {
        ValueType::String => LlvmValue::String(p),
        ValueType::List(_) => LlvmValue::List(p),
        ValueType::Dict(_) => LlvmValue::Dict(p),
        ValueType::Struct(_) => LlvmValue::Struct(p),
        ValueType::Error { .. } => LlvmValue::Error(p),
        ValueType::Function(_, _) => LlvmValue::Closure(p),
        _ => LlvmValue::Void,
    }
}

/// The name the pointer read back for a value of type `ty` is asked to
/// have.
fn pointer_name(ty: &ValueType) -> &'static str {
    match ty {
        ValueType::String => "string_ptr",
        ValueType::List(_) => "list_ptr",
        ValueType::Dict(_) => "dict_ptr",
        ValueType::Struct(_) => "struct_ptr",
        ValueType::Error { .. } => "error_ptr",
        _ => "closure_ptr",
    }
}

/// Reads `i64` payload `payload` (a `TeaValue`'s, or a struct field's) back
/// as a value of type `ty` (see [`read_back_ops`]); an optional or `Void`
/// has no payload of its own and is refused. A builder error stops it;
/// what was emitted before stays.
pub fn payload_to_expr<'ctx>(
    log: &mut EmitLog<'ctx>,
    context: &'ctx Context,
    builder: &Builder<'ctx>,
    payload: IntValue<'ctx>,
    ty: &ValueType,
) -> (r: Result<LlvmValue<'ctx>, String>)
    ensures
        !(unboxing_of(ty@) is Payload) ==> (r matches Err(e) && e@ == "payload_to_expr doesn't handle Optional or Void"@)
            && final(log)@ == old(log)@,
        r matches Ok(v) ==> exists|zero: IntValue<'ctx>, x: LlvmValue<'ctx>|
            x == v && #[trigger] read_back_ops(ty@, payload, zero, x) is Some && final(log)@ == old(log)@
                + read_back_ops(ty@, payload, zero, x)->0,
        unboxing_of(ty@) is Payload ==> (r matches Err(e) ==> is_builder_message(e@) && exists|
            zero: IntValue<'ctx>,
            x: LlvmValue<'ctx>,
            k: int,
        |
            read_back_ops(ty@, payload, zero, x) is Some && 0 <= k < read_back_ops(ty@, payload, zero, x)->0.len()
                && final(log)@ == old(log)@ + #[trigger] read_back_ops(ty@, payload, zero, x)->0.take(k)),
{
    let ghost start = log@;
    let ghost none: IntValue<'ctx> = arbitrary();
    match payload_decoding(ty) {
        Err(e) => Err(e),
        Ok(PayloadDecoding::Integer) => {
            proof {
                assert(log@ =~= start + read_back_ops(ty@, payload, none, LlvmValue::Int(payload))->0);
            }
            Ok(LlvmValue::Int(payload))
        },
        Ok(PayloadDecoding::FloatBits) => match build_float_from_bits(log, context, builder, payload, "float_val") {
            Ok(f) => {
                proof {
                    assert(log@ =~= start + read_back_ops(ty@, payload, none, LlvmValue::Float(f))->0);
                }
                Ok(LlvmValue::Float(f))
            },
            Err(e) => {
                proof {
                    let x = LlvmValue::Float(arbitrary());
                    assert(log@ =~= start + read_back_ops(ty@, payload, none, x)->0.take(0));
                }
                Err(builder_error_text(e))
            },
        },
        Ok(PayloadDecoding::NonZero) => {
            let zero = const_i64(log, context, 0);
            match build_int_compare_ne(log, builder, payload, zero, "bool_val") {
                Ok(b) => {
                    proof {
                        assert(log@ =~= start + read_back_ops(ty@, payload, zero, LlvmValue::Bool(b))->0);
                    }
                    Ok(LlvmValue::Bool(b))
                },
                Err(e) => {
                    proof {
                        let x = LlvmValue::Bool(arbitrary());
                        assert(log@ =~= start + read_back_ops(ty@, payload, zero, x)->0.take(1));
                    }
                    Err(builder_error_text(e))
                },
            }
        },
        Ok(PayloadDecoding::PointerAddress) => match build_address_pointer(log, context, builder, payload, pointer_name(ty)) {
            Ok(p) => {
                let v = pointer_value_of(ty, p);
                proof {
                    assert(pointer_of(v) == Some(p));
                    assert(log@ =~= start + read_back_ops(ty@, payload, none, v)->0);
                }
                Ok(v)
            },
            Err(e) => {
                proof {
                    let p: PointerValue<'ctx> = arbitrary();
                    let x = pointer_value(ty@, p);
                    assert(pointer_of(x) == Some(p));
                    assert(log@ =~= start + read_back_ops(ty@, payload, none, x)->0.take(0));
                }
                Err(builder_error_text(e))
            },
        },
    }
}

/// Reads a `TeaValue` back as a value of type `ty`: an optional is the
/// `TeaValue` itself, `Void` reads nothing, and any other type reads its
/// `i64` payload (field 2, see [`payload_to_expr`]). A value with no
/// integer there is refused; a builder error stops it.
pub fn tea_value_to_expr<'ctx>(
    log: &mut EmitLog<'ctx>,
    context: &'ctx Context,
    builder: &Builder<'ctx>,
    value: BasicValueEnum<'ctx>,
    ty: &ValueType,
) -> (r: Result<LlvmValue<'ctx>, String>)
    ensures
        ty@ is Optional ==> r == Ok::<LlvmValue<'ctx>, String>(LlvmValue::Optional(value)) && final(log)@ == old(log)@,
        ty@ is Void ==> r == Ok::<LlvmValue<'ctx>, String>(LlvmValue::Void) && final(log)@ == old(log)@,
        !(ty@ is Optional) && !(ty@ is Void) ==> (r matches Ok(v) ==> exists|
            p: IntValue<'ctx>,
            zero: IntValue<'ctx>,
            x: LlvmValue<'ctx>,
        |
            x == v && #[trigger] read_back_ops(ty@, p, zero, x) is Some && final(log)@ == old(log)@.push(
                IrOp::ExtractField(p, value, TEA_VALUE_PAYLOAD_FIELD),
            ) + read_back_ops(ty@, p, zero, x)->0),
        r matches Err(e) ==> e@ == "expected an i64 payload in a TeaValue"@ || is_builder_message(e@),
{
    match tea_value_unboxing(ty) {
        Unboxing::Whole => Ok(LlvmValue::Optional(value)),
        Unboxing::Nothing => Ok(LlvmValue::Void),
        Unboxing::Payload(_) => {
            let ghost start = log@;
            let payload = match build_extract_int_field(log, builder, value, TEA_VALUE_PAYLOAD_FIELD, "payload") {
                Ok(Some(p)) => p,
                Ok(None) => return Err(String::from_str("expected an i64 payload in a TeaValue")),
                Err(e) => return Err(builder_error_text(e)),
            };
            let ghost mid = log@;
            let r = payload_to_expr(log, context, builder, payload, ty);
            proof {
                if r is Ok {
                    let (zero, x) = choose|zero: IntValue<'ctx>, x: LlvmValue<'ctx>|
                        x == r->Ok_0 && #[trigger] read_back_ops(ty@, payload, zero, x) is Some && log@ == mid
                            + read_back_ops(ty@, payload, zero, x)->0;
                    assert(read_back_ops(ty@, payload, zero, x) is Some);
                }
            }
            r
        },
    }
}

/// `Builder::build_signed_int_to_float` to `double`: recorded in the log,
/// or the builder's error, with nothing recorded.
#[verifier::external_body]
fn build_int_to_float<'ctx>(
    log: &mut EmitLog<'ctx>,
    context: &'ctx Context,
    builder: &Builder<'ctx>,
    value: IntValue<'ctx>,
    name: &str,
) -> (r: Result<FloatValue<'ctx>, BuilderError>)
    ensures
        r matches Ok(v) ==> final(log)@ == old(log)@.push(IrOp::IntToFloat(v, value)),
        r is Err ==> final(log)@ == old(log)@,
{
    builder.build_signed_int_to_float(value, context.f64_type(), name)
}

/// `Builder::build_int_add`: recorded in the log, or the builder's error, with
/// nothing recorded.
#[verifier::external_body]
fn build_int_add<'ctx>(log: &mut EmitLog<'ctx>, builder: &Builder<'ctx>, l: IntValue<'ctx>, r: IntValue<'ctx>, name: &str) -> (res: Result<
    IntValue<'ctx>,
    BuilderError,
>)
    ensures
        res matches Ok(v) ==> final(log)@ == old(log)@.push(IrOp::IntArithmetic(v, BinaryOperator::Add, l, r)),
        res is Err ==> final(log)@ == old(log)@,
{
    builder.build_int_add(l, r, name)
}

/// `Builder::build_float_add`: recorded in the log, or the builder's error, with
/// nothing recorded.
#[verifier::external_body]
fn build_float_add<'ctx>(log: &mut EmitLog<'ctx>, builder: &Builder<'ctx>, l: FloatValue<'ctx>, r: FloatValue<'ctx>, name: &str) -> (res: Result<
    FloatValue<'ctx>,
    BuilderError,
>)
    ensures
        res matches Ok(v) ==> final(log)@ == old(log)@.push(IrOp::FloatArithmetic(v, BinaryOperator::Add, l, r)),
        res is Err ==> final(log)@ == old(log)@,
{
    builder.build_float_add(l, r, name)
}

/// `Builder::build_int_sub`: recorded in the log, or the builder's error, with
/// nothing recorded.
#[verifier::external_body]
fn build_int_sub<'ctx>(log: &mut EmitLog<'ctx>, builder: &Builder<'ctx>, l: IntValue<'ctx>, r: IntValue<'ctx>, name: &str) -> (res: Result<
    IntValue<'ctx>,
    BuilderError,
>)
    ensures
        res matches Ok(v) ==> final(log)@ == old(log)@.push(IrOp::IntArithmetic(v, BinaryOperator::Subtract, l, r)),
        res is Err ==> final(log)@ == old(log)@,
{
    builder.build_int_sub(l, r, name)
}

/// `Builder::build_float_sub`: recorded in the log, or the builder's error, with
/// nothing recorded.
#[verifier::external_body]
fn build_float_sub<'ctx>(log: &mut EmitLog<'ctx>, builder: &Builder<'ctx>, l: FloatValue<'ctx>, r: FloatValue<'ctx>, name: &str) -> (res: Result<
    FloatValue<'ctx>,
    BuilderError,
>)
    ensures
        res matches Ok(v) ==> final(log)@ == old(log)@.push(IrOp::FloatArithmetic(v, BinaryOperator::Subtract, l, r)),
        res is Err ==> final(log)@ == old(log)@,
{
    builder.build_float_sub(l, r, name)
}

/// `Builder::build_int_mul`: recorded in the log, or the builder's error, with
/// nothing recorded.
#[verifier::external_body]
fn build_int_mul<'ctx>(log: &mut EmitLog<'ctx>, builder: &Builder<'ctx>, l: IntValue<'ctx>, r: IntValue<'ctx>, name: &str) -> (res: Result<
    IntValue<'ctx>,
    BuilderError,
>)
    ensures
        res matches Ok(v) ==> final(log)@ == old(log)@.push(IrOp::IntArithmetic(v, BinaryOperator::Multiply, l, r)),
        res is Err ==> final(log)@ == old(log)@,
{
    builder.build_int_mul(l, r, name)
}

/// `Builder::build_float_mul`: recorded in the log, or the builder's error, with
/// nothing recorded.
#[verifier::external_body]
fn build_float_mul<'ctx>(log: &mut EmitLog<'ctx>, builder: &Builder<'ctx>, l: FloatValue<'ctx>, r: FloatValue<'ctx>, name: &str) -> (res: Result<
    FloatValue<'ctx>,
    BuilderError,
>)
    ensures
        res matches Ok(v) ==> final(log)@ == old(log)@.push(IrOp::FloatArithmetic(v, BinaryOperator::Multiply, l, r)),
        res is Err ==> final(log)@ == old(log)@,
{
    builder.build_float_mul(l, r, name)
}

/// `Builder::build_int_signed_div`: recorded in the log, or the builder's error, with
/// nothing recorded.
#[verifier::external_body]
fn build_int_signed_div<'ctx>(log: &mut EmitLog<'ctx>, builder: &Builder<'ctx>, l: IntValue<'ctx>, r: IntValue<'ctx>, name: &str) -> (res: Result<
    IntValue<'ctx>,
    BuilderError,
>)
    ensures
        res matches Ok(v) ==> final(log)@ == old(log)@.push(IrOp::IntArithmetic(v, BinaryOperator::Divide, l, r)),
        res is Err ==> final(log)@ == old(log)@,
{
    builder.build_int_signed_div(l, r, name)
}

/// `Builder::build_float_div`: recorded in the log, or the builder's error, with
/// nothing recorded.
#[verifier::external_body]
fn build_float_div<'ctx>(log: &mut EmitLog<'ctx>, builder: &Builder<'ctx>, l: FloatValue<'ctx>, r: FloatValue<'ctx>, name: &str) -> (res: Result<
    FloatValue<'ctx>,
    BuilderError,
>)
    ensures
        res matches Ok(v) ==> final(log)@ == old(log)@.push(IrOp::FloatArithmetic(v, BinaryOperator::Divide, l, r)),
        res is Err ==> final(log)@ == old(log)@,
{
    builder.build_float_div(l, r, name)
}

/// `Builder::build_int_signed_rem`: recorded in the log, or the builder's error, with
/// nothing recorded.
#[verifier::external_body]
fn build_int_signed_rem<'ctx>(log: &mut EmitLog<'ctx>, builder: &Builder<'ctx>, l: IntValue<'ctx>, r: IntValue<'ctx>, name: &str) -> (res: Result<
    IntValue<'ctx>,
    BuilderError,
>)
    ensures
        res matches Ok(v) ==> final(log)@ == old(log)@.push(IrOp::IntArithmetic(v, BinaryOperator::Modulo, l, r)),
        res is Err ==> final(log)@ == old(log)@,
{
    builder.build_int_signed_rem(l, r, name)
}

/// `Builder::build_float_rem`: recorded in the log, or the builder's error, with
/// nothing recorded.
#[verifier::external_body]
fn build_float_rem<'ctx>(log: &mut EmitLog<'ctx>, builder: &Builder<'ctx>, l: FloatValue<'ctx>, r: FloatValue<'ctx>, name: &str) -> (res: Result<
    FloatValue<'ctx>,
    BuilderError,
>)
    ensures
        res matches Ok(v) ==> final(log)@ == old(log)@.push(IrOp::FloatArithmetic(v, BinaryOperator::Modulo, l, r)),
        res is Err ==> final(log)@ == old(log)@,
{
    builder.build_float_rem(l, r, name)
}

/// The integer operation of arithmetic operator `op`.
fn int_arithmetic<'ctx>(
    log: &mut EmitLog<'ctx>,
    builder: &Builder<'ctx>,
    op: BinaryOperator,
    l: IntValue<'ctx>,
    r: IntValue<'ctx>,
) -> (res: Result<IntValue<'ctx>, BuilderError>)
    requires
        is_arithmetic(op),
    ensures
        res matches Ok(v) ==> final(log)@ == old(log)@.push(IrOp::IntArithmetic(v, op, l, r)),
        res is Err ==> final(log)@ == old(log)@,
{
    match op {
        BinaryOperator::Add => build_int_add(log, builder, l, r, "addtmp"),
        BinaryOperator::Subtract => build_int_sub(log, builder, l, r, "subtmp"),
        BinaryOperator::Multiply => build_int_mul(log, builder, l, r, "multmp"),
        BinaryOperator::Divide => build_int_signed_div(log, builder, l, r, "divtmp"),
        _ => build_int_signed_rem(log, builder, l, r, "modtmp"),
    }
}

/// The float operation of arithmetic operator `op`.
fn float_arithmetic<'ctx>(
    log: &mut EmitLog<'ctx>,
    builder: &Builder<'ctx>,
    op: BinaryOperator,
    l: FloatValue<'ctx>,
    r: FloatValue<'ctx>,
) -> (res: Result<FloatValue<'ctx>, BuilderError>)
    requires
        is_arithmetic(op),
    ensures
        res matches Ok(v) ==> final(log)@ == old(log)@.push(IrOp::FloatArithmetic(v, op, l, r)),
        res is Err ==> final(log)@ == old(log)@,
{
    match op {
        BinaryOperator::Add => build_float_add(log, builder, l, r, "faddtmp"),
        BinaryOperator::Subtract => build_float_sub(log, builder, l, r, "fsubtmp"),
        BinaryOperator::Multiply => build_float_mul(log, builder, l, r, "fmultmp"),
        BinaryOperator::Divide => build_float_div(log, builder, l, r, "fdivtmp"),
        _ => build_float_rem(log, builder, l, r, "fmodtmp"),
    }
}

/// The operations of arithmetic operator `op` on two numbers giving
/// `result`: two integers give an integer; otherwise an integer operand is
/// first converted (to `promoted`) and the floats give a float.
pub open spec fn numeric_ops<'ctx>(
    op: BinaryOperator,
    left: LlvmValue<'ctx>,
    right: LlvmValue<'ctx>,
    promoted: FloatValue<'ctx>,
    result: LlvmValue<'ctx>,
) -> Option<Seq<IrOp<'ctx>>> {
    match (left, right, result) {
        (LlvmValue::Int(l), LlvmValue::Int(r), LlvmValue::Int(x)) => Some(seq![IrOp::IntArithmetic(x, op, l, r)]),
        (LlvmValue::Float(l), LlvmValue::Float(r), LlvmValue::Float(x)) => Some(
            seq![IrOp::FloatArithmetic(x, op, l, r)],
        ),
        (LlvmValue::Int(l), LlvmValue::Float(r), LlvmValue::Float(x)) => Some(
            seq![IrOp::IntToFloat(promoted, l), IrOp::FloatArithmetic(x, op, promoted, r)],
        ),
        (LlvmValue::Float(l), LlvmValue::Int(r), LlvmValue::Float(x)) => Some(
            seq![IrOp::IntToFloat(promoted, r), IrOp::FloatArithmetic(x, op, l, promoted)],
        ),
        _ => None,
    }
}

/// Whether a value is a number (an integer or a float).
pub open spec fn is_number<'ctx>(v: LlvmValue<'ctx>) -> bool {
    v is Int || v is Float
}

/// Arithmetic operator `op` on two numbers (see [`numeric_ops`]); any
/// other operands are refused with the operator's message (see
/// [`arithmetic_message`]; strings and lists joined by `+` are planned
/// by [`crate::aot::arithmetic::arithmetic_plan`]). The first builder error
/// stops it; what was emitted before stays.
pub fn build_numeric<'ctx>(
    log: &mut EmitLog<'ctx>,
    context: &'ctx Context,
    builder: &Builder<'ctx>,
    op: BinaryOperator,
    left: LlvmValue<'ctx>,
    right: LlvmValue<'ctx>,
) -> (r: Result<LlvmValue<'ctx>, String>)
    requires
        is_arithmetic(op),
    ensures
        !(is_number(left) && is_number(right)) ==> (r matches Err(e) && e@ == arithmetic_message(op)) && final(log)@
            == old(log)@,
        r matches Ok(v) ==> exists|c: FloatValue<'ctx>, x: LlvmValue<'ctx>|
            x == v && #[trigger] numeric_ops(op, left, right, c, x) is Some && final(log)@ == old(log)@
                + numeric_ops(op, left, right, c, x)->0,
        is_number(left) && is_number(right) ==> (r matches Err(e) ==> is_builder_message(e@) && exists|
            c: FloatValue<'ctx>,
            x: LlvmValue<'ctx>,
            k: int,
        |
            numeric_ops(op, left, right, c, x) is Some && 0 <= k < numeric_ops(op, left, right, c, x)->0.len()
                && final(log)@ == old(log)@ + #[trigger] numeric_ops(op, left, right, c, x)->0.take(k)),
        is_number(left) && is_number(right) ==> !(r matches Err(e) && e@ == arithmetic_message(op)),
        r is Err ==> old(log)@.len() <= final(log)@.len() && final(log)@.take(old(log)@.len() as int) == old(log)@,
{
    let ghost start = log@;
    let ghost none: FloatValue<'ctx> = arbitrary();
    proof {
        lemma_arithmetic_message_not_builder(op);
    }
    match (left, right) {
        (LlvmValue::Int(l), LlvmValue::Int(rv)) => match int_arithmetic(log, builder, op, l, rv) {
            Ok(x) => {
                proof {
                    let c: FloatValue<'ctx> = arbitrary();
                    assert(numeric_ops(op, left, right, c, LlvmValue::Int(x)) == Some(seq![IrOp::IntArithmetic(x, op, l, rv)]));
                    assert(log@ =~= start + seq![IrOp::IntArithmetic(x, op, l, rv)]);
                }
                Ok(LlvmValue::Int(x))
            },
            Err(e) => {
                proof {
                    assert(log@.take(start.len() as int) =~= start);
                    let x = LlvmValue::Int(arbitrary());
                    assert(log@ =~= start + numeric_ops(op, left, right, none, x)->0.take(0));
                }
                Err(builder_error_text(e))
            },
        },
        (LlvmValue::Float(l), LlvmValue::Float(rv)) => match float_arithmetic(log, builder, op, l, rv) {
            Ok(x) => {
                proof {
                    let c: FloatValue<'ctx> = arbitrary();
                    assert(numeric_ops(op, left, right, c, LlvmValue::Float(x)) == Some(seq![IrOp::FloatArithmetic(x, op, l, rv)]));
                    assert(log@ =~= start + seq![IrOp::FloatArithmetic(x, op, l, rv)]);
                }
                Ok(LlvmValue::Float(x))
            },
            Err(e) => {
                proof {
                    assert(log@.take(start.len() as int) =~= start);
                    let x = LlvmValue::Float(arbitrary());
                    assert(log@ =~= start + numeric_ops(op, left, right, none, x)->0.take(0));
                }
                Err(builder_error_text(e))
            },
        },
        (LlvmValue::Int(l), LlvmValue::Float(rv)) => {
            let c = match build_int_to_float(log, context, builder, l, promotion_name(op, true)) {
                Ok(c) => c,
                Err(e) => {
                    proof {
                        assert(log@.take(start.len() as int) =~= start);
                        let x = LlvmValue::Float(arbitrary());
                        assert(log@ =~= start + numeric_ops(op, left, right, none, x)->0.take(0));
                    }
                    return Err(builder_error_text(e));
                },
            };
            match float_arithmetic(log, builder, op, c, rv) {
                Ok(x) => {
                    proof {
                        assert(log@ =~= start + seq![IrOp::IntToFloat(c, l), IrOp::FloatArithmetic(x, op, c, rv)]);
                        assert(numeric_ops(op, left, right, c, LlvmValue::Float(x)) == Some(
                            seq![IrOp::IntToFloat(c, l), IrOp::FloatArithmetic(x, op, c, rv)],
                        ));
                    }
                    Ok(LlvmValue::Float(x))
                },
                Err(e) => {
                    proof {
                        assert(log@.take(start.len() as int) =~= start);
                        let x = LlvmValue::Float(arbitrary());
                        assert(log@ =~= start + numeric_ops(op, left, right, c, x)->0.take(1));
                    }
                    Err(builder_error_text(e))
                },
            }
        },
        (LlvmValue::Float(l), LlvmValue::Int(rv)) => {
            let c = match build_int_to_float(log, context, builder, rv, promotion_name(op, false)) {
                Ok(c) => c,
                Err(e) => {
                    proof {
                        assert(log@.take(start.len() as int) =~= start);
                        let x = LlvmValue::Float(arbitrary());
                        assert(log@ =~= start + numeric_ops(op, left, right, none, x)->0.take(0));
                    }
                    return Err(builder_error_text(e));
                },
            };
            match float_arithmetic(log, builder, op, l, c) {
                Ok(x) => {
                    proof {
                        assert(log@ =~= start + seq![IrOp::IntToFloat(c, rv), IrOp::FloatArithmetic(x, op, l, c)]);
                        assert(numeric_ops(op, left, right, c, LlvmValue::Float(x)) == Some(
                            seq![IrOp::IntToFloat(c, rv), IrOp::FloatArithmetic(x, op, l, c)],
                        ));
                    }
                    Ok(LlvmValue::Float(x))
                },
                Err(e) => {
                    proof {
                        assert(log@.take(start.len() as int) =~= start);
                        let x = LlvmValue::Float(arbitrary());
                        assert(log@ =~= start + numeric_ops(op, left, right, c, x)->0.take(1));
                    }
                    Err(builder_error_text(e))
                },
            }
        },
        _ => Err(arithmetic_error(op)),
    }
}

/// The name of an operand of `op` converted to a float.
fn promotion_name(op: BinaryOperator, left: bool) -> &'static str {
    match op {
        BinaryOperator::Add => if left { "sitofp_add_l" } else { "sitofp_add_r" },
        BinaryOperator::Subtract => if left { "sitofp_sub_l" } else { "sitofp_sub_r" },
        BinaryOperator::Multiply => if left { "sitofp_mul_l" } else { "sitofp_mul_r" },
        BinaryOperator::Divide => if left { "sitofp_div_l" } else { "sitofp_div_r" },
        _ => if left { "sitofp_mod_l" } else { "sitofp_mod_r" },
    }
}

/// The message for arithmetic on operands it does not take (see
/// [`arithmetic_message`]).
fn arithmetic_error(op: BinaryOperator) -> (r: String)
    ensures
        r@ == arithmetic_message(op),
{
    let m = match op {
        BinaryOperator::Add => "add expects numeric, string, or list operands",
        BinaryOperator::Subtract => "sub expects numeric operands",
        BinaryOperator::Multiply => "mul expects numeric operands",
        BinaryOperator::Divide => "div expects numeric operands",
        _ => "mod expects numeric operands",
    };
    String::from_str(m)
}

/// `Builder::build_int_compare` with `IntPredicate::SGT`: recorded in the
/// log, or the builder's error, with nothing recorded.
#[verifier::external_body]
fn build_int_compare_sgt<'ctx>(log: &mut EmitLog<'ctx>, builder: &Builder<'ctx>, l: IntValue<'ctx>, r: IntValue<'ctx>) -> (res: Result<
    IntValue<'ctx>,
    BuilderError,
>)
    ensures
        res matches Ok(v) ==> final(log)@ == old(log)@.push(IrOp::IntCompare(v, BinaryOperator::Greater, l, r)),
        res is Err ==> final(log)@ == old(log)@,
{
    builder.build_int_compare(IntPredicate::SGT, l, r, "cmptmp")
}

/// `Builder::build_float_compare` with `FloatPredicate::OGT`: recorded in
/// the log, or the builder's error, with nothing recorded.
#[verifier::external_body]
fn build_float_compare_ogt<'ctx>(log: &mut EmitLog<'ctx>, builder: &Builder<'ctx>, l: FloatValue<'ctx>, r: FloatValue<'ctx>) -> (res: Result<
    IntValue<'ctx>,
    BuilderError,
>)
    ensures
        res matches Ok(v) ==> final(log)@ == old(log)@.push(IrOp::FloatCompare(v, BinaryOperator::Greater, l, r)),
        res is Err ==> final(log)@ == old(log)@,
{
    builder.build_float_compare(FloatPredicate::OGT, l, r, "fcmptmp")
}

/// `Builder::build_int_compare` with `IntPredicate::SGE`: recorded in the
/// log, or the builder's error, with nothing recorded.
#[verifier::external_body]
fn build_int_compare_sge<'ctx>(log: &mut EmitLog<'ctx>, builder: &Builder<'ctx>, l: IntValue<'ctx>, r: IntValue<'ctx>) -> (res: Result<
    IntValue<'ctx>,
    BuilderError,
>)
    ensures
        res matches Ok(v) ==> final(log)@ == old(log)@.push(IrOp::IntCompare(v, BinaryOperator::GreaterEqual, l, r)),
        res is Err ==> final(log)@ == old(log)@,
{
    builder.build_int_compare(IntPredicate::SGE, l, r, "cmptmp")
}

/// `Builder::build_float_compare` with `FloatPredicate::OGE`: recorded in
/// the log, or the builder's error, with nothing recorded.
#[verifier::external_body]
fn build_float_compare_oge<'ctx>(log: &mut EmitLog<'ctx>, builder: &Builder<'ctx>, l: FloatValue<'ctx>, r: FloatValue<'ctx>) -> (res: Result<
    IntValue<'ctx>,
    BuilderError,
>)
    ensures
        res matches Ok(v) ==> final(log)@ == old(log)@.push(IrOp::FloatCompare(v, BinaryOperator::GreaterEqual, l, r)),
        res is Err ==> final(log)@ == old(log)@,
{
    builder.build_float_compare(FloatPredicate::OGE, l, r, "fcmptmp")
}

/// `Builder::build_int_compare` with `IntPredicate::SLT`: recorded in the
/// log, or the builder's error, with nothing recorded.
#[verifier::external_body]
fn build_int_compare_slt<'ctx>(log: &mut EmitLog<'ctx>, builder: &Builder<'ctx>, l: IntValue<'ctx>, r: IntValue<'ctx>) -> (res: Result<
    IntValue<'ctx>,
    BuilderError,
>)
    ensures
        res matches Ok(v) ==> final(log)@ == old(log)@.push(IrOp::IntCompare(v, BinaryOperator::Less, l, r)),
        res is Err ==> final(log)@ == old(log)@,
{
    builder.build_int_compare(IntPredicate::SLT, l, r, "cmptmp")
}

/// `Builder::build_float_compare` with `FloatPredicate::OLT`: recorded in
/// the log, or the builder's error, with nothing recorded.
#[verifier::external_body]
fn build_float_compare_olt<'ctx>(log: &mut EmitLog<'ctx>, builder: &Builder<'ctx>, l: FloatValue<'ctx>, r: FloatValue<'ctx>) -> (res: Result<
    IntValue<'ctx>,
    BuilderError,
>)
    ensures
        res matches Ok(v) ==> final(log)@ == old(log)@.push(IrOp::FloatCompare(v, BinaryOperator::Less, l, r)),
        res is Err ==> final(log)@ == old(log)@,
{
    builder.build_float_compare(FloatPredicate::OLT, l, r, "fcmptmp")
}

/// `Builder::build_int_compare` with `IntPredicate::SLE`: recorded in the
/// log, or the builder's error, with nothing recorded.
#[verifier::external_body]
fn build_int_compare_sle<'ctx>(log: &mut EmitLog<'ctx>, builder: &Builder<'ctx>, l: IntValue<'ctx>, r: IntValue<'ctx>) -> (res: Result<
    IntValue<'ctx>,
    BuilderError,
>)
    ensures
        res matches Ok(v) ==> final(log)@ == old(log)@.push(IrOp::IntCompare(v, BinaryOperator::LessEqual, l, r)),
        res is Err ==> final(log)@ == old(log)@,
{
    builder.build_int_compare(IntPredicate::SLE, l, r, "cmptmp")
}

/// `Builder::build_float_compare` with `FloatPredicate::OLE`: recorded in
/// the log, or the builder's error, with nothing recorded.
#[verifier::external_body]
fn build_float_compare_ole<'ctx>(log: &mut EmitLog<'ctx>, builder: &Builder<'ctx>, l: FloatValue<'ctx>, r: FloatValue<'ctx>) -> (res: Result<
    IntValue<'ctx>,
    BuilderError,
>)
    ensures
        res matches Ok(v) ==> final(log)@ == old(log)@.push(IrOp::FloatCompare(v, BinaryOperator::LessEqual, l, r)),
        res is Err ==> final(log)@ == old(log)@,
{
    builder.build_float_compare(FloatPredicate::OLE, l, r, "fcmptmp")
}

/// Whether `op` is one of the comparison operators `> >= < <=`.
pub open spec fn is_comparison(op: BinaryOperator) -> bool {
    match op {
        BinaryOperator::Greater | BinaryOperator::GreaterEqual | BinaryOperator::Less
        | BinaryOperator::LessEqual => true,
        _ => false,
    }
}

/// The signed integer comparison of operator `op`.
fn int_compare<'ctx>(log: &mut EmitLog<'ctx>, builder: &Builder<'ctx>, op: BinaryOperator, l: IntValue<'ctx>, r: IntValue<'ctx>) -> (res: Result<
    IntValue<'ctx>,
    BuilderError,
>)
    requires
        is_comparison(op),
    ensures
        res matches Ok(v) ==> final(log)@ == old(log)@.push(IrOp::IntCompare(v, op, l, r)),
        res is Err ==> final(log)@ == old(log)@,
{
    match op {
        BinaryOperator::Greater => build_int_compare_sgt(log, builder, l, r),
        BinaryOperator::GreaterEqual => build_int_compare_sge(log, builder, l, r),
        BinaryOperator::Less => build_int_compare_slt(log, builder, l, r),
        _ => build_int_compare_sle(log, builder, l, r),
    }
}

/// The ordered float comparison of operator `op`.
fn float_compare<'ctx>(log: &mut EmitLog<'ctx>, builder: &Builder<'ctx>, op: BinaryOperator, l: FloatValue<'ctx>, r: FloatValue<'ctx>) -> (res: Result<
    IntValue<'ctx>,
    BuilderError,
>)
    requires
        is_comparison(op),
    ensures
        res matches Ok(v) ==> final(log)@ == old(log)@.push(IrOp::FloatCompare(v, op, l, r)),
        res is Err ==> final(log)@ == old(log)@,
{
    match op {
        BinaryOperator::Greater => build_float_compare_ogt(log, builder, l, r),
        BinaryOperator::GreaterEqual => build_float_compare_oge(log, builder, l, r),
        BinaryOperator::Less => build_float_compare_olt(log, builder, l, r),
        _ => build_float_compare_ole(log, builder, l, r),
    }
}

/// The operations of comparison operator `op` on two numbers giving
/// `result`: two integers are compared as integers; otherwise an integer
/// operand is first converted (to `promoted`) and the floats are compared.
pub open spec fn compare_ops<'ctx>(
    op: BinaryOperator,
    left: LlvmValue<'ctx>,
    right: LlvmValue<'ctx>,
    promoted: FloatValue<'ctx>,
    result: IntValue<'ctx>,
) -> Option<Seq<IrOp<'ctx>>> {
    match (left, right) {
        (LlvmValue::Int(l), LlvmValue::Int(r)) => Some(seq![IrOp::IntCompare(result, op, l, r)]),
        (LlvmValue::Float(l), LlvmValue::Float(r)) => Some(seq![IrOp::FloatCompare(result, op, l, r)]),
        (LlvmValue::Int(l), LlvmValue::Float(r)) => Some(
            seq![IrOp::IntToFloat(promoted, l), IrOp::FloatCompare(result, op, promoted, r)],
        ),
        (LlvmValue::Float(l), LlvmValue::Int(r)) => Some(
            seq![IrOp::IntToFloat(promoted, r), IrOp::FloatCompare(result, op, l, promoted)],
        ),
        _ => None,
    }
}

/// Comparison operator `op` on two numbers, giving a boolean (see
/// [`compare_ops`]); any other operands are refused. The first builder
/// error stops it; what was emitted before stays.
pub fn build_numeric_compare<'ctx>(
    log: &mut EmitLog<'ctx>,
    context: &'ctx Context,
    builder: &Builder<'ctx>,
    op: BinaryOperator,
    left: LlvmValue<'ctx>,
    right: LlvmValue<'ctx>,
) -> (r: Result<LlvmValue<'ctx>, String>)
    requires
        is_comparison(op),
    ensures
        !(is_number(left) && is_number(right)) ==> (r matches Err(e) && e@ == "comparison expects numeric operands"@)
            && final(log)@ == old(log)@,
        r matches Ok(v) ==> exists|c: FloatValue<'ctx>, b: IntValue<'ctx>|
            v == LlvmValue::Bool(b) && #[trigger] compare_ops(op, left, right, c, b) is Some && final(log)@ == old(log)@
                + compare_ops(op, left, right, c, b)->0,
        is_number(left) && is_number(right) ==> (r matches Err(e) ==> is_builder_message(e@) && exists|
            c: FloatValue<'ctx>,
            b: IntValue<'ctx>,
            k: int,
        |
            compare_ops(op, left, right, c, b) is Some && 0 <= k < compare_ops(op, left, right, c, b)->0.len()
                && final(log)@ == old(log)@ + #[trigger] compare_ops(op, left, right, c, b)->0.take(k)),
        is_number(left) && is_number(right) ==> !(r matches Err(e) && e@ == "comparison expects numeric operands"@),
        r is Err ==> old(log)@.len() <= final(log)@.len() && final(log)@.take(old(log)@.len() as int) == old(log)@,
{
    let ghost start = log@;
    let ghost mut c: FloatValue<'ctx> = arbitrary();
    let ghost none: IntValue<'ctx> = arbitrary();
    proof {
        reveal_strlit("comparison expects numeric operands");
        lemma_lowercase_not_builder_message("comparison expects numeric operands"@);
    }
    let res = match (left, right) {
        (LlvmValue::Int(l), LlvmValue::Int(rv)) => int_compare(log, builder, op, l, rv),
        (LlvmValue::Float(l), LlvmValue::Float(rv)) => float_compare(log, builder, op, l, rv),
        (LlvmValue::Int(l), LlvmValue::Float(rv)) => {
            let p = match build_int_to_float(log, context, builder, l, "sitofp_cmp_l") {
                Ok(p) => p,
                Err(e) => {
                    proof {
                        assert(log@.take(start.len() as int) =~= start);
                        assert(log@ =~= start + compare_ops(op, left, right, c, none)->0.take(0));
                    }
                    return Err(builder_error_text(e));
                },
            };
            proof {
                c = p;
            }
            float_compare(log, builder, op, p, rv)
        },
        (LlvmValue::Float(l), LlvmValue::Int(rv)) => {
            let p = match build_int_to_float(log, context, builder, rv, "sitofp_cmp_r") {
                Ok(p) => p,
                Err(e) => {
                    proof {
                        assert(log@.take(start.len() as int) =~= start);
                        assert(log@ =~= start + compare_ops(op, left, right, c, none)->0.take(0));
                    }
                    return Err(builder_error_text(e));
                },
            };
            proof {
                c = p;
            }
            float_compare(log, builder, op, l, p)
        },
        _ => return Err(String::from_str("comparison expects numeric operands")),
    };
    match res {
        Ok(b) => {
            proof {
                assert(compare_ops(op, left, right, c, b) is Some);
                assert(log@ =~= start + compare_ops(op, left, right, c, b)->0);
            }
            Ok(LlvmValue::Bool(b))
        },
        Err(e) => {
            proof {
                assert(log@.take(start.len() as int) =~= start);
                if left is Int && right is Int || left is Float && right is Float {
                    assert(log@ =~= start + compare_ops(op, left, right, c, none)->0.take(0));
                } else {
                    assert(log@ =~= start + compare_ops(op, left, right, c, none)->0.take(1));
                }
            }
            Err(builder_error_text(e))
        },
    }
}

/// `Builder::build_int_compare` with `IntPredicate::EQ`: recorded in the
/// log, or the builder's error, with nothing recorded.
#[verifier::external_body]
fn build_int_compare_eq<'ctx>(log: &mut EmitLog<'ctx>, builder: &Builder<'ctx>, l: IntValue<'ctx>, r: IntValue<'ctx>, name: &str) -> (res: Result<
    IntValue<'ctx>,
    BuilderError,
>)
    ensures
        res matches Ok(v) ==> final(log)@ == old(log)@.push(IrOp::IntCompare(v, BinaryOperator::Equal, l, r)),
        res is Err ==> final(log)@ == old(log)@,
{
    builder.build_int_compare(IntPredicate::EQ, l, r, name)
}

/// `Builder::build_float_compare` with `FloatPredicate::OEQ`: recorded in
/// the log, or the builder's error, with nothing recorded.
#[verifier::external_body]
fn build_float_compare_oeq<'ctx>(log: &mut EmitLog<'ctx>, builder: &Builder<'ctx>, l: FloatValue<'ctx>, r: FloatValue<'ctx>) -> (res: Result<
    IntValue<'ctx>,
    BuilderError,
>)
    ensures
        res matches Ok(v) ==> final(log)@ == old(log)@.push(IrOp::FloatCompare(v, BinaryOperator::Equal, l, r)),
        res is Err ==> final(log)@ == old(log)@,
{
    builder.build_float_compare(FloatPredicate::OEQ, l, r, "fcmptmp")
}

/// `Builder::build_int_compare` with `IntPredicate::NE`: recorded in the
/// log, or the builder's error, with nothing recorded.
#[verifier::external_body]
fn build_int_compare_ne<'ctx>(log: &mut EmitLog<'ctx>, builder: &Builder<'ctx>, l: IntValue<'ctx>, r: IntValue<'ctx>, name: &str) -> (res: Result<
    IntValue<'ctx>,
    BuilderError,
>)
    ensures
        res matches Ok(v) ==> final(log)@ == old(log)@.push(IrOp::IntCompare(v, BinaryOperator::NotEqual, l, r)),
        res is Err ==> final(log)@ == old(log)@,
{
    builder.build_int_compare(IntPredicate::NE, l, r, name)
}

/// `Builder::build_float_compare` with `FloatPredicate::ONE`: recorded in
/// the log, or the builder's error, with nothing recorded.
#[verifier::external_body]
fn build_float_compare_one<'ctx>(log: &mut EmitLog<'ctx>, builder: &Builder<'ctx>, l: FloatValue<'ctx>, r: FloatValue<'ctx>) -> (res: Result<
    IntValue<'ctx>,
    BuilderError,
>)
    ensures
        res matches Ok(v) ==> final(log)@ == old(log)@.push(IrOp::FloatCompare(v, BinaryOperator::NotEqual, l, r)),
        res is Err ==> final(log)@ == old(log)@,
{
    builder.build_float_compare(FloatPredicate::ONE, l, r, "fcmptmp")
}

/// The comparison operator an equality test emits: `==`, or `!=` when it
/// tests inequality.
pub open spec fn equality_operator(is_equal: bool) -> BinaryOperator {
    if is_equal {
        BinaryOperator::Equal
    } else {
        BinaryOperator::NotEqual
    }
}

/// The operations of testing two numbers or two booleans for equality (or
/// inequality) giving `result`: integers and booleans are compared as
/// integers; otherwise an integer operand is first converted (to
/// `promoted`) and the floats are compared (ordered).
pub open spec fn scalar_equality_ops<'ctx>(
    left: LlvmValue<'ctx>,
    right: LlvmValue<'ctx>,
    is_equal: bool,
    promoted: FloatValue<'ctx>,
    result: IntValue<'ctx>,
) -> Option<Seq<IrOp<'ctx>>> {
    let op = equality_operator(is_equal);
    match (left, right) {
        (LlvmValue::Int(l), LlvmValue::Int(r)) => Some(seq![IrOp::IntCompare(result, op, l, r)]),
        (LlvmValue::Bool(l), LlvmValue::Bool(r)) => Some(seq![IrOp::IntCompare(result, op, l, r)]),
        (LlvmValue::Float(l), LlvmValue::Float(r)) => Some(seq![IrOp::FloatCompare(result, op, l, r)]),
        (LlvmValue::Int(l), LlvmValue::Float(r)) => Some(
            seq![IrOp::IntToFloat(promoted, l), IrOp::FloatCompare(result, op, promoted, r)],
        ),
        (LlvmValue::Float(l), LlvmValue::Int(r)) => Some(
            seq![IrOp::IntToFloat(promoted, r), IrOp::FloatCompare(result, op, l, promoted)],
        ),
        _ => None,
    }
}

/// Whether two values are numbers, or both booleans: the operands
/// [`build_scalar_equality`] takes.
pub open spec fn scalar_operands<'ctx>(left: LlvmValue<'ctx>, right: LlvmValue<'ctx>) -> bool {
    (is_number(left) && is_number(right)) || (left is Bool && right is Bool)
}

/// Testing two numbers or two booleans for equality, or inequality when
/// `is_equal` is false (see [`scalar_equality_ops`]), giving a boolean;
/// the equality of strings, collections, structs, closures and optionals
/// goes by the runtime (see [`crate::aot::compare::equality_plan`]). The
/// first builder error stops it; what was emitted before stays.
pub fn build_scalar_equality<'ctx>(
    log: &mut EmitLog<'ctx>,
    context: &'ctx Context,
    builder: &Builder<'ctx>,
    left: LlvmValue<'ctx>,
    right: LlvmValue<'ctx>,
    is_equal: bool,
) -> (r: Result<LlvmValue<'ctx>, String>)
    requires
        scalar_operands(left, right),
    ensures
        r matches Ok(v) ==> exists|c: FloatValue<'ctx>, b: IntValue<'ctx>|
            v == LlvmValue::Bool(b) && #[trigger] scalar_equality_ops(left, right, is_equal, c, b) is Some
                && final(log)@ == old(log)@ + scalar_equality_ops(left, right, is_equal, c, b)->0,
        r matches Err(e) ==> is_builder_message(e@) && exists|c: FloatValue<'ctx>, b: IntValue<'ctx>, k: int|
            scalar_equality_ops(left, right, is_equal, c, b) is Some && 0 <= k < scalar_equality_ops(
                left,
                right,
                is_equal,
                c,
                b,
            )->0.len() && final(log)@ == old(log)@ + #[trigger] scalar_equality_ops(left, right, is_equal, c, b)->0.take(k),
        r is Err ==> old(log)@.len() <= final(log)@.len() && final(log)@.take(old(log)@.len() as int) == old(log)@,
{
    let ghost start = log@;
    let ghost mut c: FloatValue<'ctx> = arbitrary();
    let ghost none: IntValue<'ctx> = arbitrary();
    let res = match (left, right) {
        (LlvmValue::Int(l), LlvmValue::Int(rv)) => if is_equal {
            build_int_compare_eq(log, builder, l, rv, "cmptmp")
        } else {
            build_int_compare_ne(log, builder, l, rv, "cmptmp")
        },
        (LlvmValue::Bool(l), LlvmValue::Bool(rv)) => if is_equal {
            build_int_compare_eq(log, builder, l, rv, "beqtmp")
        } else {
            build_int_compare_ne(log, builder, l, rv, "beqtmp")
        },
        (LlvmValue::Float(l), LlvmValue::Float(rv)) => if is_equal {
            build_float_compare_oeq(log, builder, l, rv)
        } else {
            build_float_compare_one(log, builder, l, rv)
        },
        (LlvmValue::Int(l), LlvmValue::Float(rv)) => {
            let p = match build_int_to_float(log, context, builder, l, "sitofp_eq_l") {
                Ok(p) => p,
                Err(e) => {
                    proof {
                        assert(log@.take(start.len() as int) =~= start);
                        assert(log@ =~= start + scalar_equality_ops(left, right, is_equal, c, none)->0.take(0));
                    }
                    return Err(builder_error_text(e));
                },
            };
            proof {
                c = p;
            }
            if is_equal {
                build_float_compare_oeq(log, builder, p, rv)
            } else {
                build_float_compare_one(log, builder, p, rv)
            }
        },
        (LlvmValue::Float(l), LlvmValue::Int(rv)) => {
            let p = match build_int_to_float(log, context, builder, rv, "sitofp_eq_r") {
                Ok(p) => p,
                Err(e) => {
                    proof {
                        assert(log@.take(start.len() as int) =~= start);
                        assert(log@ =~= start + scalar_equality_ops(left, right, is_equal, c, none)->0.take(0));
                    }
                    return Err(builder_error_text(e));
                },
            };
            proof {
                c = p;
            }
            if is_equal {
                build_float_compare_oeq(log, builder, l, p)
            } else {
                build_float_compare_one(log, builder, l, p)
            }
        },
        _ => {
            proof {
                assert(false);
            }
            return Err(String::new());
        },
    };
    match res {
        Ok(b) => {
            proof {
                assert(scalar_equality_ops(left, right, is_equal, c, b) is Some);
                assert(log@ =~= start + scalar_equality_ops(left, right, is_equal, c, b)->0);
            }
            Ok(LlvmValue::Bool(b))
        },
        Err(e) => {
            proof {
                assert(log@.take(start.len() as int) =~= start);
                if left is Int && right is Float || left is Float && right is Int {
                    assert(log@ =~= start + scalar_equality_ops(left, right, is_equal, c, none)->0.take(1));
                } else {
                    assert(log@ =~= start + scalar_equality_ops(left, right, is_equal, c, none)->0.take(0));
                }
            }
            Err(builder_error_text(e))
        },
    }
}

/// `Builder::build_is_null`: the `i1` that says whether the pointer is
/// null, recorded in the log, or the builder's error, with nothing
/// recorded.
#[verifier::external_body]
fn build_is_null<'ctx>(log: &mut EmitLog<'ctx>, builder: &Builder<'ctx>, ptr: PointerValue<'ctx>, name: &str) -> (r: Result<
    IntValue<'ctx>,
    BuilderError,
>)
    ensures
        r matches Ok(v) ==> final(log)@ == old(log)@.push(IrOp::IsNull(v, ptr)),
        r is Err ==> final(log)@ == old(log)@,
{
    builder.build_is_null(ptr, name)
}

/// What comparing a string with nil records: whether its pointer is null
/// (`truth`), negated to `result` for an inequality (else `result` is
/// `truth`).
pub open spec fn null_string_ops<'ctx>(
    ptr: PointerValue<'ctx>,
    is_equal: bool,
    truth: IntValue<'ctx>,
    result: IntValue<'ctx>,
) -> Seq<IrOp<'ctx>> {
    seq![IrOp::IsNull(truth, ptr)] + (if is_equal {
        Seq::empty()
    } else {
        seq![IrOp::Not(result, truth)]
    })
}

/// Compares a string with nil (see
/// [`crate::aot::compare::EqualityPlan::NullString`]), or tests that they
/// differ when `is_equal` is false: a string is nil when its pointer is
/// null (see [`null_string_ops`]). A builder error stops it; what was
/// emitted before stays.
pub fn build_null_string_equality<'ctx>(
    log: &mut EmitLog<'ctx>,
    builder: &Builder<'ctx>,
    ptr: PointerValue<'ctx>,
    is_equal: bool,
) -> (r: Result<IntValue<'ctx>, String>)
    ensures
        r matches Ok(b) ==> exists|truth: IntValue<'ctx>, x: IntValue<'ctx>|
            x == b && (is_equal ==> truth == x) && final(log)@ == old(log)@ + #[trigger] null_string_ops(
                ptr,
                is_equal,
                truth,
                x,
            ),
        r matches Err(e) ==> is_builder_message(e@) && exists|truth: IntValue<'ctx>, k: int|
            0 <= k < null_string_ops(ptr, is_equal, truth, truth).len() && final(log)@ == old(log)@
                + #[trigger] null_string_ops(ptr, is_equal, truth, truth).take(k),
{
    let ghost start = log@;
    let truth = match build_is_null(log, builder, ptr, "str_is_null") {
        Ok(t) => t,
        Err(e) => {
            proof {
                let t: IntValue<'ctx> = arbitrary();
                assert(log@ =~= start + null_string_ops(ptr, is_equal, t, t).take(0));
            }
            return Err(builder_error_text(e));
        },
    };
    if is_equal {
        proof {
            assert(log@ =~= start + null_string_ops(ptr, is_equal, truth, truth));
        }
        return Ok(truth);
    }
    match build_not(log, builder, truth, "str_not_null") {
        Ok(v) => {
            proof {
                assert(log@ =~= start + null_string_ops(ptr, is_equal, truth, v));
            }
            Ok(v)
        },
        Err(e) => {
            proof {
                assert(log@ =~= start + null_string_ops(ptr, is_equal, truth, truth).take(1));
            }
            Err(builder_error_text(e))
        },
    }
}

/// Compares nil with nil (see [`crate::aot::compare::EqualityPlan::Nils`]):
/// the `i1` constant true for an equality, false for an inequality.
pub fn build_nils_equality<'ctx>(log: &mut EmitLog<'ctx>, context: &'ctx Context, is_equal: bool) -> (r: IntValue<'ctx>)
    ensures
        final(log)@ == old(log)@.push(IrOp::Constant(r, 1, if is_equal { 1 } else { 0 })),
{
    const_i1(log, context, if is_equal { 1 } else { 0 })
}

/// Testing for inequality emits what testing for equality emits, with
/// `!=` in place of `==` in the comparison.
pub proof fn lemma_inequality_negates_equality<'ctx>(
    left: LlvmValue<'ctx>,
    right: LlvmValue<'ctx>,
    promoted: FloatValue<'ctx>,
    result: IntValue<'ctx>,
)
    requires
        scalar_operands(left, right),
    ensures
        scalar_equality_ops(left, right, true, promoted, result) is Some,
        scalar_equality_ops(left, right, false, promoted, result) == Some(
            scalar_equality_ops(left, right, true, promoted, result)->0.map_values(
                |o: IrOp<'ctx>| negated(o),
            ),
        ),
{
    let eq = scalar_equality_ops(left, right, true, promoted, result)->0;
    assert(scalar_equality_ops(left, right, false, promoted, result)->0 =~= eq.map_values(
        |o: IrOp<'ctx>| negated(o),
    ));
}

/// An operation with its `==` comparison turned into `!=`.
pub open spec fn negated<'ctx>(o: IrOp<'ctx>) -> IrOp<'ctx> {
    match o {
        IrOp::IntCompare(v, BinaryOperator::Equal, l, r) => IrOp::IntCompare(v, BinaryOperator::NotEqual, l, r),
        IrOp::FloatCompare(v, BinaryOperator::Equal, l, r) => IrOp::FloatCompare(v, BinaryOperator::NotEqual, l, r),
        _ => o,
    }
}

/// `Builder::build_call` with no arguments: the call, recorded in the log
/// with its result when it has one, or the builder's error, with nothing
/// recorded.
#[verifier::external_body]
pub(crate) fn build_nullary_call<'ctx>(log: &mut EmitLog<'ctx>, builder: &Builder<'ctx>, function: FunctionValue<'ctx>, name: &str) -> (r: Result<
    Option<BasicValueEnum<'ctx>>,
    BuilderError,
>)
    ensures
        r matches Ok(v) ==> final(log)@ == old(log)@.push(IrOp::NullaryCall(function, v)),
        r is Err ==> final(log)@ == old(log)@,
{
    builder.build_call(function, &[], name).map(|call| call.try_as_basic_value().left())
}

/// `Builder::build_call` with pointer arguments: the call, recorded in the
/// log with its result when that is an integer, or the builder's error,
/// with nothing recorded.
#[verifier::external_body]
pub(crate) fn build_pointer_call<'ctx>(
    log: &mut EmitLog<'ctx>,
    builder: &Builder<'ctx>,
    function: FunctionValue<'ctx>,
    args: &[PointerValue<'ctx>],
    name: &str,
) -> (r: Result<Option<IntValue<'ctx>>, BuilderError>)
    ensures
        r matches Ok(v) ==> final(log)@ == old(log)@.push(IrOp::Call(function, args@, v)),
        r is Err ==> final(log)@ == old(log)@,
{
    let values: Vec<BasicMetadataValueEnum<'ctx>> = args.iter().map(|a| (*a).into()).collect();
    builder.build_call(function, &values, name).map(|call| match call.try_as_basic_value().left() {
        Some(BasicValueEnum::IntValue(v)) => Some(v),
        _ => None,
    })
}

/// `Builder::build_int_truncate` to `i1`: recorded in the log, or the
/// builder's error, with nothing recorded.
#[verifier::external_body]
pub(crate) fn build_truncate_to_bool<'ctx>(
    log: &mut EmitLog<'ctx>,
    context: &'ctx Context,
    builder: &Builder<'ctx>,
    value: IntValue<'ctx>,
    name: &str,
) -> (r: Result<IntValue<'ctx>, BuilderError>)
    ensures
        r matches Ok(v) ==> final(log)@ == old(log)@.push(IrOp::Truncate(v, value)),
        r is Err ==> final(log)@ == old(log)@,
{
    builder.build_int_truncate(value, context.bool_type(), name)
}

/// `Builder::build_not`: recorded in the log, or the builder's error, with
/// nothing recorded.
#[verifier::external_body]
pub(crate) fn build_not<'ctx>(log: &mut EmitLog<'ctx>, builder: &Builder<'ctx>, value: IntValue<'ctx>, name: &str) -> (r:
    Result<IntValue<'ctx>, BuilderError>)
    ensures
        r matches Ok(v) ==> final(log)@ == old(log)@.push(IrOp::Not(v, value)),
        r is Err ==> final(log)@ == old(log)@,
{
    builder.build_not(value, name)
}

} // verus!
