//! Declaring into an LLVM module: the LLVM types of values and functions,
//! the globals of top-level bindings, and function declarations. The
//! verified functions decide what is declared and keep the back end's
//! tables; the LLVM objects are opaque here.
use vstd::prelude::*;

use crate::aot::backend::{
    basic_kind, basic_kind_of, check_global_slot, function_shape, global_slot_check,
    global_symbol, global_symbol_name, slot_views, span_description, BasicKind,
};
use crate::aot::functions::{declared_signature, function_body_symbols, instance_signature_types, instance_values};
use crate::aot::collect::{resolved_value_type_in, tables_after_resolving};
use crate::aot::globals::{binding_type_at, global_bindings, global_bindings_of};
use crate::aot::ir::{models, EmitLog, IrOp, IrType, Typed, TypedFunction};
use crate::aot::compare::{conversion, conversion_plan, Conversion, RuntimeEquality};
use crate::aot::llvm::{
    add_function_attributes, attribute_ops, boxing_ops, build_not, build_nullary_call, build_pointer_call,
    build_truncate_to_bool, builder_error_text, expr_to_tea_value, is_builder_message, LlvmValue, TeaValueNodes,
};
use crate::aot::runtime::{
    runtime_layout, runtime_params, runtime_result, runtime_struct_name, runtime_symbol, runtime_fields, runtime_function_params, runtime_function_result, runtime_function_symbol, runtime_name,
    RuntimeField, RuntimeFunction, RuntimeStruct, RuntimeType,
};
use crate::aot::scopes::GenericBindings;
use crate::aot::statements::{is_small_function, statement_count, SMALL_FUNCTION_LIMIT};
use crate::aot::structs::{bases_view, variants_view, StructMetadata};
use crate::aot::type_parser::generic_value_types;
use crate::aot::closures::{lambda_function_name, lambda_symbol};
use crate::aot::types::{
    clone_value_type, mangle_function_name, mangled_name, value_types_view, FunctionSignature, GlobalBindingSlot,
    IrRef, LambdaSignature, SpecValueType, ValueType,
};
use crate::ast::{FunctionStatement, SourceSpan, Statement};
use crate::typechecker::SpecType;
use crate::names::NameMap;
use crate::typechecker::{types_view, FunctionInstance, Type};
use inkwell::context::Context;
use inkwell::builder::Builder;
use inkwell::module::Linkage;
use inkwell::module::Module as LlvmModule;
use inkwell::types::{BasicMetadataTypeEnum, BasicType, BasicTypeEnum, FunctionType};
use inkwell::types::StructType as LlvmStructType;
use inkwell::values::{BasicValueEnum, FunctionValue, GlobalValue, IntValue, PointerValue};
use inkwell::AddressSpace;

verus! {

#[verifier::external_type_specification]
#[verifier::external_body]
pub struct ExLlvmModule<'ctx>(LlvmModule<'ctx>);

#[verifier::external_type_specification]
#[verifier::external_body]
pub struct ExGlobalValue<'ctx>(GlobalValue<'ctx>);

#[verifier::external_type_specification]
#[verifier::external_body]
pub struct ExFunctionType<'ctx>(FunctionType<'ctx>);

#[verifier::external_type_specification]
#[verifier::external_body]
pub struct ExBasicTypeEnum<'ctx>(BasicTypeEnum<'ctx>);

#[verifier::external_type_specification]
#[verifier::external_body]
pub struct ExBasicMetadataTypeEnum<'ctx>(BasicMetadataTypeEnum<'ctx>);

/// `Context::i64_type`, as a basic type: LLVM's `i64`.
#[verifier::external_body]
fn i64_basic<'ctx>(context: &'ctx Context) -> (r: Typed<'ctx>)
    ensures
        r.model() == IrType::<'ctx>::Int(64),
{
    Typed { ty: context.i64_type().as_basic_type_enum(), model: Ghost(IrType::Int(64)) }
}

/// `Context::i32_type`, as a basic type: LLVM's `i32`.
#[verifier::external_body]
fn i32_basic<'ctx>(context: &'ctx Context) -> (r: Typed<'ctx>)
    ensures
        r.model() == IrType::<'ctx>::Int(32),
{
    Typed { ty: context.i32_type().as_basic_type_enum(), model: Ghost(IrType::Int(32)) }
}

/// `Context::i8_type`, as a basic type: LLVM's `i8`.
#[verifier::external_body]
fn i8_basic<'ctx>(context: &'ctx Context) -> (r: Typed<'ctx>)
    ensures
        r.model() == IrType::<'ctx>::Int(8),
{
    Typed { ty: context.i8_type().as_basic_type_enum(), model: Ghost(IrType::Int(8)) }
}

/// `Context::bool_type`, as a basic type: LLVM's `i1`.
#[verifier::external_body]
fn bool_basic<'ctx>(context: &'ctx Context) -> (r: Typed<'ctx>)
    ensures
        r.model() == IrType::<'ctx>::Int(1),
{
    Typed { ty: context.bool_type().as_basic_type_enum(), model: Ghost(IrType::Int(1)) }
}

/// `Context::f64_type`, as a basic type: LLVM's `double`.
#[verifier::external_body]
fn f64_basic<'ctx>(context: &'ctx Context) -> (r: Typed<'ctx>)
    ensures
        r.model() == IrType::<'ctx>::Double,
{
    Typed { ty: context.f64_type().as_basic_type_enum(), model: Ghost(IrType::Double) }
}

/// `IntType::ptr_type` of `i8` in the default address space, as a basic
/// type: a byte pointer.
#[verifier::external_body]
fn byte_pointer<'ctx>(context: &'ctx Context) -> (r: Typed<'ctx>)
    ensures
        r.model() == IrType::<'ctx>::BytePointer,
{
    Typed {
        ty: context.i8_type().ptr_type(AddressSpace::default()).as_basic_type_enum(),
        model: Ghost(IrType::BytePointer),
    }
}

/// A struct type as a basic type (inkwell's `as_basic_type_enum`).
#[verifier::external_body]
fn struct_basic<'ctx>(ty: LlvmStructType<'ctx>) -> (r: Typed<'ctx>)
    ensures
        r.model() == IrType::<'ctx>::Struct(ty),
{
    Typed { ty: ty.as_basic_type_enum(), model: Ghost(IrType::Struct(ty)) }
}

/// The LLVM type of a machine representation: 64-bit integers and floats,
/// `i1` for booleans, a byte pointer for every heap value, and
/// `tea_value` for tagged values.
pub open spec fn kind_ir_type<'ctx>(kind: BasicKind, tea_value: LlvmStructType<'ctx>) -> IrType<'ctx> {
    match kind {
        BasicKind::Int64 => IrType::Int(64),
        BasicKind::Float64 => IrType::Double,
        BasicKind::Bool => IrType::Int(1),
        BasicKind::TaggedValue => IrType::Struct(tea_value),
        _ => IrType::BytePointer,
    }
}

/// The LLVM type that holds a value of a type, if it has one (see
/// [`basic_kind_of`]).
pub open spec fn value_ir_type<'ctx>(t: SpecValueType, tea_value: LlvmStructType<'ctx>) -> Option<IrType<'ctx>> {
    match basic_kind_of(t) {
        Some(k) => Some(kind_ir_type(k, tea_value)),
        None => None,
    }
}

/// The LLVM type of a machine representation (see [`kind_ir_type`]).
pub fn basic_type_of_kind<'ctx>(context: &'ctx Context, tea_value: LlvmStructType<'ctx>, kind: BasicKind) -> (r: Typed<
    'ctx,
>)
    ensures
        r.model() == kind_ir_type(kind, tea_value),
{
    match kind {
        BasicKind::Int64 => i64_basic(context),
        BasicKind::Float64 => f64_basic(context),
        BasicKind::Bool => bool_basic(context),
        BasicKind::StringPointer | BasicKind::ListPointer | BasicKind::DictPointer
        | BasicKind::ClosurePointer | BasicKind::StructPointer | BasicKind::ErrorPointer => byte_pointer(context),
        BasicKind::TaggedValue => struct_basic(tea_value),
    }
}

/// The LLVM type that holds a value of the given type (see
/// [`value_ir_type`]); `Void` holds no value.
pub fn basic_type<'ctx>(context: &'ctx Context, tea_value: LlvmStructType<'ctx>, ty: &ValueType) -> (r: Result<
    Typed<'ctx>,
    String,
>)
    ensures
        r is Ok <==> basic_kind_of(ty@) is Some,
        r matches Ok(t) ==> value_ir_type(ty@, tea_value) == Some(t.model()),
        r matches Err(e) ==> e@ == "void type is not a value"@,
{
    match basic_kind(ty) {
        Ok(kind) => Ok(basic_type_of_kind(context, tea_value, kind)),
        Err(e) => Err(e),
    }
}

/// `BasicTypeEnum::const_zero`: the zero (or null) constant of a type,
/// recorded in the log.
#[verifier::external_body]
fn zero_of<'ctx>(log: &mut EmitLog<'ctx>, ty: &Typed<'ctx>) -> (r: BasicValueEnum<'ctx>)
    ensures
        final(log)@ == old(log)@.push(IrOp::Zero(r, ty.model())),
{
    ty.ty.const_zero()
}

/// `Module::add_global` in the default address space: a new global of type
/// `ty` asked to be named `name`, recorded in the log with the name asked
/// for.
#[verifier::external_body]
fn add_global<'ctx>(log: &mut EmitLog<'ctx>, module: &LlvmModule<'ctx>, ty: &Typed<'ctx>, name: &str) -> (r: GlobalValue<
    'ctx,
>)
    ensures
        final(log)@ == old(log)@.push(IrOp::Global(r, name@, ty.model())),
{
    module.add_global(ty.ty, None, name)
}

/// `GlobalValue::set_linkage` with `Linkage::Private`, recorded in the log.
#[verifier::external_body]
fn set_private_linkage<'ctx>(log: &mut EmitLog<'ctx>, global: GlobalValue<'ctx>)
    ensures
        final(log)@ == old(log)@.push(IrOp::PrivateLinkage(global)),
{
    global.set_linkage(Linkage::Private)
}

/// `GlobalValue::set_initializer`, recorded in the log.
#[verifier::external_body]
fn set_initializer<'ctx>(log: &mut EmitLog<'ctx>, global: GlobalValue<'ctx>, value: BasicValueEnum<'ctx>)
    ensures
        final(log)@ == old(log)@.push(IrOp::Initializer(global, value)),
{
    global.set_initializer(&value)
}

/// What making the global of top-level binding `name` of LLVM type `ty`
/// records: the global under its symbol (see [`global_symbol`]), made
/// private, and initialised to the zero of its type.
pub open spec fn global_ops<'ctx>(g: GlobalValue<'ctx>, zero: BasicValueEnum<'ctx>, name: Seq<char>, ty: IrType<'ctx>) -> Seq<
    IrOp<'ctx>,
> {
    seq![
        IrOp::Global(g, global_symbol(name), ty),
        IrOp::PrivateLinkage(g),
        IrOp::Zero(zero, ty),
        IrOp::Initializer(g, zero),
    ]
}

/// The message for a slot whose global is not among those made.
pub open spec fn missing_global_message(name: Seq<char>) -> Seq<char> {
    "missing global for top-level binding '"@ + name + "'"@
}

/// The slot table after `ensure_global_slot` made a new slot for `name`.
pub open spec fn with_new_slot(
    slots: Map<Seq<char>, GlobalBindingSlot>,
    name: Seq<char>,
    pointer: IrRef,
    ty: SpecValueType,
    mutable: bool,
) -> bool {
    &&& slots.dom().contains(name)
    &&& slots[name].pointer == pointer
    &&& slots[name].ty@ == ty
    &&& slots[name].mutable == mutable
    &&& !slots[name].initialized
}

/// Finds or makes the private global that holds top-level binding `name`
/// (see [`global_slot_check`]): a binding met before must keep its type
/// and mutability, and gets its global back; a new binding gets a new
/// private global of its type, initialised to zero, recorded at the end of
/// `globals` and in a new slot that points at it.
pub fn ensure_global_slot<'ctx>(
    log: &mut EmitLog<'ctx>,
    context: &'ctx Context,
    module: &LlvmModule<'ctx>,
    tea_value: LlvmStructType<'ctx>,
    slots: &mut NameMap<GlobalBindingSlot>,
    globals: &mut Vec<GlobalValue<'ctx>>,
    name: &str,
    ty: &ValueType,
    mutable: bool,
) -> (r: Result<GlobalValue<'ctx>, String>)
    ensures
        match global_slot_check(slot_views(old(slots)@), name@, ty@, mutable) {
            Err(e) => r matches Err(m) && m@ == e && final(slots)@ == old(slots)@ && final(globals)@
                == old(globals)@,
            Ok(Some(p)) => final(slots)@ == old(slots)@ && final(globals)@ == old(globals)@ && (
            p < old(globals)@.len() <==> r is Ok) && (r matches Err(m) ==> m@ == missing_global_message(
                name@,
            )) && (p < old(globals)@.len() ==> r == Ok::<GlobalValue<'ctx>, String>(old(globals)@[p as int])),
            Ok(None) => if basic_kind_of(ty@) is Some {
                &&& r is Ok
                &&& final(globals)@.len() == old(globals)@.len() + 1
                &&& r == Ok::<GlobalValue<'ctx>, String>(final(globals)@[old(globals)@.len() as int])
                &&& final(globals)@.take(old(globals)@.len() as int) == old(globals)@
                &&& final(slots)@.dom() == old(slots)@.dom().insert(name@)
                &&& forall|k: Seq<char>|
                    k != name@ && #[trigger] old(slots)@.dom().contains(k) ==> final(slots)@[k]
                        == old(slots)@[k]
                &&& with_new_slot(final(slots)@, name@, old(globals)@.len() as IrRef, ty@, mutable)
                &&& slot_views(final(slots)@) == slot_views(old(slots)@).insert(
                    name@,
                    (ty@, mutable, old(globals)@.len() as IrRef),
                )
            } else {
                &&& r matches Err(m) && m@ == "void type is not a value"@
                &&& final(slots)@ == old(slots)@
                &&& final(globals)@ == old(globals)@
            },
        },
        final(slots)@.dom().contains(name@) || r is Err,
        old(slots)@.dom().subset_of(final(slots)@.dom()),
        r matches Ok(g) ==> (global_slot_check(slot_views(old(slots)@), name@, ty@, mutable) == Ok::<
            Option<IrRef>,
            Seq<char>,
        >(None) ==> final(log)@ == old(log)@ + global_ops(
            g,
            final(log)@[old(log)@.len() + 2int]->Zero_0,
            name@,
            value_ir_type(ty@, tea_value)->0,
        )),
        !(global_slot_check(slot_views(old(slots)@), name@, ty@, mutable) matches Ok(None) && basic_kind_of(ty@) is Some)
            ==> final(log)@ == old(log)@,
{
    match check_global_slot(slots, name, ty, mutable) {
        Err(e) => Err(e),
        Ok(Some(index)) => {
            if index < globals.len() as u64 {
                Ok(globals[index as usize])
            } else {
                let mut msg = String::from_str("missing global for top-level binding '");
                msg.append(name);
                msg.append("'");
                Err(msg)
            }
        },
        Ok(None) => {
            let basic = match basic_type(context, tea_value, ty) {
                Ok(b) => b,
                Err(e) => return Err(e),
            };
            let symbol = global_symbol_name(name);
            let global = add_global(log, module, &basic, symbol.as_str());
            set_private_linkage(log, global);
            let zero = zero_of(log, &basic);
            set_initializer(log, global, zero);
            proof {
                assert(log@ =~= old(log)@ + global_ops(global, zero, name@, basic.model()));
            }
            let pointer = globals.len() as u64;
            let ghost before = globals@;
            globals.push(global);
            proof {
                assert(globals@.take(before.len() as int) =~= before);
            }
            let ghost old_slots = slots@;
            slots.insert(
                String::from_str(name),
                GlobalBindingSlot {
                    pointer,
                    ty: clone_value_type(ty),
                    mutable,
                    initialized: false,
                },
            );
            proof {
                assert(slot_views(slots@) =~= slot_views(old_slots).insert(
                    name@,
                    (ty@, mutable, pointer),
                ));
                assert(value_ir_type(ty@, tea_value)->0 == basic.model());
                assert(log@ == old(log)@ + global_ops(global, zero, name@, value_ir_type(ty@, tea_value)->0));
            }
            Ok(global)
        },
    }
}

/// What the slot tables of top-level bindings are threaded through: the
/// field types and bases of struct types, the slots (type, mutability,
/// global), and the number of globals made.
pub type GlobalsState = (
    Map<Seq<char>, Seq<SpecValueType>>,
    Map<Seq<char>, Seq<char>>,
    Map<Seq<char>, (SpecValueType, bool, IrRef)>,
    nat,
);

/// Making the global of one top-level binding `(name, span, mutable)` from
/// state `st` (see [`crate::aot::globals::global_binding_plan`] and
/// [`ensure_global_slot`]): its checked type is looked up and resolved
/// against the struct tables (which may record its struct type), then
/// checked against its slot; a new binding of a value type gets a new
/// slot for the next global. The outcome, and the state after it.
pub open spec fn global_step(
    st: GlobalsState,
    m: StructMetadata,
    scopes: Seq<NameMap<(Type, ValueType)>>,
    table: Seq<(SourceSpan, Type)>,
    binding: (Seq<char>, SourceSpan, bool),
) -> (Result<(), Seq<char>>, GlobalsState) {
    let (variants, bases, slots, n) = st;
    let (name, span, mutable) = binding;
    match binding_type_at(table, span) {
        None => (
            Err(
                "missing type information for top-level binding '"@ + name + "' at "@
                    + span_description(span),
            ),
            st,
        ),
        Some(t) => {
            let (v2, b2) = tables_after_resolving(variants, bases, m, scopes, t);
            match resolved_value_type_in(variants.dom(), m, scopes, t) {
                Err(e) => (Err(e), (v2, b2, slots, n)),
                Ok(v) => match global_slot_check(slots, name, v, mutable) {
                    Err(e) => (Err(e), (v2, b2, slots, n)),
                    Ok(Some(p)) => if p < n {
                        (Ok(()), (v2, b2, slots, n))
                    } else {
                        (Err(missing_global_message(name)), (v2, b2, slots, n))
                    },
                    Ok(None) => if basic_kind_of(v) is Some {
                        (Ok(()), (v2, b2, slots.insert(name, (v, mutable, n as IrRef)), n + 1))
                    } else {
                        (Err("void type is not a value"@), (v2, b2, slots, n))
                    },
                },
            }
        },
    }
}

/// Making the globals of `bindings` in order from state `st` (see
/// [`global_step`]): the first error stops it. The outcome, and the state
/// after it.
pub open spec fn globals_outcome(
    st: GlobalsState,
    m: StructMetadata,
    scopes: Seq<NameMap<(Type, ValueType)>>,
    table: Seq<(SourceSpan, Type)>,
    bindings: Seq<(Seq<char>, SourceSpan, bool)>,
) -> (Result<(), Seq<char>>, GlobalsState)
    decreases bindings.len(),
{
    if bindings.len() == 0 {
        (Ok(()), st)
    } else {
        let (r, st1) = globals_outcome(st, m, scopes, table, bindings.drop_last());
        match r {
            Err(e) => (Err(e), st1),
            Ok(()) => global_step(st1, m, scopes, table, bindings.last()),
        }
    }
}

proof fn lemma_globals_error_stays(
    st: GlobalsState,
    m: StructMetadata,
    scopes: Seq<NameMap<(Type, ValueType)>>,
    table: Seq<(SourceSpan, Type)>,
    bindings: Seq<(Seq<char>, SourceSpan, bool)>,
    k: int,
)
    requires
        0 <= k <= bindings.len(),
        globals_outcome(st, m, scopes, table, bindings.take(k)).0 is Err,
    ensures
        globals_outcome(st, m, scopes, table, bindings) == globals_outcome(
            st,
            m,
            scopes,
            table,
            bindings.take(k),
        ),
    decreases bindings.len() - k,
{
    if k < bindings.len() {
        assert(bindings.take(k + 1).drop_last() =~= bindings.take(k));
        lemma_globals_error_stays(st, m, scopes, table, bindings, k + 1);
    } else {
        assert(bindings.take(k) =~= bindings);
    }
}

/// The state the globals of a module start from.
pub open spec fn globals_state(
    metadata: StructMetadata,
    slots: Map<Seq<char>, GlobalBindingSlot>,
    globals: nat,
) -> GlobalsState {
    (
        variants_view(metadata.struct_field_variants@),
        bases_view(metadata.struct_variant_bases@),
        slot_views(slots),
        globals,
    )
}

/// What making the globals of newly slotted bindings records, in order:
/// the `i`-th of `names` has global `globals[first + i]`, zero value
/// `zeros[i]`, and the LLVM type of its slot's type (see [`global_ops`]).
pub open spec fn new_globals_ops<'ctx>(
    globals: Seq<GlobalValue<'ctx>>,
    first: int,
    names: Seq<Seq<char>>,
    slots: Map<Seq<char>, (SpecValueType, bool, IrRef)>,
    zeros: Seq<BasicValueEnum<'ctx>>,
    tea_value: LlvmStructType<'ctx>,
) -> Seq<IrOp<'ctx>>
    decreases names.len(),
{
    if names.len() == 0 {
        Seq::empty()
    } else {
        let k = names.len() - 1;
        new_globals_ops(globals, first, names.drop_last(), slots, zeros.take(k), tea_value) + global_ops(
            globals[first + k],
            zeros[k],
            names[k],
            value_ir_type(slots[names[k]].0, tea_value)->0,
        )
    }
}

/// [`new_globals_ops`] reads only the globals it names and the slots of
/// its names.
proof fn lemma_new_globals_ops_frame<'ctx>(
    g1: Seq<GlobalValue<'ctx>>,
    g2: Seq<GlobalValue<'ctx>>,
    first: int,
    names: Seq<Seq<char>>,
    s1: Map<Seq<char>, (SpecValueType, bool, IrRef)>,
    s2: Map<Seq<char>, (SpecValueType, bool, IrRef)>,
    zeros: Seq<BasicValueEnum<'ctx>>,
    tea_value: LlvmStructType<'ctx>,
)
    requires
        0 <= first,
        first + names.len() <= g1.len() <= g2.len(),
        g2.take(g1.len() as int) == g1,
        forall|i: int| 0 <= i < names.len() ==> s1[#[trigger] names[i]] == s2[names[i]],
    ensures
        new_globals_ops(g1, first, names, s1, zeros, tea_value) == new_globals_ops(g2, first, names, s2, zeros, tea_value),
    decreases names.len(),
{
    if names.len() > 0 {
        let k = names.len() - 1;
        assert forall|i: int| 0 <= i < names.drop_last().len() implies s1[#[trigger] names.drop_last()[i]] == s2[names.drop_last()[i]] by {
            assert(names.drop_last()[i] == names[i]);
        }
        lemma_new_globals_ops_frame(g1, g2, first, names.drop_last(), s1, s2, zeros.take(k), tea_value);
        assert(g2[first + k] == g2.take(g1.len() as int)[first + k]);
        assert(s1[names[k]] == s2[names[k]]);
    }
}

/// Makes the globals of a module's top-level bindings, in order (see
/// [`global_bindings`] and [`globals_outcome`]): each binding's checked
/// type is looked up and resolved (recording the struct types it names)
/// and its global is found or made (see [`ensure_global_slot`]); the first
/// error stops it. Once all are made, every top-level binding has a slot.
pub fn collect_globals<'ctx>(
    log: &mut EmitLog<'ctx>,
    context: &'ctx Context,
    module: &LlvmModule<'ctx>,
    tea_value: LlvmStructType<'ctx>,
    statements: &[Statement],
    generics: &GenericBindings,
    metadata: &mut StructMetadata,
    binding_types: &Vec<(SourceSpan, Type)>,
    slots: &mut NameMap<GlobalBindingSlot>,
    globals: &mut Vec<GlobalValue<'ctx>>,
) -> (r: Result<(), String>)
    ensures
        ({
            let (res, st) = globals_outcome(
                globals_state(*old(metadata), old(slots)@, old(globals)@.len()),
                *old(metadata),
                generics.scopes@,
                binding_types@,
                global_bindings(statements@),
            );
            &&& match r {
                Ok(()) => res is Ok,
                Err(e) => res == Err::<(), Seq<char>>(e@),
            }
            &&& globals_state(*final(metadata), final(slots)@, final(globals)@.len()) == st
        }),
        final(metadata).structs == old(metadata).structs,
        final(metadata).struct_definitions_tc == old(metadata).struct_definitions_tc,
        final(metadata).struct_instances_tc == old(metadata).struct_instances_tc,
        final(metadata).struct_call_metadata_tc == old(metadata).struct_call_metadata_tc,
        old(slots)@.dom().subset_of(final(slots)@.dom()),
        r is Ok ==> forall|i: int|
            0 <= i < global_bindings(statements@).len() ==> final(slots)@.dom().contains(
                #[trigger] global_bindings(statements@)[i].0,
            ),
        final(globals)@.take(old(globals)@.len() as int) == old(globals)@,
        exists|names: Seq<Seq<char>>, zeros: Seq<BasicValueEnum<'ctx>>|
            names.len() == zeros.len() && final(globals)@.len() == old(globals)@.len() + names.len() && (forall|i: int|
                0 <= i < names.len() ==> slot_views(final(slots)@).dom().contains(#[trigger] names[i]) && slot_views(
                    final(slots)@,
                )[names[i]].2 == old(globals)@.len() + i) && final(log)@ == old(log)@ + #[trigger] new_globals_ops(
                final(globals)@,
                old(globals)@.len() as int,
                names,
                slot_views(final(slots)@),
                zeros,
                tea_value,
            ),
{
    let bindings = global_bindings_of(statements);
    let ghost listed = global_bindings(statements@);
    let ghost m0 = *metadata;
    let ghost st0 = globals_state(*metadata, slots@, globals@.len());
    proof {
        assert(crate::aot::globals::binding_entries_view(bindings@).len() == bindings@.len());
        assert(listed.take(0) =~= Seq::<(Seq<char>, SourceSpan, bool)>::empty());
    }
    let ghost first = globals@.len() as int;
    let ghost mut names: Seq<Seq<char>> = Seq::empty();
    let ghost mut zeros: Seq<BasicValueEnum<'ctx>> = Seq::empty();
    proof {
        assert(globals@.take(first) =~= globals@);
        assert(log@ =~= old(log)@ + new_globals_ops(globals@, first, names, slot_views(slots@), zeros, tea_value));
    }
    let mut i: usize = 0;
    while i < bindings.len()
        invariant
            i <= bindings@.len(),
            first == old(globals)@.len(),
            globals@.take(first) == old(globals)@,
            names.len() == zeros.len(),
            globals@.len() == first + names.len(),
            forall|j: int|
                0 <= j < names.len() ==> slot_views(slots@).dom().contains(#[trigger] names[j]) && slot_views(slots@)[names[j]].2
                    == first + j,
            log@ == old(log)@ + new_globals_ops(globals@, first, names, slot_views(slots@), zeros, tea_value),
            crate::aot::globals::binding_entries_view(bindings@) == listed,
            listed == global_bindings(statements@),
            listed.len() == bindings@.len(),
            old(slots)@.dom().subset_of(slots@.dom()),
            forall|j: int| 0 <= j < i ==> slots@.dom().contains(#[trigger] listed[j].0),
            m0 == *old(metadata),
            st0 == globals_state(m0, old(slots)@, old(globals)@.len()),
            globals_outcome(st0, m0, generics.scopes@, binding_types@, listed.take(i as int)) == (
                Ok::<(), Seq<char>>(()),
                globals_state(*metadata, slots@, globals@.len()),
            ),
            metadata.structs == m0.structs,
            metadata.struct_definitions_tc == m0.struct_definitions_tc,
            metadata.struct_instances_tc == m0.struct_instances_tc,
            metadata.struct_call_metadata_tc == m0.struct_call_metadata_tc,
        decreases bindings@.len() - i,
    {
        let (name, span, mutable) = &bindings[i];
        proof {
            assert(listed[i as int] == (bindings@[i as int].0@, bindings@[i as int].1, bindings@[i as int].2));
            assert(listed.take(i + 1).drop_last() =~= listed.take(i as int));
            assert(listed.take(i + 1).last() == listed[i as int]);
        }
        let ghost st_i = globals_state(*metadata, slots@, globals@.len());
        proof {
            assert(globals_outcome(st0, m0, generics.scopes@, binding_types@, listed.take(i + 1))
                == global_step(st_i, m0, generics.scopes@, binding_types@, listed[i as int]));
        }
        let value_type = match metadata.global_binding_slot(
            generics,
            binding_types,
            slots,
            name.as_str(),
            *span,
            *mutable,
        ) {
            Ok((v, _)) => v,
            Err(e) => {
                proof {
                    lemma_globals_error_stays(st0, m0, generics.scopes@, binding_types@, listed, i + 1);
                    assert(listed.take(listed.len() as int) =~= listed);
                }
                return Err(e);
            },
        };
        let ghost log_before = log@;
        let count = globals.len();
        let ghost globals_before = globals@;
        let ghost slots_before = slot_views(slots@);
        match ensure_global_slot(
            log,
            context,
            module,
            tea_value,
            slots,
            globals,
            name.as_str(),
            &value_type,
            *mutable,
        ) {
            Ok(g) => {
                proof {
                    if global_slot_check(slots_before, name@, value_type@, *mutable) is Ok && global_slot_check(
                        slots_before,
                        name@,
                        value_type@,
                        *mutable,
                    )->Ok_0 is None {
                        let z = log@[log_before.len() + 2int]->Zero_0;
                        assert forall|j: int| 0 <= j < names.len() implies slots_before[#[trigger] names[j]] == slot_views(
                            slots@,
                        )[names[j]] by {
                            assert(names[j] != name@);
                        }
                        lemma_new_globals_ops_frame(
                            globals_before,
                            globals@,
                            first,
                            names,
                            slots_before,
                            slot_views(slots@),
                            zeros,
                            tea_value,
                        );
                        assert(count as IrRef == first + names.len());
                        assert(slot_views(slots@)[name@].2 == first + names.len());
                        let names2 = names.push(name@);
                        let zeros2 = zeros.push(z);
                        assert(names2.drop_last() =~= names);
                        assert(zeros2.take(names.len() as int) =~= zeros);
                        assert(globals@[first + names.len()] == g);
                        assert(log@ =~= old(log)@ + new_globals_ops(globals@, first, names2, slot_views(slots@), zeros2, tea_value));
                        names = names2;
                        zeros = zeros2;
                    }
                }
            },
            Err(e) => {
                proof {
                    lemma_globals_error_stays(st0, m0, generics.scopes@, binding_types@, listed, i + 1);
                    assert(listed.take(listed.len() as int) =~= listed);
                }
                return Err(e);
            },
        }
        proof {
            assert(listed[i as int].0 == bindings@[i as int].0@);
        }
        i = i + 1;
    }
    proof {
        assert(listed.take(i as int) =~= listed);
    }
    Ok(())
}

/// `VoidType::fn_type` of `Context::void_type`, not variadic: the type of
/// a function returning nothing, with the given parameter types.
#[verifier::external_body]
fn void_fn_type<'ctx>(context: &'ctx Context, params: &[Typed<'ctx>]) -> (r: TypedFunction<'ctx>)
    ensures
        r.result() is None,
        r.params() == models(params@),
{
    let ps: Vec<BasicMetadataTypeEnum<'ctx>> = params.iter().map(|p| p.ty.into()).collect();
    TypedFunction { ty: context.void_type().fn_type(&ps, false), result: Ghost(None), params: Ghost(models(params@)) }
}

/// `BasicType::fn_type`, not variadic: the type of a function returning a
/// value of type `ret`, with the given parameter types.
#[verifier::external_body]
fn value_fn_type<'ctx>(ret: &Typed<'ctx>, params: &[Typed<'ctx>]) -> (r: TypedFunction<'ctx>)
    ensures
        r.result() == Some(ret.model()),
        r.params() == models(params@),
{
    let ps: Vec<BasicMetadataTypeEnum<'ctx>> = params.iter().map(|p| p.ty.into()).collect();
    TypedFunction { ty: ret.ty.fn_type(&ps, false), result: Ghost(Some(ret.model())), params: Ghost(models(params@)) }
}

/// The LLVM types of the parameters of a function of these parameter types,
/// all of which have one.
pub open spec fn params_ir_types<'ctx>(params: Seq<SpecValueType>, tea_value: LlvmStructType<'ctx>) -> Seq<
    IrType<'ctx>,
> {
    params.map_values(|t: SpecValueType| value_ir_type(t, tea_value)->0)
}

/// The parameter types built from `kinds`, in order.
fn kind_types<'ctx>(context: &'ctx Context, tea_value: LlvmStructType<'ctx>, first: Option<BasicKind>, kinds: &Vec<BasicKind>) -> (r: Vec<
    Typed<'ctx>,
>)
    ensures
        models(r@) == (match first {
            Some(k) => seq![kind_ir_type(k, tea_value)],
            None => Seq::empty(),
        }) + kinds@.map_values(|k: BasicKind| kind_ir_type(k, tea_value)),
{
    let mut types: Vec<Typed<'ctx>> = Vec::new();
    let ghost head: Seq<IrType<'ctx>> = match first {
        Some(k) => seq![kind_ir_type(k, tea_value)],
        None => Seq::empty(),
    };
    match first {
        Some(k) => types.push(basic_type_of_kind(context, tea_value, k)),
        None => {},
    }
    proof {
        assert(models(types@) =~= head + kinds@.take(0).map_values(|k: BasicKind| kind_ir_type(k, tea_value)));
    }
    let mut i: usize = 0;
    while i < kinds.len()
        invariant
            i <= kinds@.len(),
            head == (match first {
                Some(k) => seq![kind_ir_type(k, tea_value)],
                None => Seq::<IrType<'ctx>>::empty(),
            }),
            models(types@) == head + kinds@.take(i as int).map_values(|k: BasicKind| kind_ir_type(k, tea_value)),
        decreases kinds@.len() - i,
    {
        let ghost before = types@;
        types.push(basic_type_of_kind(context, tea_value, kinds[i]));
        proof {
            assert(kinds@.take(i + 1) =~= kinds@.take(i as int).push(kinds@[i as int]));
            assert(models(types@) =~= models(before).push(kind_ir_type(kinds@[i as int], tea_value)));
            assert(models(types@) =~= head + kinds@.take(i + 1).map_values(|k: BasicKind| kind_ir_type(k, tea_value)));
        }
        i = i + 1;
    }
    proof {
        assert(kinds@.take(i as int) =~= kinds@);
    }
    types
}

/// The LLVM type of a function of these parameter types and result type
/// (see [`function_shape`]), with `first` as an extra first parameter.
fn shaped_function_type<'ctx>(
    context: &'ctx Context,
    tea_value: LlvmStructType<'ctx>,
    first: Option<BasicKind>,
    return_type: &ValueType,
    params: &[ValueType],
) -> (r: Result<TypedFunction<'ctx>, String>)
    ensures
        r is Ok <==> forall|i: int| 0 <= i < params@.len() ==> basic_kind_of(#[trigger] params@[i]@) is Some,
        r matches Err(e) ==> e@ == "void type is not a value"@,
        r matches Ok(f) ==> {
            &&& f.result() == value_ir_type(return_type@, tea_value)
            &&& f.params() == (match first {
                Some(k) => seq![kind_ir_type(k, tea_value)],
                None => Seq::empty(),
            }) + params_ir_types(params@.map_values(|t: ValueType| t@), tea_value)
        },
{
    let (ret, kinds) = match function_shape(return_type, params) {
        Ok(shape) => shape,
        Err(e) => return Err(e),
    };
    let types = kind_types(context, tea_value, first, &kinds);
    proof {
        assert(kinds@.map_values(|k: BasicKind| kind_ir_type(k, tea_value)) =~= params_ir_types(
            params@.map_values(|t: ValueType| t@),
            tea_value,
        ));
    }
    match ret {
        None => Ok(void_fn_type(context, types.as_slice())),
        Some(kind) => {
            let ret_type = basic_type_of_kind(context, tea_value, kind);
            Ok(value_fn_type(&ret_type, types.as_slice()))
        },
    }
}

/// The LLVM type of a function with the given signature (see
/// [`function_shape`]): a `Void` parameter is an error; a `Void` result is
/// LLVM's `void`.
pub fn function_type<'ctx>(
    context: &'ctx Context,
    tea_value: LlvmStructType<'ctx>,
    return_type: &ValueType,
    params: &[ValueType],
) -> (r: Result<TypedFunction<'ctx>, String>)
    ensures
        r is Ok <==> forall|i: int| 0 <= i < params@.len() ==> basic_kind_of(#[trigger] params@[i]@) is Some,
        r matches Err(e) ==> e@ == "void type is not a value"@,
        r matches Ok(f) ==> f.result() == value_ir_type(return_type@, tea_value) && f.params()
            == params_ir_types(params@.map_values(|t: ValueType| t@), tea_value),
{
    let r = shaped_function_type(context, tea_value, None, return_type, params);
    proof {
        assert(Seq::<IrType<'ctx>>::empty() + params_ir_types(params@.map_values(|t: ValueType| t@), tea_value)
            =~= params_ir_types(params@.map_values(|t: ValueType| t@), tea_value));
    }
    r
}

/// `Module::add_function` without a linkage (so external): a new
/// function of type `ty` asked to be named `name`, recorded in the log
/// with the name asked for.
#[verifier::external_body]
fn add_function<'ctx>(log: &mut EmitLog<'ctx>, module: &LlvmModule<'ctx>, name: &str, ty: &TypedFunction<'ctx>) -> (r:
    FunctionValue<'ctx>)
    ensures
        final(log)@ == old(log)@.push(IrOp::Function(r, name@, ty.result(), ty.params(), false)),
{
    module.add_function(name, ty.ty, None)
}

/// The signature table after `declare_symbol` recorded `symbol`.
pub open spec fn declared_as(
    functions: Map<Seq<char>, FunctionSignature>,
    symbol: Seq<char>,
    value: IrRef,
    return_type: SpecValueType,
    params: Seq<SpecValueType>,
    can_throw: bool,
) -> bool {
    &&& functions.dom().contains(symbol)
    &&& functions[symbol].value == value
    &&& functions[symbol].return_type@ == return_type
    &&& value_types_view(functions[symbol].param_types@) == params
    &&& functions[symbol].can_throw == can_throw
}

/// What declaring function `f` as `symbol` records: the function, with the
/// LLVM types of its signature (see [`value_ir_type`]), then its attributes
/// (see [`crate::aot::llvm::attribute_ops`]).
pub open spec fn symbol_ops<'ctx>(
    f: FunctionValue<'ctx>,
    symbol: Seq<char>,
    return_type: SpecValueType,
    params: Seq<SpecValueType>,
    tea_value: LlvmStructType<'ctx>,
    can_throw: bool,
    is_small: bool,
) -> Seq<IrOp<'ctx>> {
    seq![IrOp::Function(f, symbol, value_ir_type(return_type, tea_value), params_ir_types(params, tea_value), false)]
        + attribute_ops(f, can_throw, is_small)
}

/// Declares function `symbol` with the given signature and the attributes
/// the back end chooses, records it at the end of `declared`, and records
/// its signature, whose `value` is its index there.
fn declare_symbol<'ctx>(
    log: &mut EmitLog<'ctx>,
    context: &'ctx Context,
    module: &LlvmModule<'ctx>,
    tea_value: LlvmStructType<'ctx>,
    symbol: &str,
    return_type: ValueType,
    params: Vec<ValueType>,
    can_throw: bool,
    is_small: bool,
    functions: &mut NameMap<FunctionSignature>,
    declared: &mut Vec<FunctionValue<'ctx>>,
) -> (r: Result<(), String>)
    ensures
        old(functions)@.dom().subset_of(final(functions)@.dom()),
        r is Ok ==> declared_as(
            final(functions)@,
            symbol@,
            old(declared)@.len() as IrRef,
            return_type@,
            value_types_view(params@),
            can_throw,
        ),
        r is Ok ==> final(declared)@.len() == old(declared)@.len() + 1,
        r is Ok ==> final(declared)@.take(old(declared)@.len() as int) == old(declared)@,
        r is Ok ==> forall|k: Seq<char>|
            k != symbol@ && #[trigger] old(functions)@.dom().contains(k) ==> final(functions)@[k]
                == old(functions)@[k],
        r is Err ==> final(functions)@ == old(functions)@ && final(declared)@ == old(declared)@,
        r is Ok ==> final(functions)@.dom() == old(functions)@.dom().insert(symbol@),
        r is Ok <==> forall|i: int| 0 <= i < params@.len() ==> basic_kind_of(#[trigger] params@[i]@) is Some,
        r matches Err(e) ==> e@ == "void type is not a value"@,
        r is Ok ==> final(log)@ == old(log)@ + symbol_ops(
            final(declared)@.last(),
            symbol@,
            return_type@,
            value_types_view(params@),
            tea_value,
            can_throw,
            is_small,
        ),
        r is Err ==> final(log)@ == old(log)@,
{
    let fn_type = match function_type(context, tea_value, &return_type, params.as_slice()) {
        Ok(t) => t,
        Err(e) => return Err(e),
    };
    proof {
        crate::aot::types::lemma_value_types_view(params@);
        assert(params@.map_values(|t: ValueType| t@) =~= value_types_view(params@));
    }
    let fn_value = add_function(log, module, symbol, &fn_type);
    add_function_attributes(log, context, fn_value, can_throw, is_small);
    let value = declared.len() as u64;
    let ghost before = declared@;
    declared.push(fn_value);
    proof {
        assert(declared@.take(before.len() as int) =~= before);
    }
    functions.insert(
        String::from_str(symbol),
        FunctionSignature { value, return_type, param_types: params, can_throw },
    );
    Ok(())
}

/// The symbols `function` is declared under (see [`function_body_symbols`]).
pub open spec fn declared_symbols(
    function: FunctionStatement,
    instances: Map<Seq<char>, Vec<FunctionInstance>>,
) -> Seq<Seq<char>> {
    function_body_symbols(
        function.name@,
        function.type_parameters@.len() > 0,
        if instances.dom().contains(function.name@) {
            Some(instances[function.name@]@)
        } else {
            None
        },
    )
}

/// What declaring the instances of a generic function threads: the field
/// types and bases of struct types, the symbols declared, and, in order,
/// the symbols declared on the way with their lowered signatures (return
/// type first).
pub type InstancesState = (
    Map<Seq<char>, Seq<SpecValueType>>,
    Map<Seq<char>, Seq<char>>,
    Set<Seq<char>>,
    Seq<(Seq<char>, Seq<SpecValueType>)>,
);

/// Declaring one instance of generic function `name` from state `st`: a
/// symbol already declared is left as it is; otherwise the instance's
/// signature is lowered (see
/// [`crate::aot::functions::instance_values`]), and it is declared when
/// none of its parameter types is `Void`.
pub open spec fn instance_step(
    st: InstancesState,
    m: StructMetadata,
    name: Seq<char>,
    inst: FunctionInstance,
) -> (Result<(), Seq<char>>, InstancesState) {
    let (v, b, symbols, added) = st;
    let symbol = mangled_name(name, types_view(inst.type_arguments@));
    if symbols.contains(symbol) {
        (Ok(()), st)
    } else {
        let (res, v2, b2) = instance_values(v, b, m, instance_signature_types(inst));
        match res {
            Err(e) => (Err(e), (v2, b2, symbols, added)),
            Ok(sig) => if forall|i: int| 1 <= i < sig.len() ==> basic_kind_of(#[trigger] sig[i]) is Some {
                (Ok(()), (v2, b2, symbols.insert(symbol), added.push((symbol, sig))))
            } else {
                (Err("void type is not a value"@), (v2, b2, symbols, added))
            },
        }
    }
}

/// Declaring the instances `insts` of generic function `name` in order
/// (see [`instance_step`]); the first error stops it.
pub open spec fn instances_outcome(
    st: InstancesState,
    m: StructMetadata,
    name: Seq<char>,
    insts: Seq<FunctionInstance>,
) -> (Result<(), Seq<char>>, InstancesState)
    decreases insts.len(),
{
    if insts.len() == 0 {
        (Ok(()), st)
    } else {
        let (r, st1) = instances_outcome(st, m, name, insts.drop_last());
        match r {
            Err(e) => (Err(e), st1),
            Ok(()) => instance_step(st1, m, name, insts.last()),
        }
    }
}

proof fn lemma_instances_error_stays(
    st: InstancesState,
    m: StructMetadata,
    name: Seq<char>,
    insts: Seq<FunctionInstance>,
    k: int,
)
    requires
        0 <= k <= insts.len(),
        instances_outcome(st, m, name, insts.take(k)).0 is Err,
    ensures
        instances_outcome(st, m, name, insts) == instances_outcome(st, m, name, insts.take(k)),
    decreases insts.len() - k,
{
    if k < insts.len() {
        assert(insts.take(k + 1).drop_last() =~= insts.take(k));
        lemma_instances_error_stays(st, m, name, insts, k + 1);
    } else {
        assert(insts.take(k) =~= insts);
    }
}

/// Lowering an instance's types reads of the metadata only what the
/// back end never changes there (besides the tables it is given).
proof fn lemma_instance_values_metadata(
    v: Map<Seq<char>, Seq<SpecValueType>>,
    b: Map<Seq<char>, Seq<char>>,
    m1: StructMetadata,
    m2: StructMetadata,
    ts: Seq<SpecType>,
)
    requires
        m1.structs == m2.structs,
        m1.struct_definitions_tc == m2.struct_definitions_tc,
        m1.struct_instances_tc == m2.struct_instances_tc,
        m1.struct_call_metadata_tc == m2.struct_call_metadata_tc,
    ensures
        instance_values(v, b, m1, ts) == instance_values(v, b, m2, ts),
    decreases ts.len(),
{
    if ts.len() > 0 {
        lemma_instance_values_metadata(v, b, m1, m2, ts.drop_last());
    }
}

/// An instance not yet declared whose signature has a `Void` parameter
/// makes the step fail.
proof fn lemma_void_instance_step(
    st: InstancesState,
    m: StructMetadata,
    name: Seq<char>,
    inst: FunctionInstance,
    sig: Seq<SpecValueType>,
    k: int,
)
    requires
        !st.2.contains(mangled_name(name, types_view(inst.type_arguments@))),
        instance_values(st.0, st.1, m, instance_signature_types(inst)).0 == Ok::<Seq<SpecValueType>, Seq<char>>(
            sig,
        ),
        1 <= k < sig.len(),
        basic_kind_of(sig[k]) is None,
    ensures
        instance_step(st, m, name, inst).0 == Err::<(), Seq<char>>("void type is not a value"@),
        instance_step(st, m, name, inst).1 == (
            instance_values(st.0, st.1, m, instance_signature_types(inst)).1,
            instance_values(st.0, st.1, m, instance_signature_types(inst)).2,
            st.2,
            st.3,
        ),
{
    let iv = instance_values(st.0, st.1, m, instance_signature_types(inst));
    let s2 = iv.0->Ok_0;
    assert(s2 == sig);
    assert(!(forall|i: int| 1 <= i < s2.len() ==> basic_kind_of(#[trigger] s2[i]) is Some));
}

/// The instances the type checker recorded for `name`, if any.
pub open spec fn recorded_instances(instances: Map<Seq<char>, Vec<FunctionInstance>>, name: Seq<char>) -> Seq<
    FunctionInstance,
> {
    if instances.dom().contains(name) {
        instances[name]@
    } else {
        Seq::empty()
    }
}

/// Whether `functions` records symbol `entry.0` with the lowered signature
/// `entry.1` (return type first), as the `value`-th function declared.
pub open spec fn declared_instance(
    functions: Map<Seq<char>, FunctionSignature>,
    entry: (Seq<char>, Seq<SpecValueType>),
    value: int,
    can_throw: bool,
) -> bool {
    entry.1.len() > 0 && declared_as(functions, entry.0, value as IrRef, entry.1[0], entry.1.drop_first(), can_throw)
}

/// What declaring the symbols `added` (with their lowered signatures,
/// return type first) records, in order: the `i`-th is function
/// `declared[first + i]` (see [`symbol_ops`]).
pub open spec fn new_symbols_ops<'ctx>(
    declared: Seq<FunctionValue<'ctx>>,
    first: int,
    added: Seq<(Seq<char>, Seq<SpecValueType>)>,
    tea_value: LlvmStructType<'ctx>,
    can_throw: bool,
    is_small: bool,
) -> Seq<IrOp<'ctx>>
    decreases added.len(),
{
    if added.len() == 0 {
        Seq::empty()
    } else {
        let k = added.len() - 1;
        new_symbols_ops(declared, first, added.drop_last(), tea_value, can_throw, is_small) + symbol_ops(
            declared[first + k],
            added[k].0,
            added[k].1[0],
            added[k].1.drop_first(),
            tea_value,
            can_throw,
            is_small,
        )
    }
}

/// [`new_symbols_ops`] reads only the functions it names.
proof fn lemma_new_symbols_ops_frame<'ctx>(
    d1: Seq<FunctionValue<'ctx>>,
    d2: Seq<FunctionValue<'ctx>>,
    first: int,
    added: Seq<(Seq<char>, Seq<SpecValueType>)>,
    tea_value: LlvmStructType<'ctx>,
    can_throw: bool,
    is_small: bool,
)
    requires
        0 <= first,
        first + added.len() <= d1.len() <= d2.len(),
        d2.take(d1.len() as int) == d1,
    ensures
        new_symbols_ops(d1, first, added, tea_value, can_throw, is_small) == new_symbols_ops(
            d2,
            first,
            added,
            tea_value,
            can_throw,
            is_small,
        ),
    decreases added.len(),
{
    if added.len() > 0 {
        let k = added.len() - 1;
        lemma_new_symbols_ops_frame(d1, d2, first, added.drop_last(), tea_value, can_throw, is_small);
        assert(d2[first + k] == d2.take(d1.len() as int)[first + k]);
    }
}

/// Declares `function` (a body is compiled later for each declaration): a
/// non-generic function once, under its name, with the signature its
/// annotations give (see [`declared_signature`] and [`symbol_ops`]); a
/// generic function once per instance the type checker recorded, under the
/// instance's mangled name, with the instance's lowered signature (see
/// [`instances_outcome`]). A symbol already declared is left as it is.
/// Once all are declared, each symbol has a signature.
#[verifier::spinoff_prover]
#[verifier::rlimit(40)]
pub fn declare_function<'ctx>(
    log: &mut EmitLog<'ctx>,
    context: &'ctx Context,
    module: &LlvmModule<'ctx>,
    tea_value: LlvmStructType<'ctx>,
    function: &FunctionStatement,
    can_throw: bool,
    generics: &GenericBindings,
    metadata: &mut StructMetadata,
    function_instances: &NameMap<Vec<FunctionInstance>>,
    functions: &mut NameMap<FunctionSignature>,
    declared: &mut Vec<FunctionValue<'ctx>>,
) -> (r: Result<(), String>)
    ensures
        old(functions)@.dom().subset_of(final(functions)@.dom()),
        function.type_parameters@.len() == 0 && old(functions)@.dom().contains(function.name@) ==> r
            is Ok && final(functions)@ == old(functions)@ && final(log)@ == old(log)@,
        function.type_parameters@.len() == 0 && !old(functions)@.dom().contains(function.name@)
            ==> match declared_signature(
            *function,
            generic_value_types(generics.scopes@),
            old(metadata).structs@.dom(),
        ) {
            Err(e) => r matches Err(m) && m@ == e && final(functions)@ == old(functions)@ && final(log)@
                == old(log)@,
            Ok((ret, ps)) => {
                &&& r is Ok <==> forall|i: int| 0 <= i < ps.len() ==> basic_kind_of(#[trigger] ps[i]) is Some
                &&& r matches Err(m) ==> m@ == "void type is not a value"@ && final(functions)@ == old(functions)@ && final(log)@ == old(log)@
                &&& r is Ok ==> declared_as(
                    final(functions)@,
                    function.name@,
                    old(declared)@.len() as IrRef,
                    ret,
                    ps,
                    can_throw,
                )
                &&& r is Ok ==> final(log)@ == old(log)@ + symbol_ops(
                    final(declared)@.last(),
                    function.name@,
                    ret,
                    ps,
                    tea_value,
                    can_throw,
                    statement_count(function.body.statements@) < SMALL_FUNCTION_LIMIT,
                )
            },
        },
        function.type_parameters@.len() > 0 ==> ({
            let (res, st) = instances_outcome(
                (
                    variants_view(old(metadata).struct_field_variants@),
                    bases_view(old(metadata).struct_variant_bases@),
                    old(functions)@.dom(),
                    Seq::empty(),
                ),
                *old(metadata),
                function.name@,
                recorded_instances(function_instances@, function.name@),
            );
            &&& match r {
                Ok(()) => res is Ok,
                Err(e) => res == Err::<(), Seq<char>>(e@),
            }
            &&& final(functions)@.dom() == st.2
            &&& variants_view(final(metadata).struct_field_variants@) == st.0
            &&& bases_view(final(metadata).struct_variant_bases@) == st.1
            &&& final(declared)@.len() == old(declared)@.len() + st.3.len()
            &&& final(declared)@.take(old(declared)@.len() as int) == old(declared)@
            &&& forall|j: int|
                0 <= j < st.3.len() ==> declared_instance(
                    final(functions)@,
                    #[trigger] st.3[j],
                    old(declared)@.len() + j,
                    can_throw,
                )
            &&& final(log)@ == old(log)@ + new_symbols_ops(
                final(declared)@,
                old(declared)@.len() as int,
                st.3,
                tea_value,
                can_throw,
                statement_count(function.body.statements@) < SMALL_FUNCTION_LIMIT,
            )
        }),
        r is Ok ==> forall|i: int|
            0 <= i < declared_symbols(*function, function_instances@).len()
                ==> final(functions)@.dom().contains(
                #[trigger] declared_symbols(*function, function_instances@)[i],
            ),
{
    let is_small = is_small_function(function.body.statements.as_slice());
    if function.type_parameters.len() == 0 {
        if functions.contains_key(function.name.as_str()) {
            return Ok(());
        }
        let (return_type, params) = match crate::aot::functions::function_signature_types(
            function,
            generics,
            &metadata.structs,
        ) {
            Ok(sig) => sig,
            Err(e) => return Err(e),
        };
        proof {
            crate::aot::types::lemma_value_types_view(params@);
            let ps = value_types_view(params@);
            if forall|k: int| 0 <= k < params@.len() ==> basic_kind_of(#[trigger] params@[k]@) is Some {
                assert forall|k: int| 0 <= k < ps.len() implies basic_kind_of(#[trigger] ps[k]) is Some by {
                    assert(ps[k] == params@[k]@);
                }
            }
            if forall|k: int| 0 <= k < ps.len() ==> basic_kind_of(#[trigger] ps[k]) is Some {
                assert forall|k: int| 0 <= k < params@.len() implies basic_kind_of(#[trigger] params@[k]@) is Some by {
                    assert(ps[k] == params@[k]@);
                }
            }
        }
        return declare_symbol(
            log,
            context,
            module,
            tea_value,
            function.name.as_str(),
            return_type,
            params,
            can_throw,
            is_small,
            functions,
            declared,
        );
    }
    let ghost m0 = *metadata;
    let ghost insts = recorded_instances(function_instances@, function.name@);
    let ghost st0: InstancesState = (
        variants_view(metadata.struct_field_variants@),
        bases_view(metadata.struct_variant_bases@),
        functions@.dom(),
        Seq::empty(),
    );
    let ghost first = declared@.len() as int;
    let ghost mut added: Seq<(Seq<char>, Seq<SpecValueType>)> = Seq::empty();
    proof {
        assert(declared@.take(first) =~= declared@);
        assert(log@ =~= old(log)@ + new_symbols_ops(declared@, first, added, tea_value, can_throw, is_small));
    }
    let instances = match function_instances.get(function.name.as_str()) {
        Some(list) => list,
        None => {
            proof {
                assert(insts =~= Seq::<FunctionInstance>::empty());
            }
            return Ok(());
        },
    };
    let ghost symbols = function_body_symbols(function.name@, true, Some(instances@));
    proof {
        assert(insts == instances@);
        assert(insts.take(0) =~= Seq::<FunctionInstance>::empty());
    }
    let mut i: usize = 0;
    while i < instances.len()
        invariant
            i <= instances@.len(),
            function.type_parameters@.len() > 0,
            function_instances@.dom().contains(function.name@),
            *instances == function_instances@[function.name@],
            insts == instances@,
            insts == recorded_instances(function_instances@, function.name@),
            symbols == function_body_symbols(function.name@, true, Some(instances@)),
            old(functions)@.dom().subset_of(functions@.dom()),
            forall|j: int| 0 <= j < i ==> functions@.dom().contains(#[trigger] symbols[j]),
            m0 == *old(metadata),
            st0 == (
                variants_view(m0.struct_field_variants@),
                bases_view(m0.struct_variant_bases@),
                old(functions)@.dom(),
                Seq::<(Seq<char>, Seq<SpecValueType>)>::empty(),
            ),
            instances_outcome(st0, m0, function.name@, insts.take(i as int)) == (
                Ok::<(), Seq<char>>(()),
                (
                    variants_view(metadata.struct_field_variants@),
                    bases_view(metadata.struct_variant_bases@),
                    functions@.dom(),
                    added,
                ),
            ),
            first == old(declared)@.len(),
            declared@.len() == first + added.len(),
            declared@.take(first) == old(declared)@,
            forall|j: int| 0 <= j < added.len() ==> declared_instance(functions@, #[trigger] added[j], first + j, can_throw),
            is_small == (statement_count(function.body.statements@) < SMALL_FUNCTION_LIMIT),
            log@ == old(log)@ + new_symbols_ops(declared@, first, added, tea_value, can_throw, is_small),
            metadata.structs == m0.structs,
            metadata.struct_definitions_tc == m0.struct_definitions_tc,
            metadata.struct_instances_tc == m0.struct_instances_tc,
            metadata.struct_call_metadata_tc == m0.struct_call_metadata_tc,
        decreases instances@.len() - i,
    {
        proof {
            assert(insts.take(i + 1).drop_last() =~= insts.take(i as int));
            assert(insts.take(i + 1).last() == insts[i as int]);
        }
        let ghost st_i: InstancesState = (
            variants_view(metadata.struct_field_variants@),
            bases_view(metadata.struct_variant_bases@),
            functions@.dom(),
            added,
        );
        proof {
            assert(instances_outcome(st0, m0, function.name@, insts.take(i + 1)) == instance_step(
                st_i,
                m0,
                function.name@,
                insts[i as int],
            ));
        }
        let mangled = mangle_function_name(function.name.as_str(), instances[i].type_arguments.as_slice());
        if !functions.contains_key(mangled.as_str()) {
            proof {
                lemma_instance_values_metadata(
                    st_i.0,
                    st_i.1,
                    *metadata,
                    m0,
                    instance_signature_types(instances@[i as int]),
                );
            }
            let (return_type, params) = match metadata.instance_signature(&instances[i]) {
                Ok(sig) => sig,
                Err(e) => {
                    proof {
                        lemma_instances_error_stays(st0, m0, function.name@, insts, i + 1);
                        assert(insts.take(insts.len() as int) =~= insts);
                    }
                    return Err(e);
                },
            };
            proof {
                crate::aot::types::lemma_value_types_view(params@);
                let sig = seq![return_type@] + value_types_view(params@);
                if forall|k: int| 0 <= k < params@.len() ==> basic_kind_of(#[trigger] params@[k]@) is Some {
                    assert forall|k: int| 1 <= k < sig.len() implies basic_kind_of(#[trigger] sig[k]) is Some by {
                        assert(sig[k] == params@[k - 1]@);
                    }
                }
                if forall|k: int| 1 <= k < sig.len() ==> basic_kind_of(#[trigger] sig[k]) is Some {
                    assert forall|k: int| 0 <= k < params@.len() implies basic_kind_of(
                        #[trigger] params@[k]@,
                    ) is Some by {
                        assert(sig[k + 1] == params@[k]@);
                    }
                }
            }
            let ghost sig = seq![return_type@] + value_types_view(params@);
            let ghost functions_before = functions@;
            let ghost declared_before = declared@;
            let ghost log_before = log@;
            let count = declared.len();
            match declare_symbol(
                log,
                context,
                module,
                tea_value,
                mangled.as_str(),
                return_type,
                params,
                can_throw,
                is_small,
                functions,
                declared,
            ) {
                Ok(()) => {
                    proof {
                        assert(sig.drop_first() =~= value_types_view(params@));
                        assert(instance_values(st_i.0, st_i.1, m0, instance_signature_types(insts[i as int])).0
                            == Ok::<Seq<SpecValueType>, Seq<char>>(sig));
                        assert(mangled@ == mangled_name(function.name@, types_view(insts[i as int].type_arguments@)));
                        assert(declared@.take(declared_before.len() as int) =~= declared_before);
                        lemma_new_symbols_ops_frame(declared_before, declared@, first, added, tea_value, can_throw, is_small);
                        assert forall|j: int| 0 <= j < added.len() implies declared_instance(functions@, #[trigger] added[j], first + j, can_throw) by {
                            assert(declared_instance(functions_before, added[j], first + j, can_throw));
                            assert(functions_before.dom().contains(added[j].0));
                            assert(added[j].0 != mangled@);
                        }
                        let added2 = added.push((mangled@, sig));
                        assert(added2.drop_last() =~= added);
                        assert(declared@.last() == declared@[first + added.len()]);
                        assert(log@ =~= old(log)@ + new_symbols_ops(declared@, first, added2, tea_value, can_throw, is_small));
                        assert(declared@.take(first) =~= declared_before.take(first));
                        added = added2;
                        assert(declared_instance(functions@, added[added.len() - 1], first + added.len() - 1, can_throw));
                    }
                },
                Err(e) => {
                    proof {
                        let sig = seq![return_type@] + value_types_view(params@);
                        assert(!(forall|k: int| 0 <= k < params@.len() ==> basic_kind_of(#[trigger] params@[k]@) is Some));
                        let bad = choose|k: int| 0 <= k < params@.len() && !(basic_kind_of(#[trigger] params@[k]@) is Some);
                        assert(sig[bad + 1] == params@[bad]@);
                        assert(instance_values(st_i.0, st_i.1, m0, instance_signature_types(insts[i as int])).0
                            == Ok::<Seq<SpecValueType>, Seq<char>>(sig));
                        assert(mangled@ == mangled_name(function.name@, types_view(insts[i as int].type_arguments@)));
                        lemma_void_instance_step(st_i, m0, function.name@, insts[i as int], sig, bad + 1);
                        lemma_instances_error_stays(st0, m0, function.name@, insts, i + 1);
                        assert(insts.take(insts.len() as int) =~= insts);
                    }
                    return Err(e);
                },
            }
        }
        proof {
            assert(symbols[i as int] == mangled@);
        }
        i = i + 1;
    }
    proof {
        assert(insts.take(i as int) =~= insts);
    }
    Ok(())
}

/// `Context::opaque_struct_type`: a new struct type with no body yet,
/// asked to be named `name`, recorded in the log with the name asked for.
#[verifier::external_body]
fn opaque_struct_type<'ctx>(log: &mut EmitLog<'ctx>, context: &'ctx Context, name: &str) -> (r: LlvmStructType<'ctx>)
    ensures
        final(log)@ == old(log)@.push(IrOp::NamedStruct(r, name@)),
{
    context.opaque_struct_type(name)
}

/// `StructType::set_body`, not packed: gives `ty` these fields, recorded
/// in the log.
#[verifier::external_body]
fn set_struct_body<'ctx>(log: &mut EmitLog<'ctx>, ty: LlvmStructType<'ctx>, fields: &[Typed<'ctx>])
    ensures
        final(log)@ == old(log)@.push(IrOp::StructBody(ty, models(fields@))),
{
    let fs: Vec<BasicTypeEnum<'ctx>> = fields.iter().map(|f| f.ty).collect();
    ty.set_body(&fs, false);
}

/// `IntType::array_type` of `i8`, as a basic type: an array of `len` bytes.
#[verifier::external_body]
fn byte_array<'ctx>(context: &'ctx Context, len: u32) -> (r: Typed<'ctx>)
    ensures
        r.model() == IrType::<'ctx>::Array(Box::new(IrType::Int(8)), len),
{
    Typed { ty: context.i8_type().array_type(len).as_basic_type_enum(), model: Ghost(IrType::Array(Box::new(IrType::Int(8)), len)) }
}

/// `StructType::array_type`, as a basic type: an array of `len` structs.
#[verifier::external_body]
fn struct_array<'ctx>(ty: LlvmStructType<'ctx>, len: u32) -> (r: Typed<'ctx>)
    ensures
        r.model() == IrType::<'ctx>::Array(Box::new(IrType::Struct(ty)), len),
{
    Typed { ty: ty.array_type(len).as_basic_type_enum(), model: Ghost(IrType::Array(Box::new(IrType::Struct(ty)), len)) }
}

/// The struct types shared with the runtime, as declared in one context.
#[derive(Clone, Copy)]
pub struct RuntimeTypes<'ctx> {
    pub string: LlvmStructType<'ctx>,
    pub list: LlvmStructType<'ctx>,
    pub value: LlvmStructType<'ctx>,
    pub struct_template: LlvmStructType<'ctx>,
    pub struct_instance: LlvmStructType<'ctx>,
    pub error_template: LlvmStructType<'ctx>,
    pub closure: LlvmStructType<'ctx>,
}

/// The LLVM type of a runtime field; inline values are `value` structs.
pub open spec fn field_ir_type<'ctx>(field: RuntimeField, value: LlvmStructType<'ctx>) -> IrType<'ctx> {
    match field {
        RuntimeField::Byte => IrType::Int(8),
        RuntimeField::Word => IrType::Int(32),
        RuntimeField::Long => IrType::Int(64),
        RuntimeField::Pointer => IrType::BytePointer,
        RuntimeField::Bytes(n) => IrType::Array(Box::new(IrType::Int(8)), n),
        RuntimeField::Values(n) => IrType::Array(Box::new(IrType::Struct(value)), n),
    }
}

/// The LLVM field types of runtime struct `s`, its inline values being
/// `value` structs.
pub open spec fn layout_ir_types<'ctx>(s: RuntimeStruct, value: LlvmStructType<'ctx>) -> Seq<IrType<'ctx>> {
    runtime_layout(s).map_values(|f: RuntimeField| field_ir_type(f, value))
}

/// What declaring runtime struct `s` as `ty` records: its name, then its
/// fields.
pub open spec fn struct_declared<'ctx>(ty: LlvmStructType<'ctx>, s: RuntimeStruct, value: LlvmStructType<'ctx>) -> Seq<
    IrOp<'ctx>,
> {
    seq![IrOp::NamedStruct(ty, runtime_struct_name(s)), IrOp::StructBody(ty, layout_ir_types(s, value))]
}

/// What declaring the runtime structs records: `TeaValue` first, then the
/// others, each with its name and fields.
pub open spec fn runtime_declarations<'ctx>(t: RuntimeTypes<'ctx>) -> Seq<IrOp<'ctx>> {
    struct_declared(t.value, RuntimeStruct::TeaValue, t.value) + struct_declared(
        t.string,
        RuntimeStruct::TeaString,
        t.value,
    ) + struct_declared(t.list, RuntimeStruct::TeaList, t.value) + struct_declared(
        t.struct_template,
        RuntimeStruct::StructTemplate,
        t.value,
    ) + struct_declared(t.struct_instance, RuntimeStruct::StructInstance, t.value) + struct_declared(
        t.error_template,
        RuntimeStruct::ErrorTemplate,
        t.value,
    ) + struct_declared(t.closure, RuntimeStruct::Closure, t.value)
}

/// The LLVM type of a runtime field (see [`field_ir_type`]).
fn runtime_field_type<'ctx>(
    context: &'ctx Context,
    value: LlvmStructType<'ctx>,
    field: RuntimeField,
) -> (r: Typed<'ctx>)
    ensures
        r.model() == field_ir_type(field, value),
{
    match field {
        RuntimeField::Byte => i8_basic(context),
        RuntimeField::Word => i32_basic(context),
        RuntimeField::Long => i64_basic(context),
        RuntimeField::Pointer => byte_pointer(context),
        RuntimeField::Bytes(n) => byte_array(context, n),
        RuntimeField::Values(n) => struct_array(value, n),
    }
}

/// Declares runtime struct `s` under its name (see
/// [`crate::aot::runtime::runtime_struct_name`]) with its fields (see
/// [`layout_ir_types`]); its inline values are `value` structs, or
/// itself without one.
fn declare_runtime_struct<'ctx>(
    log: &mut EmitLog<'ctx>,
    context: &'ctx Context,
    value: Option<LlvmStructType<'ctx>>,
    s: RuntimeStruct,
) -> (r: LlvmStructType<'ctx>)
    ensures
        final(log)@ == old(log)@ + struct_declared(
            r,
            s,
            match value {
                Some(v) => v,
                None => r,
            },
        ),
{
    let name = runtime_name(s);
    let ty = opaque_struct_type(log, context, name.as_str());
    let inline_value = match value {
        Some(v) => v,
        None => ty,
    };
    let fields = runtime_fields(s);
    let mut types: Vec<Typed<'ctx>> = Vec::new();
    let mut i: usize = 0;
    while i < fields.len()
        invariant
            i <= fields@.len(),
            fields@ == runtime_layout(s),
            models(types@) == fields@.take(i as int).map_values(|f: RuntimeField| field_ir_type(f, inline_value)),
        decreases fields@.len() - i,
    {
        let ghost before = types@;
        types.push(runtime_field_type(context, inline_value, fields[i]));
        proof {
            assert(fields@.take(i + 1) =~= fields@.take(i as int).push(fields@[i as int]));
            assert(models(types@) =~= models(before).push(field_ir_type(fields@[i as int], inline_value)));
            assert(models(types@) =~= fields@.take(i + 1).map_values(|f: RuntimeField| field_ir_type(f, inline_value)));
        }
        i = i + 1;
    }
    proof {
        assert(fields@.take(i as int) =~= fields@);
    }
    set_struct_body(log, ty, types.as_slice());
    proof {
        assert(final(log)@ =~= old(log)@ + struct_declared(ty, s, inline_value)) by {
            assert(log@ =~= old(log)@ + struct_declared(ty, s, inline_value));
        }
    }
    ty
}

/// Declares the struct types shared with the runtime (see
/// [`runtime_declarations`]): `TeaValue` first, whose type the inline
/// values of `TeaList` take, then the others, each under its name and with
/// its fields.
pub fn declare_runtime_types<'ctx>(log: &mut EmitLog<'ctx>, context: &'ctx Context) -> (r: RuntimeTypes<'ctx>)
    ensures
        final(log)@ == old(log)@ + runtime_declarations(r),
{
    let value = declare_runtime_struct(log, context, None, RuntimeStruct::TeaValue);
    let string = declare_runtime_struct(log, context, Some(value), RuntimeStruct::TeaString);
    let list = declare_runtime_struct(log, context, Some(value), RuntimeStruct::TeaList);
    let struct_template = declare_runtime_struct(log, context, Some(value), RuntimeStruct::StructTemplate);
    let struct_instance = declare_runtime_struct(log, context, Some(value), RuntimeStruct::StructInstance);
    let error_template = declare_runtime_struct(log, context, Some(value), RuntimeStruct::ErrorTemplate);
    let closure = declare_runtime_struct(log, context, Some(value), RuntimeStruct::Closure);
    let r = RuntimeTypes { string, list, value, struct_template, struct_instance, error_template, closure };
    proof {
        assert(log@ =~= old(log)@ + runtime_declarations(r));
    }
    r
}

/// The LLVM type of the function that holds a lambda's body, which a
/// closure call calls: the closure pointer first, then the signature's
/// parameters (see [`function_type`]).
pub fn closure_function_type<'ctx>(
    context: &'ctx Context,
    tea_value: LlvmStructType<'ctx>,
    return_type: &ValueType,
    params: &[ValueType],
) -> (r: Result<TypedFunction<'ctx>, String>)
    ensures
        r is Ok <==> forall|i: int| 0 <= i < params@.len() ==> basic_kind_of(#[trigger] params@[i]@) is Some,
        r matches Err(e) ==> e@ == "void type is not a value"@,
        r matches Ok(f) ==> f.result() == value_ir_type(return_type@, tea_value) && f.params() == seq![
            IrType::BytePointer,
        ] + params_ir_types(params@.map_values(|t: ValueType| t@), tea_value),
{
    shaped_function_type(context, tea_value, Some(BasicKind::ClosurePointer), return_type, params)
}

/// `Module::add_function` with `Linkage::Internal`: a new function of type
/// `ty`, local to the module, asked to be named `name`, recorded in the log
/// with the name asked for.
#[verifier::external_body]
fn add_internal_function<'ctx>(log: &mut EmitLog<'ctx>, module: &LlvmModule<'ctx>, name: &str, ty: &TypedFunction<'ctx>) -> (r: FunctionValue<
    'ctx,
>)
    ensures
        final(log)@ == old(log)@.push(IrOp::Function(r, name@, ty.result(), ty.params(), true)),
{
    module.add_function(name, ty.ty, Some(Linkage::Internal))
}

/// The function recorded under `key`: the first entry for it.
pub open spec fn recorded<'ctx, K>(entries: Seq<(K, FunctionValue<'ctx>)>, key: K) -> Option<FunctionValue<'ctx>>
    decreases entries.len(),
{
    if entries.len() == 0 {
        None
    } else if entries[0].0 == key {
        Some(entries[0].1)
    } else {
        recorded(entries.drop_first(), key)
    }
}

/// The function that holds the body of lambda `id`: the one recorded for
/// it (see [`recorded`]), else a new function named
/// [`crate::aot::closures::lambda_symbol`], local to the module, of its
/// closure function type (see [`closure_function_type`]), recorded at the
/// end of `lambdas`.
pub fn declare_lambda_function<'ctx>(
    log: &mut EmitLog<'ctx>,
    context: &'ctx Context,
    module: &LlvmModule<'ctx>,
    tea_value: LlvmStructType<'ctx>,
    id: usize,
    signature: &LambdaSignature,
    lambdas: &mut Vec<(usize, FunctionValue<'ctx>)>,
) -> (r: Result<FunctionValue<'ctx>, String>)
    ensures
        match recorded(old(lambdas)@, id) {
            Some(f) => r == Ok::<FunctionValue<'ctx>, String>(f) && final(lambdas)@ == old(lambdas)@ && final(log)@ == old(log)@,
            None => {
                &&& r is Ok <==> forall|i: int|
                    0 <= i < signature.param_types@.len() ==> basic_kind_of(
                        #[trigger] signature.param_types@[i]@,
                    ) is Some
                &&& r matches Ok(f) ==> final(lambdas)@ == old(lambdas)@.push((id, f)) && final(log)@ == old(log)@.push(
                    IrOp::Function(
                        f,
                        lambda_symbol(id as nat),
                        value_ir_type(signature.return_type@, tea_value),
                        seq![IrType::BytePointer] + params_ir_types(
                            signature.param_types@.map_values(|t: ValueType| t@),
                            tea_value,
                        ),
                        true,
                    ),
                )
                &&& r matches Err(e) ==> e@ == "void type is not a value"@ && final(lambdas)@ == old(lambdas)@ && final(log)@ == old(log)@
            },
        },
{
    let mut j: usize = 0;
    proof {
        assert(lambdas@.skip(0) =~= lambdas@);
    }
    while j < lambdas.len()
        invariant
            j <= lambdas@.len(),
            recorded(lambdas@, id) == recorded(lambdas@.skip(j as int), id),
        decreases lambdas@.len() - j,
    {
        proof {
            assert(lambdas@.skip(j as int).drop_first() =~= lambdas@.skip(j + 1));
        }
        if lambdas[j].0 == id {
            return Ok(lambdas[j].1);
        }
        j = j + 1;
    }
    proof {
        assert(lambdas@.skip(j as int) =~= Seq::<(usize, FunctionValue<'ctx>)>::empty());
    }
    let fn_type = match closure_function_type(
        context,
        tea_value,
        &signature.return_type,
        signature.param_types.as_slice(),
    ) {
        Ok(t) => t,
        Err(e) => return Err(e),
    };
    let name = lambda_function_name(id);
    let function = add_internal_function(log, module, name.as_str(), &fn_type);
    lambdas.push((id, function));
    Ok(function)
}

/// The LLVM type of a runtime type: `i64`, `double`, `i1`, `i32`, a byte
/// pointer, or `tea_value`.
pub open spec fn runtime_ir_type<'ctx>(t: RuntimeType, tea_value: LlvmStructType<'ctx>) -> IrType<'ctx> {
    match t {
        RuntimeType::Int => IrType::Int(64),
        RuntimeType::Float => IrType::Double,
        RuntimeType::Bool => IrType::Int(1),
        RuntimeType::Word => IrType::Int(32),
        RuntimeType::Pointer => IrType::BytePointer,
        RuntimeType::Value => IrType::Struct(tea_value),
    }
}

/// The LLVM type of a runtime type (see [`runtime_ir_type`]).
fn runtime_type<'ctx>(context: &'ctx Context, tea_value: LlvmStructType<'ctx>, t: RuntimeType) -> (r: Typed<'ctx>)
    ensures
        r.model() == runtime_ir_type(t, tea_value),
{
    match t {
        RuntimeType::Int => i64_basic(context),
        RuntimeType::Float => f64_basic(context),
        RuntimeType::Bool => bool_basic(context),
        RuntimeType::Word => i32_basic(context),
        RuntimeType::Pointer => byte_pointer(context),
        RuntimeType::Value => struct_basic(tea_value),
    }
}

/// The LLVM type of a runtime function: its result and parameter types
/// (see [`crate::aot::runtime::runtime_result`] and
/// [`crate::aot::runtime::runtime_params`]) as LLVM types.
pub fn runtime_function_type<'ctx>(
    context: &'ctx Context,
    tea_value: LlvmStructType<'ctx>,
    f: RuntimeFunction,
) -> (r: TypedFunction<'ctx>)
    ensures
        r.result() == (match runtime_result(f) {
            Some(t) => Some(runtime_ir_type(t, tea_value)),
            None => None,
        }),
        r.params() == runtime_params(f).map_values(|t: RuntimeType| runtime_ir_type(t, tea_value)),
{
    let params = runtime_function_params(f);
    let mut types: Vec<Typed<'ctx>> = Vec::new();
    let mut i: usize = 0;
    while i < params.len()
        invariant
            i <= params@.len(),
            models(types@) == params@.take(i as int).map_values(|t: RuntimeType| runtime_ir_type(t, tea_value)),
        decreases params@.len() - i,
    {
        let ghost before = types@;
        types.push(runtime_type(context, tea_value, params[i]));
        proof {
            assert(params@.take(i + 1) =~= params@.take(i as int).push(params@[i as int]));
            assert(models(types@) =~= models(before).push(runtime_ir_type(params@[i as int], tea_value)));
            assert(models(types@) =~= params@.take(i + 1).map_values(|t: RuntimeType| runtime_ir_type(t, tea_value)));
        }
        i = i + 1;
    }
    proof {
        assert(params@.take(i as int) =~= params@);
    }
    match runtime_function_result(f) {
        None => void_fn_type(context, types.as_slice()),
        Some(t) => {
            let ret = runtime_type(context, tea_value, t);
            value_fn_type(&ret, types.as_slice())
        },
    }
}

/// The declaration of runtime function `f` in the module: the one recorded
/// for it (see [`recorded`]), else a new external function under its
/// symbol (see [`crate::aot::runtime::runtime_symbol`]) of its type (see
/// [`runtime_function_type`]), recorded at the end of `declared`.
pub fn ensure_runtime_function<'ctx>(
    log: &mut EmitLog<'ctx>,
    context: &'ctx Context,
    module: &LlvmModule<'ctx>,
    tea_value: LlvmStructType<'ctx>,
    f: RuntimeFunction,
    declared: &mut Vec<(RuntimeFunction, FunctionValue<'ctx>)>,
) -> (r: FunctionValue<'ctx>)
    ensures
        match recorded(old(declared)@, f) {
            Some(v) => r == v && final(declared)@ == old(declared)@ && final(log)@ == old(log)@,
            None => final(declared)@ == old(declared)@.push((f, r)) && final(log)@ == old(log)@.push(
                IrOp::Function(
                    r,
                    runtime_symbol(f),
                    match runtime_result(f) {
                        Some(t) => Some(runtime_ir_type(t, tea_value)),
                        None => None,
                    },
                    runtime_params(f).map_values(|t: RuntimeType| runtime_ir_type(t, tea_value)),
                    false,
                ),
            ),
        },
{
    let mut j: usize = 0;
    proof {
        assert(declared@.skip(0) =~= declared@);
    }
    while j < declared.len()
        invariant
            j <= declared@.len(),
            recorded(declared@, f) == recorded(declared@.skip(j as int), f),
        decreases declared@.len() - j,
    {
        proof {
            assert(declared@.skip(j as int).drop_first() =~= declared@.skip(j + 1));
        }
        if declared[j].0 == f {
            return declared[j].1;
        }
        j = j + 1;
    }
    proof {
        assert(declared@.skip(j as int) =~= Seq::<(RuntimeFunction, FunctionValue<'ctx>)>::empty());
    }
    let name = runtime_function_symbol(f);
    let fn_type = runtime_function_type(context, tea_value, f);
    let function = add_function(log, module, name.as_str(), &fn_type);
    declared.push((f, function));
    function
}

/// The runtime function that compares two values of a kind.
pub open spec fn equality_function(kind: RuntimeEquality) -> RuntimeFunction {
    match kind {
        RuntimeEquality::String => RuntimeFunction::StringEqual,
        RuntimeEquality::List => RuntimeFunction::ListEqual,
        RuntimeEquality::Struct => RuntimeFunction::StructEqual,
        RuntimeEquality::Closure => RuntimeFunction::ClosureEqual,
        RuntimeEquality::Dict => RuntimeFunction::DictEqual,
    }
}

/// The names of the call, the boolean and the negation of an equality of
/// a kind.
pub open spec fn equality_names(kind: RuntimeEquality) -> (Seq<char>, Seq<char>, Seq<char>, Seq<char>) {
    match kind {
        RuntimeEquality::String => ("str_eq"@, "str_eq_bool"@, "str_neq"@, "tea_string_equal"@),
        RuntimeEquality::List => ("list_eq"@, "list_eq_bool"@, "list_neq"@, "tea_list_equal"@),
        RuntimeEquality::Struct => ("struct_eq"@, "struct_eq_bool"@, "struct_neq"@, "tea_struct_equal"@),
        RuntimeEquality::Closure => ("closure_eq"@, "closure_eq_bool"@, "closure_neq"@, "tea_closure_equal"@),
        RuntimeEquality::Dict => ("dict_eq"@, "dict_eq_bool"@, "dict_neq"@, "tea_dict_equal"@),
    }
}

fn equality_function_of(kind: RuntimeEquality) -> (r: RuntimeFunction)
    ensures
        r == equality_function(kind),
{
    match kind {
        RuntimeEquality::String => RuntimeFunction::StringEqual,
        RuntimeEquality::List => RuntimeFunction::ListEqual,
        RuntimeEquality::Struct => RuntimeFunction::StructEqual,
        RuntimeEquality::Closure => RuntimeFunction::ClosureEqual,
        RuntimeEquality::Dict => RuntimeFunction::DictEqual,
    }
}

fn equality_names_of(kind: RuntimeEquality) -> (r: (&'static str, &'static str, &'static str, &'static str))
    ensures
        (r.0@, r.1@, r.2@, r.3@) == equality_names(kind),
{
    match kind {
        RuntimeEquality::String => ("str_eq", "str_eq_bool", "str_neq", "tea_string_equal"),
        RuntimeEquality::List => ("list_eq", "list_eq_bool", "list_neq", "tea_list_equal"),
        RuntimeEquality::Struct => ("struct_eq", "struct_eq_bool", "struct_neq", "tea_struct_equal"),
        RuntimeEquality::Closure => ("closure_eq", "closure_eq_bool", "closure_neq", "tea_closure_equal"),
        RuntimeEquality::Dict => ("dict_eq", "dict_eq_bool", "dict_neq", "tea_dict_equal"),
    }
}

/// What declaring runtime function `f` as `value` records: nothing when it
/// was declared before, else its declaration.
pub open spec fn declaration_ops<'ctx>(
    declared: Seq<(RuntimeFunction, FunctionValue<'ctx>)>,
    f: RuntimeFunction,
    value: FunctionValue<'ctx>,
    tea_value: LlvmStructType<'ctx>,
) -> Seq<IrOp<'ctx>> {
    match recorded(declared, f) {
        Some(_) => Seq::empty(),
        None => seq![
            IrOp::Function(
                value,
                runtime_symbol(f),
                match runtime_result(f) {
                    Some(t) => Some(runtime_ir_type(t, tea_value)),
                    None => None,
                },
                runtime_params(f).map_values(|t: RuntimeType| runtime_ir_type(t, tea_value)),
                false,
            ),
        ],
    }
}

/// The operations of comparing two values through the runtime: the
/// runtime's equality function `f` called on the two pointers, its `i32`
/// result `raw` truncated to a boolean `truth`, negated to `result` for an
/// inequality (else `result` is `truth`).
pub open spec fn runtime_equality_ops<'ctx>(
    f: FunctionValue<'ctx>,
    left: PointerValue<'ctx>,
    right: PointerValue<'ctx>,
    is_equal: bool,
    raw: IntValue<'ctx>,
    truth: IntValue<'ctx>,
    result: IntValue<'ctx>,
) -> Seq<IrOp<'ctx>> {
    seq![IrOp::Call(f, seq![left, right], Some(raw)), IrOp::Truncate(truth, raw)] + (if is_equal {
        Seq::empty()
    } else {
        seq![IrOp::Not(result, truth)]
    })
}

/// The runtime functions recorded after `f` was asked for and `value` is
/// the function declared for it: unchanged when `f` was recorded, else
/// with `(f, value)` added at the end.
pub open spec fn with_declared<'ctx>(
    declared: Seq<(RuntimeFunction, FunctionValue<'ctx>)>,
    f: RuntimeFunction,
    value: FunctionValue<'ctx>,
) -> Seq<(RuntimeFunction, FunctionValue<'ctx>)> {
    match recorded(declared, f) {
        Some(_) => declared,
        None => declared.push((f, value)),
    }
}

/// The message for a runtime equality function whose call gives no
/// integer.
pub open spec fn expected_bool_message(kind: RuntimeEquality) -> Seq<char> {
    "expected bool from "@ + equality_names(kind).3
}

/// What comparing through the runtime's equality function `f` (of
/// `kind`), declared as `declaration` records, leaves in the log, going
/// from `start` to `end`, and answers with `r`, whichever way the builder's
/// calls go:
/// - the call gives an integer `raw`, which is truncated to a boolean and,
///   for an inequality, negated: the answer is that boolean and the log
///   holds the declaration and [`runtime_equality_ops`];
/// - the call gives no integer: the answer is
///   [`expected_bool_message`], and the log holds the declaration and the
///   call;
/// - a builder call fails: the answer is the builder's text, and the log
///   holds the declaration and what came before the failing call.
pub open spec fn runtime_equality_outcome<'ctx>(
    start: Seq<IrOp<'ctx>>,
    end: Seq<IrOp<'ctx>>,
    declaration: Seq<IrOp<'ctx>>,
    f: FunctionValue<'ctx>,
    kind: RuntimeEquality,
    left: PointerValue<'ctx>,
    right: PointerValue<'ctx>,
    is_equal: bool,
    r: Result<IntValue<'ctx>, String>,
) -> bool {
    match r {
        Ok(b) => exists|raw: IntValue<'ctx>, truth: IntValue<'ctx>, result: IntValue<'ctx>|
            result == b && (is_equal ==> truth == b) && end == start + declaration
                + #[trigger] runtime_equality_ops(f, left, right, is_equal, raw, truth, result),
        Err(e) => {
            ||| e@ == expected_bool_message(kind) && end == start + declaration + seq![
                IrOp::Call(f, seq![left, right], None),
            ]
            ||| is_builder_message(e@) && exists|raw: IntValue<'ctx>, truth: IntValue<'ctx>, result: IntValue<'ctx>, k: int|
                0 <= k < runtime_equality_ops(f, left, right, is_equal, raw, truth, result).len() && end == start
                    + declaration + #[trigger] runtime_equality_ops(f, left, right, is_equal, raw, truth, result).take(k)
        },
    }
}

/// Compares two values of a kind the runtime compares (strings, lists,
/// dicts, structs, closures; see
/// [`crate::aot::compare::EqualityPlan::Runtime`]) for equality, or
/// inequality when `is_equal` is false: the runtime's equality function is
/// declared if need be (and recorded in `declared`), called on the two
/// values, and its answer made a boolean (see
/// [`runtime_equality_outcome`]).
pub fn build_runtime_equality<'ctx>(
    log: &mut EmitLog<'ctx>,
    context: &'ctx Context,
    module: &LlvmModule<'ctx>,
    builder: &Builder<'ctx>,
    tea_value: LlvmStructType<'ctx>,
    declared: &mut Vec<(RuntimeFunction, FunctionValue<'ctx>)>,
    kind: RuntimeEquality,
    left: PointerValue<'ctx>,
    right: PointerValue<'ctx>,
    is_equal: bool,
) -> (r: Result<IntValue<'ctx>, String>)
    ensures
        exists|f: FunctionValue<'ctx>|
            (recorded(old(declared)@, equality_function(kind)) matches Some(v) ==> f == v) && final(declared)@
                == #[trigger] with_declared(old(declared)@, equality_function(kind), f) && runtime_equality_outcome(
                old(log)@,
                final(log)@,
                declaration_ops(old(declared)@, equality_function(kind), f, tea_value),
                f,
                kind,
                left,
                right,
                is_equal,
                r,
            ),
        r matches Ok(b) ==> exists|f: FunctionValue<'ctx>, raw: IntValue<'ctx>, truth: IntValue<'ctx>, result: IntValue<'ctx>|
            result == b && (is_equal ==> truth == b) && final(log)@ == old(log)@ + declaration_ops(
                old(declared)@,
                equality_function(kind),
                f,
                tea_value,
            ) + #[trigger] runtime_equality_ops(f, left, right, is_equal, raw, truth, result),
        r is Err ==> old(log)@.len() <= final(log)@.len() && final(log)@.take(old(log)@.len() as int) == old(log)@,
{
    let ghost start = log@;
    let ghost old_declared = declared@;
    let rf = equality_function_of(kind);
    let (call_name, bool_name, not_name, runtime_name) = equality_names_of(kind);
    let f = ensure_runtime_function(log, context, module, tea_value, rf, declared);
    let ghost decl = log@;
    let ghost dops = declaration_ops(old_declared, rf, f, tea_value);
    proof {
        assert(decl =~= start + dops);
        assert(declared@ == with_declared(old_declared, rf, f));
    }
    let mut args: Vec<PointerValue<'ctx>> = Vec::new();
    args.push(left);
    args.push(right);
    proof {
        assert(args@ =~= seq![left, right]);
    }
    let ghost none: IntValue<'ctx> = arbitrary();
    let raw = match build_pointer_call(log, builder, f, args.as_slice(), call_name) {
        Ok(Some(v)) => v,
        Ok(None) => {
            proof {
                assert(log@.take(start.len() as int) =~= start);
            }
            let mut msg = String::from_str("expected bool from ");
            msg.append(runtime_name);
            proof {
                assert(msg@ == expected_bool_message(kind));
                assert(log@ =~= start + dops + seq![IrOp::Call(f, seq![left, right], None)]);
            }
            return Err(msg);
        },
        Err(e) => {
            proof {
                assert(log@.take(start.len() as int) =~= start);
                assert(log@ =~= start + dops + runtime_equality_ops(f, left, right, is_equal, none, none, none).take(0));
            }
            return Err(builder_error_text(e));
        },
    };
    let truth = match build_truncate_to_bool(log, context, builder, raw, bool_name) {
        Ok(t) => t,
        Err(e) => {
            proof {
                assert(log@.take(start.len() as int) =~= start);
                assert(log@ =~= start + dops + runtime_equality_ops(f, left, right, is_equal, raw, none, none).take(1));
            }
            return Err(builder_error_text(e));
        },
    };
    if is_equal {
        proof {
            assert(log@ =~= start + dops + runtime_equality_ops(f, left, right, is_equal, raw, truth, truth));
        }
        return Ok(truth);
    }
    match build_not(log, builder, truth, not_name) {
        Ok(v) => {
            proof {
                assert(log@ =~= start + dops + runtime_equality_ops(f, left, right, is_equal, raw, truth, v));
            }
            Ok(v)
        },
        Err(e) => {
            proof {
                assert(log@.take(start.len() as int) =~= start);
                assert(log@ =~= start + dops + runtime_equality_ops(f, left, right, is_equal, raw, truth, none).take(2));
            }
            Err(builder_error_text(e))
        },
    }
}

/// What asking the runtime for the empty optional (its function `f`,
/// declared as `declaration` records) leaves in the log, going from `start`
/// to `end`, and answers with `r`: the call giving a value, that value as
/// an optional; the call giving nothing, a refusal; a builder error, its
/// text, with the log holding only the declaration.
pub open spec fn nil_outcome<'ctx>(
    start: Seq<IrOp<'ctx>>,
    end: Seq<IrOp<'ctx>>,
    declaration: Seq<IrOp<'ctx>>,
    f: FunctionValue<'ctx>,
    r: Result<LlvmValue<'ctx>, String>,
) -> bool {
    match r {
        Ok(v) => exists|x: BasicValueEnum<'ctx>|
            v == LlvmValue::Optional(x) && end == start + declaration + #[trigger] seq![IrOp::NullaryCall(f, Some(x))],
        Err(e) => {
            ||| e@ == "expected TeaValue for optional nil"@ && end == start + declaration + seq![
                IrOp::NullaryCall(f, None),
            ]
            ||| is_builder_message(e@) && end == start + declaration
        },
    }
}

/// The empty optional: the runtime's `tea_value_nil` is declared if need
/// be (and recorded in `declared`) and called (see [`nil_outcome`]).
pub fn optional_nil<'ctx>(
    log: &mut EmitLog<'ctx>,
    context: &'ctx Context,
    module: &LlvmModule<'ctx>,
    builder: &Builder<'ctx>,
    tea_value: LlvmStructType<'ctx>,
    declared: &mut Vec<(RuntimeFunction, FunctionValue<'ctx>)>,
) -> (r: Result<LlvmValue<'ctx>, String>)
    ensures
        exists|f: FunctionValue<'ctx>|
            (recorded(old(declared)@, RuntimeFunction::ValueNil) matches Some(v) ==> f == v) && final(declared)@
                == #[trigger] with_declared(old(declared)@, RuntimeFunction::ValueNil, f) && nil_outcome(
                old(log)@,
                final(log)@,
                declaration_ops(old(declared)@, RuntimeFunction::ValueNil, f, tea_value),
                f,
                r,
            ),
{
    let ghost start = log@;
    let ghost old_declared = declared@;
    let f = ensure_runtime_function(log, context, module, tea_value, RuntimeFunction::ValueNil, declared);
    let ghost dops = declaration_ops(old_declared, RuntimeFunction::ValueNil, f, tea_value);
    proof {
        assert(log@ =~= start + dops);
        assert(declared@ == with_declared(old_declared, RuntimeFunction::ValueNil, f));
    }
    match build_nullary_call(log, builder, f, "optional_nil") {
        Ok(Some(x)) => {
            proof {
                assert(log@ =~= start + dops + seq![IrOp::NullaryCall(f, Some(x))]);
            }
            Ok(LlvmValue::Optional(x))
        },
        Ok(None) => {
            proof {
                assert(log@ =~= start + dops + seq![IrOp::NullaryCall(f, None)]);
            }
            Err(String::from_str("expected TeaValue for optional nil"))
        },
        Err(e) => Err(builder_error_text(e)),
    }
}

/// Converts `value`, of type `from`, to type `target` (see
/// [`crate::aot::compare::conversion`]): a value of the type is kept,
/// `nil` becomes the empty optional (see [`optional_nil`]), and any other
/// value converted to an optional is boxed into a `TeaValue` (see
/// [`expr_to_tea_value`]; converting it to the inner type first keeps it,
/// and boxing an optional again gives it back). A type that does not
/// convert is refused before anything is emitted.
pub fn convert_expr_to_type<'ctx>(
    log: &mut EmitLog<'ctx>,
    context: &'ctx Context,
    module: &LlvmModule<'ctx>,
    builder: &Builder<'ctx>,
    tea_value: LlvmStructType<'ctx>,
    declared: &mut Vec<(RuntimeFunction, FunctionValue<'ctx>)>,
    value: LlvmValue<'ctx>,
    from: &ValueType,
    target: &ValueType,
) -> (r: Result<LlvmValue<'ctx>, String>)
    ensures
        conversion(from@, target@) matches Err(e) ==> (r matches Err(m) && m@ == e) && final(log)@ == old(log)@
            && final(declared)@ == old(declared)@,
        conversion(from@, target@) matches Ok(Conversion::Keep) ==> r == Ok::<LlvmValue<'ctx>, String>(value)
            && final(log)@ == old(log)@ && final(declared)@ == old(declared)@,
        conversion(from@, target@) matches Ok(Conversion::Nil) ==> exists|f: FunctionValue<'ctx>|
            (recorded(old(declared)@, RuntimeFunction::ValueNil) matches Some(v) ==> f == v) && final(declared)@
                == #[trigger] with_declared(old(declared)@, RuntimeFunction::ValueNil, f) && nil_outcome(
                old(log)@,
                final(log)@,
                declaration_ops(old(declared)@, RuntimeFunction::ValueNil, f, tea_value),
                f,
                r,
            ),
        conversion(from@, target@) matches Ok(Conversion::Wrap(_)) ==> {
            &&& final(declared)@ == old(declared)@
            &&& value matches LlvmValue::Optional(x) ==> r == Ok::<LlvmValue<'ctx>, String>(value) && final(log)@
                == old(log)@
            &&& !(value is Optional) && !(value is Void) ==> (r matches Ok(v) ==> exists|
                p: IntValue<'ctx>,
                w: TeaValueNodes<'ctx>,
            |
                v == LlvmValue::Optional(w.loaded) && (value matches LlvmValue::Int(i) ==> p == i) && final(log)@
                    == old(log)@ + #[trigger] boxing_ops(tea_value, value, p, w))
            &&& !(value is Optional) && !(value is Void) ==> (r matches Err(e) ==> is_builder_message(e@) && exists|
                p: IntValue<'ctx>,
                w: TeaValueNodes<'ctx>,
                k: int,
            |
                (value matches LlvmValue::Int(i) ==> p == i) && 0 <= k < boxing_ops(tea_value, value, p, w).len()
                    && final(log)@ == old(log)@ + #[trigger] boxing_ops(tea_value, value, p, w).take(k))
            &&& r matches Ok(v) ==> v is Optional
        },
{
    match conversion_plan(from, target) {
        Err(e) => Err(e),
        Ok(Conversion::Keep) => Ok(value),
        Ok(Conversion::Nil) => optional_nil(log, context, module, builder, tea_value, declared),
        Ok(Conversion::Wrap(_)) => {
            let ghost start = log@;
            match expr_to_tea_value(log, context, builder, tea_value, value) {
                Ok(t) => {
                    proof {
                        if !(value is Optional) && !(value is Void) {
                            let (p, w) = choose|p: IntValue<'ctx>, w: TeaValueNodes<'ctx>|
                                w.loaded == t && (value matches LlvmValue::Int(i) ==> p == i) && log@ == start
                                    + crate::aot::llvm::payload_ops(value, p) + crate::aot::llvm::tea_value_ops(
                                    w,
                                    tea_value,
                                    crate::aot::llvm::boxing_plan(value).0,
                                    p,
                                    crate::aot::llvm::boxing_plan(value).1,
                                );
                            assert(log@ =~= start + boxing_ops(tea_value, value, p, w));
                        }
                    }
                    Ok(LlvmValue::Optional(t))
                },
                Err(e) => Err(e),
            }
        },
    }
}

} // verus!
