//! Reading and writing through names and indices: what an index
//! expression reads, and where an assignment stores.
use vstd::prelude::*;

use crate::aot::backend::span_description;
use crate::aot::types::{
    clone_value_type, ExprValue, GlobalBindingSlot, IrRef, LocalVariable, SpecValueType, ValueType,
};
use crate::ast::{Expression, ExpressionKind, SourceSpan};
use crate::names::NameMap;

verus! {

/// What an index expression reads, with the values it reads through.
#[derive(Debug)]
pub enum IndexAccess {
    /// Characters `start` to `end` of a string.
    StringSlice { string: IrRef, start: IrRef, end: IrRef, inclusive: bool },
    /// Elements `start` to `end` of a list.
    ListSlice {
        list: IrRef,
        start: IrRef,
        end: IrRef,
        inclusive: bool,
        element_type: ValueType,
    },
    /// One element of a list.
    ListElement { list: IrRef, index: IrRef, element_type: ValueType },
    /// The entry of a dictionary under a string key.
    DictEntry { dict: IrRef, key: IrRef, value_type: ValueType },
    /// One character of a string.
    StringChar { string: IrRef, index: IrRef },
}

/// The plain view of an index access.
pub enum SpecIndexAccess {
    StringSlice { string: IrRef, start: IrRef, end: IrRef, inclusive: bool },
    ListSlice {
        list: IrRef,
        start: IrRef,
        end: IrRef,
        inclusive: bool,
        element_type: SpecValueType,
    },
    ListElement { list: IrRef, index: IrRef, element_type: SpecValueType },
    DictEntry { dict: IrRef, key: IrRef, value_type: SpecValueType },
    StringChar { string: IrRef, index: IrRef },
}

impl View for IndexAccess {
    type V = SpecIndexAccess;

    open spec fn view(&self) -> SpecIndexAccess {
        match self {
            IndexAccess::StringSlice { string, start, end, inclusive } => SpecIndexAccess::StringSlice {
                string: *string,
                start: *start,
                end: *end,
                inclusive: *inclusive,
            },
            IndexAccess::ListSlice { list, start, end, inclusive, element_type } =>
                SpecIndexAccess::ListSlice {
                list: *list,
                start: *start,
                end: *end,
                inclusive: *inclusive,
                element_type: element_type@,
            },
            IndexAccess::ListElement { list, index, element_type } => SpecIndexAccess::ListElement {
                list: *list,
                index: *index,
                element_type: element_type@,
            },
            IndexAccess::DictEntry { dict, key, value_type } => SpecIndexAccess::DictEntry {
                dict: *dict,
                key: *key,
                value_type: value_type@,
            },
            IndexAccess::StringChar { string, index } => SpecIndexAccess::StringChar {
                string: *string,
                index: *index,
            },
        }
    }
}

/// A slice `object[start..end]`: both bounds must be integers (the start
/// is checked first), and only a string or a list can be sliced.
pub open spec fn slice_plan(object: ExprValue, start: ExprValue, end: ExprValue, inclusive: bool) -> Result<
    SpecIndexAccess,
    Seq<char>,
> {
    match start {
        ExprValue::Int(s) => match end {
            ExprValue::Int(e) => match object {
                ExprValue::String(p) => Ok(
                    SpecIndexAccess::StringSlice { string: p, start: s, end: e, inclusive },
                ),
                ExprValue::List { pointer, element_type } => Ok(
                    SpecIndexAccess::ListSlice {
                        list: pointer,
                        start: s,
                        end: e,
                        inclusive,
                        element_type: element_type@,
                    },
                ),
                _ => Err("slicing expects a list or string value"@),
            },
            _ => Err("expected Int value"@),
        },
        _ => Err("expected Int value"@),
    }
}

/// What a slice expression reads (see [`slice_plan`]).
pub fn slice_access(object: ExprValue, start: ExprValue, end: ExprValue, inclusive: bool) -> (r:
    Result<IndexAccess, String>)
    ensures
        match r {
            Ok(a) => slice_plan(object, start, end, inclusive) == Ok::<SpecIndexAccess, Seq<char>>(
                a@,
            ),
            Err(e) => slice_plan(object, start, end, inclusive) == Err::<SpecIndexAccess, Seq<char>>(
                e@,
            ),
        },
{
    let s = match start.into_int() {
        Ok(s) => s,
        Err(e) => return Err(e),
    };
    let e = match end.into_int() {
        Ok(e) => e,
        Err(msg) => return Err(msg),
    };
    match object {
        ExprValue::String(p) => Ok(IndexAccess::StringSlice { string: p, start: s, end: e, inclusive }),
        ExprValue::List { pointer, element_type } => Ok(
            IndexAccess::ListSlice { list: pointer, start: s, end: e, inclusive, element_type: *element_type },
        ),
        _ => Err(String::from_str("slicing expects a list or string value")),
    }
}

/// An index `object[key]`: a list or a string takes an integer index, a
/// dictionary a string key; nothing else can be indexed.
pub open spec fn index_plan(object: ExprValue, key: ExprValue) -> Result<SpecIndexAccess, Seq<char>> {
    match object {
        ExprValue::List { pointer, element_type } => match key {
            ExprValue::Int(i) => Ok(
                SpecIndexAccess::ListElement {
                    list: pointer,
                    index: i,
                    element_type: element_type@,
                },
            ),
            _ => Err("expected Int value"@),
        },
        ExprValue::Dict { pointer, value_type } => match key {
            ExprValue::String(k) => Ok(
                SpecIndexAccess::DictEntry { dict: pointer, key: k, value_type: value_type@ },
            ),
            _ => Err("dictionary index expects a String key"@),
        },
        ExprValue::String(p) => match key {
            ExprValue::Int(i) => Ok(SpecIndexAccess::StringChar { string: p, index: i }),
            _ => Err("expected Int value"@),
        },
        _ => Err("indexing expects a list, dict, or string value"@),
    }
}

/// What an index expression reads (see [`index_plan`]).
pub fn index_access(object: ExprValue, key: ExprValue) -> (r: Result<IndexAccess, String>)
    ensures
        match r {
            Ok(a) => index_plan(object, key) == Ok::<SpecIndexAccess, Seq<char>>(a@),
            Err(e) => index_plan(object, key) == Err::<SpecIndexAccess, Seq<char>>(e@),
        },
{
    match object {
        ExprValue::List { pointer, element_type } => match key.into_int() {
            Ok(i) => Ok(IndexAccess::ListElement { list: pointer, index: i, element_type: *element_type }),
            Err(e) => Err(e),
        },
        ExprValue::Dict { pointer, value_type } => match key {
            ExprValue::String(k) => Ok(IndexAccess::DictEntry { dict: pointer, key: k, value_type: *value_type }),
            _ => Err(String::from_str("dictionary index expects a String key")),
        },
        ExprValue::String(p) => match key.into_int() {
            Ok(i) => Ok(IndexAccess::StringChar { string: p, index: i }),
            Err(e) => Err(e),
        },
        _ => Err(String::from_str("indexing expects a list, dict, or string value")),
    }
}

/// The forms an assignment can take: to a name, or to an element of the
/// collection a name holds.
#[derive(Debug, Clone, PartialEq, Eq)]
pub enum AssignmentForm {
    Variable(String),
    Indexed(String),
}

/// The form of an assignment to `target`: a name, or an index into a name;
/// anything else cannot be assigned to.
pub open spec fn assignment_form_plan(target: Expression) -> Result<(bool, Seq<char>), Seq<char>> {
    match target.kind {
        ExpressionKind::Identifier(id) => Ok((false, id.name@)),
        ExpressionKind::Index(ix) => match ix.object.kind {
            ExpressionKind::Identifier(id) => Ok((true, id.name@)),
            _ => Err("indexed assignment only supports simple identifiers as base"@),
        },
        _ => Err("only identifier and indexed assignment supported"@),
    }
}

/// The form of an assignment to `target` (see [`assignment_form_plan`]).
pub fn assignment_form(target: &Expression) -> (r: Result<AssignmentForm, String>)
    ensures
        match r {
            Ok(AssignmentForm::Variable(n)) => assignment_form_plan(*target) == Ok::<
                (bool, Seq<char>),
                Seq<char>,
            >((false, n@)),
            Ok(AssignmentForm::Indexed(n)) => assignment_form_plan(*target) == Ok::<
                (bool, Seq<char>),
                Seq<char>,
            >((true, n@)),
            Err(e) => assignment_form_plan(*target) == Err::<(bool, Seq<char>), Seq<char>>(e@),
        },
{
    match &target.kind {
        ExpressionKind::Identifier(id) => Ok(AssignmentForm::Variable(id.name.clone())),
        ExpressionKind::Index(ix) => match &ix.object.kind {
            ExpressionKind::Identifier(id) => Ok(AssignmentForm::Indexed(id.name.clone())),
            _ => Err(String::from_str("indexed assignment only supports simple identifiers as base")),
        },
        _ => Err(String::from_str("only identifier and indexed assignment supported")),
    }
}

/// Where an assignment to a name stores.
#[derive(Debug)]
pub enum AssignmentTarget {
    /// The stack slot of a local.
    LocalSlot { pointer: IrRef, ty: ValueType },
    /// A local held as an SSA value, which the assignment replaces.
    LocalValue { ty: ValueType },
    /// A local with neither slot nor value: an immutable parameter.
    Immutable { ty: ValueType },
    /// The global of a top-level binding.
    Global { pointer: IrRef, ty: ValueType },
}

/// The plain view of an assignment target.
pub enum SpecAssignmentTarget {
    LocalSlot { pointer: IrRef, ty: SpecValueType },
    LocalValue { ty: SpecValueType },
    Immutable { ty: SpecValueType },
    Global { pointer: IrRef, ty: SpecValueType },
}

impl View for AssignmentTarget {
    type V = SpecAssignmentTarget;

    open spec fn view(&self) -> SpecAssignmentTarget {
        match self {
            AssignmentTarget::LocalSlot { pointer, ty } => SpecAssignmentTarget::LocalSlot {
                pointer: *pointer,
                ty: ty@,
            },
            AssignmentTarget::LocalValue { ty } => SpecAssignmentTarget::LocalValue { ty: ty@ },
            AssignmentTarget::Immutable { ty } => SpecAssignmentTarget::Immutable { ty: ty@ },
            AssignmentTarget::Global { pointer, ty } => SpecAssignmentTarget::Global {
                pointer: *pointer,
                ty: ty@,
            },
        }
    }
}

/// The message for an assignment to a `const` binding.
pub open spec fn const_assignment_message(name: Seq<char>, span: SourceSpan) -> Seq<char> {
    "cannot assign to const '"@ + name + "' at "@ + span_description(span)
}

/// Where an assignment to `name` stores: a local shadows a top-level
/// binding; a `const` binding is refused; a name bound nowhere is an
/// undefined identifier.
pub open spec fn assignment_target_plan(
    locals: Map<Seq<char>, LocalVariable>,
    slots: Map<Seq<char>, GlobalBindingSlot>,
    name: Seq<char>,
    span: SourceSpan,
) -> Result<SpecAssignmentTarget, Seq<char>> {
    if locals.dom().contains(name) {
        let v = locals[name];
        if !v.mutable {
            Err(const_assignment_message(name, span))
        } else {
            match v.pointer {
                Some(p) => Ok(SpecAssignmentTarget::LocalSlot { pointer: p, ty: v.ty@ }),
                None => if v.value is Some {
                    Ok(SpecAssignmentTarget::LocalValue { ty: v.ty@ })
                } else {
                    Ok(SpecAssignmentTarget::Immutable { ty: v.ty@ })
                },
            }
        }
    } else if slots.dom().contains(name) {
        let s = slots[name];
        if !s.mutable {
            Err(const_assignment_message(name, span))
        } else {
            Ok(SpecAssignmentTarget::Global { pointer: s.pointer, ty: s.ty@ })
        }
    } else {
        Err("undefined identifier '"@ + name + "' at "@ + span_description(span))
    }
}

/// Where an assignment to `name` at `span` stores (see
/// [`assignment_target_plan`]).
pub fn assignment_target(
    locals: &NameMap<LocalVariable>,
    global_slots: &NameMap<GlobalBindingSlot>,
    name: &str,
    span: SourceSpan,
) -> (r: Result<AssignmentTarget, String>)
    ensures
        match r {
            Ok(t) => assignment_target_plan(locals@, global_slots@, name@, span) == Ok::<
                SpecAssignmentTarget,
                Seq<char>,
            >(t@),
            Err(e) => assignment_target_plan(locals@, global_slots@, name@, span) == Err::<
                SpecAssignmentTarget,
                Seq<char>,
            >(e@),
        },
{
    match locals.get(name) {
        Some(v) => {
            if !v.mutable {
                return Err(const_message(name, span));
            }
            let ty = clone_value_type(&v.ty);
            match v.pointer {
                Some(p) => Ok(AssignmentTarget::LocalSlot { pointer: p, ty }),
                None => if v.value.is_some() {
                    Ok(AssignmentTarget::LocalValue { ty })
                } else {
                    Ok(AssignmentTarget::Immutable { ty })
                },
            }
        },
        None => match global_slots.get(name) {
            Some(s) => {
                if !s.mutable {
                    return Err(const_message(name, span));
                }
                Ok(AssignmentTarget::Global { pointer: s.pointer, ty: clone_value_type(&s.ty) })
            },
            None => {
                let mut msg = String::from_str("undefined identifier '");
                msg.append(name);
                msg.append("' at ");
                let d = crate::aot::backend::describe_span(span);
                msg.append(d.as_str());
                Err(msg)
            },
        },
    }
}

fn const_message(name: &str, span: SourceSpan) -> (r: String)
    ensures
        r@ == const_assignment_message(name@, span),
{
    let mut msg = String::from_str("cannot assign to const '");
    msg.append(name);
    msg.append("' at ");
    let d = crate::aot::backend::describe_span(span);
    msg.append(d.as_str());
    msg
}

/// The message for assigning to a local that has neither slot nor value.
pub open spec fn immutable_parameter_message(name: Seq<char>) -> Seq<char> {
    "Cannot assign to immutable parameter '"@ + name + "'"@
}

/// The message for assigning to a local that has neither slot nor value
/// (see [`immutable_parameter_message`]).
pub fn immutable_parameter_error(name: &str) -> (r: String)
    ensures
        r@ == immutable_parameter_message(name@),
{
    let mut msg = String::from_str("Cannot assign to immutable parameter '");
    msg.append(name);
    msg.append("'");
    msg
}

/// The collection an indexed assignment to `name[..]` writes into: the
/// slot of a mutable local (a local shadows a top-level binding) or the
/// global of a `var` binding, with its type, and whether it is a local.
pub open spec fn indexed_base_plan(
    locals: Map<Seq<char>, LocalVariable>,
    slots: Map<Seq<char>, GlobalBindingSlot>,
    name: Seq<char>,
) -> Result<(IrRef, SpecValueType, bool), Seq<char>> {
    if locals.dom().contains(name) {
        let v = locals[name];
        if !v.mutable {
            Err("cannot mutate const '"@ + name + "'"@)
        } else {
            match v.pointer {
                Some(p) => Ok((p, v.ty@, true)),
                None => Err(immutable_parameter_message(name)),
            }
        }
    } else if slots.dom().contains(name) {
        let s = slots[name];
        if !s.mutable {
            Err("cannot mutate const '"@ + name + "'"@)
        } else {
            Ok((s.pointer, s.ty@, false))
        }
    } else {
        Err("undefined variable '"@ + name + "'"@)
    }
}

/// The collection an indexed assignment to `name[..]` writes into (see
/// [`indexed_base_plan`]).
pub fn indexed_assignment_base(
    locals: &NameMap<LocalVariable>,
    global_slots: &NameMap<GlobalBindingSlot>,
    name: &str,
) -> (r: Result<(IrRef, ValueType, bool), String>)
    ensures
        match r {
            Ok((p, t, is_local)) => indexed_base_plan(locals@, global_slots@, name@) == Ok::<
                (IrRef, SpecValueType, bool),
                Seq<char>,
            >((p, t@, is_local)),
            Err(e) => indexed_base_plan(locals@, global_slots@, name@) == Err::<
                (IrRef, SpecValueType, bool),
                Seq<char>,
            >(e@),
        },
{
    match locals.get(name) {
        Some(v) => {
            if !v.mutable {
                let mut msg = String::from_str("cannot mutate const '");
                msg.append(name);
                msg.append("'");
                return Err(msg);
            }
            match v.pointer {
                Some(p) => Ok((p, clone_value_type(&v.ty), true)),
                None => Err(immutable_parameter_error(name)),
            }
        },
        None => match global_slots.get(name) {
            Some(s) => {
                if !s.mutable {
                    let mut msg = String::from_str("cannot mutate const '");
                    msg.append(name);
                    msg.append("'");
                    return Err(msg);
                }
                Ok((s.pointer, clone_value_type(&s.ty), false))
            },
            None => {
                let mut msg = String::from_str("undefined variable '");
                msg.append(name);
                msg.append("'");
                Err(msg)
            },
        },
    }
}

/// An element store `collection[index] = value` into a loaded collection:
/// a dictionary takes a string key, a list an integer index; nothing else
/// can be written through an index.
pub open spec fn element_store_plan(collection: ExprValue, index: ExprValue) -> Result<
    SpecIndexAccess,
    Seq<char>,
> {
    match collection {
        ExprValue::Dict { pointer, value_type } => match index {
            ExprValue::String(k) => Ok(
                SpecIndexAccess::DictEntry { dict: pointer, key: k, value_type: value_type@ },
            ),
            _ => Err("dictionary index expects a String key"@),
        },
        ExprValue::List { pointer, element_type } => match index {
            ExprValue::Int(i) => Ok(
                SpecIndexAccess::ListElement {
                    list: pointer,
                    index: i,
                    element_type: element_type@,
                },
            ),
            _ => Err("expected Int value"@),
        },
        _ => Err("indexed assignment requires a list or dictionary"@),
    }
}

/// Whether the loaded collection of an indexed assignment can be written
/// through an index: a dictionary or a list.
pub fn element_store_kind(collection: &ExprValue) -> (r: Result<(), String>)
    ensures
        match collection {
            ExprValue::Dict { .. } => r is Ok,
            ExprValue::List { .. } => r is Ok,
            _ => r matches Err(e) && e@ == "indexed assignment requires a list or dictionary"@,
        },
{
    match collection {
        ExprValue::Dict { .. } => Ok(()),
        ExprValue::List { .. } => Ok(()),
        _ => Err(String::from_str("indexed assignment requires a list or dictionary")),
    }
}

/// Where an element store writes (see [`element_store_plan`]).
pub fn element_store(collection: ExprValue, index: ExprValue) -> (r: Result<IndexAccess, String>)
    ensures
        match r {
            Ok(a) => element_store_plan(collection, index) == Ok::<SpecIndexAccess, Seq<char>>(a@),
            Err(e) => element_store_plan(collection, index) == Err::<SpecIndexAccess, Seq<char>>(e@),
        },
{
    match collection {
        ExprValue::Dict { pointer, value_type } => match index {
            ExprValue::String(k) => Ok(IndexAccess::DictEntry { dict: pointer, key: k, value_type: *value_type }),
            _ => Err(String::from_str("dictionary index expects a String key")),
        },
        ExprValue::List { pointer, element_type } => match index.into_int() {
            Ok(i) => Ok(IndexAccess::ListElement { list: pointer, index: i, element_type: *element_type }),
            Err(e) => Err(e),
        },
        _ => Err(String::from_str("indexed assignment requires a list or dictionary")),
    }
}

/// A store through an index addresses the element that a read through the
/// same index reads.
pub proof fn lemma_store_addresses_read(collection: ExprValue, index: ExprValue)
    requires
        element_store_plan(collection, index) is Ok,
    ensures
        index_plan(collection, index) == element_store_plan(collection, index),
{
}

/// An indexed assignment writes into the storage that an assignment to the
/// name itself would store to, whenever that storage is a slot or a global.
pub proof fn lemma_indexed_base_is_assignment_storage(
    locals: Map<Seq<char>, LocalVariable>,
    slots: Map<Seq<char>, GlobalBindingSlot>,
    name: Seq<char>,
    span: SourceSpan,
)
    ensures
        assignment_target_plan(locals, slots, name, span) matches Ok(
            SpecAssignmentTarget::LocalSlot { pointer, ty },
        ) ==> indexed_base_plan(locals, slots, name) == Ok::<
            (IrRef, SpecValueType, bool),
            Seq<char>,
        >((pointer, ty, true)),
        assignment_target_plan(locals, slots, name, span) matches Ok(
            SpecAssignmentTarget::Global { pointer, ty },
        ) ==> indexed_base_plan(locals, slots, name) == Ok::<
            (IrRef, SpecValueType, bool),
            Seq<char>,
        >((pointer, ty, false)),
{
}

} // verus!
