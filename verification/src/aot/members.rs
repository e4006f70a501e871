//! Member access on struct and error values: which field a property names
//! and the type it has.
use vstd::prelude::*;

use crate::analysis::strings_view;
use crate::aot::structs::StructMetadata;
use crate::aot::types::{
    clone_value_type, lemma_value_types_view, position_of, value_types_view, ErrorVariantLowering, SpecValueType, ValueType,
};

verus! {

/// The first position at or after `i` at which `p` occurs in `names`.
pub open spec fn first_position_from(names: Seq<Seq<char>>, p: Seq<char>, i: int) -> Option<int>
    decreases names.len() - i,
{
    if i < 0 || i >= names.len() {
        None
    } else if names[i] == p {
        Some(i)
    } else {
        first_position_from(names, p, i + 1)
    }
}

/// A scan that stops at the first occurrence finds the first position.
proof fn lemma_first_position(names: Seq<Seq<char>>, p: Seq<char>, i: int, k: int)
    requires
        0 <= k <= i < names.len(),
        names[i] == p,
        forall|j: int| 0 <= j < i ==> names[j] != p,
    ensures
        first_position_from(names, p, k) == Some(i),
    decreases i - k,
{
    if k < i {
        lemma_first_position(names, p, i, k + 1);
    }
}

/// A name that does not occur has no position.
proof fn lemma_no_position(names: Seq<Seq<char>>, p: Seq<char>, k: int)
    requires
        0 <= k,
        forall|j: int| 0 <= j < names.len() ==> names[j] != p,
    ensures
        first_position_from(names, p, k) is None,
    decreases names.len() - k,
{
    if k < names.len() {
        lemma_no_position(names, p, k + 1);
    }
}

/// The first position of `name` among `names`.
fn first_position(names: &Vec<String>, name: &str) -> (r: Option<usize>)
    ensures
        match r {
            Some(i) => first_position_from(strings_view(names@), name@, 0) == Some(i as int),
            None => first_position_from(strings_view(names@), name@, 0) is None,
        },
{
    let r = position_of(names, name);
    proof {
        match r {
            Some(i) => lemma_first_position(strings_view(names@), name@, i as int, 0),
            None => lemma_no_position(strings_view(names@), name@, 0),
        }
    }
    r
}

/// The field that `property` names on a value of struct type
/// `struct_name`, and its type. The struct's base supplies the field
/// names; the field types are those recorded for the struct type, else for
/// its base, else the base's own.
pub open spec fn struct_member_plan(m: StructMetadata, struct_name: Seq<char>, property: Seq<char>) -> Result<
    (int, SpecValueType),
    Seq<char>,
> {
    let base = if m.struct_variant_bases@.dom().contains(struct_name) {
        m.struct_variant_bases@[struct_name]@
    } else {
        struct_name
    };
    if !m.structs@.dom().contains(base) {
        Err("unknown struct '"@ + base + "'"@)
    } else {
        let info = m.structs@[base];
        let types = if m.struct_field_variants@.dom().contains(struct_name) {
            value_types_view(m.struct_field_variants@[struct_name]@)
        } else if m.struct_field_variants@.dom().contains(base) {
            value_types_view(m.struct_field_variants@[base]@)
        } else {
            value_types_view(info.field_types@)
        };
        match first_position_from(strings_view(info.field_names@), property, 0) {
            None => Err("struct '"@ + base + "' has no field '"@ + property + "'"@),
            Some(i) => if i < types.len() {
                Ok((i, types[i]))
            } else {
                Err("missing field type metadata"@)
            },
        }
    }
}

impl StructMetadata {
    /// The field that `property` names on a value of struct type
    /// `struct_name`, with its type (see [`struct_member_plan`]).
    pub fn struct_member_field(&self, struct_name: &str, property: &str) -> (r: Result<
        (usize, ValueType),
        String,
    >)
        ensures
            match r {
                Ok((i, t)) => struct_member_plan(*self, struct_name@, property@) == Ok::<
                    (int, SpecValueType),
                    Seq<char>,
                >((i as int, t@)),
                Err(e) => struct_member_plan(*self, struct_name@, property@) == Err::<
                    (int, SpecValueType),
                    Seq<char>,
                >(e@),
            },
    {
        let base: &str = match self.struct_variant_bases.get(struct_name) {
            Some(b) => b.as_str(),
            None => struct_name,
        };
        let info = match self.structs.get(base) {
            Some(info) => info,
            None => {
                let mut msg = String::from_str("unknown struct '");
                msg.append(base);
                msg.append("'");
                return Err(msg);
            },
        };
        let types: &Vec<ValueType> = match self.struct_field_variants.get(struct_name) {
            Some(t) => t,
            None => match self.struct_field_variants.get(base) {
                Some(t) => t,
                None => &info.field_types,
            },
        };
        match first_position(&info.field_names, property) {
            None => {
                let mut msg = String::from_str("struct '");
                msg.append(base);
                msg.append("' has no field '");
                msg.append(property);
                msg.append("'");
                Err(msg)
            },
            Some(i) => {
                proof {
                    lemma_value_types_view(types@);
                }
                if i < types.len() {
                    Ok((i, clone_value_type(&types[i])))
                } else {
                    Err(String::from_str("missing field type metadata"))
                }
            },
        }
    }
}

/// The message for a field read on an error value whose variant is not
/// known.
pub open spec fn unknown_variant_message(property: Seq<char>, error_name: Seq<char>) -> Seq<char> {
    "cannot access field '"@ + property + "' on error '"@ + error_name
        + "' without a specific variant"@
}

/// The variant of an error value whose field `property` is read: a value
/// of a specific variant only.
pub fn error_member_variant(error_name: &str, variant_name: &Option<String>, property: &str) -> (r:
    Result<String, String>)
    ensures
        match variant_name {
            Some(v) => r matches Ok(w) && w@ == v@,
            None => r matches Err(e) && e@ == unknown_variant_message(property@, error_name@),
        },
{
    match variant_name {
        Some(v) => Ok(v.clone()),
        None => {
            let mut msg = String::from_str("cannot access field '");
            msg.append(property);
            msg.append("' on error '");
            msg.append(error_name);
            msg.append("' without a specific variant");
            Err(msg)
        },
    }
}

/// The field that `property` names on a value of variant `variant_name`
/// of error `error_name`, whose fields are `entry`'s, and its type.
pub open spec fn error_member_plan(
    error_name: Seq<char>,
    variant_name: Seq<char>,
    entry: ErrorVariantLowering,
    property: Seq<char>,
) -> Result<(int, SpecValueType), Seq<char>> {
    match first_position_from(strings_view(entry.field_names@), property, 0) {
        None => Err(
            "error '"@ + error_name + "."@ + variant_name + "' has no field '"@ + property + "'"@,
        ),
        Some(i) => if i < entry.field_types@.len() {
            Ok((i, entry.field_types@[i]@))
        } else {
            Err("missing field type metadata for error field"@)
        },
    }
}

/// The field that `property` names on a value of an error variant (see
/// [`error_member_plan`]), with its type.
pub fn error_member_field(
    error_name: &str,
    variant_name: &str,
    entry: &ErrorVariantLowering,
    property: &str,
) -> (r: Result<(usize, ValueType), String>)
    ensures
        match r {
            Ok((i, t)) => error_member_plan(error_name@, variant_name@, *entry, property@) == Ok::<
                (int, SpecValueType),
                Seq<char>,
            >((i as int, t@)),
            Err(e) => error_member_plan(error_name@, variant_name@, *entry, property@) == Err::<
                (int, SpecValueType),
                Seq<char>,
            >(e@),
        },
{
    match first_position(&entry.field_names, property) {
        None => {
            let mut msg = String::from_str("error '");
            msg.append(error_name);
            msg.append(".");
            msg.append(variant_name);
            msg.append("' has no field '");
            msg.append(property);
            msg.append("'");
            Err(msg)
        },
        Some(i) => {
            if i < entry.field_types.len() {
                Ok((i, clone_value_type(&entry.field_types[i])))
            } else {
                Err(String::from_str("missing field type metadata for error field"))
            }
        },
    }
}

} // verus!
