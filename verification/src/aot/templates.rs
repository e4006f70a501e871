//! Struct and error templates: the runtime description of a struct or an
//! error variant (its name and field names), made once per type.
use vstd::prelude::*;

use crate::aot::structs::{
    bases_view, declared_field_names, declared_field_types, field_names_of, field_types_of,
    names_view, variants_view, StructMetadata,
};
use crate::aot::types::{
    clone_value_types, lower_types, lowering_error_message, type_list_to_value_types,
    value_types_view, ErrorVariantLowering, IrRef, SpecValueType, StructLowering,
};
use crate::names::NameMap;

verus! {

/// What making a template needs: the template is already made, or it is
/// made from these field names.
#[derive(Debug)]
pub enum TemplateNeed {
    Existing(IrRef),
    Create(Vec<String>),
}

/// Whether struct `name` is lowered from its declaration when its template
/// is asked for: it is not known yet, and it is declared without type
/// parameters.
pub open spec fn lowers_for_template(m: StructMetadata, name: Seq<char>) -> bool {
    &&& !m.structs@.dom().contains(name)
    &&& m.struct_definitions_tc@.dom().contains(name)
    &&& m.struct_definitions_tc@[name].type_parameters@.len() == 0
}

/// The metadata is unchanged.
pub open spec fn same_metadata(m: StructMetadata, n: StructMetadata) -> bool {
    &&& n.structs@ == m.structs@
    &&& n.struct_field_variants@ == m.struct_field_variants@
    &&& n.struct_variant_bases@ == m.struct_variant_bases@
}

impl StructMetadata {
    /// Prepares the template of struct `name`: a template already made is
    /// reused; otherwise a struct not known yet and declared without type
    /// parameters is first lowered from its declaration (its field types
    /// also become its first variant and it becomes its own base, where
    /// those are not known), and the template is made from the struct's
    /// field names. A struct that is neither known nor lowered is unknown.
    pub fn prepare_struct_template(&mut self, name: &str) -> (r: Result<TemplateNeed, String>)
        ensures
            final(self).struct_definitions_tc == old(self).struct_definitions_tc,
            final(self).struct_instances_tc == old(self).struct_instances_tc,
            final(self).struct_call_metadata_tc == old(self).struct_call_metadata_tc,
            old(self).structs@.dom().contains(name@) && old(self).structs@[name@].template_pointer
                is Some ==> {
                &&& r matches Ok(TemplateNeed::Existing(p)) && Some(p)
                    == old(self).structs@[name@].template_pointer
                &&& same_metadata(*old(self), *final(self))
            },
            old(self).structs@.dom().contains(name@) && old(self).structs@[name@].template_pointer
                is None ==> {
                &&& r matches Ok(TemplateNeed::Create(names)) && names@ == old(
                    self,
                ).structs@[name@].field_names@
                &&& same_metadata(*old(self), *final(self))
            },
            !old(self).structs@.dom().contains(name@) && !lowers_for_template(*old(self), name@)
                ==> {
                &&& r matches Err(e) && e@ == "unknown struct '"@ + name@ + "'"@
                &&& same_metadata(*old(self), *final(self))
            },
            lowers_for_template(*old(self), name@) ==> match lower_types(
                declared_field_types(old(self).struct_definitions_tc@[name@].fields@),
            ) {
                Err(e) => {
                    &&& r matches Err(m) && m@ == lowering_error_message(e)
                    &&& same_metadata(*old(self), *final(self))
                },
                Ok(ts) => {
                    let names = declared_field_names(
                        old(self).struct_definitions_tc@[name@].fields@,
                    );
                    &&& r matches Ok(TemplateNeed::Create(v)) && names_view(v@) == names
                    &&& final(self).structs@.dom() == old(self).structs@.dom().insert(name@)
                    &&& forall|k: Seq<char>|
                        k != name@ && #[trigger] old(self).structs@.dom().contains(k)
                            ==> final(self).structs@[k] == old(self).structs@[k]
                    &&& names_view(final(self).structs@[name@].field_names@) == names
                    &&& value_types_view(final(self).structs@[name@].field_types@) == ts
                    &&& final(self).structs@[name@].template_global is None
                    &&& final(self).structs@[name@].field_names_global is None
                    &&& final(self).structs@[name@].template_pointer is None
                    &&& variants_view(final(self).struct_field_variants@) == if variants_view(
                        old(self).struct_field_variants@,
                    ).dom().contains(name@) {
                        variants_view(old(self).struct_field_variants@)
                    } else {
                        variants_view(old(self).struct_field_variants@).insert(name@, ts)
                    }
                    &&& bases_view(final(self).struct_variant_bases@) == if bases_view(
                        old(self).struct_variant_bases@,
                    ).dom().contains(name@) {
                        bases_view(old(self).struct_variant_bases@)
                    } else {
                        bases_view(old(self).struct_variant_bases@).insert(name@, name@)
                    }
                },
            },
    {
        match self.structs.get(name) {
            Some(info) => {
                return match info.template_pointer {
                    Some(p) => Ok(TemplateNeed::Existing(p)),
                    None => Ok(TemplateNeed::Create(info.field_names.clone())),
                };
            },
            None => {},
        }
        let definition = match self.struct_definitions_tc.get(name) {
            Some(d) => d,
            None => {
                let mut msg = String::from_str("unknown struct '");
                msg.append(name);
                msg.append("'");
                return Err(msg);
            },
        };
        if definition.type_parameters.len() != 0 {
            let mut msg = String::from_str("unknown struct '");
            msg.append(name);
            msg.append("'");
            return Err(msg);
        }
        let tys = field_types_of(&definition.fields);
        let lowered = match type_list_to_value_types(&tys) {
            Ok(l) => l,
            Err(e) => return Err(e.message()),
        };
        let names = field_names_of(&definition.fields);
        let ghost ts = value_types_view(lowered@);
        let mut lowering = StructLowering::new();
        lowering.field_names = names.clone();
        lowering.field_types = clone_value_types(&lowered);
        let ghost v0 = self.struct_field_variants@;
        let ghost b0 = self.struct_variant_bases@;
        if !self.struct_field_variants.contains_key(name) {
            self.struct_field_variants.insert(String::from_str(name), lowered);
            proof {
                assert(variants_view(self.struct_field_variants@) =~= variants_view(v0).insert(
                    name@,
                    ts,
                ));
            }
        }
        if !self.struct_variant_bases.contains_key(name) {
            self.struct_variant_bases.insert(String::from_str(name), String::from_str(name));
            proof {
                assert(bases_view(self.struct_variant_bases@) =~= bases_view(b0).insert(
                    name@,
                    name@,
                ));
            }
        }
        self.structs.insert(String::from_str(name), lowering);
        Ok(TemplateNeed::Create(names))
    }
}

/// The LLVM global names of the template of struct `name`: its field-name
/// array and the template itself.
pub open spec fn struct_template_globals(name: Seq<char>) -> (Seq<char>, Seq<char>) {
    (".struct.fields."@ + name, ".struct.template."@ + name)
}

/// The LLVM global names of the template of struct `name` (see
/// [`struct_template_globals`]).
pub fn struct_template_global_names(name: &str) -> (r: (String, String))
    ensures
        (r.0@, r.1@) == struct_template_globals(name@),
{
    let mut fields = String::from_str(".struct.fields.");
    fields.append(name);
    let mut template = String::from_str(".struct.template.");
    template.append(name);
    (fields, template)
}

/// The LLVM global names of the template of variant `variant` of error
/// `error`: its field-name array and the template itself.
pub open spec fn error_template_globals(error: Seq<char>, variant: Seq<char>) -> (Seq<char>, Seq<char>) {
    (".error.fields."@ + error + "."@ + variant, ".error.template."@ + error + "."@ + variant)
}

/// The LLVM global names of an error variant's template (see
/// [`error_template_globals`]).
pub fn error_template_global_names(error: &str, variant: &str) -> (r: (String, String))
    ensures
        (r.0@, r.1@) == error_template_globals(error@, variant@),
{
    let mut fields = String::from_str(".error.fields.");
    fields.append(error);
    fields.append(".");
    fields.append(variant);
    let mut template = String::from_str(".error.template.");
    template.append(error);
    template.append(".");
    template.append(variant);
    (fields, template)
}

/// What the template of variant `variant` of error `error` needs, once its
/// fields are known: the template already made, or the variant's field
/// names; a variant with no metadata is an error.
pub open spec fn error_template_need(
    errors: Map<Seq<char>, NameMap<ErrorVariantLowering>>,
    error: Seq<char>,
    variant: Seq<char>,
) -> Result<Option<IrRef>, Seq<char>> {
    if errors.dom().contains(error) && errors[error]@.dom().contains(variant) {
        Ok(errors[error]@[variant].template_pointer)
    } else {
        Err("missing metadata for '"@ + error + "."@ + variant + "'"@)
    }
}

/// What the template of an error variant needs (see
/// [`error_template_need`]): the template already made, or the field names
/// to make it from.
pub fn prepare_error_template(
    errors: &NameMap<NameMap<ErrorVariantLowering>>,
    error: &str,
    variant: &str,
) -> (r: Result<TemplateNeed, String>)
    ensures
        match error_template_need(errors@, error@, variant@) {
            Err(m) => r matches Err(e) && e@ == m,
            Ok(Some(p)) => r matches Ok(TemplateNeed::Existing(q)) && q == p,
            Ok(None) => r matches Ok(TemplateNeed::Create(names)) && names@ == errors@[error@]@[
                variant@
            ].field_names@,
        },
{
    let entry = match errors.get(error) {
        Some(variants) => variants.get(variant),
        None => None,
    };
    match entry {
        Some(e) => match e.template_pointer {
            Some(p) => Ok(TemplateNeed::Existing(p)),
            None => Ok(TemplateNeed::Create(e.field_names.clone())),
        },
        None => {
            let mut msg = String::from_str("missing metadata for '");
            msg.append(error);
            msg.append(".");
            msg.append(variant);
            msg.append("'");
            Err(msg)
        },
    }
}

} // verus!
