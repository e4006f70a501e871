//! The semantic facts that editor tooling reads after a module has been
//! checked: what each module alias exports (with type descriptions and
//! docs), the described types of bindings and arguments, and the type
//! checker's tables.
use vstd::prelude::*;

use crate::aot::types::{format_type_name, joined_type_names, printed_type_name};
use crate::ast::SourceSpan;
use crate::names::{entries_map, lemma_entries_map_same_keys, NameMap};
use crate::text::{chars_of, seq_starts_with, starts_with, str_eq};
use crate::typechecker::{
    SpecType, EnumDefinition, ErrorDefinition, FunctionInstance, StructDefinition, StructInstance, Type,
};

verus! {

/// The types that standard-library signatures are written with.
#[derive(Debug, Clone, Copy, PartialEq, Eq, Structural)]
pub enum StdType {
    Any,
    Bool,
    Int,
    Float,
    String,
    List,
    Dict,
    Struct,
    Nil,
    Void,
}

/// A function of a standard-library module.
#[derive(Debug)]
pub struct StdFunction {
    pub name: String,
    pub params: Vec<StdType>,
    pub return_type: StdType,
    pub docstring: String,
}

/// A standard-library module (`std.fs`, `std.path`, ...).
#[derive(Debug)]
pub struct StdModule {
    pub path: String,
    pub docstring: String,
    pub functions: Vec<StdFunction>,
}

/// How a standard-library type is described to the user.
pub open spec fn std_type_description(t: StdType) -> Seq<char> {
    match t {
        StdType::Any => "Unknown"@,
        StdType::Bool => "Bool"@,
        StdType::Int => "Int"@,
        StdType::Float => "Float"@,
        StdType::String => "String"@,
        StdType::List => "List[Unknown]"@,
        StdType::Dict => "Dict[String, Unknown]"@,
        StdType::Struct => "Struct"@,
        StdType::Nil => "Nil"@,
        StdType::Void => "Void"@,
    }
}

/// Describes a standard-library type.
pub fn describe_std_type(ty: StdType) -> (r: String)
    ensures
        r@ == std_type_description(ty),
{
    match ty {
        StdType::Any => String::from_str("Unknown"),
        StdType::Bool => String::from_str("Bool"),
        StdType::Int => String::from_str("Int"),
        StdType::Float => String::from_str("Float"),
        StdType::String => String::from_str("String"),
        StdType::List => String::from_str("List[Unknown]"),
        StdType::Dict => String::from_str("Dict[String, Unknown]"),
        StdType::Struct => String::from_str("Struct"),
        StdType::Nil => String::from_str("Nil"),
        StdType::Void => String::from_str("Void"),
    }
}

/// The descriptions of `ts`, separated by `, `.
pub open spec fn joined_std_types(ts: Seq<StdType>) -> Seq<char>
    decreases ts.len(),
{
    if ts.len() == 0 {
        Seq::empty()
    } else if ts.len() == 1 {
        std_type_description(ts[0])
    } else {
        joined_std_types(ts.drop_last()) + ", "@ + std_type_description(ts.last())
    }
}

/// How a standard-library function's signature is described:
/// `Func(A, B) -> R`, or `Func() -> R` without parameters.
pub open spec fn std_function_description(params: Seq<StdType>, ret: StdType) -> Seq<char> {
    let ps = if params.len() == 0 {
        "()"@
    } else {
        "("@ + joined_std_types(params) + ")"@
    };
    "Func"@ + ps + " -> "@ + std_type_description(ret)
}

/// Describes a standard-library function's signature.
pub fn describe_std_function(function: &StdFunction) -> (r: String)
    ensures
        r@ == std_function_description(function.params@, function.return_type),
{
    let params: &Vec<StdType> = &function.params;
    let mut out = String::from_str("Func");
    if params.len() == 0 {
        out.append("()");
    } else {
        out.append("(");
        let ghost start = out@;
        let mut i: usize = 0;
        while i < params.len()
            invariant
                i <= params@.len(),
                params@.len() > 0,
                out@ == start + joined_std_types(params@.take(i as int)),
            decreases params@.len() - i,
        {
            proof {
                assert(params@.take(i + 1).drop_last() =~= params@.take(i as int));
                assert(params@.take(i + 1).last() == params@[i as int]);
            }
            if i > 0 {
                out.append(", ");
            }
            let d = describe_std_type(params[i]);
            out.append(d.as_str());
            proof {
                if i == 0 {
                    assert(params@.take(1) =~= seq![params@[0]]);
                    assert(joined_std_types(params@.take(0)) =~= Seq::<char>::empty());
                }
                assert(out@ =~= start + joined_std_types(params@.take(i + 1)));
            }
            i = i + 1;
        }
        proof {
            assert(params@.take(i as int) =~= params@);
        }
        out.append(")");
    }
    out.append(" -> ");
    let r = describe_std_type(function.return_type);
    out.append(r.as_str());
    proof {
        assert(out@ =~= std_function_description(function.params@, function.return_type));
    }
    out
}

/// The checked type a standard-library type stands for: `Any` is the
/// unknown type, lists and dictionaries hold unknown values, and `Struct`
/// is a struct of that name.
pub open spec fn std_type_as_type(t: StdType) -> SpecType {
    match t {
        StdType::Any => SpecType::Unknown,
        StdType::Bool => SpecType::Bool,
        StdType::Int => SpecType::Int,
        StdType::Float => SpecType::Float,
        StdType::String => SpecType::String,
        StdType::List => SpecType::List(Box::new(SpecType::Unknown)),
        StdType::Dict => SpecType::Dict(Box::new(SpecType::Unknown)),
        StdType::Struct => SpecType::Struct("Struct"@, Seq::empty()),
        StdType::Nil => SpecType::Nil,
        StdType::Void => SpecType::Void,
    }
}

/// Standard-library signatures are described in the notation of the type
/// printer: a function's description is the printed name of the function
/// type it stands for.
pub proof fn lemma_std_description_is_printed_type(params: Seq<StdType>, ret: StdType)
    ensures
        std_function_description(params, ret) == printed_type_name(
            SpecType::Function(params.map_values(|p: StdType| std_type_as_type(p)), Box::new(
                std_type_as_type(ret),
            )),
        ),
{
    reveal_strlit("Func");
    reveal_strlit("()");
    reveal_strlit("(");
    reveal_strlit(")");
    reveal_strlit("Func(");
    reveal_strlit(") -> ");
    reveal_strlit(" -> ");
    lemma_std_types_joined(params);
    lemma_std_type_printed(ret);
    let ps = params.map_values(|p: StdType| std_type_as_type(p));
    let j = joined_std_types(params);
    if params.len() == 0 {
        assert(joined_type_names(ps, ", "@) =~= Seq::<char>::empty());
        assert("Func"@ + "()"@ + " -> "@ =~= "Func("@ + Seq::<char>::empty() + ") -> "@);
    } else {
        assert("Func"@ + ("("@ + j + ")"@) + " -> "@ =~= "Func("@ + j + ") -> "@);
    }
    let r = std_type_description(ret);
    assert(std_function_description(params, ret) =~= "Func("@ + j + ") -> "@ + r);
}

proof fn lemma_std_type_printed(t: StdType)
    ensures
        std_type_description(t) == printed_type_name(std_type_as_type(t)),
{
    reveal_strlit("List[");
    reveal_strlit("]");
    reveal_strlit("Unknown");
    reveal_strlit("List[Unknown]");
    reveal_strlit("Dict[String, ");
    reveal_strlit("Dict[String, Unknown]");
    assert(printed_type_name(SpecType::Unknown) == "Unknown"@);
    match t {
        StdType::List => {
            assert("List[Unknown]"@ =~= "List["@ + "Unknown"@ + "]"@);
        },
        StdType::Dict => {
            assert("Dict[String, Unknown]"@ =~= "Dict[String, "@ + "Unknown"@ + "]"@);
        },
        StdType::Struct => {
            assert(printed_type_name(std_type_as_type(t)) == "Struct"@);
        },
        _ => {},
    }
}

proof fn lemma_std_types_joined(ts: Seq<StdType>)
    ensures
        joined_std_types(ts) == joined_type_names(
            ts.map_values(|p: StdType| std_type_as_type(p)),
            ", "@,
        ),
    decreases ts.len(),
{
    let ps = ts.map_values(|p: StdType| std_type_as_type(p));
    if ts.len() == 1 {
        lemma_std_type_printed(ts[0]);
    } else if ts.len() > 1 {
        lemma_std_types_joined(ts.drop_last());
        lemma_std_type_printed(ts.last());
        assert(ts.drop_last().map_values(|p: StdType| std_type_as_type(p)) =~= ps.drop_last());
    }
}

/// A module imported under an alias (`use fs = "std.fs"`), with what the
/// editor shows for it.
#[derive(Debug)]
pub struct ModuleAliasBinding {
    pub module_name: String,
    pub exports: Vec<String>,
    pub export_types: NameMap<String>,
    pub export_docs: NameMap<String>,
    pub docstring: Option<String>,
}

/// The mathematical value of a [`ModuleAliasBinding`].
pub struct SpecAliasBinding {
    pub module_name: Seq<char>,
    pub exports: Seq<Seq<char>>,
    pub export_types: Map<Seq<char>, Seq<char>>,
    pub export_docs: Map<Seq<char>, Seq<char>>,
    pub docstring: Option<Seq<char>>,
}

/// The characters of each string.
pub open spec fn strings_view(v: Seq<String>) -> Seq<Seq<char>> {
    v.map_values(|s: String| s@)
}

/// The characters held by each value of a table of strings.
pub open spec fn string_table_view(m: Map<Seq<char>, String>) -> Map<Seq<char>, Seq<char>> {
    m.map_values(|s: String| s@)
}

impl View for ModuleAliasBinding {
    type V = SpecAliasBinding;

    open spec fn view(&self) -> SpecAliasBinding {
        SpecAliasBinding {
            module_name: self.module_name@,
            exports: strings_view(self.exports@),
            export_types: string_table_view(self.export_types@),
            export_docs: string_table_view(self.export_docs@),
            docstring: match self.docstring {
                Some(d) => Some(d@),
                None => None,
            },
        }
    }
}

/// The described types of an alias's exports that are renamed to a known
/// binding: a global's type, `Enum` for an enum, `Struct` for a struct.
pub open spec fn export_types_for(
    exports: Seq<Seq<char>>,
    renames: Map<Seq<char>, String>,
    globals: Map<Seq<char>, Type>,
    enums: Set<Seq<char>>,
    structs: Set<Seq<char>>,
) -> Map<Seq<char>, Seq<char>>
    decreases exports.len(),
{
    if exports.len() == 0 {
        Map::empty()
    } else {
        let m = export_types_for(exports.drop_last(), renames, globals, enums, structs);
        let e = exports.last();
        if renames.dom().contains(e) {
            let r = renames[e]@;
            if globals.dom().contains(r) {
                m.insert(e, printed_type_name(globals[r]@))
            } else if enums.contains(r) {
                m.insert(e, "Enum"@)
            } else if structs.contains(r) {
                m.insert(e, "Struct"@)
            } else {
                m
            }
        } else {
            m
        }
    }
}

/// The docs of an alias's exports that have one.
pub open spec fn export_docs_for(exports: Seq<Seq<char>>, docs: Map<Seq<char>, String>) -> Map<
    Seq<char>,
    Seq<char>,
>
    decreases exports.len(),
{
    if exports.len() == 0 {
        Map::empty()
    } else {
        let m = export_docs_for(exports.drop_last(), docs);
        let e = exports.last();
        if docs.dom().contains(e) {
            m.insert(e, docs[e]@)
        } else {
            m
        }
    }
}

/// An alias binding once the resolver's export list for `alias` (if any)
/// has been applied, with the types and docs of those exports.
pub open spec fn with_alias_exports(
    alias: Seq<char>,
    b: SpecAliasBinding,
    alias_exports: Map<Seq<char>, Vec<String>>,
    renames: Map<Seq<char>, NameMap<String>>,
    docs: Map<Seq<char>, NameMap<String>>,
    globals: Map<Seq<char>, Type>,
    enums: Set<Seq<char>>,
    structs: Set<Seq<char>>,
) -> SpecAliasBinding {
    if alias_exports.dom().contains(alias) {
        let ex = strings_view(alias_exports[alias]@);
        SpecAliasBinding {
            module_name: b.module_name,
            exports: ex,
            export_types: if renames.dom().contains(alias) {
                export_types_for(ex, renames[alias]@, globals, enums, structs)
            } else {
                Map::empty()
            },
            export_docs: if docs.dom().contains(alias) {
                export_docs_for(ex, docs[alias]@)
            } else {
                Map::empty()
            },
            docstring: b.docstring,
        }
    } else {
        b
    }
}

/// The first module at or after `i` whose path is `path`.
pub open spec fn std_module_from(mods: Seq<StdModule>, path: Seq<char>, i: int) -> Option<int>
    decreases mods.len() - i,
{
    if i < 0 || i >= mods.len() {
        None
    } else if mods[i].path@ == path {
        Some(i)
    } else {
        std_module_from(mods, path, i + 1)
    }
}

/// The names of a module's functions, in order.
pub open spec fn std_function_names(fns: Seq<StdFunction>) -> Seq<Seq<char>> {
    fns.map_values(|f: StdFunction| f.name@)
}

/// Each function's described signature, by name (a later function of the
/// same name wins).
pub open spec fn std_export_types(fns: Seq<StdFunction>) -> Map<Seq<char>, Seq<char>>
    decreases fns.len(),
{
    if fns.len() == 0 {
        Map::empty()
    } else {
        std_export_types(fns.drop_last()).insert(
            fns.last().name@,
            std_function_description(fns.last().params@, fns.last().return_type),
        )
    }
}

/// Each function's doc, by name (a later function of the same name wins).
pub open spec fn std_export_docs(fns: Seq<StdFunction>) -> Map<Seq<char>, Seq<char>>
    decreases fns.len(),
{
    if fns.len() == 0 {
        Map::empty()
    } else {
        std_export_docs(fns.drop_last()).insert(fns.last().name@, fns.last().docstring@)
    }
}

/// An alias of a `std.` module that the standard library has: without
/// exports it gets all the module's functions, with their signatures and
/// docs; without a docstring it gets the module's, if that is not empty.
pub open spec fn with_std_module(b: SpecAliasBinding, mods: Seq<StdModule>) -> SpecAliasBinding {
    if seq_starts_with(b.module_name, "std."@) {
        match std_module_from(mods, b.module_name, 0) {
            Some(i) => {
                let m = mods[i];
                let b1 = if b.exports.len() == 0 {
                    SpecAliasBinding {
                        module_name: b.module_name,
                        exports: std_function_names(m.functions@),
                        export_types: std_export_types(m.functions@),
                        export_docs: std_export_docs(m.functions@),
                        docstring: b.docstring,
                    }
                } else {
                    b
                };
                if b1.docstring is None && m.docstring@.len() > 0 {
                    SpecAliasBinding {
                        module_name: b1.module_name,
                        exports: b1.exports,
                        export_types: b1.export_types,
                        export_docs: b1.export_docs,
                        docstring: Some(m.docstring@),
                    }
                } else {
                    b1
                }
            },
            None => b,
        }
    } else {
        b
    }
}

/// What enriching does to the binding of `alias`.
pub open spec fn enriched_alias(
    alias: Seq<char>,
    b: SpecAliasBinding,
    alias_exports: Map<Seq<char>, Vec<String>>,
    renames: Map<Seq<char>, NameMap<String>>,
    docs: Map<Seq<char>, NameMap<String>>,
    globals: Map<Seq<char>, Type>,
    enums: Set<Seq<char>>,
    structs: Set<Seq<char>>,
    mods: Seq<StdModule>,
) -> SpecAliasBinding {
    with_std_module(
        with_alias_exports(alias, b, alias_exports, renames, docs, globals, enums, structs),
        mods,
    )
}

/// Enriching never replaces a docstring an alias binding already has, nor
/// its module name.
pub proof fn lemma_enrich_keeps_own_docstring(
    alias: Seq<char>,
    b: SpecAliasBinding,
    alias_exports: Map<Seq<char>, Vec<String>>,
    renames: Map<Seq<char>, NameMap<String>>,
    docs: Map<Seq<char>, NameMap<String>>,
    globals: Map<Seq<char>, Type>,
    enums: Set<Seq<char>>,
    structs: Set<Seq<char>>,
    mods: Seq<StdModule>,
    d: Seq<char>,
)
    requires
        b.docstring == Some(d),
    ensures
        enriched_alias(alias, b, alias_exports, renames, docs, globals, enums, structs, mods).docstring == Some(d),
        enriched_alias(alias, b, alias_exports, renames, docs, globals, enums, structs, mods).module_name
            == b.module_name,
{
}

/// A binding without a docstring of a `std.` module the standard library
/// has gets that module's docstring when it is not empty, and keeps having
/// none when it is.
pub proof fn lemma_enrich_fills_missing_docstring(
    alias: Seq<char>,
    b: SpecAliasBinding,
    alias_exports: Map<Seq<char>, Vec<String>>,
    renames: Map<Seq<char>, NameMap<String>>,
    docs: Map<Seq<char>, NameMap<String>>,
    globals: Map<Seq<char>, Type>,
    enums: Set<Seq<char>>,
    structs: Set<Seq<char>>,
    mods: Seq<StdModule>,
    i: int,
)
    requires
        b.docstring is None,
        seq_starts_with(b.module_name, "std."@),
        std_module_from(mods, b.module_name, 0) == Some(i),
    ensures
        enriched_alias(alias, b, alias_exports, renames, docs, globals, enums, structs, mods).docstring == if mods[i].docstring@.len() > 0 {
            Some(mods[i].docstring@)
        } else {
            None
        },
{
}

/// Enriching an alias binding a second time, against the same module
/// tables and standard library, changes nothing.
pub proof fn lemma_enrich_idempotent(
    alias: Seq<char>,
    b: SpecAliasBinding,
    alias_exports: Map<Seq<char>, Vec<String>>,
    renames: Map<Seq<char>, NameMap<String>>,
    docs: Map<Seq<char>, NameMap<String>>,
    globals: Map<Seq<char>, Type>,
    enums: Set<Seq<char>>,
    structs: Set<Seq<char>>,
    mods: Seq<StdModule>,
)
    ensures
        ({
            let once = enriched_alias(
                alias,
                b,
                alias_exports,
                renames,
                docs,
                globals,
                enums,
                structs,
                mods,
            );
            enriched_alias(alias, once, alias_exports, renames, docs, globals, enums, structs, mods)
                == once
        }),
{
}

/// A copy of a list of strings.
pub fn clone_strings(v: &Vec<String>) -> (r: Vec<String>)
    ensures
        strings_view(r@) == strings_view(v@),
{
    let mut r: Vec<String> = Vec::new();
    let mut i: usize = 0;
    while i < v.len()
        invariant
            i <= v@.len(),
            strings_view(r@) == strings_view(v@.take(i as int)),
        decreases v@.len() - i,
    {
        let ghost prev = r@;
        let c = v[i].clone();
        r.push(c);
        proof {
            assert(strings_view(prev).len() == i);
            assert forall|j: int| 0 <= j < i + 1 implies #[trigger] strings_view(r@)[j]
                == strings_view(v@.take(i + 1))[j] by {
                if j < i {
                    assert(strings_view(prev)[j] == strings_view(v@.take(i as int))[j]);
                }
            }
            assert(strings_view(r@) =~= strings_view(v@.take(i + 1)));
        }
        i = i + 1;
    }
    proof {
        assert(v@.take(i as int) =~= v@);
    }
    r
}

fn export_types_of(
    exports: &Vec<String>,
    renames: &NameMap<String>,
    globals: &NameMap<Type>,
    enums: &NameMap<EnumDefinition>,
    structs: &NameMap<StructDefinition>,
) -> (m: NameMap<String>)
    ensures
        string_table_view(m@) == export_types_for(
            strings_view(exports@),
            renames@,
            globals@,
            enums@.dom(),
            structs@.dom(),
        ),
{
    let mut m: NameMap<String> = NameMap::new();
    let mut i: usize = 0;
    proof {
        assert(string_table_view(m@) =~= Map::<Seq<char>, Seq<char>>::empty());
        assert(strings_view(exports@.take(0)) =~= Seq::<Seq<char>>::empty());
    }
    while i < exports.len()
        invariant
            i <= exports@.len(),
            string_table_view(m@) == export_types_for(
                strings_view(exports@.take(i as int)),
                renames@,
                globals@,
                enums@.dom(),
                structs@.dom(),
            ),
        decreases exports@.len() - i,
    {
        let ghost before = string_table_view(m@);
        let export = &exports[i];
        proof {
            assert(strings_view(exports@.take(i + 1)).drop_last() =~= strings_view(
                exports@.take(i as int),
            ));
            assert(strings_view(exports@.take(i + 1)).last() == export@);
        }
        match renames.get(export.as_str()) {
            Some(renamed) => {
                match globals.get(renamed.as_str()) {
                    Some(ty) => {
                        let d = format_type_name(ty);
                        let ghost dv = d@;
                        m.insert(export.clone(), d);
                        proof {
                            assert(string_table_view(m@) =~= before.insert(export@, dv));
                        }
                    },
                    None => {
                        if enums.contains_key(renamed.as_str()) {
                            m.insert(export.clone(), String::from_str("Enum"));
                            proof {
                                assert(string_table_view(m@) =~= before.insert(export@, "Enum"@));
                            }
                        } else if structs.contains_key(renamed.as_str()) {
                            m.insert(export.clone(), String::from_str("Struct"));
                            proof {
                                assert(string_table_view(m@) =~= before.insert(
                                    export@,
                                    "Struct"@,
                                ));
                            }
                        }
                    },
                }
            },
            None => {},
        }
        i = i + 1;
    }
    proof {
        assert(exports@.take(i as int) =~= exports@);
    }
    m
}

fn export_docs_of(exports: &Vec<String>, docs: &NameMap<String>) -> (m: NameMap<String>)
    ensures
        string_table_view(m@) == export_docs_for(strings_view(exports@), docs@),
{
    let mut m: NameMap<String> = NameMap::new();
    let mut i: usize = 0;
    proof {
        assert(string_table_view(m@) =~= Map::<Seq<char>, Seq<char>>::empty());
        assert(strings_view(exports@.take(0)) =~= Seq::<Seq<char>>::empty());
    }
    while i < exports.len()
        invariant
            i <= exports@.len(),
            string_table_view(m@) == export_docs_for(
                strings_view(exports@.take(i as int)),
                docs@,
            ),
        decreases exports@.len() - i,
    {
        let ghost before = string_table_view(m@);
        let export = &exports[i];
        proof {
            assert(strings_view(exports@.take(i + 1)).drop_last() =~= strings_view(
                exports@.take(i as int),
            ));
            assert(strings_view(exports@.take(i + 1)).last() == export@);
        }
        match docs.get(export.as_str()) {
            Some(doc) => {
                m.insert(export.clone(), doc.clone());
                proof {
                    assert(string_table_view(m@) =~= before.insert(export@, doc@));
                }
            },
            None => {},
        }
        i = i + 1;
    }
    proof {
        assert(exports@.take(i as int) =~= exports@);
    }
    m
}

/// The first module whose path is `path`.
pub fn find_std_module(mods: &Vec<StdModule>, path: &str) -> (r: Option<usize>)
    ensures
        match r {
            Some(i) => std_module_from(mods@, path@, 0) == Some(i as int) && i < mods@.len(),
            None => std_module_from(mods@, path@, 0) is None,
        },
{
    let mut i: usize = 0;
    while i < mods.len()
        invariant
            i <= mods@.len(),
            std_module_from(mods@, path@, i as int) == std_module_from(mods@, path@, 0),
        decreases mods@.len() - i,
    {
        if str_eq(mods[i].path.as_str(), path) {
            return Some(i);
        }
        i = i + 1;
    }
    None
}

fn std_exports(fns: &Vec<StdFunction>) -> (r: (Vec<String>, NameMap<String>, NameMap<String>))
    ensures
        strings_view(r.0@) == std_function_names(fns@),
        string_table_view(r.1@) == std_export_types(fns@),
        string_table_view(r.2@) == std_export_docs(fns@),
{
    let mut names: Vec<String> = Vec::new();
    let mut types: NameMap<String> = NameMap::new();
    let mut docs: NameMap<String> = NameMap::new();
    let mut i: usize = 0;
    proof {
        assert(string_table_view(types@) =~= Map::<Seq<char>, Seq<char>>::empty());
        assert(string_table_view(docs@) =~= Map::<Seq<char>, Seq<char>>::empty());
        assert(strings_view(names@) =~= std_function_names(fns@.take(0)));
    }
    while i < fns.len()
        invariant
            i <= fns@.len(),
            names@.len() == i,
            strings_view(names@) == std_function_names(fns@.take(i as int)),
            string_table_view(types@) == std_export_types(fns@.take(i as int)),
            string_table_view(docs@) == std_export_docs(fns@.take(i as int)),
        decreases fns@.len() - i,
    {
        let f = &fns[i];
        let ghost names_before = names@;
        let ghost types_before = string_table_view(types@);
        let ghost docs_before = string_table_view(docs@);
        proof {
            assert(fns@.take(i + 1).drop_last() =~= fns@.take(i as int));
            assert(fns@.take(i + 1).last() == *f);
        }
        let c = f.name.clone();
        names.push(c);
        let d = describe_std_function(f);
        let ghost dv = d@;
        types.insert(f.name.clone(), d);
        docs.insert(f.name.clone(), f.docstring.clone());
        proof {
            assert(names@.len() == i + 1);
            assert(names@[i as int]@ == f.name@);
            assert(strings_view(names_before).len() == i);
            assert(string_table_view(types@) =~= types_before.insert(f.name@, dv));
            assert(string_table_view(docs@) =~= docs_before.insert(f.name@, f.docstring@));
            assert forall|j: int| 0 <= j < i + 1 implies #[trigger] strings_view(names@)[j]
                == std_function_names(fns@.take(i + 1))[j] by {
                if j < i {
                    assert(strings_view(names_before)[j] == std_function_names(
                        fns@.take(i as int),
                    )[j]);
                }
            }
            assert(strings_view(names@) =~= std_function_names(fns@.take(i + 1)));
        }
        i = i + 1;
    }
    proof {
        assert(fns@.take(i as int) =~= fns@);
    }
    (names, types, docs)
}

/// Enriches the binding of one alias (see [`enriched_alias`]).
fn enrich_binding(
    alias: &str,
    binding: &mut ModuleAliasBinding,
    alias_exports: &NameMap<Vec<String>>,
    alias_export_renames: &NameMap<NameMap<String>>,
    alias_export_docstrings: &NameMap<NameMap<String>>,
    global_binding_types: &NameMap<Type>,
    enum_definitions: &NameMap<EnumDefinition>,
    struct_definitions: &NameMap<StructDefinition>,
    std_modules: &Vec<StdModule>,
)
    ensures
        final(binding)@ == enriched_alias(
            alias@,
            old(binding)@,
            alias_exports@,
            alias_export_renames@,
            alias_export_docstrings@,
            global_binding_types@,
            enum_definitions@.dom(),
            struct_definitions@.dom(),
            std_modules@,
        ),
{
    match alias_exports.get(alias) {
        Some(exports) => {
            binding.exports = clone_strings(exports);
            let types = match alias_export_renames.get(alias) {
                Some(renames) => export_types_of(
                    &binding.exports,
                    renames,
                    global_binding_types,
                    enum_definitions,
                    struct_definitions,
                ),
                None => {
                    let t = NameMap::new();
                    proof {
                        assert(string_table_view(t@) =~= Map::empty());
                    }
                    t
                },
            };
            let docs = match alias_export_docstrings.get(alias) {
                Some(docs) => export_docs_of(&binding.exports, docs),
                None => {
                    let t = NameMap::new();
                    proof {
                        assert(string_table_view(t@) =~= Map::empty());
                    }
                    t
                },
            };
            binding.export_types = types;
            binding.export_docs = docs;
        },
        None => {},
    }
    let ghost mid = binding@;
    let name = chars_of(binding.module_name.as_str());
    let prefix = chars_of("std.");
    if starts_with(name.as_slice(), prefix.as_slice()) {
        match find_std_module(std_modules, binding.module_name.as_str()) {
            Some(m) => {
                let module = &std_modules[m];
                if binding.exports.len() == 0 {
                    let (names, types, docs) = std_exports(&module.functions);
                    binding.exports = names;
                    binding.export_types = types;
                    binding.export_docs = docs;
                }
                let doc = chars_of(module.docstring.as_str());
                if binding.docstring.is_none() && doc.len() > 0 {
                    binding.docstring = Some(module.docstring.clone());
                }
            },
            None => {},
        }
    }
}

/// Fills in what each module alias exports:
/// the resolver's export lists with the described types and docs of the
/// exports, and for `std.` modules the standard library's functions and
/// docs (see [`enriched_alias`]). The standard library is the list of
/// modules given.
pub fn enrich_module_aliases(
    module_aliases: &mut NameMap<ModuleAliasBinding>,
    alias_exports: &NameMap<Vec<String>>,
    alias_export_renames: &NameMap<NameMap<String>>,
    alias_export_docstrings: &NameMap<NameMap<String>>,
    global_binding_types: &NameMap<Type>,
    enum_definitions: &NameMap<EnumDefinition>,
    struct_definitions: &NameMap<StructDefinition>,
    std_modules: &Vec<StdModule>,
)
    ensures
        final(module_aliases)@.dom() == old(module_aliases)@.dom(),
        forall|alias: Seq<char>|
            #[trigger] old(module_aliases)@.dom().contains(alias) ==> final(module_aliases)@[alias]@
                == enriched_alias(
                alias,
                old(module_aliases)@[alias]@,
                alias_exports@,
                alias_export_renames@,
                alias_export_docstrings@,
                global_binding_types@,
                enum_definitions@.dom(),
                struct_definitions@.dom(),
                std_modules@,
            ),
{
    let ghost before = module_aliases.entries@;
    let mut rest: Vec<(String, ModuleAliasBinding)> = Vec::new();
    std::mem::swap(&mut rest, &mut module_aliases.entries);
    let mut done: Vec<(String, ModuleAliasBinding)> = Vec::new();
    let n = rest.len();
    while rest.len() > 0
        invariant
            n == before.len(),
            done@.len() + rest@.len() == n,
            rest@ == before.subrange(done@.len() as int, n as int),
            forall|j: int|
                0 <= j < done@.len() ==> {
                    &&& (#[trigger] done@[j]).0@ == before[j].0@
                    &&& done@[j].1@ == enriched_alias(
                        before[j].0@,
                        before[j].1@,
                        alias_exports@,
                        alias_export_renames@,
                        alias_export_docstrings@,
                        global_binding_types@,
                        enum_definitions@.dom(),
                        struct_definitions@.dom(),
                        std_modules@,
                    )
                },
        decreases rest@.len(),
    {
        let (alias, mut binding) = rest.remove(0);
        enrich_binding(
            alias.as_str(),
            &mut binding,
            alias_exports,
            alias_export_renames,
            alias_export_docstrings,
            global_binding_types,
            enum_definitions,
            struct_definitions,
            std_modules,
        );
        done.push((alias, binding));
    }
    module_aliases.entries = done;
    proof {
        let after = module_aliases.entries@;
        assert forall|alias: Seq<char>| #[trigger]
            entries_map(before).dom().contains(alias) implies entries_map(after)[alias]@
            == enriched_alias(
            alias,
            entries_map(before)[alias]@,
            alias_exports@,
            alias_export_renames@,
            alias_export_docstrings@,
            global_binding_types@,
            enum_definitions@.dom(),
            struct_definitions@.dom(),
            std_modules@,
        ) by {
            lemma_entries_map_same_keys(before, after, alias);
            let i = choose|i: int|
                0 <= i < before.len() && before[i].0@ == alias && entries_map(before)[alias]
                    == before[i].1 && entries_map(after)[alias] == #[trigger] after[i].1;
            assert(after[i] == done@[i]);
        }
        assert forall|alias: Seq<char>|
            entries_map(after).dom().contains(alias) == entries_map(before).dom().contains(
                alias,
            ) by {
            lemma_entries_map_same_keys(before, after, alias);
        }
        assert(entries_map(after).dom() =~= entries_map(before).dom());
    }
}

/// What the type checker hands over after checking a module.
#[derive(Debug)]
pub struct TypeCheckerOutput {
    pub binding_types: Vec<(SourceSpan, Type)>,
    pub argument_expected_types: Vec<(SourceSpan, Type)>,
    pub struct_definitions: NameMap<StructDefinition>,
    pub enum_definitions: NameMap<EnumDefinition>,
    pub global_binding_types: NameMap<Type>,
    pub match_exhaustiveness: Vec<(SourceSpan, Vec<String>)>,
    pub lambda_types: Vec<(usize, Type)>,
    pub function_instances: NameMap<Vec<FunctionInstance>>,
    pub struct_instances: NameMap<Vec<StructInstance>>,
    pub function_call_metadata: Vec<(SourceSpan, (String, FunctionInstance))>,
    pub struct_call_metadata: Vec<(SourceSpan, (String, StructInstance))>,
    pub type_test_metadata: Vec<(SourceSpan, Type)>,
    pub error_definitions: NameMap<ErrorDefinition>,
}

/// Each entry's type, described (see [`printed_type_name`]), under the same
/// span and in the same order.
pub open spec fn described(entries: Seq<(SourceSpan, Type)>, out: Seq<(SourceSpan, String)>) -> bool {
    &&& out.len() == entries.len()
    &&& forall|i: int|
        0 <= i < entries.len() ==> (#[trigger] out[i]).0 == entries[i].0 && out[i].1@
            == printed_type_name(entries[i].1@)
}

/// Describes the type of each entry.
pub fn describe_entries(entries: &Vec<(SourceSpan, Type)>) -> (out: Vec<(SourceSpan, String)>)
    ensures
        described(entries@, out@),
{
    let mut out: Vec<(SourceSpan, String)> = Vec::new();
    let mut i: usize = 0;
    while i < entries.len()
        invariant
            i <= entries@.len(),
            out@.len() == i,
            forall|j: int|
                0 <= j < i ==> (#[trigger] out@[j]).0 == entries@[j].0 && out@[j].1@
                    == printed_type_name(entries@[j].1@),
        decreases entries@.len() - i,
    {
        let d = format_type_name(&entries[i].1);
        out.push((entries[i].0, d));
        i = i + 1;
    }
    out
}

/// The semantic facts about a checked module that tooling reads.
#[derive(Debug)]
pub struct SemanticAnalysis {
    module_aliases: NameMap<ModuleAliasBinding>,
    binding_type_descriptions: Vec<(SourceSpan, String)>,
    argument_type_descriptions: Vec<(SourceSpan, String)>,
    match_exhaustiveness: Vec<(SourceSpan, Vec<String>)>,
    lambda_captures: Vec<(usize, Vec<String>)>,
    lambda_types: Vec<(usize, Type)>,
    function_instances: NameMap<Vec<FunctionInstance>>,
    struct_instances: NameMap<Vec<StructInstance>>,
    function_call_metadata: Vec<(SourceSpan, (String, FunctionInstance))>,
    struct_call_metadata: Vec<(SourceSpan, (String, StructInstance))>,
    binding_types: Vec<(SourceSpan, Type)>,
    type_test_metadata: Vec<(SourceSpan, Type)>,
    struct_definitions: NameMap<StructDefinition>,
    error_definitions: NameMap<ErrorDefinition>,
}

impl SemanticAnalysis {
    /// The module aliases, with their exports filled in.
    pub closed spec fn module_aliases_value(&self) -> NameMap<ModuleAliasBinding> {
        self.module_aliases
    }

    /// The described type of each binding, by its span.
    pub closed spec fn binding_type_descriptions_value(&self) -> Vec<(SourceSpan, String)> {
        self.binding_type_descriptions
    }

    /// The described expected type of each call argument, by its span.
    pub closed spec fn argument_type_descriptions_value(&self) -> Vec<(SourceSpan, String)> {
        self.argument_type_descriptions
    }

    /// The patterns each non-exhaustive match is missing, by its span.
    pub closed spec fn match_exhaustiveness_value(&self) -> Vec<(SourceSpan, Vec<String>)> {
        self.match_exhaustiveness
    }

    /// The names each lambda captures, by lambda id.
    pub closed spec fn lambda_captures_value(&self) -> Vec<(usize, Vec<String>)> {
        self.lambda_captures
    }

    /// The checked type of each lambda, by lambda id.
    pub closed spec fn lambda_types_value(&self) -> Vec<(usize, Type)> {
        self.lambda_types
    }

    /// The instantiations of each generic function.
    pub closed spec fn function_instances_value(&self) -> NameMap<Vec<FunctionInstance>> {
        self.function_instances
    }

    /// The instantiations of each generic struct.
    pub closed spec fn struct_instances_value(&self) -> NameMap<Vec<StructInstance>> {
        self.struct_instances
    }

    /// The generic function instance each call resolves to, by its span.
    pub closed spec fn function_call_metadata_value(&self) -> Vec<(SourceSpan, (String, FunctionInstance))> {
        self.function_call_metadata
    }

    /// The generic struct instance each constructor call resolves to, by its span.
    pub closed spec fn struct_call_metadata_value(&self) -> Vec<(SourceSpan, (String, StructInstance))> {
        self.struct_call_metadata
    }

    /// The checked type of each binding, by its span.
    pub closed spec fn binding_types_value(&self) -> Vec<(SourceSpan, Type)> {
        self.binding_types
    }

    /// The type tested by each type test, by its span.
    pub closed spec fn type_test_metadata_value(&self) -> Vec<(SourceSpan, Type)> {
        self.type_test_metadata
    }

    /// The declared structs.
    pub closed spec fn struct_definitions_value(&self) -> NameMap<StructDefinition> {
        self.struct_definitions
    }

    /// The declared error types.
    pub closed spec fn error_definitions_value(&self) -> NameMap<ErrorDefinition> {
        self.error_definitions
    }

    /// Gathers the analysis: the aliases are enriched
    /// against the checked module (see [`enrich_module_aliases`]), binding
    /// and argument types are described, and the type checker's tables are
    /// kept as they are.
    pub fn from_parts(
        lambda_captures: Vec<(usize, Vec<String>)>,
        module_aliases: NameMap<ModuleAliasBinding>,
        checked: TypeCheckerOutput,
        alias_exports: &NameMap<Vec<String>>,
        alias_export_renames: &NameMap<NameMap<String>>,
        alias_export_docstrings: &NameMap<NameMap<String>>,
        std_modules: &Vec<StdModule>,
    ) -> (a: Self)
        ensures
            a.module_aliases_value()@.dom() == module_aliases@.dom(),
            forall|alias: Seq<char>|
                #[trigger] module_aliases@.dom().contains(alias) ==> a.module_aliases_value()@[alias]@
                    == enriched_alias(
                    alias,
                    module_aliases@[alias]@,
                    alias_exports@,
                    alias_export_renames@,
                    alias_export_docstrings@,
                    checked.global_binding_types@,
                    checked.enum_definitions@.dom(),
                    checked.struct_definitions@.dom(),
                    std_modules@,
                ),
            described(checked.binding_types@, a.binding_type_descriptions_value()@),
            described(checked.argument_expected_types@, a.argument_type_descriptions_value()@),
            a.match_exhaustiveness_value() == checked.match_exhaustiveness,
            a.lambda_captures_value() == lambda_captures,
            a.lambda_types_value() == checked.lambda_types,
            a.function_instances_value() == checked.function_instances,
            a.struct_instances_value() == checked.struct_instances,
            a.function_call_metadata_value() == checked.function_call_metadata,
            a.struct_call_metadata_value() == checked.struct_call_metadata,
            a.binding_types_value() == checked.binding_types,
            a.type_test_metadata_value() == checked.type_test_metadata,
            a.struct_definitions_value() == checked.struct_definitions,
            a.error_definitions_value() == checked.error_definitions,
    {
        let mut module_aliases = module_aliases;
        enrich_module_aliases(
            &mut module_aliases,
            alias_exports,
            alias_export_renames,
            alias_export_docstrings,
            &checked.global_binding_types,
            &checked.enum_definitions,
            &checked.struct_definitions,
            std_modules,
        );
        let binding_type_descriptions = describe_entries(&checked.binding_types);
        let argument_type_descriptions = describe_entries(&checked.argument_expected_types);
        SemanticAnalysis {
            module_aliases,
            binding_type_descriptions,
            argument_type_descriptions,
            match_exhaustiveness: checked.match_exhaustiveness,
            lambda_captures,
            lambda_types: checked.lambda_types,
            function_instances: checked.function_instances,
            struct_instances: checked.struct_instances,
            function_call_metadata: checked.function_call_metadata,
            struct_call_metadata: checked.struct_call_metadata,
            binding_types: checked.binding_types,
            type_test_metadata: checked.type_test_metadata,
            struct_definitions: checked.struct_definitions,
            error_definitions: checked.error_definitions,
        }
    }

    /// The module aliases, with their exports filled in.
    pub fn module_aliases(&self) -> (r: &NameMap<ModuleAliasBinding>)
        ensures
            *r == self.module_aliases_value(),
    {
        &self.module_aliases
    }

    /// The described type of each binding, by its span.
    pub fn binding_type_descriptions(&self) -> (r: &Vec<(SourceSpan, String)>)
        ensures
            *r == self.binding_type_descriptions_value(),
    {
        &self.binding_type_descriptions
    }

    /// The described expected type of each call argument, by its span.
    pub fn argument_type_descriptions(&self) -> (r: &Vec<(SourceSpan, String)>)
        ensures
            *r == self.argument_type_descriptions_value(),
    {
        &self.argument_type_descriptions
    }

    /// The patterns each non-exhaustive match is missing, by its span.
    pub fn match_exhaustiveness(&self) -> (r: &Vec<(SourceSpan, Vec<String>)>)
        ensures
            *r == self.match_exhaustiveness_value(),
    {
        &self.match_exhaustiveness
    }

    /// The names each lambda captures, by lambda id.
    pub fn lambda_captures(&self) -> (r: &Vec<(usize, Vec<String>)>)
        ensures
            *r == self.lambda_captures_value(),
    {
        &self.lambda_captures
    }

    /// The checked type of each lambda, by lambda id.
    pub fn lambda_types(&self) -> (r: &Vec<(usize, Type)>)
        ensures
            *r == self.lambda_types_value(),
    {
        &self.lambda_types
    }

    /// The instantiations of each generic function.
    pub fn function_instances(&self) -> (r: &NameMap<Vec<FunctionInstance>>)
        ensures
            *r == self.function_instances_value(),
    {
        &self.function_instances
    }

    /// The instantiations of each generic struct.
    pub fn struct_instances(&self) -> (r: &NameMap<Vec<StructInstance>>)
        ensures
            *r == self.struct_instances_value(),
    {
        &self.struct_instances
    }

    /// The generic function instance each call resolves to, by its span.
    pub fn function_call_metadata(&self) -> (r: &Vec<(SourceSpan, (String, FunctionInstance))>)
        ensures
            *r == self.function_call_metadata_value(),
    {
        &self.function_call_metadata
    }

    /// The generic struct instance each constructor call resolves to, by its span.
    pub fn struct_call_metadata(&self) -> (r: &Vec<(SourceSpan, (String, StructInstance))>)
        ensures
            *r == self.struct_call_metadata_value(),
    {
        &self.struct_call_metadata
    }

    /// The checked type of each binding, by its span.
    pub fn typed_binding_types(&self) -> (r: &Vec<(SourceSpan, Type)>)
        ensures
            *r == self.binding_types_value(),
    {
        &self.binding_types
    }

    /// The type tested by each type test, by its span.
    pub fn typed_type_test_metadata(&self) -> (r: &Vec<(SourceSpan, Type)>)
        ensures
            *r == self.type_test_metadata_value(),
    {
        &self.type_test_metadata
    }

    /// The declared structs.
    pub fn struct_definitions(&self) -> (r: &NameMap<StructDefinition>)
        ensures
            *r == self.struct_definitions_value(),
    {
        &self.struct_definitions
    }

    /// The declared error types.
    pub fn error_definitions(&self) -> (r: &NameMap<ErrorDefinition>)
        ensures
            *r == self.error_definitions_value(),
    {
        &self.error_definitions
    }
}

} // verus!
