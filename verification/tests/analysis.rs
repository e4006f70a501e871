use tea_compiler::analysis::{
    describe_std_function, describe_std_type, enrich_module_aliases, ModuleAliasBinding,
    SemanticAnalysis, StdFunction, StdModule, StdType, TypeCheckerOutput,
};
use tea_compiler::aot::types::format_type_name;
use tea_compiler::ast::SourceSpan;
use tea_compiler::names::NameMap;
use tea_compiler::typechecker::{EnumDefinition, StructDefinition, Type};

fn binding(module: &str) -> ModuleAliasBinding {
    ModuleAliasBinding {
        module_name: module.to_string(),
        exports: vec![],
        export_types: NameMap::new(),
        export_docs: NameMap::new(),
        docstring: None,
    }
}

fn std_fs() -> Vec<StdModule> {
    vec![StdModule {
        path: "std.fs".to_string(),
        docstring: "Filesystem helpers.".to_string(),
        functions: vec![
            StdFunction {
                name: "read_text".to_string(),
                params: vec![StdType::String],
                return_type: StdType::String,
                docstring: "Reads a file.".to_string(),
            },
            StdFunction {
                name: "exists".to_string(),
                params: vec![],
                return_type: StdType::Bool,
                docstring: "Checks a path.".to_string(),
            },
        ],
    }]
}

fn get<'a>(m: &'a NameMap<String>, k: &str) -> Option<&'a str> {
    m.get(k).map(|s| s.as_str())
}

#[test]
fn std_types_are_described() {
    assert_eq!(describe_std_type(StdType::Any), "Unknown");
    assert_eq!(describe_std_type(StdType::List), "List[Unknown]");
    assert_eq!(describe_std_type(StdType::Dict), "Dict[String, Unknown]");
    assert_eq!(describe_std_type(StdType::Nil), "Nil");
}

#[test]
fn std_functions_are_described() {
    let f = StdFunction {
        name: "join".to_string(),
        params: vec![StdType::List, StdType::String],
        return_type: StdType::String,
        docstring: String::new(),
    };
    assert_eq!(describe_std_function(&f), "Func(List[Unknown], String) -> String");
    let g = StdFunction { name: "cwd".to_string(), params: vec![], return_type: StdType::Void, docstring: String::new() };
    assert_eq!(describe_std_function(&g), "Func() -> Void");
}

#[test]
fn std_aliases_get_the_module_functions() {
    let mut aliases = NameMap::new();
    aliases.insert("fs".to_string(), binding("std.fs"));
    aliases.insert("other".to_string(), binding("std.nothing"));
    enrich_module_aliases(
        &mut aliases,
        &NameMap::new(),
        &NameMap::new(),
        &NameMap::new(),
        &NameMap::new(),
        &NameMap::new(),
        &NameMap::new(),
        &std_fs(),
    );
    let fs = aliases.get("fs").unwrap();
    assert_eq!(fs.exports, vec!["read_text".to_string(), "exists".to_string()]);
    assert_eq!(get(&fs.export_types, "read_text"), Some("Func(String) -> String"));
    assert_eq!(get(&fs.export_types, "exists"), Some("Func() -> Bool"));
    assert_eq!(get(&fs.export_docs, "exists"), Some("Checks a path."));
    assert_eq!(fs.docstring.as_deref(), Some("Filesystem helpers."));
    let other = aliases.get("other").unwrap();
    assert!(other.exports.is_empty());
    assert!(other.docstring.is_none());
}

#[test]
fn resolver_exports_are_described() {
    let mut aliases = NameMap::new();
    let mut b = binding("./shapes");
    b.docstring = Some("Shapes.".to_string());
    aliases.insert("shapes".to_string(), b);
    let mut exports = NameMap::new();
    exports.insert(
        "shapes".to_string(),
        vec!["area".to_string(), "Color".to_string(), "Point".to_string(), "hidden".to_string()],
    );
    let mut renames = NameMap::new();
    renames.insert("area".to_string(), "shapes__area".to_string());
    renames.insert("Color".to_string(), "shapes__Color".to_string());
    renames.insert("Point".to_string(), "shapes__Point".to_string());
    let mut all_renames = NameMap::new();
    all_renames.insert("shapes".to_string(), renames);
    let mut docs = NameMap::new();
    docs.insert("area".to_string(), "Computes an area.".to_string());
    let mut all_docs = NameMap::new();
    all_docs.insert("shapes".to_string(), docs);
    let mut globals = NameMap::new();
    globals.insert(
        "shapes__area".to_string(),
        Type::Function(vec![Type::Float], Box::new(Type::Float)),
    );
    let mut enums = NameMap::new();
    enums.insert(
        "shapes__Color".to_string(),
        EnumDefinition { name: "Color".to_string(), variants: vec!["Red".to_string()] },
    );
    let mut structs = NameMap::new();
    structs.insert(
        "shapes__Point".to_string(),
        StructDefinition { name: "Point".to_string(), type_parameters: vec![], fields: vec![] },
    );
    enrich_module_aliases(&mut aliases, &exports, &all_renames, &all_docs, &globals, &enums, &structs, &vec![]);
    let shapes = aliases.get("shapes").unwrap();
    assert_eq!(shapes.exports.len(), 4);
    assert_eq!(get(&shapes.export_types, "area"), Some("Func(Float) -> Float"));
    assert_eq!(get(&shapes.export_types, "Color"), Some("Enum"));
    assert_eq!(get(&shapes.export_types, "Point"), Some("Struct"));
    assert_eq!(get(&shapes.export_types, "hidden"), None);
    assert_eq!(get(&shapes.export_docs, "area"), Some("Computes an area."));
    assert_eq!(get(&shapes.export_docs, "Point"), None);
    assert_eq!(shapes.docstring.as_deref(), Some("Shapes."));
}

#[test]
fn analysis_describes_binding_types() {
    let checked = TypeCheckerOutput {
        binding_types: vec![
            (SourceSpan::single_point(1, 5), Type::List(Box::new(Type::Int))),
            (SourceSpan::single_point(2, 5), Type::Optional(Box::new(Type::String))),
        ],
        argument_expected_types: vec![(SourceSpan::single_point(3, 9), Type::Bool)],
        struct_definitions: NameMap::new(),
        enum_definitions: NameMap::new(),
        global_binding_types: NameMap::new(),
        match_exhaustiveness: vec![(SourceSpan::single_point(4, 1), vec!["None".to_string()])],
        lambda_types: vec![],
        function_instances: NameMap::new(),
        struct_instances: NameMap::new(),
        function_call_metadata: vec![],
        struct_call_metadata: vec![],
        type_test_metadata: vec![],
        error_definitions: NameMap::new(),
    };
    let analysis = SemanticAnalysis::from_parts(
        vec![(0, vec!["x".to_string()])],
        NameMap::new(),
        checked,
        &NameMap::new(),
        &NameMap::new(),
        &NameMap::new(),
        &vec![],
    );
    let d = analysis.binding_type_descriptions();
    assert_eq!(d[0], (SourceSpan::single_point(1, 5), "List[Int]".to_string()));
    assert_eq!(d[1].1, "String?");
    assert_eq!(analysis.argument_type_descriptions()[0].1, "Bool");
    assert_eq!(analysis.match_exhaustiveness()[0].1, vec!["None".to_string()]);
    assert_eq!(analysis.lambda_captures()[0].1, vec!["x".to_string()]);
    assert_eq!(analysis.typed_binding_types().len(), 2);
    assert!(analysis.module_aliases().entries.is_empty());
}

#[test]
fn enriching_twice_changes_nothing() {
    let mut aliases = NameMap::new();
    aliases.insert("fs".to_string(), binding("std.fs"));
    let mods = std_fs();
    let none: NameMap<Vec<String>> = NameMap::new();
    let no_tables: NameMap<NameMap<String>> = NameMap::new();
    enrich_module_aliases(&mut aliases, &none, &no_tables, &no_tables, &NameMap::new(), &NameMap::new(), &NameMap::new(), &mods);
    let first = format!("{:?}", aliases);
    enrich_module_aliases(&mut aliases, &none, &no_tables, &no_tables, &NameMap::new(), &NameMap::new(), &NameMap::new(), &mods);
    assert_eq!(format!("{:?}", aliases), first);
}

#[test]
fn std_signatures_use_the_type_printer_notation() {
    let f = StdFunction {
        name: "keys".to_string(),
        params: vec![StdType::Dict, StdType::Any],
        return_type: StdType::List,
        docstring: String::new(),
    };
    let as_type = Type::Function(
        vec![Type::Dict(Box::new(Type::Unknown)), Type::Unknown],
        Box::new(Type::List(Box::new(Type::Unknown))),
    );
    assert_eq!(describe_std_function(&f), format_type_name(&as_type));
}
