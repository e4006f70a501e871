use inkwell::attributes::{Attribute, AttributeLoc};
use inkwell::context::Context;
use tea_compiler::aot::helpers::TeaValueTag;
use tea_compiler::aot::backend::global_symbol_name;
use tea_compiler::aot::emission::{
    basic_type, closure_function_type, collect_globals, declare_function, declare_lambda_function, declare_runtime_types,
    build_runtime_equality, convert_expr_to_type, ensure_global_slot, ensure_runtime_function, function_type,
    optional_nil,
};
use tea_compiler::aot::compare::RuntimeEquality;
use tea_compiler::aot::runtime::RuntimeFunction;
use tea_compiler::aot::ir::EmitLog;
use tea_compiler::ast::BinaryOperator;
use tea_compiler::aot::scopes::GenericBindings;
use tea_compiler::aot::structs::StructMetadata;
use tea_compiler::ast::{
    Block, FunctionStatement, SourceSpan, Statement, Token, TypeExpression, TypeParameter, VarBinding, VarStatement,
};
use tea_compiler::typechecker::{FunctionInstance, Type};
use tea_compiler::aot::llvm::{
    add_function_attr, add_function_attributes, add_loop_metadata, build_numeric, build_numeric_compare, build_scalar_equality,
    build_tea_value,
    build_nils_equality, build_null_string_equality, expr_to_tea_value, payload_to_expr, tea_value_to_expr, LlvmValue,
};
use tea_compiler::aot::types::{LambdaSignature, ValueType};
use tea_compiler::names::NameMap;

#[test]
fn function_attributes_are_attached() {
    let context = Context::create();
    let module = context.create_module("attrs");
    let fn_type = context.void_type().fn_type(&[], false);
    let function = module.add_function("f", fn_type, None);
    let mut log = EmitLog::new();
    add_function_attr(&mut log, &context, function, "nounwind");
    let kind = Attribute::get_named_enum_kind_id("nounwind");
    assert!(function.get_enum_attribute(AttributeLoc::Function, kind).is_some());
    let other = module.add_function("g", fn_type, None);
    add_function_attributes(&mut log, &context, other, false, true);
    assert!(other.count_attributes(AttributeLoc::Function) >= 1);
    assert!(other.get_enum_attribute(AttributeLoc::Function, kind).is_some());
}

#[test]
fn tea_values_are_built_on_the_stack() {
    let context = Context::create();
    let module = context.create_module("values");
    let builder = context.create_builder();
    let tea_value = context.struct_type(
        &[context.i32_type().into(), context.i32_type().into(), context.i64_type().into()],
        false,
    );
    let fn_type = context.void_type().fn_type(&[], false);
    let function = module.add_function("f", fn_type, None);
    let entry = context.append_basic_block(function, "entry");
    builder.position_at_end(entry);
    let payload = context.i64_type().const_int(42, false);
    let mut log = EmitLog::new();
    let value = build_tea_value(&mut log, &context, &builder, tea_value, TeaValueTag::Int, payload, "x").unwrap();
    assert!(value.is_struct_value());
    let branch = builder.build_unconditional_branch(entry).unwrap();
    add_loop_metadata(&mut log, &context, branch);
    let ir = module.print_to_string().to_string();
    assert!(ir.contains("tea_val_x"));
    assert!(ir.contains("llvm.loop"));
}

#[test]
fn an_unpositioned_builder_is_an_error() {
    let context = Context::create();
    let builder = context.create_builder();
    let tea_value = context.struct_type(&[context.i32_type().into()], false);
    let payload = context.i64_type().const_int(1, false);
    let mut log = EmitLog::new();
    assert!(build_tea_value(&mut log, &context, &builder, tea_value, TeaValueTag::Nil, payload, "y").is_err());
}

fn tea_value_type(context: &Context) -> inkwell::types::StructType<'_> {
    context.struct_type(&[context.i32_type().into(), context.i32_type().into(), context.i64_type().into()], false)
}

#[test]
fn globals_are_made_once_per_binding() {
    let mut log = EmitLog::new();
    let context = Context::create();
    let module = context.create_module("globals");
    let mut slots = NameMap::new();
    let mut globals = Vec::new();
    let tv = tea_value_type(&context);
    ensure_global_slot(&mut log, &context, &module, tv, &mut slots, &mut globals, "count", &ValueType::Int, true).unwrap();
    assert_eq!(globals.len(), 1);
    let slot = slots.get("count").unwrap();
    assert_eq!((slot.pointer, slot.mutable, slot.initialized), (0, true, false));
    ensure_global_slot(&mut log, &context, &module, tv, &mut slots, &mut globals, "count", &ValueType::Int, true).unwrap();
    assert_eq!(globals.len(), 1);
    let err = ensure_global_slot(&mut log, &context, &module, tv, &mut slots, &mut globals, "count", &ValueType::Float, true).unwrap_err();
    assert_eq!(err, "top-level binding 'count' has conflicting types (previous Int, new Float)");
    let err = ensure_global_slot(&mut log, &context, &module, tv, &mut slots, &mut globals, "nothing", &ValueType::Void, true).unwrap_err();
    assert_eq!(err, "void type is not a value");
    assert!(module.get_global(&global_symbol_name("count")).is_some());
}

#[test]
fn function_types_follow_the_signature() {
    let context = Context::create();
    let tv = tea_value_type(&context);
    let t = function_type(&context, tv, &ValueType::Void, &[ValueType::Int, ValueType::String]).unwrap();
    assert_eq!(t.ty().count_param_types(), 2);
    assert!(t.ty().get_return_type().is_none());
    let t = function_type(&context, tv, &ValueType::Optional(Box::new(ValueType::Int)), &[]).unwrap();
    assert!(t.ty().get_return_type().unwrap().is_struct_type());
    assert_eq!(function_type(&context, tv, &ValueType::Int, &[ValueType::Void]).err().unwrap(), "void type is not a value");
    assert!(basic_type(&context, tv, &ValueType::Bool).unwrap().ty().is_int_type());
    assert!(basic_type(&context, tv, &ValueType::Struct("P".to_string())).unwrap().ty().is_pointer_type());
}

fn annotated(name: &str, ty: &str) -> tea_compiler::ast::FunctionParameter {
    tea_compiler::ast::FunctionParameter {
        name: name.to_string(),
        span: SourceSpan::new(1, 1, 1, 1),
        type_annotation: Some(TypeExpression { tokens: vec![Token { lexeme: ty.to_string() }] }),
        default_value: None,
    }
}

fn function_named(name: &str, type_params: &[&str], params: Vec<tea_compiler::ast::FunctionParameter>) -> FunctionStatement {
    FunctionStatement {
        is_public: false,
        name: name.to_string(),
        name_span: SourceSpan::new(1, 1, 1, 1),
        type_parameters: type_params.iter().map(|p| TypeParameter { name: p.to_string(), span: SourceSpan::new(1, 1, 1, 1) }).collect(),
        parameters: params,
        return_type: Some(TypeExpression { tokens: vec![Token { lexeme: "Int".to_string() }] }),
        body: Block { statements: vec![] },
        docstring: None,
    }
}

fn empty_metadata() -> StructMetadata {
    StructMetadata {
        structs: NameMap::new(),
        struct_field_variants: NameMap::new(),
        struct_variant_bases: NameMap::new(),
        struct_definitions_tc: NameMap::new(),
        struct_instances_tc: NameMap::new(),
        struct_call_metadata_tc: vec![],
    }
}

#[test]
fn functions_are_declared_once_per_symbol() {
    let mut log = EmitLog::new();
    let context = Context::create();
    let module = context.create_module("decl");
    let tv = tea_value_type(&context);
    let mut meta = empty_metadata();
    let mut functions = NameMap::new();
    let mut declared = Vec::new();
    let instances: NameMap<Vec<FunctionInstance>> = NameMap::new();
    let f = function_named("add", &[], vec![annotated("a", "Int"), annotated("b", "Int")]);
    declare_function(&mut log, &context, &module, tv, &f, false, &GenericBindings::new(), &mut meta, &instances, &mut functions, &mut declared).unwrap();
    declare_function(&mut log, &context, &module, tv, &f, false, &GenericBindings::new(), &mut meta, &instances, &mut functions, &mut declared).unwrap();
    assert_eq!(declared.len(), 1);
    let sig = functions.get("add").unwrap();
    assert_eq!(sig.value, 0);
    assert_eq!(sig.param_types.len(), 2);
    assert!(module.get_function("add").is_some());

    let mut generic_instances = NameMap::new();
    generic_instances.insert(
        "id".to_string(),
        vec![
            FunctionInstance { type_arguments: vec![Type::Int], param_types: vec![Type::Int], return_type: Type::Int },
            FunctionInstance { type_arguments: vec![Type::String], param_types: vec![Type::String], return_type: Type::String },
        ],
    );
    let g = function_named("id", &["T"], vec![annotated("x", "T")]);
    declare_function(&mut log, &context, &module, tv, &g, true, &GenericBindings::new(), &mut meta, &generic_instances, &mut functions, &mut declared).unwrap();
    assert_eq!(declared.len(), 3);
    assert!(functions.contains_key("id$gInt"));
    assert!(functions.get("id$gString").unwrap().can_throw);

    let bad = function_named("bad", &[], vec![tea_compiler::ast::FunctionParameter {
        name: "p".to_string(),
        span: SourceSpan::new(1, 1, 1, 1),
        type_annotation: None,
        default_value: None,
    }]);
    let err = declare_function(&mut log, &context, &module, tv, &bad, false, &GenericBindings::new(), &mut meta, &instances, &mut functions, &mut declared).unwrap_err();
    assert_eq!(err, "parameter 'p' requires type annotation");
}

#[test]
fn top_level_bindings_get_globals() {
    let mut log = EmitLog::new();
    let context = Context::create();
    let module = context.create_module("tops");
    let tv = tea_value_type(&context);
    let mut meta = empty_metadata();
    let span = SourceSpan::new(2, 5, 2, 5);
    let statements = vec![Statement::Var(VarStatement {
        is_const: false,
        bindings: vec![VarBinding { name: "total".to_string(), span, type_annotation: None, initializer: None }],
        docstring: None,
    })];
    let table = vec![(span, Type::Float)];
    let mut slots = NameMap::new();
    let mut globals = Vec::new();
    collect_globals(&mut log, &context, &module, tv, &statements, &GenericBindings::new(), &mut meta, &table, &mut slots, &mut globals).unwrap();
    assert!(slots.contains_key("total"));
    assert_eq!(globals.len(), 1);
    let err = collect_globals(&mut log, &context, &module, tv, &statements, &GenericBindings::new(), &mut meta, &vec![], &mut slots, &mut globals).unwrap_err();
    assert_eq!(err, "missing type information for top-level binding 'total' at line 2, column 5");
    let int_table = vec![(span, Type::Int)];
    let err = collect_globals(&mut log, &context, &module, tv, &statements, &GenericBindings::new(), &mut meta, &int_table, &mut slots, &mut globals).unwrap_err();
    assert_eq!(err, "top-level binding 'total' has conflicting types (previous Float, new Int)");
    assert_eq!(globals.len(), 1);
    let void_table = vec![(span, Type::Void)];
    let mut fresh = NameMap::new();
    let err = collect_globals(&mut log, &context, &module, tv, &statements, &GenericBindings::new(), &mut meta, &void_table, &mut fresh, &mut globals).unwrap_err();
    assert_eq!(err, "void type is not a value");
    assert!(!fresh.contains_key("total"));
    assert_eq!(globals.len(), 1);
}

#[test]
fn runtime_types_have_their_layouts() {
    let context = Context::create();
    let mut log = EmitLog::new();
    let types = declare_runtime_types(&mut log, &context);
    assert_eq!(types.value.get_name().unwrap().to_str().unwrap(), "TeaValue");
    assert_eq!(types.string.get_name().unwrap().to_str().unwrap(), "TeaString");
    assert_eq!(types.list.get_name().unwrap().to_str().unwrap(), "TeaList");
    assert_eq!(types.closure.get_name().unwrap().to_str().unwrap(), "TeaClosure");
    assert_eq!(types.value.count_fields(), 3);
    assert_eq!(types.string.count_fields(), 3);
    assert_eq!(types.list.count_fields(), 4);
    assert_eq!(types.struct_template.count_fields(), 3);
    assert_eq!(types.struct_instance.count_fields(), 2);
    assert_eq!(types.error_template.count_fields(), 4);
    assert_eq!(types.closure.count_fields(), 3);
    assert!(!types.list.is_opaque());
    let inline = types.list.get_field_type_at_index(3).unwrap().into_array_type();
    assert_eq!(inline.len(), 8);
    assert_eq!(inline.get_element_type().into_struct_type(), types.value);
    let data = types.string.get_field_type_at_index(2).unwrap().into_array_type();
    assert_eq!(data.len(), 22);
}

#[test]
fn lambda_functions_take_the_closure_first() {
    let context = Context::create();
    let module = context.create_module("lambdas");
    let mut log = EmitLog::new();
    let types = declare_runtime_types(&mut log, &context);
    let fn_type = closure_function_type(&context, types.value, &ValueType::Int, &[ValueType::Bool]).unwrap();
    assert_eq!(fn_type.ty().count_param_types(), 2);
    assert!(fn_type.ty().get_param_types()[0].is_pointer_type());
    assert!(closure_function_type(&context, types.value, &ValueType::Int, &[ValueType::Void]).is_err());
    let signature = LambdaSignature { param_types: vec![ValueType::Int, ValueType::String], return_type: ValueType::Void };
    let mut lambdas = Vec::new();
    let first = declare_lambda_function(&mut log, &context, &module, types.value, 7, &signature, &mut lambdas).unwrap();
    assert_eq!(first.get_name().to_str().unwrap(), "lambda_7");
    assert_eq!(first.count_params(), 3);
    assert_eq!(first.get_linkage(), inkwell::module::Linkage::Internal);
    let again = declare_lambda_function(&mut log, &context, &module, types.value, 7, &signature, &mut lambdas).unwrap();
    assert_eq!(again, first);
    assert_eq!(lambdas.len(), 1);
    let bad = LambdaSignature { param_types: vec![ValueType::Void], return_type: ValueType::Int };
    let err = declare_lambda_function(&mut log, &context, &module, types.value, 8, &bad, &mut lambdas).unwrap_err();
    assert_eq!(err, "void type is not a value");
    assert_eq!(lambdas.len(), 1);
}

#[test]
fn runtime_functions_are_declared_once() {
    let context = Context::create();
    let module = context.create_module("runtime");
    let mut log = EmitLog::new();
    let types = declare_runtime_types(&mut log, &context);
    let mut declared = Vec::new();
    let list_set = ensure_runtime_function(&mut log, &context, &module, types.value, RuntimeFunction::ListSet, &mut declared);
    assert_eq!(list_set.get_name().to_str().unwrap(), "tea_list_set");
    assert_eq!(list_set.count_params(), 3);
    assert!(list_set.get_type().get_return_type().is_none());
    let again = ensure_runtime_function(&mut log, &context, &module, types.value, RuntimeFunction::ListSet, &mut declared);
    assert_eq!(again, list_set);
    assert_eq!(declared.len(), 1);
    let equal = ensure_runtime_function(&mut log, &context, &module, types.value, RuntimeFunction::StringEqual, &mut declared);
    assert_eq!(equal.get_name().to_str().unwrap(), "tea_string_equal");
    assert!(equal.get_type().get_return_type().unwrap().is_int_type());
    assert_eq!(declared.len(), 2);
    assert!(module.get_function("tea_list_set").is_some());
}

#[test]
fn tea_value_fields_hold_tag_padding_and_payload() {
    let context = Context::create();
    let module = context.create_module("fields");
    let builder = context.create_builder();
    let tea_value = tea_value_type(&context);
    let fn_type = context.void_type().fn_type(&[], false);
    let function = module.add_function("f", fn_type, None);
    let entry = context.append_basic_block(function, "entry");
    builder.position_at_end(entry);
    let payload = context.i64_type().const_int(42, false);
    let mut log = EmitLog::new();
    build_tea_value(&mut log, &context, &builder, tea_value, TeaValueTag::String, payload, "s").unwrap();
    let ir = module.print_to_string().to_string();
    assert!(ir.contains("store i32 3, i32* %tag_ptr"));
    assert!(ir.contains("store i32 0, i32* %padding_ptr"));
    assert!(ir.contains("store i64 42, i64* %payload_ptr"));
    assert!(ir.contains("%tea_val_s_loaded = load"));
}

#[test]
fn values_are_boxed_into_tea_values() {
    let context = Context::create();
    let module = context.create_module("boxing");
    let builder = context.create_builder();
    let tea_value = tea_value_type(&context);
    let fn_type = context.void_type().fn_type(&[], false);
    let function = module.add_function("f", fn_type, None);
    let entry = context.append_basic_block(function, "entry");
    builder.position_at_end(entry);
    let mut log = EmitLog::new();
    let slot = builder.build_alloca(context.bool_type(), "b").unwrap();
    let loaded = builder.build_load(slot, "flag").unwrap().into_int_value();
    expr_to_tea_value(&mut log, &context, &builder, tea_value, LlvmValue::Bool(loaded)).unwrap();
    let ir = module.print_to_string().to_string();
    assert!(ir.contains("zext i1 %flag to i64"));
    assert!(ir.contains("store i32 2, i32* %tag_ptr"));
    assert!(ir.contains("%tea_val_bool_loaded"));
    let nil = expr_to_tea_value(&mut log, &context, &builder, tea_value, LlvmValue::Void).unwrap();
    assert!(nil.is_struct_value());
    let given = builder.build_load(builder.build_alloca(tea_value, "o").unwrap(), "opt").unwrap();
    let same = expr_to_tea_value(&mut log, &context, &builder, tea_value, LlvmValue::Optional(given)).unwrap();
    assert_eq!(same, given);
}

#[test]
fn numbers_are_combined_and_compared() {
    let context = Context::create();
    let module = context.create_module("numbers");
    let builder = context.create_builder();
    let fn_type = context.void_type().fn_type(&[context.i64_type().into(), context.f64_type().into()], false);
    let function = module.add_function("f", fn_type, None);
    let entry = context.append_basic_block(function, "entry");
    builder.position_at_end(entry);
    let i = function.get_nth_param(0).unwrap().into_int_value();
    let x = function.get_nth_param(1).unwrap().into_float_value();
    let mut log = EmitLog::new();
    let sum = build_numeric(&mut log, &context, &builder, BinaryOperator::Add, LlvmValue::Int(i), LlvmValue::Float(x)).unwrap();
    assert!(matches!(sum, LlvmValue::Float(_)));
    let rem = build_numeric(&mut log, &context, &builder, BinaryOperator::Modulo, LlvmValue::Int(i), LlvmValue::Int(i)).unwrap();
    assert!(matches!(rem, LlvmValue::Int(_)));
    let less = build_numeric_compare(&mut log, &context, &builder, BinaryOperator::Less, LlvmValue::Int(i), LlvmValue::Int(i)).unwrap();
    assert!(matches!(less, LlvmValue::Bool(_)));
    build_numeric_compare(&mut log, &context, &builder, BinaryOperator::GreaterEqual, LlvmValue::Float(x), LlvmValue::Int(i)).unwrap();
    let ir = module.print_to_string().to_string();
    assert!(ir.contains("%sitofp_add_l = sitofp i64"));
    assert!(ir.contains("%faddtmp = fadd double %sitofp_add_l"));
    assert!(ir.contains("%modtmp = srem i64"));
    assert!(ir.contains("icmp slt i64"));
    assert!(ir.contains("fcmp oge double"));
    let err = build_numeric(&mut log, &context, &builder, BinaryOperator::Subtract, LlvmValue::Void, LlvmValue::Int(i)).err().unwrap();
    assert_eq!(err, "sub expects numeric operands");
    let err = build_numeric_compare(&mut log, &context, &builder, BinaryOperator::Less, LlvmValue::Void, LlvmValue::Int(i)).err().unwrap();
    assert_eq!(err, "comparison expects numeric operands");
}

#[test]
fn numbers_and_booleans_are_tested_for_equality() {
    let context = Context::create();
    let module = context.create_module("equality");
    let builder = context.create_builder();
    let fn_type = context.void_type().fn_type(&[context.i64_type().into(), context.f64_type().into(), context.bool_type().into()], false);
    let function = module.add_function("f", fn_type, None);
    let entry = context.append_basic_block(function, "entry");
    builder.position_at_end(entry);
    let i = function.get_nth_param(0).unwrap().into_int_value();
    let x = function.get_nth_param(1).unwrap().into_float_value();
    let b = function.get_nth_param(2).unwrap().into_int_value();
    let mut log = EmitLog::new();
    let eq = build_scalar_equality(&mut log, &context, &builder, LlvmValue::Int(i), LlvmValue::Int(i), true).unwrap();
    assert!(matches!(eq, LlvmValue::Bool(_)));
    build_scalar_equality(&mut log, &context, &builder, LlvmValue::Int(i), LlvmValue::Float(x), false).unwrap();
    build_scalar_equality(&mut log, &context, &builder, LlvmValue::Bool(b), LlvmValue::Bool(b), false).unwrap();
    let ir = module.print_to_string().to_string();
    assert!(ir.contains("icmp eq i64"));
    assert!(ir.contains("%sitofp_eq_l = sitofp i64"));
    assert!(ir.contains("fcmp one double %sitofp_eq_l"));
    assert!(ir.contains("%beqtmp = icmp ne i1"));
}

#[test]
fn strings_are_compared_by_the_runtime() {
    let context = Context::create();
    let module = context.create_module("strings");
    let builder = context.create_builder();
    let mut log = EmitLog::new();
    let types = declare_runtime_types(&mut log, &context);
    let ptr = context.i8_type().ptr_type(inkwell::AddressSpace::default());
    let fn_type = context.void_type().fn_type(&[ptr.into(), ptr.into()], false);
    let function = module.add_function("f", fn_type, None);
    let entry = context.append_basic_block(function, "entry");
    builder.position_at_end(entry);
    let a = function.get_nth_param(0).unwrap().into_pointer_value();
    let b = function.get_nth_param(1).unwrap().into_pointer_value();
    let mut declared = Vec::new();
    build_runtime_equality(&mut log, &context, &module, &builder, types.value, &mut declared, RuntimeEquality::String, a, b, true).unwrap();
    build_runtime_equality(&mut log, &context, &module, &builder, types.value, &mut declared, RuntimeEquality::String, a, b, false).unwrap();
    assert_eq!(declared.len(), 1);
    let ir = module.print_to_string().to_string();
    assert!(ir.contains("%str_eq = call i32 @tea_string_equal"));
    assert!(ir.contains("%str_eq_bool = trunc i32 %str_eq to i1"));
    assert!(ir.contains("%str_neq = xor i1"));
}

#[test]
fn payloads_are_read_back_by_type() {
    let context = Context::create();
    let module = context.create_module("read_back");
    let builder = context.create_builder();
    let fn_type = context.void_type().fn_type(&[context.i64_type().into()], false);
    let function = module.add_function("f", fn_type, None);
    let entry = context.append_basic_block(function, "entry");
    builder.position_at_end(entry);
    let payload = function.get_nth_param(0).unwrap().into_int_value();
    let mut log = EmitLog::new();
    let int = payload_to_expr(&mut log, &context, &builder, payload, &ValueType::Int).unwrap();
    assert!(matches!(int, LlvmValue::Int(v) if v == payload));
    let float = payload_to_expr(&mut log, &context, &builder, payload, &ValueType::Float).unwrap();
    assert!(matches!(float, LlvmValue::Float(_)));
    let boolean = payload_to_expr(&mut log, &context, &builder, payload, &ValueType::Bool).unwrap();
    assert!(matches!(boolean, LlvmValue::Bool(_)));
    let string = payload_to_expr(&mut log, &context, &builder, payload, &ValueType::String).unwrap();
    assert!(matches!(string, LlvmValue::String(_)));
    let list = payload_to_expr(&mut log, &context, &builder, payload, &ValueType::List(Box::new(ValueType::Int))).unwrap();
    assert!(matches!(list, LlvmValue::List(_)));
    let err = payload_to_expr(&mut log, &context, &builder, payload, &ValueType::Void).err().unwrap();
    assert_eq!(err, "payload_to_expr doesn't handle Optional or Void");
    let ir = module.print_to_string().to_string();
    assert!(ir.contains("%float_val = bitcast i64 %0 to double"));
    assert!(ir.contains("%bool_val = icmp ne i64 %0, 0"));
    assert!(ir.contains("%string_ptr = inttoptr i64 %0 to i8*"));
    assert!(ir.contains("%list_ptr = inttoptr i64 %0 to i8*"));
}

#[test]
fn tea_values_are_read_back_by_type() {
    let context = Context::create();
    let module = context.create_module("read_back_values");
    let builder = context.create_builder();
    let fn_type = context.void_type().fn_type(&[tea_value_type(&context).into(), context.i64_type().into()], false);
    let function = module.add_function("f", fn_type, None);
    let entry = context.append_basic_block(function, "entry");
    builder.position_at_end(entry);
    let value = function.get_nth_param(0).unwrap();
    let mut log = EmitLog::new();
    let optional = tea_value_to_expr(&mut log, &context, &builder, value, &ValueType::Optional(Box::new(ValueType::Int))).unwrap();
    assert!(matches!(optional, LlvmValue::Optional(v) if v == value));
    let nothing = tea_value_to_expr(&mut log, &context, &builder, value, &ValueType::Void).unwrap();
    assert!(matches!(nothing, LlvmValue::Void));
    let float = tea_value_to_expr(&mut log, &context, &builder, value, &ValueType::Float).unwrap();
    assert!(matches!(float, LlvmValue::Float(_)));
    let ir = module.print_to_string().to_string();
    assert!(ir.contains("%payload = extractvalue { i32, i32, i64 } %0, 2"));
    assert!(ir.contains("%float_val = bitcast i64 %payload to double"));
    let not_a_struct = function.get_nth_param(1).unwrap();
    let err = tea_value_to_expr(&mut log, &context, &builder, not_a_struct, &ValueType::Int).err().unwrap();
    assert_eq!(err, "expected an i64 payload in a TeaValue");
}

#[test]
fn builder_errors_give_their_text() {
    let context = Context::create();
    let builder = context.create_builder();
    let i = context.i64_type().const_int(1, false);
    let mut log = EmitLog::new();
    let err = build_numeric(&mut log, &context, &builder, BinaryOperator::Add, LlvmValue::Int(i), LlvmValue::Int(i)).err().unwrap();
    assert_eq!(err, "Builder position is not set");
    let err = build_numeric_compare(&mut log, &context, &builder, BinaryOperator::Less, LlvmValue::Int(i), LlvmValue::Int(i)).err().unwrap();
    assert_eq!(err, "Builder position is not set");
    let err = payload_to_expr(&mut log, &context, &builder, i, &ValueType::Float).err().unwrap();
    assert_eq!(err, "Builder position is not set");
}

#[test]
fn values_are_converted_to_expected_types() {
    let context = Context::create();
    let module = context.create_module("convert");
    let builder = context.create_builder();
    let mut log = EmitLog::new();
    let types = declare_runtime_types(&mut log, &context);
    let fn_type = context.void_type().fn_type(&[context.i64_type().into()], false);
    let function = module.add_function("f", fn_type, None);
    let entry = context.append_basic_block(function, "entry");
    builder.position_at_end(entry);
    let i = function.get_nth_param(0).unwrap().into_int_value();
    let mut declared = Vec::new();
    let optional_int = ValueType::Optional(Box::new(ValueType::Int));
    let kept = convert_expr_to_type(&mut log, &context, &module, &builder, types.value, &mut declared, LlvmValue::Int(i), &ValueType::Int, &ValueType::Int).unwrap();
    assert!(matches!(kept, LlvmValue::Int(v) if v == i));
    let wrapped = convert_expr_to_type(&mut log, &context, &module, &builder, types.value, &mut declared, LlvmValue::Int(i), &ValueType::Int, &optional_int).unwrap();
    assert!(matches!(wrapped, LlvmValue::Optional(_)));
    let nested = ValueType::Optional(Box::new(ValueType::Optional(Box::new(ValueType::Int))));
    let wrapped_twice = convert_expr_to_type(&mut log, &context, &module, &builder, types.value, &mut declared, LlvmValue::Int(i), &ValueType::Int, &nested).unwrap();
    assert!(matches!(wrapped_twice, LlvmValue::Optional(_)));
    assert!(declared.is_empty());
    let nil = convert_expr_to_type(&mut log, &context, &module, &builder, types.value, &mut declared, LlvmValue::Void, &ValueType::Void, &optional_int).unwrap();
    assert!(matches!(nil, LlvmValue::Optional(_)));
    assert_eq!(declared.len(), 1);
    assert_eq!(declared[0].0, RuntimeFunction::ValueNil);
    let again = optional_nil(&mut log, &context, &module, &builder, types.value, &mut declared).unwrap();
    assert!(matches!(again, LlvmValue::Optional(_)));
    assert_eq!(declared.len(), 1);
    let err = convert_expr_to_type(&mut log, &context, &module, &builder, types.value, &mut declared, LlvmValue::Int(i), &ValueType::Int, &ValueType::Float).err().unwrap();
    assert_eq!(err, "type mismatch: expected Float, found Int");
    let optional_float = ValueType::Optional(Box::new(ValueType::Float));
    let err = convert_expr_to_type(&mut log, &context, &module, &builder, types.value, &mut declared, wrapped, &optional_int, &optional_float).err().unwrap();
    assert_eq!(err, "optional conversion mismatch: expected Float, found Int");
    let ir = module.print_to_string().to_string();
    assert!(ir.contains("%tea_val_int = alloca"));
    assert!(ir.contains("%optional_nil = call"));
    assert!(ir.contains("@tea_value_nil()"));
}

#[test]
fn strings_and_nils_are_compared_with_nil() {
    let context = Context::create();
    let module = context.create_module("nil_equality");
    let builder = context.create_builder();
    let byte_pointer = context.i8_type().ptr_type(inkwell::AddressSpace::default());
    let fn_type = context.void_type().fn_type(&[byte_pointer.into()], false);
    let function = module.add_function("f", fn_type, None);
    let entry = context.append_basic_block(function, "entry");
    builder.position_at_end(entry);
    let s = function.get_nth_param(0).unwrap().into_pointer_value();
    let mut log = EmitLog::new();
    build_null_string_equality(&mut log, &builder, s, true).unwrap();
    build_null_string_equality(&mut log, &builder, s, false).unwrap();
    let ir = module.print_to_string().to_string();
    assert!(ir.contains("%str_is_null = icmp eq i8* %0, null"));
    assert!(ir.contains("%str_not_null = xor i1 %str_is_null1, true"));
    let same = build_nils_equality(&mut log, &context, true);
    assert_eq!(same.get_zero_extended_constant(), Some(1));
    let differ = build_nils_equality(&mut log, &context, false);
    assert_eq!(differ.get_zero_extended_constant(), Some(0));
}
