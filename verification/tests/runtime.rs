use tea_compiler::aot::runtime::{
    runtime_fields, runtime_function_params, runtime_function_result, runtime_function_symbol, runtime_name,
    RuntimeField, RuntimeFunction, RuntimeStruct, RuntimeType,
};

#[test]
fn runtime_struct_names() {
    assert_eq!(runtime_name(RuntimeStruct::TeaString), "TeaString");
    assert_eq!(runtime_name(RuntimeStruct::TeaList), "TeaList");
    assert_eq!(runtime_name(RuntimeStruct::TeaValue), "TeaValue");
    assert_eq!(runtime_name(RuntimeStruct::StructTemplate), "TeaStructTemplate");
    assert_eq!(runtime_name(RuntimeStruct::StructInstance), "TeaStructInstance");
    assert_eq!(runtime_name(RuntimeStruct::ErrorTemplate), "TeaErrorTemplate");
    assert_eq!(runtime_name(RuntimeStruct::Closure), "TeaClosure");
}

#[test]
fn runtime_struct_fields() {
    assert_eq!(
        runtime_fields(RuntimeStruct::TeaString),
        vec![RuntimeField::Byte, RuntimeField::Byte, RuntimeField::Bytes(22)]
    );
    assert_eq!(
        runtime_fields(RuntimeStruct::TeaValue),
        vec![RuntimeField::Word, RuntimeField::Word, RuntimeField::Long]
    );
    assert_eq!(
        runtime_fields(RuntimeStruct::TeaList),
        vec![RuntimeField::Byte, RuntimeField::Byte, RuntimeField::Bytes(6), RuntimeField::Values(8)]
    );
    assert_eq!(
        runtime_fields(RuntimeStruct::ErrorTemplate),
        vec![RuntimeField::Pointer, RuntimeField::Pointer, RuntimeField::Long, RuntimeField::Pointer]
    );
}

/// The C layout size of a runtime struct on a 64-bit target.
fn size(fields: &[RuntimeField]) -> u64 {
    let mut offset: u64 = 0;
    let mut align_max: u64 = 1;
    for f in fields {
        let (size, align) = match f {
            RuntimeField::Byte => (1, 1),
            RuntimeField::Word => (4, 4),
            RuntimeField::Long | RuntimeField::Pointer => (8, 8),
            RuntimeField::Bytes(n) => (*n as u64, 1),
            RuntimeField::Values(n) => (*n as u64 * 16, 8),
        };
        offset = (offset + align - 1) / align * align + size;
        align_max = align_max.max(align);
    }
    (offset + align_max - 1) / align_max * align_max
}

#[test]
fn runtime_sizes_on_a_64_bit_target() {
    assert_eq!(size(&runtime_fields(RuntimeStruct::TeaValue)), 16);
    assert_eq!(size(&runtime_fields(RuntimeStruct::TeaString)), 24);
    assert_eq!(size(&runtime_fields(RuntimeStruct::TeaList)), 136);
}

#[test]
fn runtime_function_signatures() {
    assert_eq!(runtime_function_symbol(RuntimeFunction::AllocList), "tea_alloc_list");
    assert_eq!(runtime_function_result(RuntimeFunction::AllocList), Some(RuntimeType::Pointer));
    assert_eq!(runtime_function_params(RuntimeFunction::AllocList), vec![RuntimeType::Int]);
    assert_eq!(runtime_function_symbol(RuntimeFunction::StructSet), "tea_struct_set_field");
    assert_eq!(runtime_function_result(RuntimeFunction::StructSet), None);
    assert_eq!(
        runtime_function_params(RuntimeFunction::StructSet),
        vec![RuntimeType::Pointer, RuntimeType::Int, RuntimeType::Pointer]
    );
    assert_eq!(runtime_function_symbol(RuntimeFunction::Memcpy), "memcpy");
    assert_eq!(runtime_function_symbol(RuntimeFunction::ClosureGet), "tea_closure_get_capture");
    assert_eq!(runtime_function_result(RuntimeFunction::ClosureGet), Some(RuntimeType::Value));
    assert_eq!(runtime_function_result(RuntimeFunction::ClosureEqual), Some(RuntimeType::Word));
    assert_eq!(runtime_function_symbol(RuntimeFunction::Fmax), "fmax");
    assert_eq!(runtime_function_params(RuntimeFunction::Fmax), vec![RuntimeType::Float, RuntimeType::Float]);
    assert_eq!(
        runtime_function_params(RuntimeFunction::StringSlice),
        vec![RuntimeType::Pointer, RuntimeType::Int, RuntimeType::Int, RuntimeType::Bool]
    );
}
