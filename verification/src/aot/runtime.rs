//! What the generated code shares with the Tea runtime: the struct types,
//! with their names and field layouts and the sizes those layouts take on
//! a 64-bit target under the C layout rules, and the runtime functions it
//! calls, with their symbols and signatures.
use vstd::prelude::*;

verus! {

/// A struct type of the runtime.
#[derive(Debug, Clone, Copy, PartialEq, Eq, Structural)]
pub enum RuntimeStruct {
    /// A string with room for short strings inline.
    TeaString,
    /// A list with room for a few values inline.
    TeaList,
    /// A tagged value.
    TeaValue,
    StructTemplate,
    StructInstance,
    ErrorTemplate,
    Closure,
}

/// A field of a runtime struct.
#[derive(Debug, Clone, Copy, PartialEq, Eq, Structural)]
pub enum RuntimeField {
    /// `i8`.
    Byte,
    /// `i32`.
    Word,
    /// `i64`.
    Long,
    /// A pointer.
    Pointer,
    /// An array of `i8` of the given length.
    Bytes(u32),
    /// An array of `TeaValue` of the given length.
    Values(u32),
}

/// The runtime structs, in the order the emitter declares them.
pub open spec fn runtime_structs() -> Seq<RuntimeStruct> {
    seq![
        RuntimeStruct::TeaString,
        RuntimeStruct::TeaList,
        RuntimeStruct::TeaValue,
        RuntimeStruct::StructTemplate,
        RuntimeStruct::StructInstance,
        RuntimeStruct::ErrorTemplate,
        RuntimeStruct::Closure,
    ]
}

/// The LLVM name of a runtime struct.
pub open spec fn runtime_struct_name(s: RuntimeStruct) -> Seq<char> {
    match s {
        RuntimeStruct::TeaString => "TeaString"@,
        RuntimeStruct::TeaList => "TeaList"@,
        RuntimeStruct::TeaValue => "TeaValue"@,
        RuntimeStruct::StructTemplate => "TeaStructTemplate"@,
        RuntimeStruct::StructInstance => "TeaStructInstance"@,
        RuntimeStruct::ErrorTemplate => "TeaErrorTemplate"@,
        RuntimeStruct::Closure => "TeaClosure"@,
    }
}

/// The fields of a runtime struct: a string is a tag byte, a length byte
/// and 22 bytes of inline data (or the heap pointer); a value is a 32-bit
/// tag, 32 bits of padding and a 64-bit payload; a list is a tag byte, a
/// length byte, 6 bytes of padding and 8 inline values (or the heap
/// storage); templates, instances and closures are pointers and counts.
pub open spec fn runtime_layout(s: RuntimeStruct) -> Seq<RuntimeField> {
    match s {
        RuntimeStruct::TeaString => seq![RuntimeField::Byte, RuntimeField::Byte, RuntimeField::Bytes(22)],
        RuntimeStruct::TeaList => seq![
            RuntimeField::Byte,
            RuntimeField::Byte,
            RuntimeField::Bytes(6),
            RuntimeField::Values(8),
        ],
        RuntimeStruct::TeaValue => seq![RuntimeField::Word, RuntimeField::Word, RuntimeField::Long],
        RuntimeStruct::StructTemplate => seq![
            RuntimeField::Pointer,
            RuntimeField::Long,
            RuntimeField::Pointer,
        ],
        RuntimeStruct::StructInstance => seq![RuntimeField::Pointer, RuntimeField::Pointer],
        RuntimeStruct::ErrorTemplate => seq![
            RuntimeField::Pointer,
            RuntimeField::Pointer,
            RuntimeField::Long,
            RuntimeField::Pointer,
        ],
        RuntimeStruct::Closure => seq![RuntimeField::Pointer, RuntimeField::Pointer, RuntimeField::Long],
    }
}

/// The LLVM name of a runtime struct (see [`runtime_struct_name`]).
pub fn runtime_name(s: RuntimeStruct) -> (r: String)
    ensures
        r@ == runtime_struct_name(s),
{
    let name = match s {
        RuntimeStruct::TeaString => "TeaString",
        RuntimeStruct::TeaList => "TeaList",
        RuntimeStruct::TeaValue => "TeaValue",
        RuntimeStruct::StructTemplate => "TeaStructTemplate",
        RuntimeStruct::StructInstance => "TeaStructInstance",
        RuntimeStruct::ErrorTemplate => "TeaErrorTemplate",
        RuntimeStruct::Closure => "TeaClosure",
    };
    proof {
        reveal_strlit("TeaString");
        reveal_strlit("TeaList");
        reveal_strlit("TeaValue");
        reveal_strlit("TeaStructTemplate");
        reveal_strlit("TeaStructInstance");
        reveal_strlit("TeaErrorTemplate");
        reveal_strlit("TeaClosure");
    }
    String::from_str(name)
}

/// The fields of a runtime struct (see [`runtime_layout`]).
pub fn runtime_fields(s: RuntimeStruct) -> (r: Vec<RuntimeField>)
    ensures
        r@ == runtime_layout(s),
{
    let r = match s {
        RuntimeStruct::TeaString => vec![RuntimeField::Byte, RuntimeField::Byte, RuntimeField::Bytes(22)],
        RuntimeStruct::TeaList => vec![
            RuntimeField::Byte,
            RuntimeField::Byte,
            RuntimeField::Bytes(6),
            RuntimeField::Values(8),
        ],
        RuntimeStruct::TeaValue => vec![RuntimeField::Word, RuntimeField::Word, RuntimeField::Long],
        RuntimeStruct::StructTemplate => vec![
            RuntimeField::Pointer,
            RuntimeField::Long,
            RuntimeField::Pointer,
        ],
        RuntimeStruct::StructInstance => vec![RuntimeField::Pointer, RuntimeField::Pointer],
        RuntimeStruct::ErrorTemplate => vec![
            RuntimeField::Pointer,
            RuntimeField::Pointer,
            RuntimeField::Long,
            RuntimeField::Pointer,
        ],
        RuntimeStruct::Closure => vec![RuntimeField::Pointer, RuntimeField::Pointer, RuntimeField::Long],
    };
    proof {
        assert(r@ =~= runtime_layout(s));
    }
    r
}

/// The size in bytes of a `TeaValue` on a 64-bit target.
pub open spec fn value_size() -> nat {
    16
}

/// The size in bytes of a field on a 64-bit target.
pub open spec fn field_size(f: RuntimeField) -> nat {
    match f {
        RuntimeField::Byte => 1,
        RuntimeField::Word => 4,
        RuntimeField::Long => 8,
        RuntimeField::Pointer => 8,
        RuntimeField::Bytes(n) => n as nat,
        RuntimeField::Values(n) => n as nat * value_size(),
    }
}

/// The alignment in bytes of a field on a 64-bit target.
pub open spec fn field_align(f: RuntimeField) -> nat {
    match f {
        RuntimeField::Byte => 1,
        RuntimeField::Word => 4,
        RuntimeField::Long => 8,
        RuntimeField::Pointer => 8,
        RuntimeField::Bytes(_) => 1,
        RuntimeField::Values(_) => 8,
    }
}

/// `offset` rounded up to a multiple of `align` (which is positive).
pub open spec fn round_up(offset: nat, align: nat) -> nat
    recommends
        align > 0,
{
    if offset % align == 0 {
        offset
    } else {
        (offset + (align - offset % align)) as nat
    }
}

/// The end of the last field when `fields` are laid out from `offset` on,
/// each at the next multiple of its alignment.
pub open spec fn fields_end(fields: Seq<RuntimeField>, offset: nat) -> nat
    decreases fields.len(),
{
    if fields.len() == 0 {
        offset
    } else {
        fields_end(fields.drop_first(), round_up(offset, field_align(fields[0])) + field_size(fields[0]))
    }
}

/// The largest alignment among `fields` (1 for none).
pub open spec fn max_align(fields: Seq<RuntimeField>) -> nat
    decreases fields.len(),
{
    if fields.len() == 0 {
        1
    } else {
        let rest = max_align(fields.drop_first());
        if field_align(fields[0]) > rest {
            field_align(fields[0])
        } else {
            rest
        }
    }
}

/// The size of a struct with these fields under the C layout rules: the
/// end of its last field, rounded up to its alignment.
pub open spec fn layout_size(fields: Seq<RuntimeField>) -> nat {
    round_up(fields_end(fields, 0), max_align(fields))
}

/// A `TeaValue` takes 16 bytes (which is what the inline values of a list
/// take each), a `TeaString` 24 and a `TeaList` 136.
pub proof fn lemma_runtime_sizes()
    ensures
        layout_size(runtime_layout(RuntimeStruct::TeaValue)) == value_size(),
        layout_size(runtime_layout(RuntimeStruct::TeaString)) == 24,
        layout_size(runtime_layout(RuntimeStruct::TeaList)) == 136,
{
    reveal_with_fuel(fields_end, 5);
    reveal_with_fuel(max_align, 5);
    let v = runtime_layout(RuntimeStruct::TeaValue);
    assert(v.drop_first() =~= seq![RuntimeField::Word, RuntimeField::Long]);
    assert(v.drop_first().drop_first() =~= seq![RuntimeField::Long]);
    assert(v.drop_first().drop_first().drop_first() =~= Seq::<RuntimeField>::empty());
    assert(fields_end(v.drop_first().drop_first().drop_first(), 16) == 16);
    assert(round_up(8, 8) == 8);
    assert(round_up(4, 4) == 4);
    assert(round_up(0, 4) == 0);
    assert(fields_end(v.drop_first().drop_first(), 8) == 16);
    assert(fields_end(v.drop_first(), 4) == 16);
    assert(fields_end(v, 0) == 16);
    assert(max_align(v) == 8);
    let s = runtime_layout(RuntimeStruct::TeaString);
    assert(s.drop_first() =~= seq![RuntimeField::Byte, RuntimeField::Bytes(22)]);
    assert(s.drop_first().drop_first() =~= seq![RuntimeField::Bytes(22)]);
    assert(s.drop_first().drop_first().drop_first() =~= Seq::<RuntimeField>::empty());
    assert(fields_end(s.drop_first().drop_first(), 2) == 24);
    assert(fields_end(s.drop_first(), 1) == 24);
    assert(fields_end(s, 0) == 24);
    assert(max_align(s) == 1);
    let l = runtime_layout(RuntimeStruct::TeaList);
    assert(l.drop_first() =~= seq![RuntimeField::Byte, RuntimeField::Bytes(6), RuntimeField::Values(8)]);
    assert(l.drop_first().drop_first() =~= seq![RuntimeField::Bytes(6), RuntimeField::Values(8)]);
    assert(l.drop_first().drop_first().drop_first() =~= seq![RuntimeField::Values(8)]);
    assert(l.drop_first().drop_first().drop_first().drop_first() =~= Seq::<RuntimeField>::empty());
    assert(fields_end(l.drop_first().drop_first().drop_first(), 8) == 136);
    assert(fields_end(l.drop_first().drop_first(), 2) == 136);
    assert(fields_end(l.drop_first(), 1) == 136);
    assert(fields_end(l, 0) == 136);
    assert(max_align(l) == 8);
}

/// The runtime structs have distinct names.
pub proof fn lemma_runtime_names_distinct(a: RuntimeStruct, b: RuntimeStruct)
    requires
        a != b,
    ensures
        runtime_struct_name(a) != runtime_struct_name(b),
{
    reveal_strlit("TeaString");
    reveal_strlit("TeaList");
    reveal_strlit("TeaValue");
    reveal_strlit("TeaStructTemplate");
    reveal_strlit("TeaStructInstance");
    reveal_strlit("TeaErrorTemplate");
    reveal_strlit("TeaClosure");
    let x = runtime_struct_name(a);
    let y = runtime_struct_name(b);
    assert(x.len() != y.len() || x[9] != y[9]);
}

/// The machine type of a parameter or result of a runtime function: a
/// 64-bit integer, a double, a boolean (`i1`), a 32-bit integer, a
/// pointer, or a tagged `TeaValue`.
#[derive(Debug, Clone, Copy, PartialEq, Eq, Structural)]
pub enum RuntimeType {
    Int,
    Float,
    Bool,
    Word,
    Pointer,
    Value,
}

/// A function of the runtime (or of the C library) that generated code
/// calls; each is declared in a module the first time it is needed.
#[derive(Debug, Clone, Copy, PartialEq, Eq, Structural)]
pub enum RuntimeFunction {
    ListLenFfi,
    DictKeys,
    DictValues,
    DictEntries,
    TypeOf,
    Panic,
    Exit,
    DictDelete,
    DictClear,
    Fmax,
    Fmin,
    ListAppend,
    Assert,
    AssertEq,
    AssertNe,
    Fail,
    UtilLen,
    UtilToString,
    Malloc,
    Memcpy,
    UtilClampInt,
    EnvGet,
    EnvGetOr,
    EnvHas,
    EnvRequire,
    EnvSet,
    EnvUnset,
    EnvVars,
    PathAbsolute,
    FsWriteText,
    FsWriteTextAtomic,
    FsWriteBytes,
    FsWriteBytesAtomic,
    FsCreateDir,
    FsIsReadonly,
    FsMetadata,
    FsOpenRead,
    FsReadChunk,
    FsClose,
    AllocString,
    StringConcat,
    StringPushStr,
    AllocList,
    AllocStruct,
    ListSet,
    StructSet,
    ListGet,
    StringIndex,
    ListConcat,
    StringSlice,
    ListSlice,
    DictNew,
    DictSet,
    DictGet,
    DictEqual,
    StructGet,
    ErrorAlloc,
    ErrorSet,
    ErrorGet,
    ErrorCurrent,
    ErrorSetCurrent,
    ErrorClearCurrent,
    ErrorGetTemplate,
    ValueFromInt,
    ValueFromFloat,
    ValueFromBool,
    ValueFromString,
    ValueFromList,
    ValueFromDict,
    ValueFromStruct,
    ValueFromError,
    ValueFromClosure,
    ValueNil,
    ValueAsInt,
    ValueAsFloat,
    ValueAsBool,
    ValueAsString,
    ValueAsList,
    ValueAsDict,
    ValueAsStruct,
    ValueAsError,
    ValueAsClosure,
    StringEqual,
    ListEqual,
    StructEqual,
    ClosureNew,
    ClosureSet,
    ClosureGet,
    ClosureEqual,
    IoReadLine,
    IoReadAll,
    IoReadBytes,
    IoWrite,
    IoWriteErr,
    IoFlush,
    CliArgs,
    ArgsProgram,
    RegexCompile,
    RegexIsMatch,
    RegexFindAll,
    RegexCaptures,
    RegexReplace,
    RegexReplaceAll,
    RegexSplit,
    ReadLine,
    ReadAll,
    IsTty,
    CliParse,
    ProcessRun,
    ProcessSpawn,
    ProcessWait,
    ProcessKill,
    ProcessReadStdout,
    ProcessReadStderr,
    ProcessWriteStdin,
    ProcessCloseStdin,
    ProcessClose,
    JsonEncode,
    JsonDecode,
}

/// The symbol a runtime function is declared under.
pub open spec fn runtime_symbol(f: RuntimeFunction) -> Seq<char> {
    match f {
        RuntimeFunction::ListLenFfi => "tea_list_len_ffi"@,
        RuntimeFunction::DictKeys => "tea_dict_keys"@,
        RuntimeFunction::DictValues => "tea_dict_values"@,
        RuntimeFunction::DictEntries => "tea_dict_entries"@,
        RuntimeFunction::TypeOf => "tea_type_of"@,
        RuntimeFunction::Panic => "tea_panic"@,
        RuntimeFunction::Exit => "tea_exit"@,
        RuntimeFunction::DictDelete => "tea_dict_delete"@,
        RuntimeFunction::DictClear => "tea_dict_clear"@,
        RuntimeFunction::Fmax => "fmax"@,
        RuntimeFunction::Fmin => "fmin"@,
        RuntimeFunction::ListAppend => "tea_list_append"@,
        RuntimeFunction::Assert => "tea_assert"@,
        RuntimeFunction::AssertEq => "tea_assert_eq"@,
        RuntimeFunction::AssertNe => "tea_assert_ne"@,
        RuntimeFunction::Fail => "tea_fail"@,
        RuntimeFunction::UtilLen => "tea_util_len"@,
        RuntimeFunction::UtilToString => "tea_util_to_string"@,
        RuntimeFunction::Malloc => "malloc"@,
        RuntimeFunction::Memcpy => "memcpy"@,
        RuntimeFunction::UtilClampInt => "tea_util_clamp_int"@,
        RuntimeFunction::EnvGet => "tea_env_get"@,
        RuntimeFunction::EnvGetOr => "tea_env_get_or"@,
        RuntimeFunction::EnvHas => "tea_env_has"@,
        RuntimeFunction::EnvRequire => "tea_env_require"@,
        RuntimeFunction::EnvSet => "tea_env_set"@,
        RuntimeFunction::EnvUnset => "tea_env_unset"@,
        RuntimeFunction::EnvVars => "tea_env_vars"@,
        RuntimeFunction::PathAbsolute => "tea_path_absolute"@,
        RuntimeFunction::FsWriteText => "tea_fs_write_text"@,
        RuntimeFunction::FsWriteTextAtomic => "tea_fs_write_text_atomic"@,
        RuntimeFunction::FsWriteBytes => "tea_fs_write_bytes"@,
        RuntimeFunction::FsWriteBytesAtomic => "tea_fs_write_bytes_atomic"@,
        RuntimeFunction::FsCreateDir => "tea_fs_create_dir"@,
        RuntimeFunction::FsIsReadonly => "tea_fs_is_readonly"@,
        RuntimeFunction::FsMetadata => "tea_fs_metadata"@,
        RuntimeFunction::FsOpenRead => "tea_fs_open_read"@,
        RuntimeFunction::FsReadChunk => "tea_fs_read_chunk"@,
        RuntimeFunction::FsClose => "tea_fs_close"@,
        RuntimeFunction::AllocString => "tea_alloc_string"@,
        RuntimeFunction::StringConcat => "tea_string_concat"@,
        RuntimeFunction::StringPushStr => "tea_string_push_str"@,
        RuntimeFunction::AllocList => "tea_alloc_list"@,
        RuntimeFunction::AllocStruct => "tea_alloc_struct"@,
        RuntimeFunction::ListSet => "tea_list_set"@,
        RuntimeFunction::StructSet => "tea_struct_set_field"@,
        RuntimeFunction::ListGet => "tea_list_get"@,
        RuntimeFunction::StringIndex => "tea_string_index"@,
        RuntimeFunction::ListConcat => "tea_list_concat"@,
        RuntimeFunction::StringSlice => "tea_string_slice"@,
        RuntimeFunction::ListSlice => "tea_list_slice"@,
        RuntimeFunction::DictNew => "tea_dict_new"@,
        RuntimeFunction::DictSet => "tea_dict_set"@,
        RuntimeFunction::DictGet => "tea_dict_get"@,
        RuntimeFunction::DictEqual => "tea_dict_equal"@,
        RuntimeFunction::StructGet => "tea_struct_get_field"@,
        RuntimeFunction::ErrorAlloc => "tea_alloc_error"@,
        RuntimeFunction::ErrorSet => "tea_error_set_field"@,
        RuntimeFunction::ErrorGet => "tea_error_get_field"@,
        RuntimeFunction::ErrorCurrent => "tea_error_current"@,
        RuntimeFunction::ErrorSetCurrent => "tea_error_set_current"@,
        RuntimeFunction::ErrorClearCurrent => "tea_error_clear_current"@,
        RuntimeFunction::ErrorGetTemplate => "tea_error_get_template"@,
        RuntimeFunction::ValueFromInt => "tea_value_from_int"@,
        RuntimeFunction::ValueFromFloat => "tea_value_from_float"@,
        RuntimeFunction::ValueFromBool => "tea_value_from_bool"@,
        RuntimeFunction::ValueFromString => "tea_value_from_string"@,
        RuntimeFunction::ValueFromList => "tea_value_from_list"@,
        RuntimeFunction::ValueFromDict => "tea_value_from_dict"@,
        RuntimeFunction::ValueFromStruct => "tea_value_from_struct"@,
        RuntimeFunction::ValueFromError => "tea_value_from_error"@,
        RuntimeFunction::ValueFromClosure => "tea_value_from_closure"@,
        RuntimeFunction::ValueNil => "tea_value_nil"@,
        RuntimeFunction::ValueAsInt => "tea_value_as_int"@,
        RuntimeFunction::ValueAsFloat => "tea_value_as_float"@,
        RuntimeFunction::ValueAsBool => "tea_value_as_bool"@,
        RuntimeFunction::ValueAsString => "tea_value_as_string"@,
        RuntimeFunction::ValueAsList => "tea_value_as_list"@,
        RuntimeFunction::ValueAsDict => "tea_value_as_dict"@,
        RuntimeFunction::ValueAsStruct => "tea_value_as_struct"@,
        RuntimeFunction::ValueAsError => "tea_value_as_error"@,
        RuntimeFunction::ValueAsClosure => "tea_value_as_closure"@,
        RuntimeFunction::StringEqual => "tea_string_equal"@,
        RuntimeFunction::ListEqual => "tea_list_equal"@,
        RuntimeFunction::StructEqual => "tea_struct_equal"@,
        RuntimeFunction::ClosureNew => "tea_closure_new"@,
        RuntimeFunction::ClosureSet => "tea_closure_set_capture"@,
        RuntimeFunction::ClosureGet => "tea_closure_get_capture"@,
        RuntimeFunction::ClosureEqual => "tea_closure_equal"@,
        RuntimeFunction::IoReadLine => "tea_io_read_line"@,
        RuntimeFunction::IoReadAll => "tea_io_read_all"@,
        RuntimeFunction::IoReadBytes => "tea_io_read_bytes"@,
        RuntimeFunction::IoWrite => "tea_io_write"@,
        RuntimeFunction::IoWriteErr => "tea_io_write_err"@,
        RuntimeFunction::IoFlush => "tea_io_flush"@,
        RuntimeFunction::CliArgs => "tea_cli_args"@,
        RuntimeFunction::ArgsProgram => "tea_args_program"@,
        RuntimeFunction::RegexCompile => "tea_regex_compile"@,
        RuntimeFunction::RegexIsMatch => "tea_regex_is_match"@,
        RuntimeFunction::RegexFindAll => "tea_regex_find_all"@,
        RuntimeFunction::RegexCaptures => "tea_regex_captures"@,
        RuntimeFunction::RegexReplace => "tea_regex_replace"@,
        RuntimeFunction::RegexReplaceAll => "tea_regex_replace_all"@,
        RuntimeFunction::RegexSplit => "tea_regex_split"@,
        RuntimeFunction::ReadLine => "tea_read_line"@,
        RuntimeFunction::ReadAll => "tea_read_all"@,
        RuntimeFunction::IsTty => "tea_is_tty"@,
        RuntimeFunction::CliParse => "tea_cli_parse"@,
        RuntimeFunction::ProcessRun => "tea_process_run"@,
        RuntimeFunction::ProcessSpawn => "tea_process_spawn"@,
        RuntimeFunction::ProcessWait => "tea_process_wait"@,
        RuntimeFunction::ProcessKill => "tea_process_kill"@,
        RuntimeFunction::ProcessReadStdout => "tea_process_read_stdout"@,
        RuntimeFunction::ProcessReadStderr => "tea_process_read_stderr"@,
        RuntimeFunction::ProcessWriteStdin => "tea_process_write_stdin"@,
        RuntimeFunction::ProcessCloseStdin => "tea_process_close_stdin"@,
        RuntimeFunction::ProcessClose => "tea_process_close"@,
        RuntimeFunction::JsonEncode => "tea_json_encode"@,
        RuntimeFunction::JsonDecode => "tea_json_decode"@,
    }
}

/// The result type of a runtime function (`None`: it returns nothing).
pub open spec fn runtime_result(f: RuntimeFunction) -> Option<RuntimeType> {
    match f {
        RuntimeFunction::ListLenFfi => Some(RuntimeType::Int),
        RuntimeFunction::DictKeys => Some(RuntimeType::Pointer),
        RuntimeFunction::DictValues => Some(RuntimeType::Pointer),
        RuntimeFunction::DictEntries => Some(RuntimeType::Pointer),
        RuntimeFunction::TypeOf => Some(RuntimeType::Pointer),
        RuntimeFunction::Panic => None,
        RuntimeFunction::Exit => None,
        RuntimeFunction::DictDelete => Some(RuntimeType::Pointer),
        RuntimeFunction::DictClear => Some(RuntimeType::Pointer),
        RuntimeFunction::Fmax => Some(RuntimeType::Float),
        RuntimeFunction::Fmin => Some(RuntimeType::Float),
        RuntimeFunction::ListAppend => Some(RuntimeType::Pointer),
        RuntimeFunction::Assert => None,
        RuntimeFunction::AssertEq => None,
        RuntimeFunction::AssertNe => None,
        RuntimeFunction::Fail => None,
        RuntimeFunction::UtilLen => Some(RuntimeType::Int),
        RuntimeFunction::UtilToString => Some(RuntimeType::Pointer),
        RuntimeFunction::Malloc => Some(RuntimeType::Pointer),
        RuntimeFunction::Memcpy => None,
        RuntimeFunction::UtilClampInt => Some(RuntimeType::Int),
        RuntimeFunction::EnvGet => Some(RuntimeType::Pointer),
        RuntimeFunction::EnvGetOr => Some(RuntimeType::Pointer),
        RuntimeFunction::EnvHas => Some(RuntimeType::Word),
        RuntimeFunction::EnvRequire => Some(RuntimeType::Pointer),
        RuntimeFunction::EnvSet => None,
        RuntimeFunction::EnvUnset => None,
        RuntimeFunction::EnvVars => Some(RuntimeType::Value),
        RuntimeFunction::PathAbsolute => Some(RuntimeType::Pointer),
        RuntimeFunction::FsWriteText => None,
        RuntimeFunction::FsWriteTextAtomic => None,
        RuntimeFunction::FsWriteBytes => None,
        RuntimeFunction::FsWriteBytesAtomic => None,
        RuntimeFunction::FsCreateDir => None,
        RuntimeFunction::FsIsReadonly => Some(RuntimeType::Word),
        RuntimeFunction::FsMetadata => Some(RuntimeType::Value),
        RuntimeFunction::FsOpenRead => Some(RuntimeType::Int),
        RuntimeFunction::FsReadChunk => Some(RuntimeType::Pointer),
        RuntimeFunction::FsClose => None,
        RuntimeFunction::AllocString => Some(RuntimeType::Pointer),
        RuntimeFunction::StringConcat => Some(RuntimeType::Pointer),
        RuntimeFunction::StringPushStr => Some(RuntimeType::Pointer),
        RuntimeFunction::AllocList => Some(RuntimeType::Pointer),
        RuntimeFunction::AllocStruct => Some(RuntimeType::Pointer),
        RuntimeFunction::ListSet => None,
        RuntimeFunction::StructSet => None,
        RuntimeFunction::ListGet => Some(RuntimeType::Value),
        RuntimeFunction::StringIndex => Some(RuntimeType::Pointer),
        RuntimeFunction::ListConcat => Some(RuntimeType::Pointer),
        RuntimeFunction::StringSlice => Some(RuntimeType::Pointer),
        RuntimeFunction::ListSlice => Some(RuntimeType::Pointer),
        RuntimeFunction::DictNew => Some(RuntimeType::Pointer),
        RuntimeFunction::DictSet => None,
        RuntimeFunction::DictGet => Some(RuntimeType::Value),
        RuntimeFunction::DictEqual => Some(RuntimeType::Word),
        RuntimeFunction::StructGet => None,
        RuntimeFunction::ErrorAlloc => Some(RuntimeType::Pointer),
        RuntimeFunction::ErrorSet => None,
        RuntimeFunction::ErrorGet => None,
        RuntimeFunction::ErrorCurrent => Some(RuntimeType::Pointer),
        RuntimeFunction::ErrorSetCurrent => None,
        RuntimeFunction::ErrorClearCurrent => None,
        RuntimeFunction::ErrorGetTemplate => Some(RuntimeType::Pointer),
        RuntimeFunction::ValueFromInt => Some(RuntimeType::Value),
        RuntimeFunction::ValueFromFloat => Some(RuntimeType::Value),
        RuntimeFunction::ValueFromBool => Some(RuntimeType::Value),
        RuntimeFunction::ValueFromString => Some(RuntimeType::Value),
        RuntimeFunction::ValueFromList => Some(RuntimeType::Value),
        RuntimeFunction::ValueFromDict => Some(RuntimeType::Value),
        RuntimeFunction::ValueFromStruct => Some(RuntimeType::Value),
        RuntimeFunction::ValueFromError => Some(RuntimeType::Value),
        RuntimeFunction::ValueFromClosure => Some(RuntimeType::Value),
        RuntimeFunction::ValueNil => Some(RuntimeType::Value),
        RuntimeFunction::ValueAsInt => Some(RuntimeType::Int),
        RuntimeFunction::ValueAsFloat => Some(RuntimeType::Float),
        RuntimeFunction::ValueAsBool => Some(RuntimeType::Word),
        RuntimeFunction::ValueAsString => Some(RuntimeType::Pointer),
        RuntimeFunction::ValueAsList => Some(RuntimeType::Pointer),
        RuntimeFunction::ValueAsDict => Some(RuntimeType::Pointer),
        RuntimeFunction::ValueAsStruct => Some(RuntimeType::Pointer),
        RuntimeFunction::ValueAsError => Some(RuntimeType::Pointer),
        RuntimeFunction::ValueAsClosure => Some(RuntimeType::Pointer),
        RuntimeFunction::StringEqual => Some(RuntimeType::Word),
        RuntimeFunction::ListEqual => Some(RuntimeType::Word),
        RuntimeFunction::StructEqual => Some(RuntimeType::Word),
        RuntimeFunction::ClosureNew => Some(RuntimeType::Pointer),
        RuntimeFunction::ClosureSet => None,
        RuntimeFunction::ClosureGet => Some(RuntimeType::Value),
        RuntimeFunction::ClosureEqual => Some(RuntimeType::Word),
        RuntimeFunction::IoReadLine => Some(RuntimeType::Value),
        RuntimeFunction::IoReadAll => Some(RuntimeType::Pointer),
        RuntimeFunction::IoReadBytes => Some(RuntimeType::Pointer),
        RuntimeFunction::IoWrite => None,
        RuntimeFunction::IoWriteErr => None,
        RuntimeFunction::IoFlush => None,
        RuntimeFunction::CliArgs => Some(RuntimeType::Pointer),
        RuntimeFunction::ArgsProgram => Some(RuntimeType::Pointer),
        RuntimeFunction::RegexCompile => Some(RuntimeType::Int),
        RuntimeFunction::RegexIsMatch => Some(RuntimeType::Word),
        RuntimeFunction::RegexFindAll => Some(RuntimeType::Pointer),
        RuntimeFunction::RegexCaptures => Some(RuntimeType::Pointer),
        RuntimeFunction::RegexReplace => Some(RuntimeType::Pointer),
        RuntimeFunction::RegexReplaceAll => Some(RuntimeType::Pointer),
        RuntimeFunction::RegexSplit => Some(RuntimeType::Pointer),
        RuntimeFunction::ReadLine => Some(RuntimeType::Pointer),
        RuntimeFunction::ReadAll => Some(RuntimeType::Pointer),
        RuntimeFunction::IsTty => Some(RuntimeType::Word),
        RuntimeFunction::CliParse => Some(RuntimeType::Pointer),
        RuntimeFunction::ProcessRun => Some(RuntimeType::Pointer),
        RuntimeFunction::ProcessSpawn => Some(RuntimeType::Int),
        RuntimeFunction::ProcessWait => Some(RuntimeType::Pointer),
        RuntimeFunction::ProcessKill => Some(RuntimeType::Word),
        RuntimeFunction::ProcessReadStdout => Some(RuntimeType::Pointer),
        RuntimeFunction::ProcessReadStderr => Some(RuntimeType::Pointer),
        RuntimeFunction::ProcessWriteStdin => None,
        RuntimeFunction::ProcessCloseStdin => None,
        RuntimeFunction::ProcessClose => None,
        RuntimeFunction::JsonEncode => Some(RuntimeType::Pointer),
        RuntimeFunction::JsonDecode => Some(RuntimeType::Value),
    }
}

/// The parameter types of a runtime function.
pub open spec fn runtime_params(f: RuntimeFunction) -> Seq<RuntimeType> {
    match f {
        RuntimeFunction::ListLenFfi => seq![RuntimeType::Pointer],
        RuntimeFunction::DictKeys => seq![RuntimeType::Pointer],
        RuntimeFunction::DictValues => seq![RuntimeType::Pointer],
        RuntimeFunction::DictEntries => seq![RuntimeType::Pointer],
        RuntimeFunction::TypeOf => seq![RuntimeType::Value],
        RuntimeFunction::Panic => seq![RuntimeType::Pointer],
        RuntimeFunction::Exit => seq![RuntimeType::Int],
        RuntimeFunction::DictDelete => seq![RuntimeType::Pointer, RuntimeType::Pointer],
        RuntimeFunction::DictClear => seq![RuntimeType::Pointer],
        RuntimeFunction::Fmax => seq![RuntimeType::Float, RuntimeType::Float],
        RuntimeFunction::Fmin => seq![RuntimeType::Float, RuntimeType::Float],
        RuntimeFunction::ListAppend => seq![RuntimeType::Pointer, RuntimeType::Value],
        RuntimeFunction::Assert => seq![RuntimeType::Word, RuntimeType::Pointer],
        RuntimeFunction::AssertEq => seq![RuntimeType::Pointer, RuntimeType::Pointer],
        RuntimeFunction::AssertNe => seq![RuntimeType::Pointer, RuntimeType::Pointer],
        RuntimeFunction::Fail => seq![RuntimeType::Pointer],
        RuntimeFunction::UtilLen => seq![RuntimeType::Value],
        RuntimeFunction::UtilToString => seq![RuntimeType::Pointer],
        RuntimeFunction::Malloc => seq![RuntimeType::Int],
        RuntimeFunction::Memcpy => seq![RuntimeType::Pointer, RuntimeType::Pointer, RuntimeType::Int],
        RuntimeFunction::UtilClampInt => seq![RuntimeType::Int, RuntimeType::Int, RuntimeType::Int],
        RuntimeFunction::EnvGet => seq![RuntimeType::Pointer],
        RuntimeFunction::EnvGetOr => seq![RuntimeType::Pointer, RuntimeType::Pointer],
        RuntimeFunction::EnvHas => seq![RuntimeType::Pointer],
        RuntimeFunction::EnvRequire => seq![RuntimeType::Pointer],
        RuntimeFunction::EnvSet => seq![RuntimeType::Pointer, RuntimeType::Pointer],
        RuntimeFunction::EnvUnset => seq![RuntimeType::Pointer],
        RuntimeFunction::EnvVars => seq![],
        RuntimeFunction::PathAbsolute => seq![RuntimeType::Pointer, RuntimeType::Pointer, RuntimeType::Word],
        RuntimeFunction::FsWriteText => seq![RuntimeType::Pointer, RuntimeType::Pointer],
        RuntimeFunction::FsWriteTextAtomic => seq![RuntimeType::Pointer, RuntimeType::Pointer],
        RuntimeFunction::FsWriteBytes => seq![RuntimeType::Pointer, RuntimeType::Pointer],
        RuntimeFunction::FsWriteBytesAtomic => seq![RuntimeType::Pointer, RuntimeType::Pointer],
        RuntimeFunction::FsCreateDir => seq![RuntimeType::Pointer, RuntimeType::Word],
        RuntimeFunction::FsIsReadonly => seq![RuntimeType::Pointer],
        RuntimeFunction::FsMetadata => seq![RuntimeType::Pointer],
        RuntimeFunction::FsOpenRead => seq![RuntimeType::Pointer],
        RuntimeFunction::FsReadChunk => seq![RuntimeType::Int, RuntimeType::Int],
        RuntimeFunction::FsClose => seq![RuntimeType::Int],
        RuntimeFunction::AllocString => seq![RuntimeType::Pointer, RuntimeType::Int],
        RuntimeFunction::StringConcat => seq![RuntimeType::Pointer, RuntimeType::Pointer],
        RuntimeFunction::StringPushStr => seq![RuntimeType::Pointer, RuntimeType::Pointer],
        RuntimeFunction::AllocList => seq![RuntimeType::Int],
        RuntimeFunction::AllocStruct => seq![RuntimeType::Pointer],
        RuntimeFunction::ListSet => seq![RuntimeType::Pointer, RuntimeType::Int, RuntimeType::Value],
        RuntimeFunction::StructSet => seq![RuntimeType::Pointer, RuntimeType::Int, RuntimeType::Pointer],
        RuntimeFunction::ListGet => seq![RuntimeType::Pointer, RuntimeType::Int],
        RuntimeFunction::StringIndex => seq![RuntimeType::Pointer, RuntimeType::Int],
        RuntimeFunction::ListConcat => seq![RuntimeType::Pointer, RuntimeType::Pointer],
        RuntimeFunction::StringSlice => seq![RuntimeType::Pointer, RuntimeType::Int, RuntimeType::Int, RuntimeType::Bool],
        RuntimeFunction::ListSlice => seq![RuntimeType::Pointer, RuntimeType::Int, RuntimeType::Int, RuntimeType::Bool],
        RuntimeFunction::DictNew => seq![],
        RuntimeFunction::DictSet => seq![RuntimeType::Pointer, RuntimeType::Pointer, RuntimeType::Value],
        RuntimeFunction::DictGet => seq![RuntimeType::Pointer, RuntimeType::Pointer],
        RuntimeFunction::DictEqual => seq![RuntimeType::Pointer, RuntimeType::Pointer],
        RuntimeFunction::StructGet => seq![RuntimeType::Pointer, RuntimeType::Int, RuntimeType::Pointer],
        RuntimeFunction::ErrorAlloc => seq![RuntimeType::Pointer],
        RuntimeFunction::ErrorSet => seq![RuntimeType::Pointer, RuntimeType::Int, RuntimeType::Pointer],
        RuntimeFunction::ErrorGet => seq![RuntimeType::Pointer, RuntimeType::Int, RuntimeType::Pointer],
        RuntimeFunction::ErrorCurrent => seq![],
        RuntimeFunction::ErrorSetCurrent => seq![RuntimeType::Pointer],
        RuntimeFunction::ErrorClearCurrent => seq![],
        RuntimeFunction::ErrorGetTemplate => seq![RuntimeType::Pointer],
        RuntimeFunction::ValueFromInt => seq![RuntimeType::Int],
        RuntimeFunction::ValueFromFloat => seq![RuntimeType::Float],
        RuntimeFunction::ValueFromBool => seq![RuntimeType::Word],
        RuntimeFunction::ValueFromString => seq![RuntimeType::Pointer],
        RuntimeFunction::ValueFromList => seq![RuntimeType::Pointer],
        RuntimeFunction::ValueFromDict => seq![RuntimeType::Pointer],
        RuntimeFunction::ValueFromStruct => seq![RuntimeType::Pointer],
        RuntimeFunction::ValueFromError => seq![RuntimeType::Pointer],
        RuntimeFunction::ValueFromClosure => seq![RuntimeType::Pointer],
        RuntimeFunction::ValueNil => seq![],
        RuntimeFunction::ValueAsInt => seq![RuntimeType::Pointer],
        RuntimeFunction::ValueAsFloat => seq![RuntimeType::Pointer],
        RuntimeFunction::ValueAsBool => seq![RuntimeType::Pointer],
        RuntimeFunction::ValueAsString => seq![RuntimeType::Pointer],
        RuntimeFunction::ValueAsList => seq![RuntimeType::Pointer],
        RuntimeFunction::ValueAsDict => seq![RuntimeType::Pointer],
        RuntimeFunction::ValueAsStruct => seq![RuntimeType::Pointer],
        RuntimeFunction::ValueAsError => seq![RuntimeType::Pointer],
        RuntimeFunction::ValueAsClosure => seq![RuntimeType::Pointer],
        RuntimeFunction::StringEqual => seq![RuntimeType::Pointer, RuntimeType::Pointer],
        RuntimeFunction::ListEqual => seq![RuntimeType::Pointer, RuntimeType::Pointer],
        RuntimeFunction::StructEqual => seq![RuntimeType::Pointer, RuntimeType::Pointer],
        RuntimeFunction::ClosureNew => seq![RuntimeType::Pointer, RuntimeType::Int],
        RuntimeFunction::ClosureSet => seq![RuntimeType::Pointer, RuntimeType::Int, RuntimeType::Value],
        RuntimeFunction::ClosureGet => seq![RuntimeType::Pointer, RuntimeType::Int],
        RuntimeFunction::ClosureEqual => seq![RuntimeType::Pointer, RuntimeType::Pointer],
        RuntimeFunction::IoReadLine => seq![],
        RuntimeFunction::IoReadAll => seq![],
        RuntimeFunction::IoReadBytes => seq![],
        RuntimeFunction::IoWrite => seq![RuntimeType::Pointer],
        RuntimeFunction::IoWriteErr => seq![RuntimeType::Pointer],
        RuntimeFunction::IoFlush => seq![],
        RuntimeFunction::CliArgs => seq![],
        RuntimeFunction::ArgsProgram => seq![],
        RuntimeFunction::RegexCompile => seq![RuntimeType::Pointer],
        RuntimeFunction::RegexIsMatch => seq![RuntimeType::Int, RuntimeType::Pointer],
        RuntimeFunction::RegexFindAll => seq![RuntimeType::Int, RuntimeType::Pointer],
        RuntimeFunction::RegexCaptures => seq![RuntimeType::Int, RuntimeType::Pointer],
        RuntimeFunction::RegexReplace => seq![RuntimeType::Int, RuntimeType::Pointer, RuntimeType::Pointer],
        RuntimeFunction::RegexReplaceAll => seq![RuntimeType::Int, RuntimeType::Pointer, RuntimeType::Pointer],
        RuntimeFunction::RegexSplit => seq![RuntimeType::Int, RuntimeType::Pointer],
        RuntimeFunction::ReadLine => seq![],
        RuntimeFunction::ReadAll => seq![],
        RuntimeFunction::IsTty => seq![],
        RuntimeFunction::CliParse => seq![RuntimeType::Pointer, RuntimeType::Value, RuntimeType::Value],
        RuntimeFunction::ProcessRun => seq![RuntimeType::Pointer, RuntimeType::Pointer, RuntimeType::Pointer, RuntimeType::Pointer, RuntimeType::Pointer, RuntimeType::Pointer],
        RuntimeFunction::ProcessSpawn => seq![RuntimeType::Pointer, RuntimeType::Pointer, RuntimeType::Pointer, RuntimeType::Pointer],
        RuntimeFunction::ProcessWait => seq![RuntimeType::Pointer, RuntimeType::Int],
        RuntimeFunction::ProcessKill => seq![RuntimeType::Int],
        RuntimeFunction::ProcessReadStdout => seq![RuntimeType::Int, RuntimeType::Int],
        RuntimeFunction::ProcessReadStderr => seq![RuntimeType::Int, RuntimeType::Int],
        RuntimeFunction::ProcessWriteStdin => seq![RuntimeType::Int, RuntimeType::Value],
        RuntimeFunction::ProcessCloseStdin => seq![RuntimeType::Int],
        RuntimeFunction::ProcessClose => seq![RuntimeType::Int],
        RuntimeFunction::JsonEncode => seq![RuntimeType::Value],
        RuntimeFunction::JsonDecode => seq![RuntimeType::Pointer],
    }
}

/// The symbol a runtime function is declared under (see
/// [`runtime_symbol`]).
pub fn runtime_function_symbol(f: RuntimeFunction) -> (r: String)
    ensures
        r@ == runtime_symbol(f),
{
    let name = match f {
        RuntimeFunction::ListLenFfi => "tea_list_len_ffi",
        RuntimeFunction::DictKeys => "tea_dict_keys",
        RuntimeFunction::DictValues => "tea_dict_values",
        RuntimeFunction::DictEntries => "tea_dict_entries",
        RuntimeFunction::TypeOf => "tea_type_of",
        RuntimeFunction::Panic => "tea_panic",
        RuntimeFunction::Exit => "tea_exit",
        RuntimeFunction::DictDelete => "tea_dict_delete",
        RuntimeFunction::DictClear => "tea_dict_clear",
        RuntimeFunction::Fmax => "fmax",
        RuntimeFunction::Fmin => "fmin",
        RuntimeFunction::ListAppend => "tea_list_append",
        RuntimeFunction::Assert => "tea_assert",
        RuntimeFunction::AssertEq => "tea_assert_eq",
        RuntimeFunction::AssertNe => "tea_assert_ne",
        RuntimeFunction::Fail => "tea_fail",
        RuntimeFunction::UtilLen => "tea_util_len",
        RuntimeFunction::UtilToString => "tea_util_to_string",
        RuntimeFunction::Malloc => "malloc",
        RuntimeFunction::Memcpy => "memcpy",
        RuntimeFunction::UtilClampInt => "tea_util_clamp_int",
        RuntimeFunction::EnvGet => "tea_env_get",
        RuntimeFunction::EnvGetOr => "tea_env_get_or",
        RuntimeFunction::EnvHas => "tea_env_has",
        RuntimeFunction::EnvRequire => "tea_env_require",
        RuntimeFunction::EnvSet => "tea_env_set",
        RuntimeFunction::EnvUnset => "tea_env_unset",
        RuntimeFunction::EnvVars => "tea_env_vars",
        RuntimeFunction::PathAbsolute => "tea_path_absolute",
        RuntimeFunction::FsWriteText => "tea_fs_write_text",
        RuntimeFunction::FsWriteTextAtomic => "tea_fs_write_text_atomic",
        RuntimeFunction::FsWriteBytes => "tea_fs_write_bytes",
        RuntimeFunction::FsWriteBytesAtomic => "tea_fs_write_bytes_atomic",
        RuntimeFunction::FsCreateDir => "tea_fs_create_dir",
        RuntimeFunction::FsIsReadonly => "tea_fs_is_readonly",
        RuntimeFunction::FsMetadata => "tea_fs_metadata",
        RuntimeFunction::FsOpenRead => "tea_fs_open_read",
        RuntimeFunction::FsReadChunk => "tea_fs_read_chunk",
        RuntimeFunction::FsClose => "tea_fs_close",
        RuntimeFunction::AllocString => "tea_alloc_string",
        RuntimeFunction::StringConcat => "tea_string_concat",
        RuntimeFunction::StringPushStr => "tea_string_push_str",
        RuntimeFunction::AllocList => "tea_alloc_list",
        RuntimeFunction::AllocStruct => "tea_alloc_struct",
        RuntimeFunction::ListSet => "tea_list_set",
        RuntimeFunction::StructSet => "tea_struct_set_field",
        RuntimeFunction::ListGet => "tea_list_get",
        RuntimeFunction::StringIndex => "tea_string_index",
        RuntimeFunction::ListConcat => "tea_list_concat",
        RuntimeFunction::StringSlice => "tea_string_slice",
        RuntimeFunction::ListSlice => "tea_list_slice",
        RuntimeFunction::DictNew => "tea_dict_new",
        RuntimeFunction::DictSet => "tea_dict_set",
        RuntimeFunction::DictGet => "tea_dict_get",
        RuntimeFunction::DictEqual => "tea_dict_equal",
        RuntimeFunction::StructGet => "tea_struct_get_field",
        RuntimeFunction::ErrorAlloc => "tea_alloc_error",
        RuntimeFunction::ErrorSet => "tea_error_set_field",
        RuntimeFunction::ErrorGet => "tea_error_get_field",
        RuntimeFunction::ErrorCurrent => "tea_error_current",
        RuntimeFunction::ErrorSetCurrent => "tea_error_set_current",
        RuntimeFunction::ErrorClearCurrent => "tea_error_clear_current",
        RuntimeFunction::ErrorGetTemplate => "tea_error_get_template",
        RuntimeFunction::ValueFromInt => "tea_value_from_int",
        RuntimeFunction::ValueFromFloat => "tea_value_from_float",
        RuntimeFunction::ValueFromBool => "tea_value_from_bool",
        RuntimeFunction::ValueFromString => "tea_value_from_string",
        RuntimeFunction::ValueFromList => "tea_value_from_list",
        RuntimeFunction::ValueFromDict => "tea_value_from_dict",
        RuntimeFunction::ValueFromStruct => "tea_value_from_struct",
        RuntimeFunction::ValueFromError => "tea_value_from_error",
        RuntimeFunction::ValueFromClosure => "tea_value_from_closure",
        RuntimeFunction::ValueNil => "tea_value_nil",
        RuntimeFunction::ValueAsInt => "tea_value_as_int",
        RuntimeFunction::ValueAsFloat => "tea_value_as_float",
        RuntimeFunction::ValueAsBool => "tea_value_as_bool",
        RuntimeFunction::ValueAsString => "tea_value_as_string",
        RuntimeFunction::ValueAsList => "tea_value_as_list",
        RuntimeFunction::ValueAsDict => "tea_value_as_dict",
        RuntimeFunction::ValueAsStruct => "tea_value_as_struct",
        RuntimeFunction::ValueAsError => "tea_value_as_error",
        RuntimeFunction::ValueAsClosure => "tea_value_as_closure",
        RuntimeFunction::StringEqual => "tea_string_equal",
        RuntimeFunction::ListEqual => "tea_list_equal",
        RuntimeFunction::StructEqual => "tea_struct_equal",
        RuntimeFunction::ClosureNew => "tea_closure_new",
        RuntimeFunction::ClosureSet => "tea_closure_set_capture",
        RuntimeFunction::ClosureGet => "tea_closure_get_capture",
        RuntimeFunction::ClosureEqual => "tea_closure_equal",
        RuntimeFunction::IoReadLine => "tea_io_read_line",
        RuntimeFunction::IoReadAll => "tea_io_read_all",
        RuntimeFunction::IoReadBytes => "tea_io_read_bytes",
        RuntimeFunction::IoWrite => "tea_io_write",
        RuntimeFunction::IoWriteErr => "tea_io_write_err",
        RuntimeFunction::IoFlush => "tea_io_flush",
        RuntimeFunction::CliArgs => "tea_cli_args",
        RuntimeFunction::ArgsProgram => "tea_args_program",
        RuntimeFunction::RegexCompile => "tea_regex_compile",
        RuntimeFunction::RegexIsMatch => "tea_regex_is_match",
        RuntimeFunction::RegexFindAll => "tea_regex_find_all",
        RuntimeFunction::RegexCaptures => "tea_regex_captures",
        RuntimeFunction::RegexReplace => "tea_regex_replace",
        RuntimeFunction::RegexReplaceAll => "tea_regex_replace_all",
        RuntimeFunction::RegexSplit => "tea_regex_split",
        RuntimeFunction::ReadLine => "tea_read_line",
        RuntimeFunction::ReadAll => "tea_read_all",
        RuntimeFunction::IsTty => "tea_is_tty",
        RuntimeFunction::CliParse => "tea_cli_parse",
        RuntimeFunction::ProcessRun => "tea_process_run",
        RuntimeFunction::ProcessSpawn => "tea_process_spawn",
        RuntimeFunction::ProcessWait => "tea_process_wait",
        RuntimeFunction::ProcessKill => "tea_process_kill",
        RuntimeFunction::ProcessReadStdout => "tea_process_read_stdout",
        RuntimeFunction::ProcessReadStderr => "tea_process_read_stderr",
        RuntimeFunction::ProcessWriteStdin => "tea_process_write_stdin",
        RuntimeFunction::ProcessCloseStdin => "tea_process_close_stdin",
        RuntimeFunction::ProcessClose => "tea_process_close",
        RuntimeFunction::JsonEncode => "tea_json_encode",
        RuntimeFunction::JsonDecode => "tea_json_decode",
    };
    String::from_str(name)
}

/// The result type of a runtime function (see [`runtime_result`]).
pub fn runtime_function_result(f: RuntimeFunction) -> (r: Option<RuntimeType>)
    ensures
        r == runtime_result(f),
{
    match f {
        RuntimeFunction::ListLenFfi => Some(RuntimeType::Int),
        RuntimeFunction::DictKeys => Some(RuntimeType::Pointer),
        RuntimeFunction::DictValues => Some(RuntimeType::Pointer),
        RuntimeFunction::DictEntries => Some(RuntimeType::Pointer),
        RuntimeFunction::TypeOf => Some(RuntimeType::Pointer),
        RuntimeFunction::Panic => None,
        RuntimeFunction::Exit => None,
        RuntimeFunction::DictDelete => Some(RuntimeType::Pointer),
        RuntimeFunction::DictClear => Some(RuntimeType::Pointer),
        RuntimeFunction::Fmax => Some(RuntimeType::Float),
        RuntimeFunction::Fmin => Some(RuntimeType::Float),
        RuntimeFunction::ListAppend => Some(RuntimeType::Pointer),
        RuntimeFunction::Assert => None,
        RuntimeFunction::AssertEq => None,
        RuntimeFunction::AssertNe => None,
        RuntimeFunction::Fail => None,
        RuntimeFunction::UtilLen => Some(RuntimeType::Int),
        RuntimeFunction::UtilToString => Some(RuntimeType::Pointer),
        RuntimeFunction::Malloc => Some(RuntimeType::Pointer),
        RuntimeFunction::Memcpy => None,
        RuntimeFunction::UtilClampInt => Some(RuntimeType::Int),
        RuntimeFunction::EnvGet => Some(RuntimeType::Pointer),
        RuntimeFunction::EnvGetOr => Some(RuntimeType::Pointer),
        RuntimeFunction::EnvHas => Some(RuntimeType::Word),
        RuntimeFunction::EnvRequire => Some(RuntimeType::Pointer),
        RuntimeFunction::EnvSet => None,
        RuntimeFunction::EnvUnset => None,
        RuntimeFunction::EnvVars => Some(RuntimeType::Value),
        RuntimeFunction::PathAbsolute => Some(RuntimeType::Pointer),
        RuntimeFunction::FsWriteText => None,
        RuntimeFunction::FsWriteTextAtomic => None,
        RuntimeFunction::FsWriteBytes => None,
        RuntimeFunction::FsWriteBytesAtomic => None,
        RuntimeFunction::FsCreateDir => None,
        RuntimeFunction::FsIsReadonly => Some(RuntimeType::Word),
        RuntimeFunction::FsMetadata => Some(RuntimeType::Value),
        RuntimeFunction::FsOpenRead => Some(RuntimeType::Int),
        RuntimeFunction::FsReadChunk => Some(RuntimeType::Pointer),
        RuntimeFunction::FsClose => None,
        RuntimeFunction::AllocString => Some(RuntimeType::Pointer),
        RuntimeFunction::StringConcat => Some(RuntimeType::Pointer),
        RuntimeFunction::StringPushStr => Some(RuntimeType::Pointer),
        RuntimeFunction::AllocList => Some(RuntimeType::Pointer),
        RuntimeFunction::AllocStruct => Some(RuntimeType::Pointer),
        RuntimeFunction::ListSet => None,
        RuntimeFunction::StructSet => None,
        RuntimeFunction::ListGet => Some(RuntimeType::Value),
        RuntimeFunction::StringIndex => Some(RuntimeType::Pointer),
        RuntimeFunction::ListConcat => Some(RuntimeType::Pointer),
        RuntimeFunction::StringSlice => Some(RuntimeType::Pointer),
        RuntimeFunction::ListSlice => Some(RuntimeType::Pointer),
        RuntimeFunction::DictNew => Some(RuntimeType::Pointer),
        RuntimeFunction::DictSet => None,
        RuntimeFunction::DictGet => Some(RuntimeType::Value),
        RuntimeFunction::DictEqual => Some(RuntimeType::Word),
        RuntimeFunction::StructGet => None,
        RuntimeFunction::ErrorAlloc => Some(RuntimeType::Pointer),
        RuntimeFunction::ErrorSet => None,
        RuntimeFunction::ErrorGet => None,
        RuntimeFunction::ErrorCurrent => Some(RuntimeType::Pointer),
        RuntimeFunction::ErrorSetCurrent => None,
        RuntimeFunction::ErrorClearCurrent => None,
        RuntimeFunction::ErrorGetTemplate => Some(RuntimeType::Pointer),
        RuntimeFunction::ValueFromInt => Some(RuntimeType::Value),
        RuntimeFunction::ValueFromFloat => Some(RuntimeType::Value),
        RuntimeFunction::ValueFromBool => Some(RuntimeType::Value),
        RuntimeFunction::ValueFromString => Some(RuntimeType::Value),
        RuntimeFunction::ValueFromList => Some(RuntimeType::Value),
        RuntimeFunction::ValueFromDict => Some(RuntimeType::Value),
        RuntimeFunction::ValueFromStruct => Some(RuntimeType::Value),
        RuntimeFunction::ValueFromError => Some(RuntimeType::Value),
        RuntimeFunction::ValueFromClosure => Some(RuntimeType::Value),
        RuntimeFunction::ValueNil => Some(RuntimeType::Value),
        RuntimeFunction::ValueAsInt => Some(RuntimeType::Int),
        RuntimeFunction::ValueAsFloat => Some(RuntimeType::Float),
        RuntimeFunction::ValueAsBool => Some(RuntimeType::Word),
        RuntimeFunction::ValueAsString => Some(RuntimeType::Pointer),
        RuntimeFunction::ValueAsList => Some(RuntimeType::Pointer),
        RuntimeFunction::ValueAsDict => Some(RuntimeType::Pointer),
        RuntimeFunction::ValueAsStruct => Some(RuntimeType::Pointer),
        RuntimeFunction::ValueAsError => Some(RuntimeType::Pointer),
        RuntimeFunction::ValueAsClosure => Some(RuntimeType::Pointer),
        RuntimeFunction::StringEqual => Some(RuntimeType::Word),
        RuntimeFunction::ListEqual => Some(RuntimeType::Word),
        RuntimeFunction::StructEqual => Some(RuntimeType::Word),
        RuntimeFunction::ClosureNew => Some(RuntimeType::Pointer),
        RuntimeFunction::ClosureSet => None,
        RuntimeFunction::ClosureGet => Some(RuntimeType::Value),
        RuntimeFunction::ClosureEqual => Some(RuntimeType::Word),
        RuntimeFunction::IoReadLine => Some(RuntimeType::Value),
        RuntimeFunction::IoReadAll => Some(RuntimeType::Pointer),
        RuntimeFunction::IoReadBytes => Some(RuntimeType::Pointer),
        RuntimeFunction::IoWrite => None,
        RuntimeFunction::IoWriteErr => None,
        RuntimeFunction::IoFlush => None,
        RuntimeFunction::CliArgs => Some(RuntimeType::Pointer),
        RuntimeFunction::ArgsProgram => Some(RuntimeType::Pointer),
        RuntimeFunction::RegexCompile => Some(RuntimeType::Int),
        RuntimeFunction::RegexIsMatch => Some(RuntimeType::Word),
        RuntimeFunction::RegexFindAll => Some(RuntimeType::Pointer),
        RuntimeFunction::RegexCaptures => Some(RuntimeType::Pointer),
        RuntimeFunction::RegexReplace => Some(RuntimeType::Pointer),
        RuntimeFunction::RegexReplaceAll => Some(RuntimeType::Pointer),
        RuntimeFunction::RegexSplit => Some(RuntimeType::Pointer),
        RuntimeFunction::ReadLine => Some(RuntimeType::Pointer),
        RuntimeFunction::ReadAll => Some(RuntimeType::Pointer),
        RuntimeFunction::IsTty => Some(RuntimeType::Word),
        RuntimeFunction::CliParse => Some(RuntimeType::Pointer),
        RuntimeFunction::ProcessRun => Some(RuntimeType::Pointer),
        RuntimeFunction::ProcessSpawn => Some(RuntimeType::Int),
        RuntimeFunction::ProcessWait => Some(RuntimeType::Pointer),
        RuntimeFunction::ProcessKill => Some(RuntimeType::Word),
        RuntimeFunction::ProcessReadStdout => Some(RuntimeType::Pointer),
        RuntimeFunction::ProcessReadStderr => Some(RuntimeType::Pointer),
        RuntimeFunction::ProcessWriteStdin => None,
        RuntimeFunction::ProcessCloseStdin => None,
        RuntimeFunction::ProcessClose => None,
        RuntimeFunction::JsonEncode => Some(RuntimeType::Pointer),
        RuntimeFunction::JsonDecode => Some(RuntimeType::Value),
    }
}

/// The parameter types of a runtime function (see [`runtime_params`]).
#[verifier::rlimit(50)]
pub fn runtime_function_params(f: RuntimeFunction) -> (r: Vec<RuntimeType>)
    ensures
        r@ == runtime_params(f),
{
    let r = match f {
        RuntimeFunction::ListLenFfi => vec![RuntimeType::Pointer],
        RuntimeFunction::DictKeys => vec![RuntimeType::Pointer],
        RuntimeFunction::DictValues => vec![RuntimeType::Pointer],
        RuntimeFunction::DictEntries => vec![RuntimeType::Pointer],
        RuntimeFunction::TypeOf => vec![RuntimeType::Value],
        RuntimeFunction::Panic => vec![RuntimeType::Pointer],
        RuntimeFunction::Exit => vec![RuntimeType::Int],
        RuntimeFunction::DictDelete => vec![RuntimeType::Pointer, RuntimeType::Pointer],
        RuntimeFunction::DictClear => vec![RuntimeType::Pointer],
        RuntimeFunction::Fmax => vec![RuntimeType::Float, RuntimeType::Float],
        RuntimeFunction::Fmin => vec![RuntimeType::Float, RuntimeType::Float],
        RuntimeFunction::ListAppend => vec![RuntimeType::Pointer, RuntimeType::Value],
        RuntimeFunction::Assert => vec![RuntimeType::Word, RuntimeType::Pointer],
        RuntimeFunction::AssertEq => vec![RuntimeType::Pointer, RuntimeType::Pointer],
        RuntimeFunction::AssertNe => vec![RuntimeType::Pointer, RuntimeType::Pointer],
        RuntimeFunction::Fail => vec![RuntimeType::Pointer],
        RuntimeFunction::UtilLen => vec![RuntimeType::Value],
        RuntimeFunction::UtilToString => vec![RuntimeType::Pointer],
        RuntimeFunction::Malloc => vec![RuntimeType::Int],
        RuntimeFunction::Memcpy => vec![RuntimeType::Pointer, RuntimeType::Pointer, RuntimeType::Int],
        RuntimeFunction::UtilClampInt => vec![RuntimeType::Int, RuntimeType::Int, RuntimeType::Int],
        RuntimeFunction::EnvGet => vec![RuntimeType::Pointer],
        RuntimeFunction::EnvGetOr => vec![RuntimeType::Pointer, RuntimeType::Pointer],
        RuntimeFunction::EnvHas => vec![RuntimeType::Pointer],
        RuntimeFunction::EnvRequire => vec![RuntimeType::Pointer],
        RuntimeFunction::EnvSet => vec![RuntimeType::Pointer, RuntimeType::Pointer],
        RuntimeFunction::EnvUnset => vec![RuntimeType::Pointer],
        RuntimeFunction::EnvVars => vec![],
        RuntimeFunction::PathAbsolute => vec![RuntimeType::Pointer, RuntimeType::Pointer, RuntimeType::Word],
        RuntimeFunction::FsWriteText => vec![RuntimeType::Pointer, RuntimeType::Pointer],
        RuntimeFunction::FsWriteTextAtomic => vec![RuntimeType::Pointer, RuntimeType::Pointer],
        RuntimeFunction::FsWriteBytes => vec![RuntimeType::Pointer, RuntimeType::Pointer],
        RuntimeFunction::FsWriteBytesAtomic => vec![RuntimeType::Pointer, RuntimeType::Pointer],
        RuntimeFunction::FsCreateDir => vec![RuntimeType::Pointer, RuntimeType::Word],
        RuntimeFunction::FsIsReadonly => vec![RuntimeType::Pointer],
        RuntimeFunction::FsMetadata => vec![RuntimeType::Pointer],
        RuntimeFunction::FsOpenRead => vec![RuntimeType::Pointer],
        RuntimeFunction::FsReadChunk => vec![RuntimeType::Int, RuntimeType::Int],
        RuntimeFunction::FsClose => vec![RuntimeType::Int],
        RuntimeFunction::AllocString => vec![RuntimeType::Pointer, RuntimeType::Int],
        RuntimeFunction::StringConcat => vec![RuntimeType::Pointer, RuntimeType::Pointer],
        RuntimeFunction::StringPushStr => vec![RuntimeType::Pointer, RuntimeType::Pointer],
        RuntimeFunction::AllocList => vec![RuntimeType::Int],
        RuntimeFunction::AllocStruct => vec![RuntimeType::Pointer],
        RuntimeFunction::ListSet => vec![RuntimeType::Pointer, RuntimeType::Int, RuntimeType::Value],
        RuntimeFunction::StructSet => vec![RuntimeType::Pointer, RuntimeType::Int, RuntimeType::Pointer],
        RuntimeFunction::ListGet => vec![RuntimeType::Pointer, RuntimeType::Int],
        RuntimeFunction::StringIndex => vec![RuntimeType::Pointer, RuntimeType::Int],
        RuntimeFunction::ListConcat => vec![RuntimeType::Pointer, RuntimeType::Pointer],
        RuntimeFunction::StringSlice => vec![RuntimeType::Pointer, RuntimeType::Int, RuntimeType::Int, RuntimeType::Bool],
        RuntimeFunction::ListSlice => vec![RuntimeType::Pointer, RuntimeType::Int, RuntimeType::Int, RuntimeType::Bool],
        RuntimeFunction::DictNew => vec![],
        RuntimeFunction::DictSet => vec![RuntimeType::Pointer, RuntimeType::Pointer, RuntimeType::Value],
        RuntimeFunction::DictGet => vec![RuntimeType::Pointer, RuntimeType::Pointer],
        RuntimeFunction::DictEqual => vec![RuntimeType::Pointer, RuntimeType::Pointer],
        RuntimeFunction::StructGet => vec![RuntimeType::Pointer, RuntimeType::Int, RuntimeType::Pointer],
        RuntimeFunction::ErrorAlloc => vec![RuntimeType::Pointer],
        RuntimeFunction::ErrorSet => vec![RuntimeType::Pointer, RuntimeType::Int, RuntimeType::Pointer],
        RuntimeFunction::ErrorGet => vec![RuntimeType::Pointer, RuntimeType::Int, RuntimeType::Pointer],
        RuntimeFunction::ErrorCurrent => vec![],
        RuntimeFunction::ErrorSetCurrent => vec![RuntimeType::Pointer],
        RuntimeFunction::ErrorClearCurrent => vec![],
        RuntimeFunction::ErrorGetTemplate => vec![RuntimeType::Pointer],
        RuntimeFunction::ValueFromInt => vec![RuntimeType::Int],
        RuntimeFunction::ValueFromFloat => vec![RuntimeType::Float],
        RuntimeFunction::ValueFromBool => vec![RuntimeType::Word],
        RuntimeFunction::ValueFromString => vec![RuntimeType::Pointer],
        RuntimeFunction::ValueFromList => vec![RuntimeType::Pointer],
        RuntimeFunction::ValueFromDict => vec![RuntimeType::Pointer],
        RuntimeFunction::ValueFromStruct => vec![RuntimeType::Pointer],
        RuntimeFunction::ValueFromError => vec![RuntimeType::Pointer],
        RuntimeFunction::ValueFromClosure => vec![RuntimeType::Pointer],
        RuntimeFunction::ValueNil => vec![],
        RuntimeFunction::ValueAsInt => vec![RuntimeType::Pointer],
        RuntimeFunction::ValueAsFloat => vec![RuntimeType::Pointer],
        RuntimeFunction::ValueAsBool => vec![RuntimeType::Pointer],
        RuntimeFunction::ValueAsString => vec![RuntimeType::Pointer],
        RuntimeFunction::ValueAsList => vec![RuntimeType::Pointer],
        RuntimeFunction::ValueAsDict => vec![RuntimeType::Pointer],
        RuntimeFunction::ValueAsStruct => vec![RuntimeType::Pointer],
        RuntimeFunction::ValueAsError => vec![RuntimeType::Pointer],
        RuntimeFunction::ValueAsClosure => vec![RuntimeType::Pointer],
        RuntimeFunction::StringEqual => vec![RuntimeType::Pointer, RuntimeType::Pointer],
        RuntimeFunction::ListEqual => vec![RuntimeType::Pointer, RuntimeType::Pointer],
        RuntimeFunction::StructEqual => vec![RuntimeType::Pointer, RuntimeType::Pointer],
        RuntimeFunction::ClosureNew => vec![RuntimeType::Pointer, RuntimeType::Int],
        RuntimeFunction::ClosureSet => vec![RuntimeType::Pointer, RuntimeType::Int, RuntimeType::Value],
        RuntimeFunction::ClosureGet => vec![RuntimeType::Pointer, RuntimeType::Int],
        RuntimeFunction::ClosureEqual => vec![RuntimeType::Pointer, RuntimeType::Pointer],
        RuntimeFunction::IoReadLine => vec![],
        RuntimeFunction::IoReadAll => vec![],
        RuntimeFunction::IoReadBytes => vec![],
        RuntimeFunction::IoWrite => vec![RuntimeType::Pointer],
        RuntimeFunction::IoWriteErr => vec![RuntimeType::Pointer],
        RuntimeFunction::IoFlush => vec![],
        RuntimeFunction::CliArgs => vec![],
        RuntimeFunction::ArgsProgram => vec![],
        RuntimeFunction::RegexCompile => vec![RuntimeType::Pointer],
        RuntimeFunction::RegexIsMatch => vec![RuntimeType::Int, RuntimeType::Pointer],
        RuntimeFunction::RegexFindAll => vec![RuntimeType::Int, RuntimeType::Pointer],
        RuntimeFunction::RegexCaptures => vec![RuntimeType::Int, RuntimeType::Pointer],
        RuntimeFunction::RegexReplace => vec![RuntimeType::Int, RuntimeType::Pointer, RuntimeType::Pointer],
        RuntimeFunction::RegexReplaceAll => vec![RuntimeType::Int, RuntimeType::Pointer, RuntimeType::Pointer],
        RuntimeFunction::RegexSplit => vec![RuntimeType::Int, RuntimeType::Pointer],
        RuntimeFunction::ReadLine => vec![],
        RuntimeFunction::ReadAll => vec![],
        RuntimeFunction::IsTty => vec![],
        RuntimeFunction::CliParse => vec![RuntimeType::Pointer, RuntimeType::Value, RuntimeType::Value],
        RuntimeFunction::ProcessRun => vec![RuntimeType::Pointer, RuntimeType::Pointer, RuntimeType::Pointer, RuntimeType::Pointer, RuntimeType::Pointer, RuntimeType::Pointer],
        RuntimeFunction::ProcessSpawn => vec![RuntimeType::Pointer, RuntimeType::Pointer, RuntimeType::Pointer, RuntimeType::Pointer],
        RuntimeFunction::ProcessWait => vec![RuntimeType::Pointer, RuntimeType::Int],
        RuntimeFunction::ProcessKill => vec![RuntimeType::Int],
        RuntimeFunction::ProcessReadStdout => vec![RuntimeType::Int, RuntimeType::Int],
        RuntimeFunction::ProcessReadStderr => vec![RuntimeType::Int, RuntimeType::Int],
        RuntimeFunction::ProcessWriteStdin => vec![RuntimeType::Int, RuntimeType::Value],
        RuntimeFunction::ProcessCloseStdin => vec![RuntimeType::Int],
        RuntimeFunction::ProcessClose => vec![RuntimeType::Int],
        RuntimeFunction::JsonEncode => vec![RuntimeType::Value],
        RuntimeFunction::JsonDecode => vec![RuntimeType::Pointer],
    };
    proof {
        assert(r@ =~= runtime_params(f));
    }
    r
}

} // verus!
