//! `print`, `println`, `eprint` and `eprintln`: which runtime routine
//! prints each argument.
use vstd::prelude::*;

use crate::aot::types::{ExprValue, IrRef, ValueType};

verus! {

/// The four printing builtins.
#[derive(Debug, Clone, Copy, PartialEq, Eq, Structural)]
pub enum PrintCall {
    Print,
    Println,
    Eprint,
    Eprintln,
}

/// The name of a printing builtin, as routine names and messages write it.
pub open spec fn print_call_word(c: PrintCall) -> Seq<char> {
    match c {
        PrintCall::Print => "print"@,
        PrintCall::Println => "println"@,
        PrintCall::Eprint => "eprint"@,
        PrintCall::Eprintln => "eprintln"@,
    }
}

/// The runtime routine of builtin `c` for values of kind `kind`.
pub open spec fn print_routine(c: PrintCall, kind: Seq<char>) -> Seq<char> {
    "tea_"@ + print_call_word(c) + "_"@ + kind
}

/// How one argument of a printing builtin is printed.
#[derive(Debug)]
pub enum PrintStep {
    /// A call of `routine` with the value; a `Bool` is first widened to a
    /// 32-bit integer.
    Value { routine: String, value: IrRef, widen_bool: bool },
    /// An optional value, turned into its text by the runtime, then
    /// printed by the string routine `routine`.
    OptionalText { routine: String, value: IrRef },
    /// No value: the text `nil`, printed by the string routine `routine`.
    NilText { routine: String },
}

/// The plain view of a print step.
pub enum SpecPrintStep {
    Value { routine: Seq<char>, value: IrRef, widen_bool: bool },
    OptionalText { routine: Seq<char>, value: IrRef },
    NilText { routine: Seq<char> },
}

impl View for PrintStep {
    type V = SpecPrintStep;

    open spec fn view(&self) -> SpecPrintStep {
        match self {
            PrintStep::Value { routine, value, widen_bool } => SpecPrintStep::Value {
                routine: routine@,
                value: *value,
                widen_bool: *widen_bool,
            },
            PrintStep::OptionalText { routine, value } => SpecPrintStep::OptionalText {
                routine: routine@,
                value: *value,
            },
            PrintStep::NilText { routine } => SpecPrintStep::NilText { routine: routine@ },
        }
    }
}

/// How builtin `c` prints `value`: each kind of value has its own routine;
/// `print` and `println` print an optional by its text and nothing as
/// `nil`, while `eprint` and `eprintln` refuse both.
pub open spec fn print_plan(c: PrintCall, value: ExprValue) -> Result<SpecPrintStep, Seq<char>> {
    let to_stderr = c == PrintCall::Eprint || c == PrintCall::Eprintln;
    match value {
        ExprValue::Int(v) => Ok(SpecPrintStep::Value { routine: print_routine(c, "int"@), value: v, widen_bool: false }),
        ExprValue::Float(v) => Ok(SpecPrintStep::Value { routine: print_routine(c, "float"@), value: v, widen_bool: false }),
        ExprValue::Bool(v) => Ok(SpecPrintStep::Value { routine: print_routine(c, "bool"@), value: v, widen_bool: true }),
        ExprValue::String(v) => Ok(SpecPrintStep::Value { routine: print_routine(c, "string"@), value: v, widen_bool: false }),
        ExprValue::List { pointer, .. } => Ok(SpecPrintStep::Value { routine: print_routine(c, "list"@), value: pointer, widen_bool: false }),
        ExprValue::Dict { pointer, .. } => Ok(SpecPrintStep::Value { routine: print_routine(c, "dict"@), value: pointer, widen_bool: false }),
        ExprValue::Struct { pointer, .. } => Ok(SpecPrintStep::Value { routine: print_routine(c, "struct"@), value: pointer, widen_bool: false }),
        ExprValue::Error { pointer, .. } => Ok(SpecPrintStep::Value { routine: print_routine(c, "error"@), value: pointer, widen_bool: false }),
        ExprValue::Closure { pointer, .. } => Ok(SpecPrintStep::Value { routine: print_routine(c, "closure"@), value: pointer, widen_bool: false }),
        ExprValue::Optional { value: v, .. } => if to_stderr {
            Err("cannot "@ + print_call_word(c) + " void or optional values"@)
        } else {
            Ok(SpecPrintStep::OptionalText { routine: print_routine(c, "string"@), value: v })
        },
        ExprValue::Void => if to_stderr {
            Err("cannot "@ + print_call_word(c) + " void or optional values"@)
        } else {
            Ok(SpecPrintStep::NilText { routine: print_routine(c, "string"@) })
        },
    }
}

fn routine(c: PrintCall, kind: &str) -> (r: String)
    ensures
        r@ == print_routine(c, kind@),
{
    let mut out = String::from_str("tea_");
    let word = match c {
        PrintCall::Print => "print",
        PrintCall::Println => "println",
        PrintCall::Eprint => "eprint",
        PrintCall::Eprintln => "eprintln",
    };
    out.append(word);
    out.append("_");
    out.append(kind);
    out
}

/// How builtin `c` prints one argument (see [`print_plan`]).
pub fn print_step(c: PrintCall, value: &ExprValue) -> (r: Result<PrintStep, String>)
    ensures
        match r {
            Ok(s) => print_plan(c, *value) == Ok::<SpecPrintStep, Seq<char>>(s@),
            Err(e) => print_plan(c, *value) == Err::<SpecPrintStep, Seq<char>>(e@),
        },
{
    let to_stderr = match c {
        PrintCall::Eprint | PrintCall::Eprintln => true,
        _ => false,
    };
    match value {
        ExprValue::Int(v) => Ok(PrintStep::Value { routine: routine(c, "int"), value: *v, widen_bool: false }),
        ExprValue::Float(v) => Ok(PrintStep::Value { routine: routine(c, "float"), value: *v, widen_bool: false }),
        ExprValue::Bool(v) => Ok(PrintStep::Value { routine: routine(c, "bool"), value: *v, widen_bool: true }),
        ExprValue::String(v) => Ok(PrintStep::Value { routine: routine(c, "string"), value: *v, widen_bool: false }),
        ExprValue::List { pointer, .. } => Ok(
            PrintStep::Value { routine: routine(c, "list"), value: *pointer, widen_bool: false },
        ),
        ExprValue::Dict { pointer, .. } => Ok(
            PrintStep::Value { routine: routine(c, "dict"), value: *pointer, widen_bool: false },
        ),
        ExprValue::Struct { pointer, .. } => Ok(
            PrintStep::Value { routine: routine(c, "struct"), value: *pointer, widen_bool: false },
        ),
        ExprValue::Error { pointer, .. } => Ok(
            PrintStep::Value { routine: routine(c, "error"), value: *pointer, widen_bool: false },
        ),
        ExprValue::Closure { pointer, .. } => Ok(
            PrintStep::Value { routine: routine(c, "closure"), value: *pointer, widen_bool: false },
        ),
        ExprValue::Optional { value: v, .. } => {
            if to_stderr {
                Err(refusal(c))
            } else {
                Ok(PrintStep::OptionalText { routine: routine(c, "string"), value: *v })
            }
        },
        ExprValue::Void => {
            if to_stderr {
                Err(refusal(c))
            } else {
                Ok(PrintStep::NilText { routine: routine(c, "string") })
            }
        },
    }
}

fn refusal(c: PrintCall) -> (r: String)
    ensures
        r@ == "cannot "@ + print_call_word(c) + " void or optional values"@,
{
    let mut out = String::from_str("cannot ");
    let word = match c {
        PrintCall::Print => "print",
        PrintCall::Println => "println",
        PrintCall::Eprint => "eprint",
        PrintCall::Eprintln => "eprintln",
    };
    out.append(word);
    out.append(" void or optional values");
    out
}

/// A dictionary is printed by the dictionary routine of the builtin:
/// `tea_<builtin>_dict`.
pub proof fn lemma_dict_printed_by_dict_routine(c: PrintCall, pointer: IrRef, value_type: Box<ValueType>)
    ensures
        print_plan(c, ExprValue::Dict { pointer, value_type }) == Ok::<SpecPrintStep, Seq<char>>(
            SpecPrintStep::Value { routine: "tea_"@ + print_call_word(c) + "_dict"@, value: pointer, widen_bool: false },
        ),
{
    assert("tea_"@ + print_call_word(c) + "_"@ + "dict"@ =~= "tea_"@ + print_call_word(c) + "_dict"@) by {
        reveal_strlit("_");
        reveal_strlit("dict");
        reveal_strlit("_dict");
    }
}

/// The routine a value is printed by tells its kind: two values of
/// different kinds (integer, float, boolean, string, list, dictionary,
/// struct, error, closure) are never handed to the same routine.
pub proof fn lemma_print_routine_identifies_kind(c: PrintCall, v1: ExprValue, v2: ExprValue)
    requires
        print_plan(c, v1) is Ok,
        print_plan(c, v2) is Ok,
        print_plan(c, v1)->Ok_0 matches SpecPrintStep::Value { routine: r1, .. } && print_plan(c, v2)->Ok_0 matches SpecPrintStep::Value {
            routine: r2,
            ..
        } && r1 == r2,
    ensures
        v1 is Int <==> v2 is Int,
        v1 is Float <==> v2 is Float,
        v1 is Bool <==> v2 is Bool,
        v1 is String <==> v2 is String,
        v1 is List <==> v2 is List,
        v1 is Dict <==> v2 is Dict,
        v1 is Struct <==> v2 is Struct,
        v1 is Error <==> v2 is Error,
        v1 is Closure <==> v2 is Closure,
{
    let prefix = "tea_"@ + print_call_word(c) + "_"@;
    let k1 = print_kind(v1);
    let k2 = print_kind(v2);
    assert((prefix + k1).skip(prefix.len() as int) =~= k1);
    assert((prefix + k2).skip(prefix.len() as int) =~= k2);
    assert(k1 == k2);
    reveal_strlit("int");
    reveal_strlit("float");
    reveal_strlit("bool");
    reveal_strlit("string");
    reveal_strlit("list");
    reveal_strlit("dict");
    reveal_strlit("struct");
    reveal_strlit("error");
    reveal_strlit("closure");
    assert(k1.len() == k2.len());
    assert(k1[0] == k2[0]);
    if k1.len() > 3 {
        assert(k1[3] == k2[3]);
    }
}

/// The kind word of the routine `print_plan` gives a value printed by a
/// `Value` step.
spec fn print_kind(v: ExprValue) -> Seq<char> {
    match v {
        ExprValue::Int(_) => "int"@,
        ExprValue::Float(_) => "float"@,
        ExprValue::Bool(_) => "bool"@,
        ExprValue::String(_) => "string"@,
        ExprValue::List { .. } => "list"@,
        ExprValue::Dict { .. } => "dict"@,
        ExprValue::Struct { .. } => "struct"@,
        ExprValue::Error { .. } => "error"@,
        ExprValue::Closure { .. } => "closure"@,
        _ => "string"@,
    }
}

} // verus!
