//! The builtin functions: how many arguments each takes, whether it takes
//! named arguments, and which kind of value each argument must be.
use vstd::prelude::*;

use crate::aot::constructors::{argument_names, has_named_argument};
use crate::aot::types::ExprValue;
use crate::ast::CallArgument;
use crate::text::str_eq;

verus! {

/// The kind of value an argument of a builtin must be.
#[derive(Debug, Clone, Copy, PartialEq, Eq, Structural)]
pub enum ArgKind {
    Any,
    Int,
    Float,
    Bool,
    Str,
    List,
}

/// Whether a compiled value is of kind `k`.
pub open spec fn kind_matches(k: ArgKind, v: ExprValue) -> bool {
    match k {
        ArgKind::Any => true,
        ArgKind::Int => v is Int,
        ArgKind::Float => v is Float,
        ArgKind::Bool => v is Bool,
        ArgKind::Str => v is String,
        ArgKind::List => v is List,
    }
}

/// The rules of one builtin: the range of its argument count and the
/// message when the count is outside it, the message refusing named
/// arguments (none when it takes no arguments), the kind and message of
/// the check on each of its first three arguments, and whether the kinds
/// are checked once all arguments are compiled rather than each after its
/// own.
#[derive(Debug)]
pub struct BuiltinRule {
    pub min_args: usize,
    pub max_args: usize,
    pub arity_message: String,
    pub named_message: Option<String>,
    pub first: Option<(ArgKind, String)>,
    pub second: Option<(ArgKind, String)>,
    pub third: Option<(ArgKind, String)>,
    pub checks_after_all: bool,
}

/// The plain view of a builtin's rules.
pub struct SpecBuiltinRule {
    pub min_args: nat,
    pub max_args: nat,
    pub arity_message: Seq<char>,
    pub named_message: Option<Seq<char>>,
    pub first: Option<(ArgKind, Seq<char>)>,
    pub second: Option<(ArgKind, Seq<char>)>,
    pub third: Option<(ArgKind, Seq<char>)>,
    pub checks_after_all: bool,
}

/// The plain view of an argument check.
pub open spec fn check_view(c: Option<(ArgKind, String)>) -> Option<(ArgKind, Seq<char>)> {
    match c {
        Some((k, m)) => Some((k, m@)),
        None => None,
    }
}

impl View for BuiltinRule {
    type V = SpecBuiltinRule;

    open spec fn view(&self) -> SpecBuiltinRule {
        SpecBuiltinRule {
            min_args: self.min_args as nat,
            max_args: self.max_args as nat,
            arity_message: self.arity_message@,
            named_message: match self.named_message {
                Some(m) => Some(m@),
                None => None,
            },
            first: check_view(self.first),
            second: check_view(self.second),
            third: check_view(self.third),
            checks_after_all: self.checks_after_all,
        }
    }
}

/// The message refusing named arguments to builtin `name`.
pub open spec fn named_refusal(name: Seq<char>) -> Seq<char> {
    "named arguments are not supported for "@ + name
}

/// A builtin's rules, built from its parts; `named_for` is the name the
/// refusal of named arguments uses, if the builtin refuses them.
pub open spec fn spec_rule(
    min_args: nat,
    max_args: nat,
    arity_message: Seq<char>,
    named_for: Option<Seq<char>>,
    first: Option<(ArgKind, Seq<char>)>,
    second: Option<(ArgKind, Seq<char>)>,
    third: Option<(ArgKind, Seq<char>)>,
    checks_after_all: bool,
) -> SpecBuiltinRule {
    SpecBuiltinRule {
        min_args,
        max_args,
        arity_message,
        named_message: match named_for {
            Some(n) => Some(named_refusal(n)),
            None => None,
        },
        first,
        second,
        third,
        checks_after_all,
    }
}

/// The rules of the builtin called `name`, if there is one.
pub open spec fn builtin_rule_of(name: Seq<char>) -> Option<SpecBuiltinRule> {
    if name == "assert"@ {
        Some(
            spec_rule(
                1,
                2,
                "assert expects 1 or 2 arguments"@,
                Some(name),
                Some((ArgKind::Bool, "expected Bool value"@)),
                Some((ArgKind::Str, "assert message must be a String"@)),
                None,
                false,
            ),
        )
    } else if name == "assert_eq"@ {
        Some(
            spec_rule(
                2,
                2,
                "assert_eq expects exactly 2 arguments"@,
                Some(name),
                None,
                None,
                None,
                false,
            ),
        )
    } else if name == "assert_ne"@ {
        Some(
            spec_rule(
                2,
                2,
                "assert_ne expects exactly 2 arguments"@,
                Some(name),
                None,
                None,
                None,
                false,
            ),
        )
    } else if name == "fail"@ {
        Some(
            spec_rule(
                1,
                1,
                "fail expects exactly 1 argument"@,
                Some(name),
                Some((ArgKind::Str, "fail message must be a String"@)),
                None,
                None,
                false,
            ),
        )
    } else if name == "len"@ {
        Some(
            spec_rule(
                1,
                1,
                "len expects exactly 1 argument"@,
                Some(name),
                None,
                None,
                None,
                false,
            ),
        )
    } else if name == "to_string"@ {
        Some(
            spec_rule(
                1,
                1,
                "to_string expects exactly 1 argument"@,
                Some(name),
                None,
                None,
                None,
                false,
            ),
        )
    } else if name == "clamp_int"@ {
        Some(
            spec_rule(
                3,
                3,
                "clamp_int expects 3 arguments"@,
                Some(name),
                Some((ArgKind::Int, "expected Int value"@)),
                Some((ArgKind::Int, "expected Int value"@)),
                Some((ArgKind::Int, "expected Int value"@)),
                false,
            ),
        )
    } else if name == "floor"@ {
        Some(
            spec_rule(
                1,
                1,
                "floor expects exactly 1 argument"@,
                Some(name),
                Some((ArgKind::Float, "floor expects a Float argument"@)),
                None,
                None,
                false,
            ),
        )
    } else if name == "ceil"@ {
        Some(
            spec_rule(
                1,
                1,
                "ceil expects exactly 1 argument"@,
                Some(name),
                Some((ArgKind::Float, "ceil expects a Float argument"@)),
                None,
                None,
                false,
            ),
        )
    } else if name == "round"@ {
        Some(
            spec_rule(
                1,
                1,
                "round expects exactly 1 argument"@,
                Some(name),
                Some((ArgKind::Float, "round expects a Float argument"@)),
                None,
                None,
                false,
            ),
        )
    } else if name == "abs"@ {
        Some(
            spec_rule(
                1,
                1,
                "abs expects exactly 1 argument"@,
                Some(name),
                Some((ArgKind::Float, "abs expects a Float argument"@)),
                None,
                None,
                false,
            ),
        )
    } else if name == "sqrt"@ {
        Some(
            spec_rule(
                1,
                1,
                "sqrt expects exactly 1 argument"@,
                Some(name),
                Some((ArgKind::Float, "sqrt expects a Float argument"@)),
                None,
                None,
                false,
            ),
        )
    } else if name == "min"@ {
        Some(
            spec_rule(
                2,
                2,
                "min expects exactly 2 arguments"@,
                Some(name),
                Some((ArgKind::Float, "min expects two Float arguments"@)),
                Some((ArgKind::Float, "min expects two Float arguments"@)),
                None,
                true,
            ),
        )
    } else if name == "max"@ {
        Some(
            spec_rule(
                2,
                2,
                "max expects exactly 2 arguments"@,
                Some(name),
                Some((ArgKind::Float, "max expects two Float arguments"@)),
                Some((ArgKind::Float, "max expects two Float arguments"@)),
                None,
                true,
            ),
        )
    } else if name == "env.get"@ {
        Some(
            spec_rule(
                1,
                1,
                "env.get expects exactly 1 argument"@,
                Some(name),
                Some((ArgKind::Str, "env.get expects the name argument to be a String"@)),
                None,
                None,
                false,
            ),
        )
    } else if name == "env.get_or"@ {
        Some(
            spec_rule(
                2,
                2,
                "env.get_or expects exactly 2 arguments"@,
                Some(name),
                Some((ArgKind::Str, "env.get_or expects the name argument to be a String"@)),
                Some((ArgKind::Str, "env.get_or expects the fallback argument to be a String"@)),
                None,
                false,
            ),
        )
    } else if name == "env.has"@ {
        Some(
            spec_rule(
                1,
                1,
                "env.has expects exactly 1 argument"@,
                Some(name),
                Some((ArgKind::Str, "env.has expects the name argument to be a String"@)),
                None,
                None,
                false,
            ),
        )
    } else if name == "env.require"@ {
        Some(
            spec_rule(
                1,
                1,
                "env.require expects exactly 1 argument"@,
                Some(name),
                Some((ArgKind::Str, "env.require expects the name argument to be a String"@)),
                None,
                None,
                false,
            ),
        )
    } else if name == "env.set"@ {
        Some(
            spec_rule(
                2,
                2,
                "env.set expects exactly 2 arguments"@,
                Some(name),
                Some((ArgKind::Str, "env.set expects the name argument to be a String"@)),
                Some((ArgKind::Str, "env.set expects the value argument to be a String"@)),
                None,
                false,
            ),
        )
    } else if name == "env.unset"@ {
        Some(
            spec_rule(
                1,
                1,
                "env.unset expects exactly 1 argument"@,
                Some(name),
                Some((ArgKind::Str, "env.unset expects the name argument to be a String"@)),
                None,
                None,
                false,
            ),
        )
    } else if name == "env.vars"@ {
        Some(
            spec_rule(
                0,
                0,
                "env.vars expects no arguments"@,
                None,
                None,
                None,
                None,
                false,
            ),
        )
    } else if name == "env.set_cwd"@ {
        Some(
            spec_rule(
                1,
                1,
                "env.set_cwd expects exactly 1 argument"@,
                Some(name),
                Some((ArgKind::Str, "env.set_cwd expects the path argument to be a String"@)),
                None,
                None,
                false,
            ),
        )
    } else if name == "path.join"@ {
        Some(
            spec_rule(
                1,
                1,
                "path.join expects exactly 1 argument"@,
                Some(name),
                Some((ArgKind::List, "path.join expects a List argument"@)),
                None,
                None,
                false,
            ),
        )
    } else if name == "path.components"@ {
        Some(
            spec_rule(
                1,
                1,
                "path.components expects exactly 1 argument"@,
                Some(name),
                Some((ArgKind::Str, "path.components expects the argument to be a String"@)),
                None,
                None,
                false,
            ),
        )
    } else if name == "path.set_extension"@ {
        Some(
            spec_rule(
                2,
                2,
                "path.set_extension expects exactly 2 arguments"@,
                Some(name),
                Some((ArgKind::Str, "path.set_extension expects the path argument to be a String"@)),
                Some((ArgKind::Str, "path.set_extension expects the extension argument to be a String"@)),
                None,
                false,
            ),
        )
    } else if name == "path.absolute"@ {
        Some(
            spec_rule(
                1,
                2,
                "path.absolute expects 1 or 2 arguments"@,
                Some(name),
                Some((ArgKind::Str, "path.absolute expects the path argument to be a String"@)),
                Some((ArgKind::Str, "path.absolute expects the base argument to be a String"@)),
                None,
                false,
            ),
        )
    } else if name == "path.relative"@ {
        Some(
            spec_rule(
                2,
                2,
                "path.relative expects exactly 2 arguments"@,
                Some(name),
                Some((ArgKind::Str, "path.relative expects the target argument to be a String"@)),
                Some((ArgKind::Str, "path.relative expects the base argument to be a String"@)),
                None,
                false,
            ),
        )
    } else if name == "path.is_absolute"@ {
        Some(
            spec_rule(
                1,
                1,
                "path.is_absolute expects exactly 1 argument"@,
                Some(name),
                Some((ArgKind::Str, "path.is_absolute expects the argument to be a String"@)),
                None,
                None,
                false,
            ),
        )
    } else if name == "path.separator"@ {
        Some(
            spec_rule(
                0,
                0,
                "path.separator expects no arguments"@,
                None,
                None,
                None,
                None,
                false,
            ),
        )
    } else if name == "read_bytes"@ {
        Some(
            spec_rule(
                0,
                0,
                "read_bytes expects no arguments"@,
                None,
                None,
                None,
                None,
                false,
            ),
        )
    } else if name == "cli.args"@ {
        Some(
            spec_rule(
                0,
                0,
                "cli.args expects no arguments"@,
                None,
                None,
                None,
                None,
                false,
            ),
        )
    } else if name == "cli.parse"@ {
        Some(
            spec_rule(
                1,
                2,
                "cli.parse expects 1 or 2 arguments"@,
                Some(name),
                None,
                None,
                None,
                false,
            ),
        )
    } else if name == "process.run"@ {
        Some(
            spec_rule(
                1,
                5,
                "process.run expects between 1 and 5 arguments"@,
                Some(name),
                Some((ArgKind::Str, "process.run expects the command to be a String"@)),
                None,
                None,
                false,
            ),
        )
    } else if name == "process.spawn"@ {
        Some(
            spec_rule(
                1,
                4,
                "process.spawn expects between 1 and 4 arguments"@,
                Some(name),
                Some((ArgKind::Str, "process.spawn expects the command to be a String"@)),
                None,
                None,
                false,
            ),
        )
    } else if name == "process.kill"@ {
        Some(
            spec_rule(
                1,
                1,
                "process.kill expects exactly 1 argument"@,
                Some(name),
                Some((ArgKind::Int, "process.kill expects the handle to be an Int"@)),
                None,
                None,
                false,
            ),
        )
    } else if name == "process.read_stdout"@ {
        Some(
            spec_rule(
                1,
                2,
                "process.read_* expects between 1 and 2 arguments"@,
                Some("process.read_*"@),
                Some((ArgKind::Int, "process.read_* expects the handle to be an Int"@)),
                Some((ArgKind::Int, "process.read_* expects bytes to be an Int"@)),
                None,
                false,
            ),
        )
    } else if name == "process.read_stderr"@ {
        Some(
            spec_rule(
                1,
                2,
                "process.read_* expects between 1 and 2 arguments"@,
                Some("process.read_*"@),
                Some((ArgKind::Int, "process.read_* expects the handle to be an Int"@)),
                Some((ArgKind::Int, "process.read_* expects bytes to be an Int"@)),
                None,
                false,
            ),
        )
    } else if name == "process.write_stdin"@ {
        Some(
            spec_rule(
                2,
                2,
                "process.write_stdin expects exactly 2 arguments"@,
                Some(name),
                Some((ArgKind::Int, "process.write_stdin expects the handle to be an Int"@)),
                None,
                None,
                false,
            ),
        )
    } else if name == "process.close_stdin"@ {
        Some(
            spec_rule(
                1,
                1,
                "process.close_stdin expects exactly 1 argument"@,
                Some(name),
                Some((ArgKind::Int, "process.close_stdin expects the handle to be an Int"@)),
                None,
                None,
                false,
            ),
        )
    } else if name == "process.close"@ {
        Some(
            spec_rule(
                1,
                1,
                "process.close expects exactly 1 argument"@,
                Some(name),
                Some((ArgKind::Int, "process.close expects the handle to be an Int"@)),
                None,
                None,
                false,
            ),
        )
    } else if name == "process.wait"@ {
        Some(
            spec_rule(
                1,
                1,
                "process.wait expects exactly 1 argument"@,
                Some(name),
                Some((ArgKind::Int, "process.wait expects the handle to be an Int"@)),
                None,
                None,
                false,
            ),
        )
    } else if name == "read_text"@ {
        Some(
            spec_rule(
                1,
                1,
                "read_text expects exactly 1 argument"@,
                Some(name),
                Some((ArgKind::Str, "read_text expects the path argument to be a String"@)),
                None,
                None,
                false,
            ),
        )
    } else if name == "write_text"@ {
        Some(
            spec_rule(
                2,
                2,
                "write_text expects exactly 2 arguments"@,
                Some(name),
                Some((ArgKind::Str, "write_text expects the path argument to be a String"@)),
                Some((ArgKind::Str, "write_text expects the contents argument to be a String"@)),
                None,
                false,
            ),
        )
    } else if name == "write_text_atomic"@ {
        Some(
            spec_rule(
                2,
                2,
                "write_text_atomic expects exactly 2 arguments"@,
                Some(name),
                Some((ArgKind::Str, "write_text_atomic expects the path argument to be a String"@)),
                Some((ArgKind::Str, "write_text_atomic expects the contents argument to be a String"@)),
                None,
                false,
            ),
        )
    } else if name == "create_dir"@ {
        Some(
            spec_rule(
                1,
                2,
                "create_dir expects 1 or 2 arguments"@,
                Some(name),
                Some((ArgKind::Str, "create_dir expects the path argument to be a String"@)),
                Some((ArgKind::Bool, "create_dir expects the optional flag to be a Bool"@)),
                None,
                false,
            ),
        )
    } else if name == "ensure_dir"@ {
        Some(
            spec_rule(
                1,
                1,
                "ensure_dir expects exactly 1 argument"@,
                Some(name),
                Some((ArgKind::Str, "ensure_dir expects the path argument to be a String"@)),
                None,
                None,
                false,
            ),
        )
    } else if name == "ensure_parent"@ {
        Some(
            spec_rule(
                1,
                1,
                "ensure_parent expects exactly 1 argument"@,
                Some(name),
                Some((ArgKind::Str, "ensure_parent expects the path argument to be a String"@)),
                None,
                None,
                false,
            ),
        )
    } else if name == "remove"@ {
        Some(
            spec_rule(
                1,
                1,
                "remove expects exactly 1 argument"@,
                Some(name),
                Some((ArgKind::Str, "remove expects the path argument to be a String"@)),
                None,
                None,
                false,
            ),
        )
    } else if name == "exists"@ {
        Some(
            spec_rule(
                1,
                1,
                "exists expects exactly 1 argument"@,
                Some(name),
                Some((ArgKind::Str, "exists expects the path argument to be a String"@)),
                None,
                None,
                false,
            ),
        )
    } else if name == "is_dir"@ {
        Some(
            spec_rule(
                1,
                1,
                "is_dir expects exactly 1 argument"@,
                Some(name),
                Some((ArgKind::Str, "is_dir expects the path argument to be a String"@)),
                None,
                None,
                false,
            ),
        )
    } else if name == "is_symlink"@ {
        Some(
            spec_rule(
                1,
                1,
                "is_symlink expects exactly 1 argument"@,
                Some(name),
                Some((ArgKind::Str, "is_symlink expects the path argument to be a String"@)),
                None,
                None,
                false,
            ),
        )
    } else if name == "size"@ {
        Some(
            spec_rule(
                1,
                1,
                "size expects exactly 1 argument"@,
                Some(name),
                Some((ArgKind::Str, "size expects the path argument to be a String"@)),
                None,
                None,
                false,
            ),
        )
    } else if name == "modified"@ {
        Some(
            spec_rule(
                1,
                1,
                "modified expects exactly 1 argument"@,
                Some(name),
                Some((ArgKind::Str, "modified expects the path argument to be a String"@)),
                None,
                None,
                false,
            ),
        )
    } else if name == "permissions"@ {
        Some(
            spec_rule(
                1,
                1,
                "permissions expects exactly 1 argument"@,
                Some(name),
                Some((ArgKind::Str, "permissions expects the path argument to be a String"@)),
                None,
                None,
                false,
            ),
        )
    } else if name == "is_readonly"@ {
        Some(
            spec_rule(
                1,
                1,
                "is_readonly expects exactly 1 argument"@,
                Some(name),
                Some((ArgKind::Str, "is_readonly expects the path argument to be a String"@)),
                None,
                None,
                false,
            ),
        )
    } else if name == "list_dir"@ {
        Some(
            spec_rule(
                1,
                1,
                "list_dir expects exactly 1 argument"@,
                Some(name),
                Some((ArgKind::Str, "list_dir expects the path argument to be a String"@)),
                None,
                None,
                false,
            ),
        )
    } else if name == "walk"@ {
        Some(
            spec_rule(
                1,
                1,
                "walk expects exactly 1 argument"@,
                Some(name),
                Some((ArgKind::Str, "walk expects the path argument to be a String"@)),
                None,
                None,
                false,
            ),
        )
    } else if name == "metadata"@ {
        Some(
            spec_rule(
                1,
                1,
                "metadata expects exactly 1 argument"@,
                Some(name),
                Some((ArgKind::Str, "metadata expects the path argument to be a String"@)),
                None,
                None,
                false,
            ),
        )
    } else if name == "glob"@ {
        Some(
            spec_rule(
                1,
                1,
                "glob expects exactly 1 argument"@,
                Some(name),
                Some((ArgKind::Str, "glob expects the pattern argument to be a String"@)),
                None,
                None,
                false,
            ),
        )
    } else if name == "type_of"@ {
        Some(
            spec_rule(
                1,
                1,
                "type_of expects exactly 1 argument"@,
                Some(name),
                None,
                None,
                None,
                false,
            ),
        )
    } else if name == "panic"@ {
        Some(
            spec_rule(
                1,
                1,
                "panic expects exactly 1 argument"@,
                Some(name),
                Some((ArgKind::Str, "panic expects a String argument"@)),
                None,
                None,
                false,
            ),
        )
    } else if name == "exit"@ {
        Some(
            spec_rule(
                1,
                1,
                "exit expects exactly 1 argument"@,
                Some(name),
                Some((ArgKind::Int, "exit expects an Int argument"@)),
                None,
                None,
                false,
            ),
        )
    } else if name == "regex.compile"@ {
        Some(
            spec_rule(
                1,
                1,
                "regex.compile expects exactly 1 argument"@,
                Some(name),
                Some((ArgKind::Str, "regex.compile expects the pattern to be a String"@)),
                None,
                None,
                false,
            ),
        )
    } else if name == "regex.is_match"@ {
        Some(
            spec_rule(
                2,
                2,
                "regex.is_match expects exactly 2 arguments"@,
                Some(name),
                Some((ArgKind::Int, "regex.is_match expects the handle to be an Int"@)),
                Some((ArgKind::Str, "regex.is_match expects the text to be a String"@)),
                None,
                false,
            ),
        )
    } else if name == "regex.find_all"@ {
        Some(
            spec_rule(
                2,
                2,
                "regex.find_all expects exactly 2 arguments"@,
                Some(name),
                Some((ArgKind::Int, "regex.find_all expects the handle to be an Int"@)),
                Some((ArgKind::Str, "regex.find_all expects the text to be a String"@)),
                None,
                false,
            ),
        )
    } else if name == "regex.captures"@ {
        Some(
            spec_rule(
                2,
                2,
                "regex.captures expects exactly 2 arguments"@,
                Some(name),
                Some((ArgKind::Int, "regex.captures expects the handle to be an Int"@)),
                Some((ArgKind::Str, "regex.captures expects the text to be a String"@)),
                None,
                false,
            ),
        )
    } else if name == "regex.split"@ {
        Some(
            spec_rule(
                2,
                2,
                "regex.split expects exactly 2 arguments"@,
                Some(name),
                Some((ArgKind::Int, "regex.split expects the handle to be an Int"@)),
                Some((ArgKind::Str, "regex.split expects the text to be a String"@)),
                None,
                false,
            ),
        )
    } else if name == "regex.replace"@ {
        Some(
            spec_rule(
                3,
                3,
                "regex.replace expects exactly 3 arguments"@,
                Some(name),
                Some((ArgKind::Int, "regex.replace expects the handle to be an Int"@)),
                Some((ArgKind::Str, "regex.replace expects the text to be a String"@)),
                Some((ArgKind::Str, "regex.replace expects the replacement to be a String"@)),
                false,
            ),
        )
    } else if name == "regex.replace_all"@ {
        Some(
            spec_rule(
                3,
                3,
                "regex.replace_all expects exactly 3 arguments"@,
                Some(name),
                Some((ArgKind::Int, "regex.replace_all expects the handle to be an Int"@)),
                Some((ArgKind::Str, "regex.replace_all expects the text to be a String"@)),
                Some((ArgKind::Str, "regex.replace_all expects the replacement to be a String"@)),
                false,
            ),
        )
    } else {
        None
    }
}

fn owned_check(c: Option<(ArgKind, &str)>) -> (r: Option<(ArgKind, String)>)
    ensures
        check_view(r) == match c {
            Some((k, m)) => Some((k, m@)),
            None => None::<(ArgKind, Seq<char>)>,
        },
{
    match c {
        Some((k, m)) => Some((k, String::from_str(m))),
        None => None,
    }
}

fn make_rule(
    min_args: usize,
    max_args: usize,
    arity_message: &str,
    named_for: Option<&str>,
    first: Option<(ArgKind, &str)>,
    second: Option<(ArgKind, &str)>,
    third: Option<(ArgKind, &str)>,
    checks_after_all: bool,
) -> (r: BuiltinRule)
    ensures
        r@ == spec_rule(
            min_args as nat,
            max_args as nat,
            arity_message@,
            match named_for {
                Some(n) => Some(n@),
                None => None,
            },
            match first {
                Some((k, m)) => Some((k, m@)),
                None => None,
            },
            match second {
                Some((k, m)) => Some((k, m@)),
                None => None,
            },
            match third {
                Some((k, m)) => Some((k, m@)),
                None => None,
            },
            checks_after_all,
        ),
{
    let named_message = match named_for {
        Some(n) => {
            let mut m = String::from_str("named arguments are not supported for ");
            m.append(n);
            Some(m)
        },
        None => None,
    };
    BuiltinRule {
        min_args,
        max_args,
        arity_message: String::from_str(arity_message),
        named_message,
        first: owned_check(first),
        second: owned_check(second),
        third: owned_check(third),
        checks_after_all,
    }
}

/// The rules of the builtin called `name`, if there is one (see
/// [`builtin_rule_of`]).
#[verifier::rlimit(50)]
pub fn builtin_rule(name: &str) -> (r: Option<BuiltinRule>)
    ensures
        match r {
            Some(x) => builtin_rule_of(name@) == Some(x@),
            None => builtin_rule_of(name@) is None,
        },
{
    if str_eq(name, "assert") {
        return Some(
            make_rule(
                1,
                2,
                "assert expects 1 or 2 arguments",
                Some("assert"),
                Some((ArgKind::Bool, "expected Bool value")),
                Some((ArgKind::Str, "assert message must be a String")),
                None,
                false,
            ),
        );
    }
    if str_eq(name, "assert_eq") {
        return Some(
            make_rule(
                2,
                2,
                "assert_eq expects exactly 2 arguments",
                Some("assert_eq"),
                None,
                None,
                None,
                false,
            ),
        );
    }
    if str_eq(name, "assert_ne") {
        return Some(
            make_rule(
                2,
                2,
                "assert_ne expects exactly 2 arguments",
                Some("assert_ne"),
                None,
                None,
                None,
                false,
            ),
        );
    }
    if str_eq(name, "fail") {
        return Some(
            make_rule(
                1,
                1,
                "fail expects exactly 1 argument",
                Some("fail"),
                Some((ArgKind::Str, "fail message must be a String")),
                None,
                None,
                false,
            ),
        );
    }
    if str_eq(name, "len") {
        return Some(
            make_rule(
                1,
                1,
                "len expects exactly 1 argument",
                Some("len"),
                None,
                None,
                None,
                false,
            ),
        );
    }
    if str_eq(name, "to_string") {
        return Some(
            make_rule(
                1,
                1,
                "to_string expects exactly 1 argument",
                Some("to_string"),
                None,
                None,
                None,
                false,
            ),
        );
    }
    if str_eq(name, "clamp_int") {
        return Some(
            make_rule(
                3,
                3,
                "clamp_int expects 3 arguments",
                Some("clamp_int"),
                Some((ArgKind::Int, "expected Int value")),
                Some((ArgKind::Int, "expected Int value")),
                Some((ArgKind::Int, "expected Int value")),
                false,
            ),
        );
    }
    if str_eq(name, "floor") {
        return Some(
            make_rule(
                1,
                1,
                "floor expects exactly 1 argument",
                Some("floor"),
                Some((ArgKind::Float, "floor expects a Float argument")),
                None,
                None,
                false,
            ),
        );
    }
    if str_eq(name, "ceil") {
        return Some(
            make_rule(
                1,
                1,
                "ceil expects exactly 1 argument",
                Some("ceil"),
                Some((ArgKind::Float, "ceil expects a Float argument")),
                None,
                None,
                false,
            ),
        );
    }
    if str_eq(name, "round") {
        return Some(
            make_rule(
                1,
                1,
                "round expects exactly 1 argument",
                Some("round"),
                Some((ArgKind::Float, "round expects a Float argument")),
                None,
                None,
                false,
            ),
        );
    }
    if str_eq(name, "abs") {
        return Some(
            make_rule(
                1,
                1,
                "abs expects exactly 1 argument",
                Some("abs"),
                Some((ArgKind::Float, "abs expects a Float argument")),
                None,
                None,
                false,
            ),
        );
    }
    if str_eq(name, "sqrt") {
        return Some(
            make_rule(
                1,
                1,
                "sqrt expects exactly 1 argument",
                Some("sqrt"),
                Some((ArgKind::Float, "sqrt expects a Float argument")),
                None,
                None,
                false,
            ),
        );
    }
    if str_eq(name, "min") {
        return Some(
            make_rule(
                2,
                2,
                "min expects exactly 2 arguments",
                Some("min"),
                Some((ArgKind::Float, "min expects two Float arguments")),
                Some((ArgKind::Float, "min expects two Float arguments")),
                None,
                true,
            ),
        );
    }
    if str_eq(name, "max") {
        return Some(
            make_rule(
                2,
                2,
                "max expects exactly 2 arguments",
                Some("max"),
                Some((ArgKind::Float, "max expects two Float arguments")),
                Some((ArgKind::Float, "max expects two Float arguments")),
                None,
                true,
            ),
        );
    }
    if str_eq(name, "env.get") {
        return Some(
            make_rule(
                1,
                1,
                "env.get expects exactly 1 argument",
                Some("env.get"),
                Some((ArgKind::Str, "env.get expects the name argument to be a String")),
                None,
                None,
                false,
            ),
        );
    }
    if str_eq(name, "env.get_or") {
        return Some(
            make_rule(
                2,
                2,
                "env.get_or expects exactly 2 arguments",
                Some("env.get_or"),
                Some((ArgKind::Str, "env.get_or expects the name argument to be a String")),
                Some((ArgKind::Str, "env.get_or expects the fallback argument to be a String")),
                None,
                false,
            ),
        );
    }
    if str_eq(name, "env.has") {
        return Some(
            make_rule(
                1,
                1,
                "env.has expects exactly 1 argument",
                Some("env.has"),
                Some((ArgKind::Str, "env.has expects the name argument to be a String")),
                None,
                None,
                false,
            ),
        );
    }
    if str_eq(name, "env.require") {
        return Some(
            make_rule(
                1,
                1,
                "env.require expects exactly 1 argument",
                Some("env.require"),
                Some((ArgKind::Str, "env.require expects the name argument to be a String")),
                None,
                None,
                false,
            ),
        );
    }
    if str_eq(name, "env.set") {
        return Some(
            make_rule(
                2,
                2,
                "env.set expects exactly 2 arguments",
                Some("env.set"),
                Some((ArgKind::Str, "env.set expects the name argument to be a String")),
                Some((ArgKind::Str, "env.set expects the value argument to be a String")),
                None,
                false,
            ),
        );
    }
    if str_eq(name, "env.unset") {
        return Some(
            make_rule(
                1,
                1,
                "env.unset expects exactly 1 argument",
                Some("env.unset"),
                Some((ArgKind::Str, "env.unset expects the name argument to be a String")),
                None,
                None,
                false,
            ),
        );
    }
    if str_eq(name, "env.vars") {
        return Some(
            make_rule(
                0,
                0,
                "env.vars expects no arguments",
                None,
                None,
                None,
                None,
                false,
            ),
        );
    }
    if str_eq(name, "env.set_cwd") {
        return Some(
            make_rule(
                1,
                1,
                "env.set_cwd expects exactly 1 argument",
                Some("env.set_cwd"),
                Some((ArgKind::Str, "env.set_cwd expects the path argument to be a String")),
                None,
                None,
                false,
            ),
        );
    }
    if str_eq(name, "path.join") {
        return Some(
            make_rule(
                1,
                1,
                "path.join expects exactly 1 argument",
                Some("path.join"),
                Some((ArgKind::List, "path.join expects a List argument")),
                None,
                None,
                false,
            ),
        );
    }
    if str_eq(name, "path.components") {
        return Some(
            make_rule(
                1,
                1,
                "path.components expects exactly 1 argument",
                Some("path.components"),
                Some((ArgKind::Str, "path.components expects the argument to be a String")),
                None,
                None,
                false,
            ),
        );
    }
    if str_eq(name, "path.set_extension") {
        return Some(
            make_rule(
                2,
                2,
                "path.set_extension expects exactly 2 arguments",
                Some("path.set_extension"),
                Some((ArgKind::Str, "path.set_extension expects the path argument to be a String")),
                Some((ArgKind::Str, "path.set_extension expects the extension argument to be a String")),
                None,
                false,
            ),
        );
    }
    if str_eq(name, "path.absolute") {
        return Some(
            make_rule(
                1,
                2,
                "path.absolute expects 1 or 2 arguments",
                Some("path.absolute"),
                Some((ArgKind::Str, "path.absolute expects the path argument to be a String")),
                Some((ArgKind::Str, "path.absolute expects the base argument to be a String")),
                None,
                false,
            ),
        );
    }
    if str_eq(name, "path.relative") {
        return Some(
            make_rule(
                2,
                2,
                "path.relative expects exactly 2 arguments",
                Some("path.relative"),
                Some((ArgKind::Str, "path.relative expects the target argument to be a String")),
                Some((ArgKind::Str, "path.relative expects the base argument to be a String")),
                None,
                false,
            ),
        );
    }
    if str_eq(name, "path.is_absolute") {
        return Some(
            make_rule(
                1,
                1,
                "path.is_absolute expects exactly 1 argument",
                Some("path.is_absolute"),
                Some((ArgKind::Str, "path.is_absolute expects the argument to be a String")),
                None,
                None,
                false,
            ),
        );
    }
    if str_eq(name, "path.separator") {
        return Some(
            make_rule(
                0,
                0,
                "path.separator expects no arguments",
                None,
                None,
                None,
                None,
                false,
            ),
        );
    }
    if str_eq(name, "read_bytes") {
        return Some(
            make_rule(
                0,
                0,
                "read_bytes expects no arguments",
                None,
                None,
                None,
                None,
                false,
            ),
        );
    }
    if str_eq(name, "cli.args") {
        return Some(
            make_rule(
                0,
                0,
                "cli.args expects no arguments",
                None,
                None,
                None,
                None,
                false,
            ),
        );
    }
    if str_eq(name, "cli.parse") {
        return Some(
            make_rule(
                1,
                2,
                "cli.parse expects 1 or 2 arguments",
                Some("cli.parse"),
                None,
                None,
                None,
                false,
            ),
        );
    }
    if str_eq(name, "process.run") {
        return Some(
            make_rule(
                1,
                5,
                "process.run expects between 1 and 5 arguments",
                Some("process.run"),
                Some((ArgKind::Str, "process.run expects the command to be a String")),
                None,
                None,
                false,
            ),
        );
    }
    if str_eq(name, "process.spawn") {
        return Some(
            make_rule(
                1,
                4,
                "process.spawn expects between 1 and 4 arguments",
                Some("process.spawn"),
                Some((ArgKind::Str, "process.spawn expects the command to be a String")),
                None,
                None,
                false,
            ),
        );
    }
    if str_eq(name, "process.kill") {
        return Some(
            make_rule(
                1,
                1,
                "process.kill expects exactly 1 argument",
                Some("process.kill"),
                Some((ArgKind::Int, "process.kill expects the handle to be an Int")),
                None,
                None,
                false,
            ),
        );
    }
    if str_eq(name, "process.read_stdout") {
        return Some(
            make_rule(
                1,
                2,
                "process.read_* expects between 1 and 2 arguments",
                Some("process.read_*"),
                Some((ArgKind::Int, "process.read_* expects the handle to be an Int")),
                Some((ArgKind::Int, "process.read_* expects bytes to be an Int")),
                None,
                false,
            ),
        );
    }
    if str_eq(name, "process.read_stderr") {
        return Some(
            make_rule(
                1,
                2,
                "process.read_* expects between 1 and 2 arguments",
                Some("process.read_*"),
                Some((ArgKind::Int, "process.read_* expects the handle to be an Int")),
                Some((ArgKind::Int, "process.read_* expects bytes to be an Int")),
                None,
                false,
            ),
        );
    }
    if str_eq(name, "process.write_stdin") {
        return Some(
            make_rule(
                2,
                2,
                "process.write_stdin expects exactly 2 arguments",
                Some("process.write_stdin"),
                Some((ArgKind::Int, "process.write_stdin expects the handle to be an Int")),
                None,
                None,
                false,
            ),
        );
    }
    if str_eq(name, "process.close_stdin") {
        return Some(
            make_rule(
                1,
                1,
                "process.close_stdin expects exactly 1 argument",
                Some("process.close_stdin"),
                Some((ArgKind::Int, "process.close_stdin expects the handle to be an Int")),
                None,
                None,
                false,
            ),
        );
    }
    if str_eq(name, "process.close") {
        return Some(
            make_rule(
                1,
                1,
                "process.close expects exactly 1 argument",
                Some("process.close"),
                Some((ArgKind::Int, "process.close expects the handle to be an Int")),
                None,
                None,
                false,
            ),
        );
    }
    if str_eq(name, "process.wait") {
        return Some(
            make_rule(
                1,
                1,
                "process.wait expects exactly 1 argument",
                Some("process.wait"),
                Some((ArgKind::Int, "process.wait expects the handle to be an Int")),
                None,
                None,
                false,
            ),
        );
    }
    if str_eq(name, "read_text") {
        return Some(
            make_rule(
                1,
                1,
                "read_text expects exactly 1 argument",
                Some("read_text"),
                Some((ArgKind::Str, "read_text expects the path argument to be a String")),
                None,
                None,
                false,
            ),
        );
    }
    if str_eq(name, "write_text") {
        return Some(
            make_rule(
                2,
                2,
                "write_text expects exactly 2 arguments",
                Some("write_text"),
                Some((ArgKind::Str, "write_text expects the path argument to be a String")),
                Some((ArgKind::Str, "write_text expects the contents argument to be a String")),
                None,
                false,
            ),
        );
    }
    if str_eq(name, "write_text_atomic") {
        return Some(
            make_rule(
                2,
                2,
                "write_text_atomic expects exactly 2 arguments",
                Some("write_text_atomic"),
                Some((ArgKind::Str, "write_text_atomic expects the path argument to be a String")),
                Some((ArgKind::Str, "write_text_atomic expects the contents argument to be a String")),
                None,
                false,
            ),
        );
    }
    if str_eq(name, "create_dir") {
        return Some(
            make_rule(
                1,
                2,
                "create_dir expects 1 or 2 arguments",
                Some("create_dir"),
                Some((ArgKind::Str, "create_dir expects the path argument to be a String")),
                Some((ArgKind::Bool, "create_dir expects the optional flag to be a Bool")),
                None,
                false,
            ),
        );
    }
    if str_eq(name, "ensure_dir") {
        return Some(
            make_rule(
                1,
                1,
                "ensure_dir expects exactly 1 argument",
                Some("ensure_dir"),
                Some((ArgKind::Str, "ensure_dir expects the path argument to be a String")),
                None,
                None,
                false,
            ),
        );
    }
    if str_eq(name, "ensure_parent") {
        return Some(
            make_rule(
                1,
                1,
                "ensure_parent expects exactly 1 argument",
                Some("ensure_parent"),
                Some((ArgKind::Str, "ensure_parent expects the path argument to be a String")),
                None,
                None,
                false,
            ),
        );
    }
    if str_eq(name, "remove") {
        return Some(
            make_rule(
                1,
                1,
                "remove expects exactly 1 argument",
                Some("remove"),
                Some((ArgKind::Str, "remove expects the path argument to be a String")),
                None,
                None,
                false,
            ),
        );
    }
    if str_eq(name, "exists") {
        return Some(
            make_rule(
                1,
                1,
                "exists expects exactly 1 argument",
                Some("exists"),
                Some((ArgKind::Str, "exists expects the path argument to be a String")),
                None,
                None,
                false,
            ),
        );
    }
    if str_eq(name, "is_dir") {
        return Some(
            make_rule(
                1,
                1,
                "is_dir expects exactly 1 argument",
                Some("is_dir"),
                Some((ArgKind::Str, "is_dir expects the path argument to be a String")),
                None,
                None,
                false,
            ),
        );
    }
    if str_eq(name, "is_symlink") {
        return Some(
            make_rule(
                1,
                1,
                "is_symlink expects exactly 1 argument",
                Some("is_symlink"),
                Some((ArgKind::Str, "is_symlink expects the path argument to be a String")),
                None,
                None,
                false,
            ),
        );
    }
    if str_eq(name, "size") {
        return Some(
            make_rule(
                1,
                1,
                "size expects exactly 1 argument",
                Some("size"),
                Some((ArgKind::Str, "size expects the path argument to be a String")),
                None,
                None,
                false,
            ),
        );
    }
    if str_eq(name, "modified") {
        return Some(
            make_rule(
                1,
                1,
                "modified expects exactly 1 argument",
                Some("modified"),
                Some((ArgKind::Str, "modified expects the path argument to be a String")),
                None,
                None,
                false,
            ),
        );
    }
    if str_eq(name, "permissions") {
        return Some(
            make_rule(
                1,
                1,
                "permissions expects exactly 1 argument",
                Some("permissions"),
                Some((ArgKind::Str, "permissions expects the path argument to be a String")),
                None,
                None,
                false,
            ),
        );
    }
    if str_eq(name, "is_readonly") {
        return Some(
            make_rule(
                1,
                1,
                "is_readonly expects exactly 1 argument",
                Some("is_readonly"),
                Some((ArgKind::Str, "is_readonly expects the path argument to be a String")),
                None,
                None,
                false,
            ),
        );
    }
    if str_eq(name, "list_dir") {
        return Some(
            make_rule(
                1,
                1,
                "list_dir expects exactly 1 argument",
                Some("list_dir"),
                Some((ArgKind::Str, "list_dir expects the path argument to be a String")),
                None,
                None,
                false,
            ),
        );
    }
    if str_eq(name, "walk") {
        return Some(
            make_rule(
                1,
                1,
                "walk expects exactly 1 argument",
                Some("walk"),
                Some((ArgKind::Str, "walk expects the path argument to be a String")),
                None,
                None,
                false,
            ),
        );
    }
    if str_eq(name, "metadata") {
        return Some(
            make_rule(
                1,
                1,
                "metadata expects exactly 1 argument",
                Some("metadata"),
                Some((ArgKind::Str, "metadata expects the path argument to be a String")),
                None,
                None,
                false,
            ),
        );
    }
    if str_eq(name, "glob") {
        return Some(
            make_rule(
                1,
                1,
                "glob expects exactly 1 argument",
                Some("glob"),
                Some((ArgKind::Str, "glob expects the pattern argument to be a String")),
                None,
                None,
                false,
            ),
        );
    }
    if str_eq(name, "type_of") {
        return Some(
            make_rule(
                1,
                1,
                "type_of expects exactly 1 argument",
                Some("type_of"),
                None,
                None,
                None,
                false,
            ),
        );
    }
    if str_eq(name, "panic") {
        return Some(
            make_rule(
                1,
                1,
                "panic expects exactly 1 argument",
                Some("panic"),
                Some((ArgKind::Str, "panic expects a String argument")),
                None,
                None,
                false,
            ),
        );
    }
    if str_eq(name, "exit") {
        return Some(
            make_rule(
                1,
                1,
                "exit expects exactly 1 argument",
                Some("exit"),
                Some((ArgKind::Int, "exit expects an Int argument")),
                None,
                None,
                false,
            ),
        );
    }
    if str_eq(name, "regex.compile") {
        return Some(
            make_rule(
                1,
                1,
                "regex.compile expects exactly 1 argument",
                Some("regex.compile"),
                Some((ArgKind::Str, "regex.compile expects the pattern to be a String")),
                None,
                None,
                false,
            ),
        );
    }
    if str_eq(name, "regex.is_match") {
        return Some(
            make_rule(
                2,
                2,
                "regex.is_match expects exactly 2 arguments",
                Some("regex.is_match"),
                Some((ArgKind::Int, "regex.is_match expects the handle to be an Int")),
                Some((ArgKind::Str, "regex.is_match expects the text to be a String")),
                None,
                false,
            ),
        );
    }
    if str_eq(name, "regex.find_all") {
        return Some(
            make_rule(
                2,
                2,
                "regex.find_all expects exactly 2 arguments",
                Some("regex.find_all"),
                Some((ArgKind::Int, "regex.find_all expects the handle to be an Int")),
                Some((ArgKind::Str, "regex.find_all expects the text to be a String")),
                None,
                false,
            ),
        );
    }
    if str_eq(name, "regex.captures") {
        return Some(
            make_rule(
                2,
                2,
                "regex.captures expects exactly 2 arguments",
                Some("regex.captures"),
                Some((ArgKind::Int, "regex.captures expects the handle to be an Int")),
                Some((ArgKind::Str, "regex.captures expects the text to be a String")),
                None,
                false,
            ),
        );
    }
    if str_eq(name, "regex.split") {
        return Some(
            make_rule(
                2,
                2,
                "regex.split expects exactly 2 arguments",
                Some("regex.split"),
                Some((ArgKind::Int, "regex.split expects the handle to be an Int")),
                Some((ArgKind::Str, "regex.split expects the text to be a String")),
                None,
                false,
            ),
        );
    }
    if str_eq(name, "regex.replace") {
        return Some(
            make_rule(
                3,
                3,
                "regex.replace expects exactly 3 arguments",
                Some("regex.replace"),
                Some((ArgKind::Int, "regex.replace expects the handle to be an Int")),
                Some((ArgKind::Str, "regex.replace expects the text to be a String")),
                Some((ArgKind::Str, "regex.replace expects the replacement to be a String")),
                false,
            ),
        );
    }
    if str_eq(name, "regex.replace_all") {
        return Some(
            make_rule(
                3,
                3,
                "regex.replace_all expects exactly 3 arguments",
                Some("regex.replace_all"),
                Some((ArgKind::Int, "regex.replace_all expects the handle to be an Int")),
                Some((ArgKind::Str, "regex.replace_all expects the text to be a String")),
                Some((ArgKind::Str, "regex.replace_all expects the replacement to be a String")),
                false,
            ),
        );
    }
    None
}

/// Why a call of a builtin with rules `rule` and arguments named `names`
/// is refused before any argument is compiled, if it is: the count must be
/// in range; then no argument may be named, when the builtin refuses names.
pub open spec fn shape_error(rule: SpecBuiltinRule, names: Seq<Option<Seq<char>>>) -> Option<
    Seq<char>,
> {
    if names.len() < rule.min_args || names.len() > rule.max_args {
        Some(rule.arity_message)
    } else {
        match rule.named_message {
            Some(m) => if has_named_argument(names) {
                Some(m)
            } else {
                None
            },
            None => None,
        }
    }
}

/// Checks the argument count and names of a call of a builtin (see
/// [`shape_error`]).
pub fn check_builtin_call(rule: &BuiltinRule, arguments: &[CallArgument]) -> (r: Result<(), String>)
    ensures
        match shape_error(rule@, argument_names(arguments@)) {
            None => r is Ok,
            Some(m) => r matches Err(e) && e@ == m,
        },
{
    let n = arguments.len();
    if n < rule.min_args || n > rule.max_args {
        return Err(rule.arity_message.clone());
    }
    match &rule.named_message {
        None => Ok(()),
        Some(m) => {
            let mut i: usize = 0;
            while i < n
                invariant
                    i <= n,
                    n == arguments@.len(),
                    rule.min_args <= n <= rule.max_args,
                    rule.named_message == Some(*m),
                    forall|k: int| 0 <= k < i ==> arguments@[k].name is None,
                decreases n - i,
            {
                if arguments[i].name.is_some() {
                    assert(argument_names(arguments@)[i as int] is Some);
                    return Err(m.clone());
                }
                i = i + 1;
            }
            proof {
                if has_named_argument(argument_names(arguments@)) {
                    let k = choose|k: int|
                        0 <= k < argument_names(arguments@).len() && argument_names(
                            arguments@,
                        )[k] is Some;
                    assert(arguments@[k].name is None);
                }
            }
            Ok(())
        },
    }
}

/// The check on argument `index` (counting from zero), if there is one.
pub open spec fn check_at(rule: SpecBuiltinRule, index: nat) -> Option<(ArgKind, Seq<char>)> {
    if index == 0 {
        rule.first
    } else if index == 1 {
        rule.second
    } else if index == 2 {
        rule.third
    } else {
        None
    }
}

/// Why argument `index` of a builtin call, compiled to `value`, is refused,
/// if it is: it must be of the kind its check names.
pub open spec fn argument_error(rule: SpecBuiltinRule, index: nat, value: ExprValue) -> Option<Seq<char>> {
    match check_at(rule, index) {
        Some((k, m)) => if kind_matches(k, value) {
            None
        } else {
            Some(m)
        },
        None => None,
    }
}

/// Checks one compiled argument of a builtin call (see
/// [`argument_error`]).
pub fn check_builtin_argument(rule: &BuiltinRule, index: usize, value: &ExprValue) -> (r: Result<(), String>)
    ensures
        match argument_error(rule@, index as nat, *value) {
            None => r is Ok,
            Some(m) => r matches Err(e) && e@ == m,
        },
{
    let check = if index == 0 {
        &rule.first
    } else if index == 1 {
        &rule.second
    } else if index == 2 {
        &rule.third
    } else {
        return Ok(());
    };
    match check {
        None => Ok(()),
        Some((k, m)) => {
            let ok = match k {
                ArgKind::Any => true,
                ArgKind::Int => match value {
                    ExprValue::Int(_) => true,
                    _ => false,
                },
                ArgKind::Float => match value {
                    ExprValue::Float(_) => true,
                    _ => false,
                },
                ArgKind::Bool => match value {
                    ExprValue::Bool(_) => true,
                    _ => false,
                },
                ArgKind::Str => match value {
                    ExprValue::String(_) => true,
                    _ => false,
                },
                ArgKind::List => match value {
                    ExprValue::List { .. } => true,
                    _ => false,
                },
            };
            if ok {
                Ok(())
            } else {
                Err(m.clone())
            }
        },
    }
}

} // verus!
