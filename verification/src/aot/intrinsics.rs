//! Standard-library functions that the back end expands inline.
use vstd::prelude::*;

use crate::text::{chars_of, seq_starts_with, slice_chars, starts_with, str_eq, string_from_chars};

verus! {

/// A standard-library function that needs special code generation; its Tea
/// name is `__intrinsic_` followed by the snake-case name of the variant.
#[derive(Debug, Clone, Copy, PartialEq, Eq, Hash, Structural)]
pub enum Intrinsic {
    ToString,
    StringIndexOf,
    StringSplit,
    StringContains,
    StringReplace,
    Fail,
    AssertSnapshot,
    EnvGet,
    EnvSet,
    EnvVars,
    EnvCwd,
    FsReadText,
    FsWriteText,
    FsCreateDir,
    FsRemove,
    FsExists,
    FsListDir,
    FsWalk,
    PathJoin,
    PathComponents,
    PathDirname,
    PathBasename,
    PathExtension,
}

/// The prefix that marks an intrinsic's Tea name.
pub open spec fn intrinsic_prefix() -> Seq<char> {
    "__intrinsic_"@
}

/// The intrinsic with the given name (without the prefix).
pub open spec fn intrinsic_named(name: Seq<char>) -> Option<Intrinsic> {
    if name == "to_string"@ {
        Some(Intrinsic::ToString)
    } else if name == "string_index_of"@ {
        Some(Intrinsic::StringIndexOf)
    } else if name == "string_split"@ {
        Some(Intrinsic::StringSplit)
    } else if name == "string_contains"@ {
        Some(Intrinsic::StringContains)
    } else if name == "string_replace"@ {
        Some(Intrinsic::StringReplace)
    } else if name == "fail"@ {
        Some(Intrinsic::Fail)
    } else if name == "assert_snapshot"@ {
        Some(Intrinsic::AssertSnapshot)
    } else if name == "env_get"@ {
        Some(Intrinsic::EnvGet)
    } else if name == "env_set"@ {
        Some(Intrinsic::EnvSet)
    } else if name == "env_vars"@ {
        Some(Intrinsic::EnvVars)
    } else if name == "env_cwd"@ {
        Some(Intrinsic::EnvCwd)
    } else if name == "fs_read_text"@ {
        Some(Intrinsic::FsReadText)
    } else if name == "fs_write_text"@ {
        Some(Intrinsic::FsWriteText)
    } else if name == "fs_create_dir"@ {
        Some(Intrinsic::FsCreateDir)
    } else if name == "fs_remove"@ {
        Some(Intrinsic::FsRemove)
    } else if name == "fs_exists"@ {
        Some(Intrinsic::FsExists)
    } else if name == "fs_list_dir"@ {
        Some(Intrinsic::FsListDir)
    } else if name == "fs_walk"@ {
        Some(Intrinsic::FsWalk)
    } else if name == "path_join"@ {
        Some(Intrinsic::PathJoin)
    } else if name == "path_components"@ {
        Some(Intrinsic::PathComponents)
    } else if name == "path_dirname"@ {
        Some(Intrinsic::PathDirname)
    } else if name == "path_basename"@ {
        Some(Intrinsic::PathBasename)
    } else if name == "path_extension"@ {
        Some(Intrinsic::PathExtension)
    } else {
        None
    }
}

/// The intrinsic that a Tea function name denotes, if any.
pub open spec fn intrinsic_of(name: Seq<char>) -> Option<Intrinsic> {
    if seq_starts_with(name, intrinsic_prefix()) {
        intrinsic_named(name.subrange(intrinsic_prefix().len() as int, name.len() as int))
    } else {
        None
    }
}

impl Intrinsic {
    /// Parses an intrinsic from its Tea function name (with the
    /// `__intrinsic_` prefix); `None` for any other name.
    pub fn from_name(name: &str) -> (r: Option<Self>)
        ensures
            r == intrinsic_of(name@),
    {
        let cs = chars_of(name);
        let prefix = chars_of("__intrinsic_");
        if !starts_with(cs.as_slice(), prefix.as_slice()) {
            return None;
        }
        let rest_chars = slice_chars(cs.as_slice(), prefix.len(), cs.len());
        let rest = string_from_chars(rest_chars.as_slice());
        let rest = rest.as_str();
        if str_eq(rest, "to_string") {
            return Some(Intrinsic::ToString);
        }
        if str_eq(rest, "string_index_of") {
            return Some(Intrinsic::StringIndexOf);
        }
        if str_eq(rest, "string_split") {
            return Some(Intrinsic::StringSplit);
        }
        if str_eq(rest, "string_contains") {
            return Some(Intrinsic::StringContains);
        }
        if str_eq(rest, "string_replace") {
            return Some(Intrinsic::StringReplace);
        }
        if str_eq(rest, "fail") {
            return Some(Intrinsic::Fail);
        }
        if str_eq(rest, "assert_snapshot") {
            return Some(Intrinsic::AssertSnapshot);
        }
        if str_eq(rest, "env_get") {
            return Some(Intrinsic::EnvGet);
        }
        if str_eq(rest, "env_set") {
            return Some(Intrinsic::EnvSet);
        }
        if str_eq(rest, "env_vars") {
            return Some(Intrinsic::EnvVars);
        }
        if str_eq(rest, "env_cwd") {
            return Some(Intrinsic::EnvCwd);
        }
        if str_eq(rest, "fs_read_text") {
            return Some(Intrinsic::FsReadText);
        }
        if str_eq(rest, "fs_write_text") {
            return Some(Intrinsic::FsWriteText);
        }
        if str_eq(rest, "fs_create_dir") {
            return Some(Intrinsic::FsCreateDir);
        }
        if str_eq(rest, "fs_remove") {
            return Some(Intrinsic::FsRemove);
        }
        if str_eq(rest, "fs_exists") {
            return Some(Intrinsic::FsExists);
        }
        if str_eq(rest, "fs_list_dir") {
            return Some(Intrinsic::FsListDir);
        }
        if str_eq(rest, "fs_walk") {
            return Some(Intrinsic::FsWalk);
        }
        if str_eq(rest, "path_join") {
            return Some(Intrinsic::PathJoin);
        }
        if str_eq(rest, "path_components") {
            return Some(Intrinsic::PathComponents);
        }
        if str_eq(rest, "path_dirname") {
            return Some(Intrinsic::PathDirname);
        }
        if str_eq(rest, "path_basename") {
            return Some(Intrinsic::PathBasename);
        }
        if str_eq(rest, "path_extension") {
            return Some(Intrinsic::PathExtension);
        }
        None
    }
}

} // verus!
