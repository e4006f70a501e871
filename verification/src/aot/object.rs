//! The settings an object file is emitted with: the optimisation level and
//! the flag handed to the `opt` tool, the target triple, CPU and features,
//! and the relocation model.
use vstd::prelude::*;

use crate::aot::{normalize_target_triple, normalized_triple};
use crate::text::{chars_of, find_seq, find_seq_from};

verus! {

/// How hard the optimiser works (the levels LLVM offers).
#[derive(Debug, Clone, Copy, PartialEq, Eq, Structural)]
pub enum OptimizationLevel {
    Disabled,
    Less,
    Default,
    Aggressive,
}

/// What an object file is compiled with. Unset fields take the target's
/// defaults.
#[derive(Debug)]
pub struct ObjectCompileOptions<'a> {
    pub triple: Option<&'a str>,
    pub cpu: Option<&'a str>,
    pub features: Option<&'a str>,
    pub opt_level: OptimizationLevel,
    pub entry_symbol: Option<&'a str>,
    pub lto: bool,
}

impl<'a> Default for ObjectCompileOptions<'a> {
    /// The host target, full optimisation, no LTO.
    fn default() -> (o: Self)
        ensures
            o.triple is None,
            o.cpu is None,
            o.features is None,
            o.opt_level == OptimizationLevel::Aggressive,
            o.entry_symbol is None,
            !o.lto,
    {
        ObjectCompileOptions {
            triple: None,
            cpu: None,
            features: None,
            opt_level: OptimizationLevel::Aggressive,
            entry_symbol: None,
            lto: false,
        }
    }
}

/// The flag handed to the `opt` tool for a level; level `None` runs no
/// optimisation at all.
pub open spec fn opt_flag_of(level: OptimizationLevel) -> Option<Seq<char>> {
    match level {
        OptimizationLevel::Disabled => None,
        OptimizationLevel::Less => Some("-O1"@),
        OptimizationLevel::Default => Some("-O2"@),
        OptimizationLevel::Aggressive => Some("-O3"@),
    }
}

/// The flag for the `opt` tool, or `None`
/// when the module is left as it is.
pub fn opt_flag(level: OptimizationLevel) -> (r: Option<String>)
    ensures
        match r {
            Some(f) => opt_flag_of(level) == Some(f@),
            None => opt_flag_of(level) is None,
        },
{
    match level {
        OptimizationLevel::Disabled => None,
        OptimizationLevel::Less => Some(String::from_str("-O1")),
        OptimizationLevel::Default => Some(String::from_str("-O2")),
        OptimizationLevel::Aggressive => Some(String::from_str("-O3")),
    }
}

/// How code refers to addresses in the emitted object.
#[derive(Debug, Clone, Copy, PartialEq, Eq, Structural)]
pub enum RelocationMode {
    /// The target's default.
    Default,
    /// Position-independent code.
    Pic,
}

/// Position-independent code everywhere but on Windows targets.
pub open spec fn relocation_for(triple: Seq<char>) -> RelocationMode {
    if find_seq_from(triple, "windows"@, 0) is Some {
        RelocationMode::Default
    } else {
        RelocationMode::Pic
    }
}

/// The relocation model for a (normalised) target triple.
pub fn relocation_mode(triple: &str) -> (r: RelocationMode)
    ensures
        r == relocation_for(triple@),
{
    let t = chars_of(triple);
    let w = chars_of("windows");
    if find_seq(t.as_slice(), w.as_slice()).is_some() {
        RelocationMode::Default
    } else {
        RelocationMode::Pic
    }
}

/// Everything the target machine is created with.
#[derive(Debug)]
pub struct ObjectSettings {
    pub triple: String,
    pub cpu: String,
    pub features: String,
    pub opt_level: OptimizationLevel,
    pub reloc_mode: RelocationMode,
}

/// The settings for compiling with `options`:
/// the triple asked for, else the host's, normalised; the CPU asked for,
/// else `generic`; the features asked for, else none; PIC unless the
/// triple names Windows.
pub fn object_settings(options: &ObjectCompileOptions, host_triple: &str) -> (s: ObjectSettings)
    ensures
        s.triple@ == normalized_triple(
            match options.triple {
                Some(t) => t@,
                None => host_triple@,
            },
        ),
        s.cpu@ == match options.cpu {
            Some(c) => c@,
            None => "generic"@,
        },
        s.features@ == match options.features {
            Some(f) => f@,
            None => Seq::<char>::empty(),
        },
        s.opt_level == options.opt_level,
        s.reloc_mode == relocation_for(s.triple@),
{
    let raw = match options.triple {
        Some(t) => t,
        None => host_triple,
    };
    let triple = normalize_target_triple(raw);
    let cpu = match options.cpu {
        Some(c) => String::from_str(c),
        None => String::from_str("generic"),
    };
    let features = match options.features {
        Some(f) => String::from_str(f),
        None => String::new(),
    };
    let reloc_mode = relocation_mode(triple.as_str());
    ObjectSettings { triple, cpu, features, opt_level: options.opt_level, reloc_mode }
}

} // verus!
