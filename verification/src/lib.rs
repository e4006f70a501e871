use vstd::prelude::*;

pub mod analysis;
pub mod ast;
pub mod text;
pub mod aot;
pub mod typechecker;
pub mod names;

verus! {

} // verus!
