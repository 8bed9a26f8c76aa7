use vstd::prelude::*;

pub mod ast;
pub mod codegen;
pub mod decimal;
pub mod doc;
pub mod laws;
pub mod mangle;

verus! {

/// The rendering width used for emitted modules.
pub const RENDER_WIDTH: usize = 80;

} // verus!
