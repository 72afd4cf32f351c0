use vstd::prelude::*;

pub mod json;
pub mod extract;
pub mod render;
pub mod reader;

verus! {

} // verus!
