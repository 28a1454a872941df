//! Handles to shader programs.
use vstd::prelude::*;

verus! {

/// A handle to a shader program: its place in the order in which the
/// registry first met the programs' names.
#[derive(Clone, Copy, Debug, PartialEq, Eq, Structural)]
pub struct Shader {
    pub id: usize,
}

} // verus!
