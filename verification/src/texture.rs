//! Handles to textures.
use vstd::prelude::*;

verus! {

/// A handle to a texture: its place in the order in which the registry
/// first met the textures' names. Handles are plain values, so an entity
/// and the registry share a texture by holding equal handles.
#[derive(Clone, Copy, Debug, PartialEq, Eq, Structural)]
pub struct Texture {
    pub id: usize,
}

} // verus!
