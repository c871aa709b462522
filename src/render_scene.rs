//! Per-mesh drawing modes recorded when a mesh is bound.
use vstd::prelude::*;

verus! {

/// How a material's alpha channel is interpreted when drawing.
#[derive(Clone, Copy, Debug, PartialEq, Eq, Structural)]
pub enum AlphaMode {
    Opaque,
    Mask,
}

/// Primitive topology of a bound mesh.
#[derive(Clone, Copy, Debug, PartialEq, Eq, Structural)]
pub enum PrimitiveMode {
    Triangles,
}

impl AlphaMode {
    /// Whether a mesh with this alpha mode is drawn with alpha testing.
    pub fn uses_alpha_test(&self) -> (r: bool)
        ensures
            r == (*self == AlphaMode::Mask),
    {
        match self {
            AlphaMode::Opaque => false,
            AlphaMode::Mask => true,
        }
    }
}

} // verus!
