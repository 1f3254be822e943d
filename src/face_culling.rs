use vstd::prelude::*;

verus! {

/// Winding order that defines a front face.
#[derive(Copy, Clone, Debug, PartialEq, Eq, Structural)]
pub enum FaceCullingOrder {
    /// Clockwise.
    CW,
    /// Counter-clockwise.
    CCW,
}

/// Which faces are culled.
#[derive(Copy, Clone, Debug, PartialEq, Eq, Structural)]
pub enum FaceCullingMode {
    Front,
    Back,
    Both,
}

/// Face culling configuration.
#[derive(Copy, Clone, Debug, PartialEq, Eq, Structural)]
pub struct FaceCulling {
    pub order: FaceCullingOrder,
    pub mode: FaceCullingMode,
}

} // verus!
