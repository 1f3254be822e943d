use vstd::prelude::*;

verus! {

/// Blending equation: how the source and destination terms are combined.
#[derive(Copy, Clone, Debug, PartialEq, Eq, Structural)]
pub enum Equation {
    /// `src + dst`
    Additive,
    /// `src - dst`
    Subtract,
    /// `dst - src`
    ReverseSubtract,
    /// Component-wise maximum of `src` and `dst`.
    Max,
    /// Component-wise minimum of `src` and `dst`.
    Min,
}

/// Blending factor applied to a source or destination term.
#[derive(Copy, Clone, Debug, PartialEq, Eq, Structural)]
pub enum Factor {
    One,
    Zero,
    SrcColor,
    SrcColorComplement,
    DestColor,
    DestColorComplement,
    SrcAlpha,
    SrcAlphaComplement,
    DstAlpha,
    DstAlphaComplement,
    SrcAlphaSaturate,
}

/// One equation with its source and destination factors.
#[derive(Copy, Clone, Debug, PartialEq, Eq, Structural)]
pub struct Blending {
    pub equation: Equation,
    pub src: Factor,
    pub dst: Factor,
}

/// Blending applied to all channels at once, or separately to RGB and alpha.
#[derive(Copy, Clone, Debug, PartialEq, Eq, Structural)]
pub enum BlendingMode {
    Combined(Blending),
    Separate { rgb: Blending, alpha: Blending },
}

} // verus!
