//! GPU render state: how the fixed pipeline functionality (blending, depth test, face
//! culling, scissoring) must operate for the draws that follow.
use vstd::prelude::*;

use crate::blending::{Blending, BlendingMode};
use crate::depth_test::DepthComparison;
use crate::face_culling::FaceCulling;
use crate::scissor_region::ScissorRegion;

verus! {

/// GPU render state. Every setting is optional: an absent one is disabled.
#[derive(Copy, Clone, Debug, PartialEq, Eq, Structural)]
pub struct RenderState {
    /// Blending configuration.
    pub blending: Option<BlendingMode>,
    /// Depth test configuration.
    pub depth_test: Option<DepthComparison>,
    /// Face culling configuration.
    pub face_culling: Option<FaceCulling>,
    /// Scissor region configuration.
    pub scissor_region: Option<ScissorRegion>,
}

/// The combined blending mode that a single blending configuration stands for.
pub open spec fn combined_mode(blending: Option<Blending>) -> Option<BlendingMode> {
    match blending {
        Some(b) => Some(BlendingMode::Combined(b)),
        None => None,
    }
}

impl RenderState {
    /// Override the blending configuration with combined blending (or disable it).
    pub fn set_blending(self, blending: Option<Blending>) -> (r: Self)
        ensures
            r == (RenderState { blending: combined_mode(blending), ..self }),
    {
        let mode = match blending {
            Some(b) => Some(BlendingMode::Combined(b)),
            None => None,
        };
        RenderState { blending: mode, ..self }
    }

    /// Override the blending configuration using separate blending.
    pub fn set_blending_separate(self, blending_rgb: Blending, blending_alpha: Blending) -> (r:
        Self)
        ensures
            r == (RenderState {
                blending: Some(BlendingMode::Separate { rgb: blending_rgb, alpha: blending_alpha }),
                ..self
            }),
    {
        RenderState {
            blending: Some(BlendingMode::Separate { rgb: blending_rgb, alpha: blending_alpha }),
            ..self
        }
    }

    /// Blending configuration.
    pub fn blending(self) -> (r: Option<BlendingMode>)
        ensures
            r == self.blending,
    {
        self.blending
    }

    /// Override the depth test configuration.
    pub fn set_depth_test(self, depth_test: Option<DepthComparison>) -> (r: Self)
        ensures
            r == (RenderState { depth_test, ..self }),
    {
        RenderState { depth_test, ..self }
    }

    /// Depth test configuration.
    pub fn depth_test(self) -> (r: Option<DepthComparison>)
        ensures
            r == self.depth_test,
    {
        self.depth_test
    }

    /// Override the face culling configuration.
    pub fn set_face_culling(self, face_culling: Option<FaceCulling>) -> (r: Self)
        ensures
            r == (RenderState { face_culling, ..self }),
    {
        RenderState { face_culling, ..self }
    }

    /// Face culling configuration.
    pub fn face_culling(self) -> (r: Option<FaceCulling>)
        ensures
            r == self.face_culling,
    {
        self.face_culling
    }

    /// Override the scissor region configuration.
    pub fn set_scissor_region(self, scissor_region: Option<ScissorRegion>) -> (r: Self)
        ensures
            r == (RenderState { scissor_region, ..self }),
    {
        RenderState { scissor_region, ..self }
    }

    /// Scissor region configuration.
    pub fn scissor_region(self) -> (r: Option<ScissorRegion>)
        ensures
            r == self.scissor_region,
    {
        self.scissor_region
    }
}

impl Default for RenderState {
    /// No blending, depth test with `Less`, no face culling, no scissor region.
    fn default() -> (r: Self)
        ensures
            r == (RenderState {
                blending: None,
                depth_test: Some(DepthComparison::Less),
                face_culling: None,
                scissor_region: None,
            }),
    {
        RenderState {
            blending: None,
            depth_test: Some(DepthComparison::Less),
            face_culling: None,
            scissor_region: None,
        }
    }
}

} // verus!
