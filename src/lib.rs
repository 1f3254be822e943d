//! State tracking for a single rendering context: binding-slot allocation for buffers and
//! textures, render-state application, and pipeline setup, expressed as the minimal list
//! of hardware commands to issue.
pub mod blending;
pub mod commands;
pub mod face_culling;
pub mod pipeline;
pub mod render_state;
pub mod scissor_region;
pub mod slots;
pub mod state;
