//! Model of a minimal windowed triangle renderer.
//!
//! The library holds the decisions the renderer makes: the fixed geometry
//! and its layout, the shader build status checks, the loop state machine,
//! and the command plans for setup and for each frame. A thin driver
//! executes those plans against the windowing system and the graphics API.

pub mod geometry;
pub mod render;
pub mod shader;
