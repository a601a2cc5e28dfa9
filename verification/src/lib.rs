//! Procedural sky rendering core: atmosphere parameter model, push-constant
//! packing, skybox geometry, pipeline description, per-frame node decisions
//! and render-graph wiring, all verified.
//!
//! Single-precision quantities are carried as their raw 32-bit patterns
//! (`u32`), exactly as they travel to the shader; the host layer converts
//! between native floats and bit patterns at the boundary.

pub mod geometry;
pub mod graph;
pub mod node;
pub mod pipeline;
pub mod pack;
pub mod params;
