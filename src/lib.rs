//! Verified core of a renderer that draws one textured, rotating quad:
//! surface sizing, capability choice, texture layout, animation state,
//! uniform-buffer encoding and the per-frame error policy.
pub mod surface;
pub mod texture;
pub mod uniform;
pub mod frame;
