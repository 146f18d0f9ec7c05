//! Verified core of a real-time scene renderer: input handling for a free-look camera
//! controller, the instance grid layout, mesh index validation and per-vertex triangle
//! counts for tangent averaging, the frame state machine and the per-frame draw plan.
//!
//! Everything here works on plain integers and enums; the floating-point camera, light
//! and tangent math, and all GPU calls, are done by the host around this library.
pub mod draw;
pub mod frame;
pub mod grid;
pub mod input;
pub mod mesh;
pub mod texture;
