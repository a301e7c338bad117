//! A minimal real-time rendering host, modelled for verification.
//!
//! The library holds the decision logic of the host: the surface
//! configuration and its resize/recovery rules, the registry of scene
//! variants with its lock-step selector, the per-frame command protocol,
//! and the input router. The windowing and GPU calls that carry these
//! decisions out live outside the library, in the host binary.

pub mod color;
pub mod frame;
pub mod input;
pub mod mesh;
pub mod registry;
pub mod scene;
pub mod state;
pub mod surface;
pub mod texture;
