//! What a model file says beyond its geometry.

pub mod extensions;
