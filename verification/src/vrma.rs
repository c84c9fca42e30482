//! Motion clips and their transfer onto a rig.

pub mod animation;
