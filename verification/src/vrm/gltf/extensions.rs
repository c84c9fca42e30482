//! The descriptions that a model file carries in its extensions.

pub mod vrmc_spring_bone;
