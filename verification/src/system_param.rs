//! Read-only queries over the scene.

pub mod child_searcher;
