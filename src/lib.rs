//! A handle-and-proxy bridge over a growable stack graph.

pub mod span;
pub mod graph;
pub mod bridge;
pub mod render;
pub mod laws;
