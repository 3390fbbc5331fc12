//! Relevance, compatibility and rendering logic of a Node.js prompt segment.
pub mod probe;
pub mod constraint;
pub mod manifest;
pub mod render;
pub mod segment;
