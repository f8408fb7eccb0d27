//! Building blocks for drawing controls into a pixel buffer.

pub mod components;
pub mod engine;
pub mod primitives;
pub mod text;
