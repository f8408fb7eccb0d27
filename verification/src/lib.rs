//! A forest-fire cellular automaton: the rule applied to each cell, a
//! double-buffered engine that steps whole grids, the pacing and control of a
//! running simulation, and the mapping from cells to pixels.

pub mod binary32;
pub mod fixed;
pub mod rendering;
pub mod sim;
pub mod ui;
pub mod util;
