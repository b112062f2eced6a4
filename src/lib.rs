//! Core of a scrolling coherent-noise graph: seed handling, the sampling
//! session state and the integer geometry of each drawn frame.

pub mod capture;
pub mod geometry;
pub mod model;
pub mod seed;
