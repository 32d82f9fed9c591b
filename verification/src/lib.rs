//! Core logic of a side-view 2D character: a finite animation/movement state
//! machine, velocity derivation, position integration, and terrain-based
//! landing detection.

pub mod character;
pub mod controls;
pub mod laws;
pub mod motion;
pub mod state;
pub mod terrain;
