//! The adapter for the Kugou provider.

pub mod laws;
pub mod model;
