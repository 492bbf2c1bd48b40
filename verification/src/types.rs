//! The compound payload types of the value model.

pub mod enum_variant;
pub mod file;
pub mod pipeline;
pub mod range;
