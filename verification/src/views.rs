//! The stages that the user passes through, one module each.

pub mod setup;
pub mod options;
pub mod labeling;
