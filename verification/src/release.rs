//! Release resolution: the running release, its successor, and build availability.

pub mod api;
pub mod check;
