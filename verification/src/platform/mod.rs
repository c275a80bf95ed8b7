//! Platform support.

pub mod tizen;
