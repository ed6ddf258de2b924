//! Verified core of a Nikon NEF developer: SDK call protocol, raw-development
//! parameter gating, RGB sample narrowing, JPEG export and image comparison.
pub mod cli;
pub mod compare;
pub mod error;
pub mod jpeg;
pub mod params;
pub mod paths;
pub mod protocol;
pub mod render;
pub mod text;
