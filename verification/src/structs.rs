//! Core value types shared across the renderer.

pub mod color;

pub use color::Color;
