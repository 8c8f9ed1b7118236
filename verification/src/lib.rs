//! Verified core of an offline path-tracing renderer: pixel color arithmetic,
//! plain-text image assembly, and the scheduler that reorders rows computed
//! out of order into a strictly ascending delivery to the output sink.

pub mod color;
pub mod file;
pub mod decimal;
pub mod image;
pub mod materials;
pub mod render;
pub mod structs;
