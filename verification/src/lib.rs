//! Converts a raster image into a rectangular grid of printable characters
//! together with a palette that maps each character to an approximate color.
//!
//! The pipeline resolves target dimensions from the configuration, resizes
//! the decoded image, learns a bounded color palette, assigns characters to
//! palette entries in first-occurrence order, and assembles the textual grid
//! with transparency handling.

pub mod alphabet;
pub mod config;
pub mod dims;
pub mod grid;
pub mod hexcolor;
pub mod image_io;
pub mod quant;
pub mod render;
