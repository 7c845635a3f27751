//! Escape-time rendering of the Mandelbrot set: the integer side of the
//! engine (screen points, the colour palette, frame configuration, the
//! row-major RGBA frame buffer and the orbit overlay).
pub mod config;
pub mod geometry;
pub mod orbit;
pub mod palette;
pub mod plane;
pub mod raster;
