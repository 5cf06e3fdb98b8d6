//! Glyph preview: navigation over candidate fonts, rasterisation of one
//! character into a bounded pixel grid, and layout of that grid on a
//! dot-addressable terminal canvas.

pub mod canvas;
pub mod canvas_painter;
pub mod character_preview;
pub mod error;
pub mod font_backend;
pub mod preview_canvas;
pub mod raster;
pub mod size;
pub mod stateful_vec;
