//! Renders a QR symbol, given as a square grid of dark and light modules,
//! into an SVG document, and reports the geometry of the drawing: module
//! size, padding, width and the centre region that may be left blank for a
//! logo.

pub mod decimal;
pub mod encoder;
pub mod geometry;
pub mod markup;
pub mod qr;
pub mod stamps;
pub mod symbol;
