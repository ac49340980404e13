//! An image board: bitmaps placed on a resizable viewport, panned, scaled,
//! faded, cropped and reordered by pointer drags.
//!
//! Coordinates are whole viewport pixels (`i64`); scale factors and opacity
//! are fixed-point numbers in thousandths (`SCALE_UNIT`); a crop session keeps
//! its insets in thousandths of a pixel (`SUBPIXEL`), so that a committed crop
//! goes into a session and back unchanged; texture sampling rectangles are
//! exact fractions.
pub mod geometry;
pub mod resource;
pub mod mapper;
pub mod crop;
pub mod reorder;
pub mod board;
