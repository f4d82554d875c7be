//! Verified geometry engine and interaction state machine for an image
//! cropping widget.
//!
//! A source image is shown inside a bordered aperture on a fixed-size canvas.
//! The user pans and zooms the image; committing produces a crop rectangle in
//! image-pixel space whose aspect ratio matches the configured output ratio.
//! All coordinates are exact rational numbers, so the geometric laws (cover
//! scaling, centering, clamping, aspect preservation) hold exactly.

pub mod controller;
pub mod dims;
pub mod geometry;
pub mod laws;
pub mod rat;
