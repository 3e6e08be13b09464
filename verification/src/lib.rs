//! A page rasterization device: it turns text draw requests, given in a
//! document's coordinate space, into one fixed-resolution RGB image per page.
//!
//! Lengths in document space and resolutions are whole numbers of
//! thousandths; the scaling from document space to pixels is exact
//! rational arithmetic, rounded toward zero once, at the moment a pixel
//! coordinate is needed.

pub mod device;
pub mod geometry;
pub mod glyph;
pub mod laws;
pub mod naming;
pub mod raster;
