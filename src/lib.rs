//! Normalizes the border of a raster image: finds a frame of one color
//! around the content, removes it, and pads the content with a band of
//! uniform width in the frame's color (or white when there is no frame).

pub mod border;
pub mod laws;
pub mod pad;
pub mod raster;
