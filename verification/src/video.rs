//! Video resources: pixel-format descriptors, surfaces and windows.

pub mod pixel_format;
pub mod surface;
pub mod window;
