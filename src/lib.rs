//! Colour-space thresholding of raster images.
//!
//! `enums` holds the colour spaces and the messages of the interface,
//! `convert` the exact byte-valued colour conversions, and `process` the
//! threshold parameters, the image model and the thresholding kernel.
pub mod convert;
pub mod enums;
pub mod process;
pub mod session;
