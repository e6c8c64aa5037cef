//! Core of a small on-screen alert box: argument parsing, compositor event
//! coalescing, right-to-left button layout, rasterizing of the flat-coloured
//! parts, and hit-testing of pointer clicks.

pub mod args;
pub mod event;
pub mod layout;
pub mod raster;
pub mod surface;
