//! Fixed-size wallpapers from arbitrary pictures.
//!
//! A picture is scaled to fit a canvas of the requested size, keeping its
//! proportions, and laid centred over a stretched and blurred copy of itself
//! that fills whatever the sharp picture leaves uncovered. Around that
//! compositor stand the decisions of a batch run over a directory: which
//! entries are pictures, where each result goes, when an existing result is
//! left alone, and when progress is reported.

pub mod compositor;
pub mod geometry;
pub mod imaging;
pub mod jobs;
pub mod paths;
pub mod progress;
pub mod raster;
