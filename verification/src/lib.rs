//! Verified rules around a cascade face detector: which windows a scan can
//! visit, which detections survive, how a five-point landmark shape is read,
//! and how the result records are put together.

pub mod detection;
pub mod error;
pub mod face;
pub mod opt;
pub mod pipeline;
pub mod raster;
pub mod rect;
pub mod runtime;
pub mod scan;
pub mod shape;
pub mod single;
