//! Batch image compression pipeline.
//!
//! The library decodes raster images (and renders SVG documents to raster),
//! rescales them by percentage or to explicit dimensions, and re-encodes them
//! as JPEG, PNG, GIF or lossless WebP.  A batch orchestrator sizes a bounded
//! worker pool, isolates per-file failures, derives per-file output paths and
//! aggregates a combined report.  All decision logic is verified; the codec
//! calls themselves are trusted adapters over outside crates.

pub mod batch;
pub mod errors;
pub mod format;
pub mod image_service;
pub mod main_view;
pub mod paths;
pub mod raster;
pub mod resize;
pub mod settings;
pub mod state;
pub mod text;
