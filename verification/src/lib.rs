//! A safe, shareable front end for a native single-image super-resolution
//! engine. The native computation is an opaque collaborator behind a narrow
//! C-style boundary; this crate covers everything between user configuration
//! and that boundary: resolving options into the exact numeric parameters the
//! engine requires, sizing tiles from the reported device memory, tracking
//! the shared context's lifetime, and marshalling pixel buffers with correct
//! channel normalization.
//!
//! Encoded images are handled as JPEG and PNG: raw input in any other
//! encoding fails to decode, and re-encoding falls back to PNG whenever
//! the input was not JPEG.

pub mod codec;
pub mod config;
pub mod construct;
pub mod error;
pub mod lifecycle;
pub mod marshal;
pub mod naming;
pub mod params;
pub mod pixels;

pub use config::Builder;
pub use config::Model;
pub use config::SyncGap;
pub use error::Error;
pub use pixels::PixelImage;
