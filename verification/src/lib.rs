//! Batch image transcoding and optimization engine.
//!
//! The library decodes images, applies a resize policy, dispatches to a
//! format-specific encoder, and drives batches of files with progress
//! accounting and cooperative cancellation. File and directory I/O is left
//! to the host application; the library works on in-memory bytes and path
//! strings.

pub mod formats;
pub mod pathnames;
pub mod backup;
pub mod batch;
pub mod encoders;
pub mod errors;
pub mod pipeline;
pub mod pixels;
pub mod resize;
