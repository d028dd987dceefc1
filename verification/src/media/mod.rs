//! MIME type detection.
pub mod mime;
