//! Verified core of a document redaction tool.

pub mod conversion;
pub mod editor;
pub mod files;
pub mod home;
pub mod image_buffer;
pub mod navigation;
pub mod pdf;
pub mod pdf_export;
pub mod pdf_objects;
pub mod raster;
pub mod render_state;
pub mod search;
