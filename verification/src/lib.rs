//! Export of rendered frames into an encoded video stream: colour
//! conversion, frame timing and the session that drives an encoder and a
//! container writer.

pub mod clock;
pub mod color;
pub mod error;
pub mod exporter;
pub mod importer;
pub mod planes;
pub mod quick_export;
pub mod session;

pub use crate::exporter::FFmpegExporter;
pub use crate::importer::FFmpegImporter;
