//! The checks that make up one validation: image metadata, the content
//! check by the vision model, and the fusion of their results.

pub mod exif;
pub mod llm;
pub mod processor;

pub use exif::{extract_exif_metadata, ExifData, ExifError};
pub use llm::{validate_image_content, LlmClient, LlmError};
pub use processor::{ProcessorError, ValidationProcessor};
