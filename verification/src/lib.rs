//! docuparse: PDF loading, rendering and text extraction.
pub mod constants;
pub mod decimal;
pub mod metadata;
pub mod ocr;
pub mod pdf_document;
pub mod pdfium_types;
pub mod render;
pub mod text;
pub mod unicode;
pub mod utils;
pub mod validation;

pub use metadata::{PdfMetadata, PdfVersion};
pub use ocr::OcrError;
pub use pdf_document::{InitError, LoadError};
pub use render::{RenderConfig, RenderConfigBuilder};
pub use text::TextError;
pub use utils::contains_real_words;
pub use validation::ValidationError;
