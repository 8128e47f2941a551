//! Optical character recognition of rendered pages: results, errors and the
//! page-by-page orchestration of rendering and inference.
use vstd::prelude::*;

pub mod backend;
pub mod document;
pub mod llama_backend;
pub mod onnx_backend;

pub use backend::{OcrPageResult, OcrPageResultBuilder};

verus! {

/// OCR subsystem errors. `S` is the type of the underlying causes carried by
/// the variants that wrap one (a shared, type-erased error in practice).
#[derive(Debug)]
pub enum OcrError<S> {
    /// No OCR backend is attached to the document.
    BackendNotAttached,
    /// Rendering page `page` for OCR failed.
    RenderFailed { page: u32, source: S },
    /// An OCR model artifact is missing.
    ModelNotFound { path: String },
    /// An environment variable naming a model artifact is not set.
    MissingEnvVar { var: &'static str },
    /// The OCR backend could not be built.
    BackendBuildFailed { source: S },
    /// OCR inference failed on page `page`.
    InferenceFailed { page: u32, source: S },
    /// Image conversion produced a zero-dimension buffer on page `page`.
    ImageConversionFailed { page: u32 },
}

} // verus!
