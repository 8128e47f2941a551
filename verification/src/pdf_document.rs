//! The errors of opening a PDF: validation, binding PDFium, parsing.
use vstd::prelude::*;
use std::sync::Arc;

use crate::validation::ValidationError;

verus! {

/// Why binding the PDFium library failed.
#[derive(Debug)]
pub enum InitError {
    /// `PDFIUM_LIB_PATH` is not set.
    MissingLibPath,
    /// The library at `PDFIUM_LIB_PATH` could not be bound.
    BindFailed { source: Arc<pdfium_render::prelude::PdfiumError> },
}

/// Why a PDF could not be opened.
#[derive(Debug)]
pub enum LoadError {
    PdfiumLibPathNotSet,
    PdfiumInit { source: Arc<pdfium_render::prelude::PdfiumError> },
    ParseFailed { path: String, source: Arc<pdfium_render::prelude::PdfiumError> },
    NotFound { path: String },
    NotAFile { path: String },
    TooSmall { size: u64, min: u64 },
    FileTooLarge { size_mb: u64, max_mb: u64 },
    InvalidMagicBytes,
    Io { path: String, source: std::io::Error },
}

/// The load error that a validation error becomes: the variant of the same
/// name, with the same fields.
pub open spec fn load_error_of_validation(e: ValidationError) -> LoadError {
    match e {
        ValidationError::NotFound { path } => LoadError::NotFound { path },
        ValidationError::NotAFile { path } => LoadError::NotAFile { path },
        ValidationError::TooSmall { size, min } => LoadError::TooSmall { size, min },
        ValidationError::FileTooLarge { size_mb, max_mb } => LoadError::FileTooLarge { size_mb, max_mb },
        ValidationError::InvalidMagicBytes => LoadError::InvalidMagicBytes,
        ValidationError::Io { path, source } => LoadError::Io { path, source },
    }
}

/// The load error that a failure to bind PDFium becomes.
pub open spec fn load_error_of_init(e: InitError) -> LoadError {
    match e {
        InitError::MissingLibPath => LoadError::PdfiumLibPathNotSet,
        InitError::BindFailed { source } => LoadError::PdfiumInit { source },
    }
}

impl From<ValidationError> for LoadError {
    fn from(e: ValidationError) -> (r: LoadError) {
        match e {
            ValidationError::NotFound { path } => LoadError::NotFound { path },
            ValidationError::NotAFile { path } => LoadError::NotAFile { path },
            ValidationError::TooSmall { size, min } => LoadError::TooSmall { size, min },
            ValidationError::FileTooLarge { size_mb, max_mb } => LoadError::FileTooLarge { size_mb, max_mb },
            ValidationError::InvalidMagicBytes => LoadError::InvalidMagicBytes,
            ValidationError::Io { path, source } => LoadError::Io { path, source },
        }
    }
}

impl vstd::std_specs::convert::FromSpecImpl<ValidationError> for LoadError {
    open spec fn obeys_from_spec() -> bool {
        true
    }

    open spec fn from_spec(e: ValidationError) -> LoadError {
        load_error_of_validation(e)
    }
}

impl From<InitError> for LoadError {
    fn from(e: InitError) -> (r: LoadError) {
        match e {
            InitError::MissingLibPath => LoadError::PdfiumLibPathNotSet,
            InitError::BindFailed { source } => LoadError::PdfiumInit { source },
        }
    }
}

impl vstd::std_specs::convert::FromSpecImpl<InitError> for LoadError {
    open spec fn obeys_from_spec() -> bool {
        true
    }

    open spec fn from_spec(e: InitError) -> LoadError {
        load_error_of_init(e)
    }
}

} // verus!
