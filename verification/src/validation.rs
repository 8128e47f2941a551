//! Validation of a file before it is handed to PDFium: it must exist, be a
//! regular file, lie within the size limits and start with `%PDF-`.
//!
//! Reading the file is left to the caller, which drives
//! [`validation_step`]: it reports each outcome of its I/O as a
//! [`ValidationEvent`] and performs the [`ValidationStep`] it gets back.
use vstd::prelude::*;

use crate::constants::{pdf_magic, MAX_PDF_SIZE, MB, MIN_PDF_SIZE, PDF_MAGIC};

verus! {

/// Why a file was rejected.
#[derive(Debug)]
pub enum ValidationError {
    NotFound { path: String },
    NotAFile { path: String },
    TooSmall { size: u64, min: u64 },
    FileTooLarge { size_mb: u64, max_mb: u64 },
    InvalidMagicBytes,
    Io { path: String, source: std::io::Error },
}

/// The outcome of one I/O operation on the file being validated.
#[derive(Debug)]
pub enum ValidationEvent {
    /// The file was opened.
    Opened,
    /// Opening failed; `not_found` when the error kind was `NotFound`.
    OpenFailed { not_found: bool, source: std::io::Error },
    /// The file's metadata was read.
    MetadataRead { is_file: bool, size: u64 },
    /// Reading the metadata failed.
    MetadataFailed { source: std::io::Error },
    /// The first five bytes of the file were read.
    HeaderRead { header: Vec<u8> },
    /// Reading the first five bytes failed.
    HeaderFailed { source: std::io::Error },
}

/// What the caller does next.
#[derive(Debug)]
pub enum ValidationStep {
    /// Read the metadata of the opened file.
    ReadMetadata,
    /// Read the first five bytes of the file.
    ReadHeader,
    /// Validation is over, with this outcome.
    Done(Result<(), ValidationError>),
}

/// `size` lies within the accepted limits.
pub open spec fn size_within_limits(size: u64) -> bool {
    MIN_PDF_SIZE <= size <= MAX_PDF_SIZE
}

/// Checks the file size against [`MIN_PDF_SIZE`] and [`MAX_PDF_SIZE`].
pub fn validate_metadata(size: u64) -> (r: Result<(), ValidationError>)
    ensures
        size < MIN_PDF_SIZE ==> (r matches Err(ValidationError::TooSmall { size: s, min })
            && s == size && min == MIN_PDF_SIZE),
        size > MAX_PDF_SIZE ==> (r matches Err(ValidationError::FileTooLarge { size_mb, max_mb })
            && size_mb == size / MB && max_mb == MAX_PDF_SIZE / MB),
        size_within_limits(size) ==> r is Ok,
{
    if size < MIN_PDF_SIZE {
        return Err(ValidationError::TooSmall { size, min: MIN_PDF_SIZE });
    }
    if size > MAX_PDF_SIZE {
        return Err(ValidationError::FileTooLarge { size_mb: size / MB, max_mb: MAX_PDF_SIZE / MB });
    }
    Ok(())
}

/// Checks that `header` is exactly the PDF header `%PDF-`.
pub fn validate_magic_bytes(header: &[u8]) -> (r: Result<(), ValidationError>)
    ensures
        r is Ok <==> header@ == pdf_magic(),
        r is Err ==> r matches Err(ValidationError::InvalidMagicBytes),
{
    let ok = header.len() == 5 && header[0] == PDF_MAGIC[0] && header[1] == PDF_MAGIC[1]
        && header[2] == PDF_MAGIC[2] && header[3] == PDF_MAGIC[3] && header[4] == PDF_MAGIC[4];
    if ok {
        assert(header@ =~= pdf_magic());
        Ok(())
    } else {
        proof {
            if header@ == pdf_magic() {
                assert(header@[0] == pdf_magic()[0]);
                assert(header@[4] == pdf_magic()[4]);
            }
        }
        Err(ValidationError::InvalidMagicBytes)
    }
}

/// The next step of validating the file at `path`, given the outcome of the
/// last I/O operation. Opening comes first, then the metadata (a regular
/// file, within the size limits), then the header.
pub fn validation_step(path: &str, event: ValidationEvent) -> (r: ValidationStep)
    ensures
        match event {
            ValidationEvent::Opened => r is ReadMetadata,
            ValidationEvent::OpenFailed { not_found, source } => if not_found {
                r matches ValidationStep::Done(Err(ValidationError::NotFound { path: p })) && p@
                    == path@
            } else {
                r matches ValidationStep::Done(Err(ValidationError::Io { path: p, source: s }))
                    && p@ == path@ && s == source
            },
            ValidationEvent::MetadataFailed { source } => r matches ValidationStep::Done(
                Err(ValidationError::Io { path: p, source: s }),
            ) && p@ == path@ && s == source,
            ValidationEvent::MetadataRead { is_file, size } => if !is_file {
                r matches ValidationStep::Done(Err(ValidationError::NotAFile { path: p })) && p@
                    == path@
            } else if size < MIN_PDF_SIZE {
                r matches ValidationStep::Done(Err(ValidationError::TooSmall { size: s, min }))
                    && s == size && min == MIN_PDF_SIZE
            } else if size > MAX_PDF_SIZE {
                r matches ValidationStep::Done(
                    Err(ValidationError::FileTooLarge { size_mb, max_mb }),
                ) && size_mb == size / MB && max_mb == MAX_PDF_SIZE / MB
            } else {
                r is ReadHeader
            },
            ValidationEvent::HeaderFailed { source } => r matches ValidationStep::Done(
                Err(ValidationError::Io { path: p, source: s }),
            ) && p@ == path@ && s == source,
            ValidationEvent::HeaderRead { header } => if header@ == pdf_magic() {
                r matches ValidationStep::Done(Ok(()))
            } else {
                r matches ValidationStep::Done(Err(ValidationError::InvalidMagicBytes))
            },
        },
{
    match event {
        ValidationEvent::Opened => ValidationStep::ReadMetadata,
        ValidationEvent::OpenFailed { not_found, source } => {
            if not_found {
                ValidationStep::Done(Err(ValidationError::NotFound { path: path.to_owned() }))
            } else {
                ValidationStep::Done(Err(ValidationError::Io { path: path.to_owned(), source }))
            }
        },
        ValidationEvent::MetadataFailed { source } => {
            ValidationStep::Done(Err(ValidationError::Io { path: path.to_owned(), source }))
        },
        ValidationEvent::MetadataRead { is_file, size } => {
            if !is_file {
                ValidationStep::Done(Err(ValidationError::NotAFile { path: path.to_owned() }))
            } else {
                match validate_metadata(size) {
                    Ok(()) => ValidationStep::ReadHeader,
                    Err(e) => ValidationStep::Done(Err(e)),
                }
            }
        },
        ValidationEvent::HeaderFailed { source } => {
            ValidationStep::Done(Err(ValidationError::Io { path: path.to_owned(), source }))
        },
        ValidationEvent::HeaderRead { header } => ValidationStep::Done(
            validate_magic_bytes(header.as_slice()),
        ),
    }
}

} // verus!
