use docuparse::constants::{MAX_PDF_SIZE, MB, MIN_PDF_SIZE, PDF_MAGIC};
use docuparse::validation::{
    validate_magic_bytes, validate_metadata, validation_step, ValidationEvent, ValidationStep,
};
use docuparse::{LoadError, ValidationError};

/// What a file system holds at a path.
enum Entry {
    Missing,
    Directory,
    File(Vec<u8>),
}

/// Runs validation of `path`, answering each step from `entry`.
fn validate_entry(path: &str, entry: &Entry) -> Result<(), ValidationError> {
    let mut event = match entry {
        Entry::Missing => ValidationEvent::OpenFailed {
            not_found: true,
            source: std::io::Error::new(std::io::ErrorKind::NotFound, "no such file"),
        },
        _ => ValidationEvent::Opened,
    };
    loop {
        match validation_step(path, event) {
            ValidationStep::Done(result) => return result,
            ValidationStep::ReadMetadata => {
                event = match entry {
                    Entry::Directory => ValidationEvent::MetadataRead { is_file: false, size: 4096 },
                    Entry::File(bytes) => ValidationEvent::MetadataRead { is_file: true, size: bytes.len() as u64 },
                    Entry::Missing => unreachable!(),
                };
            }
            ValidationStep::ReadHeader => {
                event = match entry {
                    Entry::File(bytes) if bytes.len() >= 5 => ValidationEvent::HeaderRead { header: bytes[..5].to_vec() },
                    _ => ValidationEvent::HeaderFailed {
                        source: std::io::Error::new(std::io::ErrorKind::UnexpectedEof, "short file"),
                    },
                };
            }
        }
    }
}

fn pdf_of_size(size: u64) -> Vec<u8> {
    let mut content = PDF_MAGIC.to_vec();
    content.resize(size as usize, 0);
    content.truncate(size as usize);
    content
}

#[test]
fn test_missing_path() {
    let err = validate_entry("/tmp/__docuparse_ghost_path_that_cannot_exist__.pdf", &Entry::Missing).unwrap_err();
    assert!(matches!(err, ValidationError::NotFound { .. }), "expected NotFound, got {err:?}");
}

#[test]
fn test_path_is_directory() {
    let err = validate_entry("/tmp", &Entry::Directory).unwrap_err();
    assert!(matches!(err, ValidationError::NotAFile { .. }), "expected NotAFile, got {err:?}");
}

#[test]
fn test_too_small() {
    let err = validate_entry("small.pdf", &Entry::File(PDF_MAGIC.to_vec())).unwrap_err();
    assert!(matches!(err, ValidationError::TooSmall { size: 5, min: MIN_PDF_SIZE }), "got {err:?}");
}

#[test]
fn test_too_large() {
    let err = validate_metadata(MAX_PDF_SIZE + 1).unwrap_err();
    match err {
        ValidationError::FileTooLarge { size_mb, max_mb } => {
            assert_eq!(max_mb, MAX_PDF_SIZE / MB);
            assert_eq!(size_mb, 500);
        }
        other => panic!("expected FileTooLarge, got {other:?}"),
    }
}

#[test]
fn test_too_large_file() {
    let err = validate_entry("big.pdf", &Entry::File(pdf_of_size(MAX_PDF_SIZE + 1))).unwrap_err();
    assert!(matches!(err, ValidationError::FileTooLarge { size_mb: 500, max_mb: 500 }), "got {err:?}");
}

#[test]
fn test_wrong_magic() {
    let mut content = vec![0u8; MIN_PDF_SIZE as usize];
    content[..8].copy_from_slice(b"NOT_PDF!");
    let err = validate_entry("wrong.pdf", &Entry::File(content)).unwrap_err();
    assert!(matches!(err, ValidationError::InvalidMagicBytes), "got {err:?}");
}

#[test]
fn test_empty_file() {
    let err = validate_entry("empty.pdf", &Entry::File(Vec::new())).unwrap_err();
    assert!(matches!(err, ValidationError::TooSmall { size: 0, .. }), "got {err:?}");
}

#[test]
fn test_validate_pdf_happy_path() {
    assert!(validate_entry("ok.pdf", &Entry::File(pdf_of_size(MIN_PDF_SIZE))).is_ok());
}

#[test]
fn test_size_boundary() {
    assert!(validate_metadata(MIN_PDF_SIZE - 1).is_err());
    assert!(validate_metadata(MIN_PDF_SIZE).is_ok());
    assert!(validate_metadata(MIN_PDF_SIZE + 1).is_ok());
    for (size, expect_err) in [(MIN_PDF_SIZE - 1, true), (MIN_PDF_SIZE, false), (MIN_PDF_SIZE + 1, false)] {
        let result = validate_entry("boundary.pdf", &Entry::File(pdf_of_size(size)));
        assert_eq!(result.is_err(), expect_err, "size={size}, got={result:?}");
    }
}

#[test]
fn test_max_size_boundary() {
    assert!(validate_metadata(MAX_PDF_SIZE - 1).is_ok());
    assert!(validate_metadata(MAX_PDF_SIZE).is_ok());
    assert!(validate_metadata(MAX_PDF_SIZE + 1).is_err());
    for (size, expect_err) in [(MAX_PDF_SIZE - 1, false), (MAX_PDF_SIZE, false), (MAX_PDF_SIZE + 1, true)] {
        let result = validate_entry("max_boundary.pdf", &Entry::File(pdf_of_size(size)));
        assert_eq!(result.is_err(), expect_err, "size={size}");
    }
}

#[test]
fn magic_bytes_must_match_exactly() {
    assert!(validate_magic_bytes(b"%PDF-").is_ok());
    assert!(matches!(validate_magic_bytes(b"%PDF_"), Err(ValidationError::InvalidMagicBytes)));
    assert!(matches!(validate_magic_bytes(b"%PDF"), Err(ValidationError::InvalidMagicBytes)));
    assert!(matches!(validate_magic_bytes(b""), Err(ValidationError::InvalidMagicBytes)));
}

#[test]
fn step_order_open_then_metadata_then_header() {
    assert!(matches!(validation_step("a.pdf", ValidationEvent::Opened), ValidationStep::ReadMetadata));
    assert!(matches!(
        validation_step("a.pdf", ValidationEvent::MetadataRead { is_file: true, size: MIN_PDF_SIZE }),
        ValidationStep::ReadHeader
    ));
    assert!(matches!(
        validation_step("a.pdf", ValidationEvent::HeaderRead { header: b"%PDF-".to_vec() }),
        ValidationStep::Done(Ok(()))
    ));
}

#[test]
fn step_reports_io_errors_with_path() {
    let source = std::io::Error::new(std::io::ErrorKind::PermissionDenied, "denied");
    match validation_step("locked.pdf", ValidationEvent::OpenFailed { not_found: false, source }) {
        ValidationStep::Done(Err(ValidationError::Io { path, source })) => {
            assert_eq!(path, "locked.pdf");
            assert_eq!(source.kind(), std::io::ErrorKind::PermissionDenied);
        }
        other => panic!("expected Io, got {other:?}"),
    }
    let source = std::io::Error::new(std::io::ErrorKind::UnexpectedEof, "short");
    assert!(matches!(
        validation_step("x.pdf", ValidationEvent::HeaderFailed { source }),
        ValidationStep::Done(Err(ValidationError::Io { .. }))
    ));
}

#[test]
fn load_error_keeps_validation_reason() {
    let e = LoadError::from(ValidationError::TooSmall { size: 3, min: MIN_PDF_SIZE });
    assert!(matches!(e, LoadError::TooSmall { size: 3, min } if min == MIN_PDF_SIZE));
    let e = LoadError::from(ValidationError::NotFound { path: "gone.pdf".to_owned() });
    assert!(matches!(e, LoadError::NotFound { ref path } if path == "gone.pdf"));
    let e = LoadError::from(ValidationError::InvalidMagicBytes);
    assert!(matches!(e, LoadError::InvalidMagicBytes));
    let e = LoadError::from(docuparse::InitError::MissingLibPath);
    assert!(matches!(e, LoadError::PdfiumLibPathNotSet));
}
