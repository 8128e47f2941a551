//! Size units and the limits a PDF file is validated against.
use vstd::prelude::*;

verus! {

/// One kibibyte.
pub const KB: u64 = 1024;

/// One mebibyte.
pub const MB: u64 = 1024 * KB;

/// The five bytes every PDF file starts with: `%PDF-`.
pub const PDF_MAGIC: [u8; 5] = [0x25u8, 0x50u8, 0x44u8, 0x46u8, 0x2Du8];

/// Minimum valid PDF size: anything smaller is corrupt or empty.
pub const MIN_PDF_SIZE: u64 = 1 * KB;

/// Maximum accepted PDF size.
pub const MAX_PDF_SIZE: u64 = 500 * MB;

/// The PDF header bytes as a sequence.
pub open spec fn pdf_magic() -> Seq<u8> {
    seq![0x25u8, 0x50u8, 0x44u8, 0x46u8, 0x2Du8]
}

} // verus!
