//! The PDFium and std types that the library carries through its logic.
//! Values of these types are opaque here: they are handed on, never inspected.
use vstd::prelude::*;

verus! {

#[verifier::external_type_specification]
#[verifier::external_body]
pub struct ExPdfiumError(pdfium_render::prelude::PdfiumError);

#[verifier::external_type_specification]
#[verifier::external_body]
pub struct ExIoError(std::io::Error);

} // verus!
