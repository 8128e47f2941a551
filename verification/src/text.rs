//! Extraction of the native text layer of a page.
use vstd::prelude::*;
use std::sync::Arc;

use crate::unicode::chars_of;
use crate::utils::{all_white_space, trim_bounds};

verus! {

#[verifier::external_type_specification]
#[verifier::external_body]
pub struct ExPdfiumPage<'a>(pdfium_render::prelude::PdfPage<'a>);

#[verifier::external_type_specification]
#[verifier::external_body]
pub struct ExPdfiumPageText<'a>(pdfium_render::prelude::PdfPageText<'a>);

/// Why the text of a page could not be extracted.
#[derive(Debug)]
pub enum TextError {
    ExtractionFailed { page: u32, source: Arc<pdfium_render::prelude::PdfiumError> },
}

/// The text of each page of a document's page collection, in page order:
/// what PDFium's text object of that page gives as all of its characters.
/// Its length is the page count that `PdfPages::len` reports.
pub uninterp spec fn pdf_page_texts(pages: pdfium_render::prelude::PdfPages<'_>) -> Seq<Seq<char>>;

/// The characters a loaded page holds, as its text object gives them.
pub uninterp spec fn pdf_page_chars(page: pdfium_render::prelude::PdfPage<'_>) -> Seq<char>;

/// The characters a page's text object holds, in document order.
pub uninterp spec fn pdf_text_chars(text: pdfium_render::prelude::PdfPageText<'_>) -> Seq<char>;

/// PDFium can fail to load page `index` of the collection: a failed load of
/// that page is possible.
pub uninterp spec fn pdf_page_load_can_fail(pages: pdfium_render::prelude::PdfPages<'_>, index: u16) -> bool;

/// PDFium can fail to open the text object of a loaded page.
pub uninterp spec fn pdf_page_text_can_fail(page: pdfium_render::prelude::PdfPage<'_>) -> bool;

/// Calls `pdfium_render::prelude::PdfPages::get`. Claimed, as its source
/// shows: an index not below the page count gives an error; an error for an
/// index below it is a failed load of that page; and a page it hands out is
/// the page at `index` of the collection. Nothing is claimed of when loading
/// an existing page fails, nor of the error.
#[verifier::external_body]
fn pages_get<'a>(pages: &pdfium_render::prelude::PdfPages<'a>, index: u16) -> (r: Result<
    pdfium_render::prelude::PdfPage<'a>,
    pdfium_render::prelude::PdfiumError,
>)
    ensures
        index >= pdf_page_texts(*pages).len() ==> r is Err,
        r is Err ==> index >= pdf_page_texts(*pages).len() || pdf_page_load_can_fail(*pages, index),
        r matches Ok(p) ==> index < pdf_page_texts(*pages).len() && pdf_page_chars(p)
            == pdf_page_texts(*pages)[index as int],
{
    pages.get(index)
}

/// Calls `pdfium_render::prelude::PdfPage::text`. Claimed: the text object
/// it hands out holds the characters of `page`, and an error is a failed
/// opening of that page's text object. Nothing is claimed of when it fails,
/// nor of the error.
#[verifier::external_body]
fn page_text<'b>(page: &'b pdfium_render::prelude::PdfPage) -> (r: Result<
    pdfium_render::prelude::PdfPageText<'b>,
    pdfium_render::prelude::PdfiumError,
>)
    ensures
        r is Err ==> pdf_page_text_can_fail(*page),
        r matches Ok(t) ==> pdf_text_chars(t) == pdf_page_chars(*page),
{
    page.text()
}

/// Calls `pdfium_render::prelude::PdfPageText::all`: every character of the
/// page in document order, concatenated. Claimed: that is the characters
/// the text object holds.
#[verifier::external_body]
fn text_all(text: &pdfium_render::prelude::PdfPageText) -> (r: String)
    ensures
        r@ == pdf_text_chars(*text),
{
    text.all()
}

/// Calls `pdfium_render::prelude::PdfPages::len`. Claimed: it is the number
/// of pages of the collection, the length of its page texts.
#[verifier::external_body]
pub(crate) fn pages_len(pages: &pdfium_render::prelude::PdfPages) -> (r: u16)
    ensures
        r == pdf_page_texts(*pages).len(),
{
    pages.len()
}

/// The page index handed to PDFium for page `page_index` of a collection
/// of `count` pages: the index itself when it is in range, else `count`,
/// which PDFium rejects as out of range.
pub fn pdfium_page_index(page_index: u32, count: u16) -> (i: u16)
    ensures
        page_index < count ==> i == page_index,
        page_index >= count ==> i == count,
{
    if page_index < count as u32 {
        page_index as u16
    } else {
        count
    }
}

/// The text layer a page's raw text amounts to: none when it is blank.
pub fn text_layer_from_raw(text: String) -> (r: Option<String>)
    ensures
        r is None <==> all_white_space(text@),
        r matches Some(t) ==> t == text,
{
    let v = chars_of(text.as_str());
    let (i, j) = trim_bounds(&v);
    if i == j {
        None
    } else {
        Some(text)
    }
}

/// Extract the native text layer from page `page_index` of `pages`.
///
/// Returns `Ok(None)` if the page exists but has no text layer (a scanned
/// image), and `Err` if the page index is out of range, or PDFium fails to
/// load the page or its text object.
pub fn extract_text_layer(pages: &pdfium_render::prelude::PdfPages, page_index: u32) -> (r: Result<
    Option<String>,
    TextError,
>)
    ensures
        r matches Err(TextError::ExtractionFailed { page, .. }) ==> page == page_index,
        page_index >= pdf_page_texts(*pages).len() ==> r is Err,
        r matches Ok(layer) ==> {
            &&& page_index < pdf_page_texts(*pages).len()
            &&& layer is None <==> all_white_space(pdf_page_texts(*pages)[page_index as int])
            &&& layer matches Some(t) ==> t@ == pdf_page_texts(*pages)[page_index as int]
        },
        page_index < pdf_page_texts(*pages).len() && r is Err ==> {
            ||| pdf_page_load_can_fail(*pages, page_index as u16)
            ||| exists|p: pdfium_render::prelude::PdfPage<'_>|
                #[trigger] pdf_page_text_can_fail(p) && pdf_page_chars(p) == pdf_page_texts(
                    *pages,
                )[page_index as int]
        },
{
    let index = pdfium_page_index(page_index, pages_len(pages));
    let page = match pages_get(pages, index) {
        Ok(p) => p,
        Err(err) => {
            return Err(TextError::ExtractionFailed { page: page_index, source: Arc::new(err) });
        },
    };
    let text_object = match page_text(&page) {
        Ok(t) => t,
        Err(err) => {
            assert(pdf_page_text_can_fail(page));
            return Err(TextError::ExtractionFailed { page: page_index, source: Arc::new(err) });
        },
    };
    let text = text_all(&text_object);
    Ok(text_layer_from_raw(text))
}

} // verus!
