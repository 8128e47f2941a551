//! The backend-agnostic result of OCR on one page.
use vstd::prelude::*;

verus! {

/// OCR output for a single page.
#[derive(Debug, Clone)]
pub struct OcrPageResult {
    /// Zero-based page index within the source document.
    pub page_index: u32,
    /// Confidence-filtered plain text, newline-joined. Empty if no regions passed the threshold.
    pub text: String,
}

/// Builds an [`OcrPageResult`]; both fields must be set.
#[derive(Debug, Clone)]
pub struct OcrPageResultBuilder {
    page_index: Option<u32>,
    text: Option<String>,
}

impl OcrPageResult {
    /// Returns `true` if any text survived the confidence filter.
    pub fn has_text(&self) -> (r: bool)
        ensures
            r == (self.text@.len() > 0),
    {
        !self.text.as_str().is_empty()
    }

    /// A builder with no field set.
    pub fn builder() -> (b: OcrPageResultBuilder)
        ensures
            b.page_index_value() is None,
            b.text_value() is None,
    {
        OcrPageResultBuilder { page_index: None, text: None }
    }
}

impl OcrPageResultBuilder {
    /// The page index set so far.
    pub closed spec fn page_index_value(&self) -> Option<u32> {
        self.page_index
    }

    /// The text set so far.
    pub closed spec fn text_value(&self) -> Option<String> {
        self.text
    }

    /// Sets the page index.
    pub fn page_index(self, page_index: u32) -> (b: OcrPageResultBuilder)
        ensures
            b.page_index_value() == Some(page_index),
            b.text_value() == self.text_value(),
    {
        OcrPageResultBuilder { page_index: Some(page_index), text: self.text }
    }

    /// Sets the text.
    pub fn text(self, text: String) -> (b: OcrPageResultBuilder)
        ensures
            b.page_index_value() == self.page_index_value(),
            b.text_value() == Some(text),
    {
        OcrPageResultBuilder { page_index: self.page_index, text: Some(text) }
    }

    /// The result with the fields as set.
    pub fn build(self) -> (r: OcrPageResult)
        requires
            self.page_index_value() is Some,
            self.text_value() is Some,
        ensures
            r.page_index == self.page_index_value()->0,
            r.text == self.text_value()->0,
    {
        OcrPageResult { page_index: self.page_index.unwrap(), text: self.text.unwrap() }
    }
}

} // verus!
