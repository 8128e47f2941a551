# docuparse

PDF processing: validation of PDF files, text-layer extraction, document
metadata, page rendering and pluggable OCR, on top of PDFium.

- `src/` is the library, verified with Verus: file validation
  (`validation`), metadata assembly and size display (`metadata`,
  `decimal`), whitespace trimming and real-word detection (`utils`,
  `unicode`), text-layer extraction (`text`), load errors
  (`pdf_document`), render settings (`render`) and the OCR orchestration,
  results and backend settings (`ocr`).
- `app/` holds what needs I/O, threads, floating point or trait objects:
  the PDFium binding, `PdfDocument`, rendering, the OCR backends and the
  error messages.
- `tests/` exercises the library.
