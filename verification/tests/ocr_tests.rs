use std::sync::atomic::{AtomicU32, Ordering};

use docuparse::ocr::document::{
    chunk_bounds, collect_page_results, collect_range_results, ocr_all_pages_seq, ocr_page_with, render_range,
};
use docuparse::ocr::onnx_backend::{check_image_dimensions, join_region_texts};
use docuparse::ocr::llama_backend::interpret_reply;
use docuparse::ocr::OcrPageResult;
use docuparse::OcrError;

type PageError = OcrError<String>;

/// A stand-in for a rendered page.
#[derive(Debug, Clone, PartialEq)]
struct Image(u32);

fn ok_render(page_index: u32) -> Result<Image, PageError> {
    Ok(Image(page_index))
}

fn err_render(page_index: u32) -> Result<Image, PageError> {
    Err(OcrError::RenderFailed { page: page_index, source: format!("page {page_index} out of range") })
}

fn stub_result(page_index: u32) -> OcrPageResult {
    OcrPageResult::builder().page_index(page_index).text(format!("page {page_index}")).build()
}

#[test]
fn test_ocr_page_with_ok() {
    let count = AtomicU32::new(0);
    let backend = |img: &Image, i: u32| -> Result<OcrPageResult, String> {
        count.fetch_add(1, Ordering::Relaxed);
        assert_eq!(img.0, i);
        Ok(stub_result(i))
    };
    let result = ocr_page_with(0, &ok_render, &backend);
    assert_eq!(result.unwrap().page_index, 0);
    assert_eq!(count.load(Ordering::Relaxed), 1);
}

#[test]
fn test_ocr_page_with_render_error() {
    let count = AtomicU32::new(0);
    let backend = |_: &Image, i: u32| -> Result<OcrPageResult, String> {
        count.fetch_add(1, Ordering::Relaxed);
        Ok(stub_result(i))
    };
    let result = ocr_page_with(3, &err_render, &backend);
    assert!(matches!(result, Err(OcrError::RenderFailed { page: 3, .. })));
    assert_eq!(count.load(Ordering::Relaxed), 0);
}

#[test]
fn test_ocr_page_with_inference_error() {
    let backend = |_: &Image, i: u32| -> Result<OcrPageResult, String> { Err(format!("inference failed on page {i}")) };
    match ocr_page_with(0, &ok_render, &backend) {
        Err(OcrError::InferenceFailed { page: 0, source }) => assert_eq!(source, "inference failed on page 0"),
        other => panic!("expected InferenceFailed, got {other:?}"),
    }
}

#[test]
fn test_seq_returns_all_pages() {
    let count = AtomicU32::new(0);
    let backend = |_: &Image, i: u32| -> Result<OcrPageResult, String> {
        count.fetch_add(1, Ordering::Relaxed);
        Ok(stub_result(i))
    };
    let results = ocr_all_pages_seq(4, &ok_render, &backend).unwrap();
    assert_eq!(results.len(), 4);
    assert_eq!(count.load(Ordering::Relaxed), 4);
    for (i, r) in results.iter().enumerate() {
        assert_eq!(r.page_index, i as u32);
    }
}

#[test]
fn test_seq_zero_pages() {
    let backend = |_: &Image, i: u32| -> Result<OcrPageResult, String> { Ok(stub_result(i)) };
    let results = ocr_all_pages_seq(0, &ok_render, &backend).unwrap();
    assert!(results.is_empty());
}

#[test]
fn test_seq_fails_fast_on_render_error() {
    let render_count = AtomicU32::new(0);
    let render = |i: u32| -> Result<Image, PageError> {
        render_count.fetch_add(1, Ordering::Relaxed);
        if i == 2 { err_render(i) } else { ok_render(i) }
    };
    let infer_count = AtomicU32::new(0);
    let backend = |_: &Image, i: u32| -> Result<OcrPageResult, String> {
        infer_count.fetch_add(1, Ordering::Relaxed);
        Ok(stub_result(i))
    };
    let result = ocr_all_pages_seq(5, &render, &backend);
    assert!(matches!(result, Err(OcrError::RenderFailed { page: 2, .. })));
    assert_eq!(render_count.load(Ordering::Relaxed), 3);
    assert_eq!(infer_count.load(Ordering::Relaxed), 2);
}

#[test]
fn test_seq_fails_fast_on_inference_error() {
    let backend = |_: &Image, i: u32| -> Result<OcrPageResult, String> { Err(format!("inference failed on page {i}")) };
    let result = ocr_all_pages_seq(3, &ok_render, &backend);
    assert!(matches!(result.unwrap_err(), OcrError::InferenceFailed { page: 0, .. }));
}

#[test]
fn test_chunked_bounds() {
    for (page_count, chunk_size, expected) in [
        (1u32, 1usize, vec![(0u32, 1u32)]),
        (4, 2, vec![(0, 2), (2, 4)]),
        (5, 2, vec![(0, 2), (2, 4), (4, 5)]),
        (6, 3, vec![(0, 3), (3, 6)]),
    ] {
        assert_eq!(chunk_bounds(page_count, chunk_size), expected, "{page_count} pages by {chunk_size}");
    }
}

#[test]
fn test_chunked_zero_pages() {
    assert!(chunk_bounds(0, 2).is_empty());
}

#[test]
fn chunk_bounds_near_u32_max() {
    let chunks = chunk_bounds(u32::MAX, 1 << 31);
    assert_eq!(chunks, vec![(0, 1 << 31), (1 << 31, u32::MAX)]);
}

#[test]
fn render_range_renders_in_order() {
    let images = render_range(2, 5, &ok_render).unwrap();
    assert_eq!(images, vec![(2, Image(2)), (3, Image(3)), (4, Image(4))]);
    assert!(render_range(5, 5, &ok_render).unwrap().is_empty());
}

#[test]
fn render_range_stops_at_first_failure() {
    let count = AtomicU32::new(0);
    let render = |i: u32| -> Result<Image, PageError> {
        count.fetch_add(1, Ordering::Relaxed);
        if i >= 3 { err_render(i) } else { ok_render(i) }
    };
    assert!(matches!(render_range(0, 6, &render), Err(OcrError::RenderFailed { page: 3, .. })));
    assert_eq!(count.load(Ordering::Relaxed), 4);
}

#[test]
fn test_pipeline_results_in_page_order() {
    let results: Vec<Result<OcrPageResult, String>> = (0..4).map(|i| Ok(stub_result(i))).collect();
    let out = collect_page_results(results).unwrap();
    assert_eq!(out.iter().map(|r| r.page_index).collect::<Vec<_>>(), vec![0, 1, 2, 3]);
    assert!(collect_page_results::<String>(Vec::new()).unwrap().is_empty());
}

#[test]
fn test_pipeline_inference_error_propagates() {
    let results = vec![
        Ok(stub_result(0)),
        Err("bad page".to_owned()),
        Err("worse page".to_owned()),
    ];
    match collect_page_results(results) {
        Err(OcrError::InferenceFailed { page: 1, source }) => assert_eq!(source, "bad page"),
        other => panic!("expected InferenceFailed on page 1, got {other:?}"),
    }
}

#[test]
fn has_text_reports_nonempty_text() {
    assert!(stub_result(0).has_text());
    let empty = OcrPageResult::builder().page_index(1).text(String::new()).build();
    assert!(!empty.has_text());
    assert_eq!(empty.page_index, 1);
}

#[test]
fn onnx_backend_rejects_zero_dimension_image() {
    let err = check_image_dimensions::<String>(0, 100, 0).unwrap_err();
    assert!(matches!(err, OcrError::ImageConversionFailed { page: 0 }), "got {err:?}");
    assert!(check_image_dimensions::<String>(100, 0, 7).is_err());
    assert!(check_image_dimensions::<String>(1, 1, 7).is_ok());
}

#[test]
fn region_texts_joined_by_newline() {
    assert_eq!(join_region_texts(&vec![]), "");
    assert_eq!(join_region_texts(&vec!["Invoice Number: 1234".to_owned()]), "Invoice Number: 1234");
    assert_eq!(
        join_region_texts(&vec!["Invoice Number: 1234".to_owned(), "Total Amount: 99.00".to_owned()]),
        "Invoice Number: 1234\nTotal Amount: 99.00"
    );
}

#[test]
fn reply_with_failure_status_carries_status_and_body() {
    let r = interpret_reply(503, "503 Service Unavailable", "loading model", 2);
    assert_eq!(r.unwrap_err(), "llama-server returned 503 Service Unavailable: loading model");
    let r = interpret_reply(199, "199 <unknown status code>", "", 0);
    assert_eq!(r.unwrap_err(), "llama-server returned 199 <unknown status code>: ");
}

#[test]
fn reply_content_is_the_page_text() {
    let body = r#"{"choices":[{"message":{"role":"assistant","content":"Hello\nworld"}}]}"#;
    let res = interpret_reply(200, "200 OK", body, 7).unwrap();
    assert_eq!(res.page_index, 7);
    assert_eq!(res.text, "Hello\nworld");
    let res = interpret_reply(299, "299 <unknown status code>", r#"{"choices":[{"message":{"content":""}}]}"#, 0).unwrap();
    assert_eq!(res.text, "");
}

#[test]
fn reply_that_is_not_json_is_a_decoding_error() {
    let r = interpret_reply(200, "200 OK", "<html>oops</html>", 1);
    assert_eq!(r.unwrap_err(), "error decoding response body");
}

#[test]
fn reply_without_string_content_is_reported() {
    for body in [
        r#"{}"#,
        r#"{"choices":[]}"#,
        r#"{"choices":[{"message":{"content":null}}]}"#,
        r#"{"choices":[{"message":{"content":42}}]}"#,
        r#"{"choices":{"0":{"message":{"content":"x"}}}}"#,
    ] {
        let r = interpret_reply(200, "200 OK", body, 1);
        assert_eq!(r.unwrap_err(), "missing choices[0].message.content in llama-server response");
    }
}

#[test]
fn range_results_report_the_first_failing_page() {
    let results: Vec<Result<OcrPageResult, String>> =
        vec![Ok(stub_result(8)), Err("late".to_owned()), Err("later".to_owned())];
    match collect_range_results(8, results) {
        Err(OcrError::InferenceFailed { page, source }) => {
            assert_eq!(page, 9);
            assert_eq!(source, "late");
        }
        other => panic!("unexpected outcome: {other:?}"),
    }
    let results: Vec<Result<OcrPageResult, String>> = vec![Ok(stub_result(8)), Ok(stub_result(9))];
    let out = collect_range_results(8, results).unwrap();
    assert_eq!(out.len(), 2);
    assert_eq!(out[1].page_index, 9);
}
