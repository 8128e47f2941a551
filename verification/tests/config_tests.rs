use std::time::Duration;

use docuparse::ocr::llama_backend::{jpeg_data_uri, LlamaServerConfig};
use docuparse::RenderConfig;

#[test]
fn render_config_defaults() {
    let c = RenderConfig::builder().build();
    assert_eq!(c.dpi, 150);
    assert!(!c.with_annotations);
    assert_eq!(c.max_dimension_px, 4096);
}

#[test]
fn render_config_overrides() {
    let c = RenderConfig::builder().dpi(200).with_annotations(true).max_dimension_px(1024).build();
    assert_eq!(c.dpi, 200);
    assert!(c.with_annotations);
    assert_eq!(c.max_dimension_px, 1024);
}

#[test]
fn llama_config_defaults() {
    let c = LlamaServerConfig::builder().endpoint("http://localhost:8080/v1/chat/completions").build();
    assert_eq!(c.endpoint(), "http://localhost:8080/v1/chat/completions");
    assert_eq!(c.prompt(), "Text Recognition:");
    assert_eq!(c.timeout(), Duration::from_secs(120));
    assert_eq!(c.max_tokens(), 4096);
}

#[test]
fn llama_config_overrides() {
    let c = LlamaServerConfig::builder()
        .endpoint("http://host/v1/chat/completions")
        .timeout(Duration::from_secs(300))
        .prompt("Extract all text verbatim:")
        .max_tokens(512)
        .build();
    assert_eq!(c.prompt(), "Extract all text verbatim:");
    assert_eq!(c.timeout(), Duration::from_secs(300));
    assert_eq!(c.max_tokens(), 512);
}

#[test]
fn jpeg_data_uri_encodes_base64() {
    assert_eq!(jpeg_data_uri(b""), "data:image/jpeg;base64,");
    assert_eq!(jpeg_data_uri(b"abc"), "data:image/jpeg;base64,YWJj");
    assert_eq!(jpeg_data_uri(&[0xff, 0xd8, 0xff]), "data:image/jpeg;base64,/9j/");
    assert_eq!(jpeg_data_uri(b"ab"), "data:image/jpeg;base64,YWI=");
}
