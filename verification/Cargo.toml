[package]
name = "docuparse"
version = "0.1.0"
edition = "2021"
publish = false

[dependencies]
pdfium-render = { version = "=0.8.37", features = ["sync"] }
image = { version = "=0.25.10", default-features = false }
base64 = "=0.22.1"
serde_json = "=1.0.154"
thiserror = "=2.0.21"
once_cell = "=1.21.4"
rayon = "=1.12.0"
reqwest = { version = "=0.12.28", default-features = false, features = ["blocking", "json"] }
turbojpeg = "=1.5.1"
oar-ocr = "=0.10.2"
