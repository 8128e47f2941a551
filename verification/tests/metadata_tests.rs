use docuparse::constants::{KB, MB};
use docuparse::metadata::{pdf_name_from_path, pdf_name_from_stem, MetadataTagKind};
use docuparse::{PdfMetadata, PdfVersion};

fn metadata_with_size(file_size_bytes: u64) -> PdfMetadata {
    PdfMetadata::from_parts(String::new(), 0, file_size_bytes, PdfVersion::Unset, &Vec::new())
}

#[test]
fn test_file_size_display() {
    let cases: Vec<(u64, &str)> = vec![
        (0, "0 B"),
        (1, "1 B"),
        (1023, "1023 B"),
        (KB, "1.0 KB"),
        (512 * KB, "512.0 KB"),
        (MB - KB, "1023.0 KB"),
        (MB, "1.0 MB"),
        (10 * MB, "10.0 MB"),
        (500 * MB, "500.0 MB"),
        (MB + MB / 2, "1.5 MB"),
    ];
    for (bytes, expected) in cases {
        assert_eq!(metadata_with_size(bytes).file_size_display(), expected, "bytes={bytes}");
    }
}

#[test]
fn file_size_display_rounds_to_one_decimal() {
    // 1.7 MB and 340 KB from the doc comment's examples.
    assert_eq!(metadata_with_size(1782579).file_size_display(), "1.7 MB");
    assert_eq!(metadata_with_size(340 * KB).file_size_display(), "340.0 KB");
    // 1.96 KB rounds up across the decimal point.
    assert_eq!(metadata_with_size(2007).file_size_display(), "2.0 KB");
    // Exact ties go to the even digit: 1.25 MB and 1.75 MB.
    assert_eq!(metadata_with_size(MB + MB / 4).file_size_display(), "1.2 MB");
    assert_eq!(metadata_with_size(MB + 3 * MB / 4).file_size_display(), "1.8 MB");
}

#[test]
fn file_size_display_largest_value() {
    assert_eq!(metadata_with_size(u64::MAX).file_size_display(), "17592186044416.0 MB");
}

#[test]
fn test_pdf_name_derivation() {
    assert_eq!(pdf_name_from_path("Report.pdf"), "Report");
    assert_eq!(pdf_name_from_path("Test_file.pdf"), "Test_file");
    assert_eq!(pdf_name_from_path("myfile"), "myfile");
    assert_eq!(pdf_name_from_path(""), "unknown");
}

#[test]
fn pdf_name_follows_the_dot_rules() {
    assert_eq!(pdf_name_from_path(".bashrc"), ".bashrc");
    assert_eq!(pdf_name_from_path("archive.tar.gz"), "archive.tar");
    assert_eq!(pdf_name_from_path("..hidden.pdf"), "..hidden");
    assert_eq!(pdf_name_from_path("trailing."), "trailing");
    assert_eq!(pdf_name_from_path("docs/scans/page.pdf"), "page");
    assert_eq!(pdf_name_from_path("/srv/archive/x.v2.pdf"), "x.v2");
    assert_eq!(pdf_name_from_path("dir/.hidden"), ".hidden");
}

#[test]
fn pdf_name_without_stem_is_unknown() {
    assert_eq!(pdf_name_from_stem(None), "unknown");
    assert_eq!(pdf_name_from_stem(Some("doc".to_owned())), "doc");
}

#[test]
fn metadata_fields_from_tags() {
    let tags = vec![
        (MetadataTagKind::Title, "  Annual Report ".to_owned()),
        (MetadataTagKind::Author, "   ".to_owned()),
        (MetadataTagKind::Keywords, "finance".to_owned()),
        (MetadataTagKind::Producer, "pdfTeX".to_owned()),
        (MetadataTagKind::CreationDate, "D:20240101".to_owned()),
    ];
    let m = PdfMetadata::from_parts("report".to_owned(), 4, 2048, PdfVersion::Pdf1_7, &tags);
    assert_eq!(m.pdf_name, "report");
    assert_eq!(m.page_count, 4);
    assert_eq!(m.file_size_bytes, 2048);
    assert_eq!(m.pdf_version, PdfVersion::Pdf1_7);
    assert_eq!(m.title.as_deref(), Some("Annual Report"));
    assert_eq!(m.author, None);
    assert_eq!(m.subject, None);
    assert_eq!(m.creator, None);
    assert_eq!(m.producer.as_deref(), Some("pdfTeX"));
}

#[test]
fn metadata_last_tag_of_a_kind_wins() {
    let tags = vec![
        (MetadataTagKind::Subject, "first".to_owned()),
        (MetadataTagKind::Subject, "second".to_owned()),
        (MetadataTagKind::Creator, "writer".to_owned()),
        (MetadataTagKind::Creator, "".to_owned()),
    ];
    let m = PdfMetadata::from_parts(String::new(), 1, 0, PdfVersion::Other(21), &tags);
    assert_eq!(m.subject.as_deref(), Some("second"));
    assert_eq!(m.creator, None);
    assert_eq!(m.pdf_version, PdfVersion::Other(21));
}
