//! Document metadata gathered when a PDF is opened, and its display helpers.
use vstd::prelude::*;

use crate::constants::{KB, MB};
use crate::decimal::{decimal, push_decimal};
use crate::unicode::chars_of;
use crate::text::{pages_len, pdf_page_texts};
use crate::utils::{trim_bounds, trim_ws};

verus! {

#[verifier::external_type_specification]
#[verifier::external_body]
pub struct ExPdfiumDocument<'a>(pdfium_render::prelude::PdfDocument<'a>);

#[verifier::external_type_specification]
#[verifier::external_body]
pub struct ExPdfiumPages<'a>(pdfium_render::prelude::PdfPages<'a>);

#[verifier::external_type_specification]
#[verifier::external_body]
pub struct ExPdfiumMetadataTag(pdfium_render::prelude::PdfDocumentMetadataTag);

/// Version of the PDF specification a document declares.
#[derive(Debug, Clone, Copy, PartialEq, Eq)]
pub enum PdfVersion {
    Unset,
    Pdf1_0,
    Pdf1_1,
    Pdf1_2,
    Pdf1_3,
    Pdf1_4,
    Pdf1_5,
    Pdf1_6,
    Pdf1_7,
    Pdf2_0,
    /// A two-digit raw version number not otherwise recognized (21 is 2.1).
    Other(i32),
}

/// The kinds of entries in a PDF's document information dictionary.
#[derive(Debug, Clone, Copy, PartialEq, Eq)]
pub enum MetadataTagKind {
    Title,
    Author,
    Subject,
    Keywords,
    Creator,
    Producer,
    CreationDate,
    ModificationDate,
}

/// Metadata extracted from a PDF document at load time.
#[derive(Debug, Clone)]
pub struct PdfMetadata {
    /// Derived from the file stem: "Test_file.pdf" gives "Test_file".
    pub pdf_name: String,
    /// Total number of pages.
    pub page_count: u32,
    /// File size in bytes.
    pub file_size_bytes: u64,
    /// From the PDF's own metadata dictionary.
    pub title: Option<String>,
    pub author: Option<String>,
    pub subject: Option<String>,
    pub creator: Option<String>,
    pub producer: Option<String>,
    /// PDF spec version, e.g. 1.7 or 2.0.
    pub pdf_version: PdfVersion,
}

/// The view of an optional string.
pub open spec fn opt_view(o: Option<String>) -> Option<Seq<char>> {
    match o {
        Some(s) => Some(s@),
        None => None,
    }
}

/// A metadata value with surrounding whitespace removed, absent when nothing is left.
pub open spec fn non_empty_spec(s: Seq<char>) -> Option<Seq<char>> {
    let t = trim_ws(s);
    if t.len() == 0 {
        None
    } else {
        Some(t)
    }
}

/// The view of a list of metadata tags.
pub open spec fn tags_view(tags: Seq<(MetadataTagKind, String)>) -> Seq<(MetadataTagKind, Seq<char>)> {
    tags.map_values(|t: (MetadataTagKind, String)| (t.0, t.1@))
}

/// The value of the last tag of kind `kind` in `tags`, if there is one.
pub open spec fn last_tag_value(tags: Seq<(MetadataTagKind, Seq<char>)>, kind: MetadataTagKind) -> Option<Seq<char>>
    decreases tags.len(),
{
    if tags.len() == 0 {
        None
    } else if tags.last().0 == kind {
        Some(tags.last().1)
    } else {
        last_tag_value(tags.drop_last(), kind)
    }
}

/// The field that `tags` give for `kind`: the last such tag decides, and a
/// blank value counts as absent.
pub open spec fn field_from_tags(tags: Seq<(MetadataTagKind, Seq<char>)>, kind: MetadataTagKind) -> Option<Seq<char>> {
    match last_tag_value(tags, kind) {
        Some(v) => non_empty_spec(v),
        None => None,
    }
}

/// `bytes / unit` rounded to one decimal place, an exact tie going to the
/// even digit, counted in tenths.
pub open spec fn rounded_tenths(bytes: nat, unit: nat) -> nat {
    let q = (bytes * 10) / unit;
    let r = (bytes * 10) % unit;
    if 2 * r > unit || (2 * r == unit && q % 2 == 1) {
        q + 1
    } else {
        q
    }
}

/// A count of tenths written with one decimal place, e.g. 15 gives "1.5".
pub open spec fn one_decimal(tenths: nat) -> Seq<char> {
    decimal(tenths / 10) + seq!['.'] + decimal(tenths % 10)
}

/// Human-readable size: megabytes or kilobytes to one decimal, plain bytes below a kilobyte.
pub open spec fn size_display(bytes: nat) -> Seq<char> {
    if bytes >= MB {
        one_decimal(rounded_tenths(bytes, MB as nat)) + seq![' ', 'M', 'B']
    } else if bytes >= KB {
        one_decimal(rounded_tenths(bytes, KB as nat)) + seq![' ', 'K', 'B']
    } else {
        decimal(bytes) + seq![' ', 'B']
    }
}

/// The name a document gets from its file stem, or "unknown" when there is none.
pub open spec fn pdf_name_spec(stem: Option<Seq<char>>) -> Seq<char> {
    match stem {
        Some(s) => s,
        None => seq!['u', 'n', 'k', 'n', 'o', 'w', 'n'],
    }
}

/// A value kept by `non_empty` is kept unchanged when it is checked again.
pub proof fn lemma_non_empty_stable(s: Seq<char>)
    ensures
        non_empty_spec(s) matches Some(t) ==> non_empty_spec(t) == Some(t),
{
    crate::utils::lemma_trim_idempotent(s);
}

/// Treat empty/whitespace-only strings from the PDF dictionary as absent.
pub fn non_empty(s: &str) -> (r: Option<String>)
    ensures
        opt_view(r) == non_empty_spec(s@),
{
    let v = chars_of(s);
    let (i, j) = trim_bounds(&v);
    if i == j {
        None
    } else {
        let t: &str = s.substring_char(i, j);
        Some(t.to_owned())
    }
}

/// `bytes / unit` to one decimal place, counted in tenths.
fn rounded_tenths_exec(bytes: u64, unit: u64) -> (t: u64)
    requires
        unit == KB || unit == MB,
    ensures
        t == rounded_tenths(bytes as nat, unit as nat),
{
    let num: u128 = (bytes as u128) * 10;
    let q: u128 = num / (unit as u128);
    let r: u128 = num % (unit as u128);
    assert(q <= num / 1024) by (nonlinear_arith)
        requires
            unit >= 1024,
            q == num / (unit as u128),
    ;
    let t: u128 = if 2 * r > unit as u128 || (2 * r == unit as u128 && q % 2 == 1) {
        q + 1
    } else {
        q
    };
    t as u64
}

/// Appends `tenths` written with one decimal place.
fn push_one_decimal(out: &mut String, tenths: u64)
    ensures
        final(out)@ == old(out)@ + one_decimal(tenths as nat),
{
    push_decimal(out, tenths / 10);
    proof {
        reveal_strlit(".");
    }
    out.append(".");
    push_decimal(out, tenths % 10);
    assert(one_decimal(tenths as nat) == decimal((tenths / 10) as nat) + seq!['.'] + decimal(
        (tenths % 10) as nat,
    ));
}

/// The document name for a file stem: the stem itself, or "unknown" when there is none.
pub fn pdf_name_from_stem(stem: Option<String>) -> (r: String)
    ensures
        r@ == pdf_name_spec(opt_view(stem)),
{
    match stem {
        Some(s) => s,
        None => {
            proof {
                reveal_strlit("unknown");
            }
            "unknown".to_owned()
        },
    }
}

/// `s` is a single ordinary file name on every platform: non-empty, with
/// no separator (`/`, `\\`) or drive-prefix (`:`) character, and neither `.`
/// nor `..`.
pub open spec fn plain_file_name(s: Seq<char>) -> bool {
    &&& s.len() > 0
    &&& forall|k: int| 0 <= k < s.len() ==> #[trigger] s[k] != '/' && s[k] != '\\' && s[k] != ':'
    &&& s != seq!['.']
    &&& s != seq!['.', '.']
}

/// Position of the last `c` in `s`, or -1 when there is none.
pub open spec fn last_index_of(s: Seq<char>, c: char) -> int
    decreases s.len(),
{
    if s.len() == 0 {
        -1
    } else if s.last() == c {
        s.len() - 1
    } else {
        last_index_of(s.drop_last(), c)
    }
}

/// The stem of a file name: the whole name when it holds no `.`, or only a
/// leading one; otherwise the part before the final `.`.
pub open spec fn file_stem_of_name(name: Seq<char>) -> Seq<char> {
    let d = last_index_of(name, '.');
    if d <= 0 {
        name
    } else {
        name.take(d)
    }
}

/// The part of `path` after its last `/`: the whole path when it holds none.
pub open spec fn final_segment(path: Seq<char>) -> Seq<char> {
    path.skip(last_index_of(path, '/') + 1)
}

/// `path` reads the same on every platform: it holds no `\\` and no `:`, does
/// not start with `//` (which some platforms read as a network prefix), and
/// its part after the last `/` is a plain file name, which is then its final
/// component.
pub open spec fn portable_file_path(path: Seq<char>) -> bool {
    &&& forall|k: int| 0 <= k < path.len() ==> #[trigger] path[k] != '\\' && path[k] != ':'
    &&& !(path.len() >= 2 && path[0] == '/' && path[1] == '/')
    &&& plain_file_name(final_segment(path))
}

/// `part` is a contiguous run of the characters of `s`.
pub open spec fn is_part_of(part: Seq<char>, s: Seq<char>) -> bool {
    exists|i: int, j: int| 0 <= i <= j <= s.len() && part == s.subrange(i, j)
}

/// The document name for the file at `path`: its file stem, or "unknown"
/// when the path has none. Which part of a path is its file name depends on
/// the platform in general; for a path that reads the same everywhere it is
/// the part after the last `/`.
pub fn pdf_name_from_path(path: &str) -> (r: String)
    ensures
        portable_file_path(path@) ==> r@ == file_stem_of_name(final_segment(path@)),
        path@.len() == 0 ==> r@ == pdf_name_spec(None),
        r@ == pdf_name_spec(None) || is_part_of(r@, path@),
{
    pdf_name_from_stem(path_file_stem(path))
}

/// Calls `std::path::Path::file_stem` on `path` and keeps the stem when it is
/// valid UTF-8. Claimed, as std documents it: the stem is a portion of the
/// path's final component, so a contiguous part of `path`; an empty path has
/// no file name and so no stem; and when the path reads the same on every
/// platform (no `\\`, no `:`, no leading `//`, and a plain file name after
/// its last `/`), that name is its final component, whose stem is the whole
/// name when it holds no `.` or only a leading one, and otherwise the part
/// before the final `.`. Nothing is claimed of how other paths split into
/// components, which depends on the platform.
#[verifier::external_body]
fn path_file_stem(path: &str) -> (r: Option<String>)
    ensures
        r is Some ==> is_part_of(r->0@, path@),
        path@.len() == 0 ==> r is None,
        portable_file_path(path@) ==> r is Some && r->0@ == file_stem_of_name(final_segment(path@)),
{
    std::path::Path::new(path).file_stem().and_then(|s| s.to_str()).map(|s| s.to_owned())
}

/// The text of each page of a document, in page order: the page texts of
/// the page collection the document hands out.
pub uninterp spec fn pdf_document_page_texts(doc: pdfium_render::prelude::PdfDocument<'_>) -> Seq<Seq<char>>;

/// The PDF version a document declares, as `PdfDocument::version` reports it.
pub uninterp spec fn pdf_document_version(doc: pdfium_render::prelude::PdfDocument<'_>) -> PdfVersion;

/// The tags of a document's information dictionary, each as its kind and
/// value, in the order in which `PdfMetadata::iter` hands them out.
pub uninterp spec fn pdf_document_tags(doc: pdfium_render::prelude::PdfDocument<'_>) -> Seq<(MetadataTagKind, Seq<char>)>;

/// The kind of a metadata tag, as `PdfDocumentMetadataTag::tag_type` reports it.
pub uninterp spec fn pdf_tag_kind(tag: pdfium_render::prelude::PdfDocumentMetadataTag) -> MetadataTagKind;

/// The value of a metadata tag, as `PdfDocumentMetadataTag::value` gives it.
pub uninterp spec fn pdf_tag_value(tag: pdfium_render::prelude::PdfDocumentMetadataTag) -> Seq<char>;

/// Calls `pdfium_render::prelude::PdfDocument::pages`. Claimed: the page
/// collection it hands out is that of `doc`, so its page texts are the
/// document's.
#[verifier::external_body]
fn document_pages<'b, 'a>(doc: &'b pdfium_render::prelude::PdfDocument<'a>) -> (r: &'b pdfium_render::prelude::PdfPages<'a>)
    ensures
        pdf_page_texts(*r) == pdf_document_page_texts(*doc),
{
    doc.pages()
}

/// Calls `pdfium_render::prelude::PdfDocument::version` and maps each variant
/// of `PdfDocumentVersion` to the variant of `PdfVersion` with the same name.
/// Claimed: the result is the version `doc` declares.
#[verifier::external_body]
fn document_version(doc: &pdfium_render::prelude::PdfDocument) -> (r: PdfVersion)
    ensures
        r == pdf_document_version(*doc),
{
    match doc.version() {
        pdfium_render::prelude::PdfDocumentVersion::Unset => PdfVersion::Unset,
        pdfium_render::prelude::PdfDocumentVersion::Pdf1_0 => PdfVersion::Pdf1_0,
        pdfium_render::prelude::PdfDocumentVersion::Pdf1_1 => PdfVersion::Pdf1_1,
        pdfium_render::prelude::PdfDocumentVersion::Pdf1_2 => PdfVersion::Pdf1_2,
        pdfium_render::prelude::PdfDocumentVersion::Pdf1_3 => PdfVersion::Pdf1_3,
        pdfium_render::prelude::PdfDocumentVersion::Pdf1_4 => PdfVersion::Pdf1_4,
        pdfium_render::prelude::PdfDocumentVersion::Pdf1_5 => PdfVersion::Pdf1_5,
        pdfium_render::prelude::PdfDocumentVersion::Pdf1_6 => PdfVersion::Pdf1_6,
        pdfium_render::prelude::PdfDocumentVersion::Pdf1_7 => PdfVersion::Pdf1_7,
        pdfium_render::prelude::PdfDocumentVersion::Pdf2_0 => PdfVersion::Pdf2_0,
        pdfium_render::prelude::PdfDocumentVersion::Other(n) => PdfVersion::Other(n),
    }
}

/// Calls `pdfium_render::prelude::PdfDocument::metadata` and iterates the
/// collection it returns, handing out a copy of each tag in the order of the
/// iteration. Claimed: the tags handed out are those of `doc`, in that
/// order, each with its kind and value.
#[verifier::external_body]
fn document_metadata_tags(doc: &pdfium_render::prelude::PdfDocument) -> (r: Vec<pdfium_render::prelude::PdfDocumentMetadataTag>)
    ensures
        r@.len() == pdf_document_tags(*doc).len(),
        forall|k: int| 0 <= k < r@.len() ==> (pdf_tag_kind(#[trigger] r@[k]), pdf_tag_value(r@[k]))
            == pdf_document_tags(*doc)[k],
{
    doc.metadata().iter().cloned().collect()
}

/// Calls `pdfium_render::prelude::PdfDocumentMetadataTag::tag_type` and maps
/// each variant to the variant of `MetadataTagKind` with the same name.
/// Claimed: the result is the kind of `tag`.
#[verifier::external_body]
fn tag_kind(tag: &pdfium_render::prelude::PdfDocumentMetadataTag) -> (r: MetadataTagKind)
    ensures
        r == pdf_tag_kind(*tag),
{
    match tag.tag_type() {
        pdfium_render::prelude::PdfDocumentMetadataTagType::Title => MetadataTagKind::Title,
        pdfium_render::prelude::PdfDocumentMetadataTagType::Author => MetadataTagKind::Author,
        pdfium_render::prelude::PdfDocumentMetadataTagType::Subject => MetadataTagKind::Subject,
        pdfium_render::prelude::PdfDocumentMetadataTagType::Keywords => MetadataTagKind::Keywords,
        pdfium_render::prelude::PdfDocumentMetadataTagType::Creator => MetadataTagKind::Creator,
        pdfium_render::prelude::PdfDocumentMetadataTagType::Producer => MetadataTagKind::Producer,
        pdfium_render::prelude::PdfDocumentMetadataTagType::CreationDate => MetadataTagKind::CreationDate,
        pdfium_render::prelude::PdfDocumentMetadataTagType::ModificationDate => MetadataTagKind::ModificationDate,
    }
}

/// Calls `pdfium_render::prelude::PdfDocumentMetadataTag::value` and copies it.
/// Claimed: the copy holds the value of `tag`.
#[verifier::external_body]
fn tag_value(tag: &pdfium_render::prelude::PdfDocumentMetadataTag) -> (r: String)
    ensures
        r@ == pdf_tag_value(*tag),
{
    tag.value().to_owned()
}

impl PdfMetadata {
    /// Assembles the metadata of a document from its name, page count, size,
    /// version and the tags of its information dictionary. For each of title,
    /// author, subject, creator and producer the last tag of that kind decides
    /// and a blank value counts as absent; keywords and dates are not kept.
    pub fn from_parts(
        pdf_name: String,
        page_count: u32,
        file_size_bytes: u64,
        pdf_version: PdfVersion,
        tags: &Vec<(MetadataTagKind, String)>,
    ) -> (m: PdfMetadata)
        ensures
            m.pdf_name == pdf_name,
            m.page_count == page_count,
            m.file_size_bytes == file_size_bytes,
            m.pdf_version == pdf_version,
            opt_view(m.title) == field_from_tags(tags_view(tags@), MetadataTagKind::Title),
            opt_view(m.author) == field_from_tags(tags_view(tags@), MetadataTagKind::Author),
            opt_view(m.subject) == field_from_tags(tags_view(tags@), MetadataTagKind::Subject),
            opt_view(m.creator) == field_from_tags(tags_view(tags@), MetadataTagKind::Creator),
            opt_view(m.producer) == field_from_tags(tags_view(tags@), MetadataTagKind::Producer),
    {
        let mut title: Option<String> = None;
        let mut author: Option<String> = None;
        let mut subject: Option<String> = None;
        let mut creator: Option<String> = None;
        let mut producer: Option<String> = None;
        let ghost tv = tags_view(tags@);
        let mut i: usize = 0;
        while i < tags.len()
            invariant
                i <= tags@.len(),
                tv == tags_view(tags@),
                opt_view(title) == field_from_tags(tv.take(i as int), MetadataTagKind::Title),
                opt_view(author) == field_from_tags(tv.take(i as int), MetadataTagKind::Author),
                opt_view(subject) == field_from_tags(tv.take(i as int), MetadataTagKind::Subject),
                opt_view(creator) == field_from_tags(tv.take(i as int), MetadataTagKind::Creator),
                opt_view(producer) == field_from_tags(tv.take(i as int), MetadataTagKind::Producer),
            decreases tags@.len() - i,
        {
            let tag = &tags[i];
            let value = non_empty(tag.1.as_str());
            proof {
                let pre = tv.take(i as int);
                let post = tv.take(i + 1);
                assert(post.drop_last() =~= pre);
                assert(post.last() == (tag.0, tag.1@));
            }
            match tag.0 {
                MetadataTagKind::Title => title = value,
                MetadataTagKind::Author => author = value,
                MetadataTagKind::Subject => subject = value,
                MetadataTagKind::Creator => creator = value,
                MetadataTagKind::Producer => producer = value,
                _ => {},
            }
            i = i + 1;
        }
        proof {
            assert(tv.take(tags@.len() as int) =~= tv);
        }
        PdfMetadata {
            pdf_name,
            page_count,
            file_size_bytes,
            title,
            author,
            subject,
            creator,
            producer,
            pdf_version,
        }
    }

    /// Reads the metadata of an open PDFium document. `path` names the file
    /// the document was loaded from; `file_size_bytes` is its size on disk.
    /// The name is the file stem of `path`, as `pdf_name_from_path` gives it.
    pub fn from_doc(
        doc: &pdfium_render::prelude::PdfDocument,
        path: &str,
        file_size_bytes: u64,
    ) -> (m: PdfMetadata)
        ensures
            portable_file_path(path@) ==> m.pdf_name@ == file_stem_of_name(final_segment(path@)),
            path@.len() == 0 ==> m.pdf_name@ == pdf_name_spec(None),
            m.pdf_name@ == pdf_name_spec(None) || is_part_of(m.pdf_name@, path@),
            m.page_count == pdf_document_page_texts(*doc).len(),
            m.file_size_bytes == file_size_bytes,
            m.pdf_version == pdf_document_version(*doc),
            opt_view(m.title) == field_from_tags(pdf_document_tags(*doc), MetadataTagKind::Title),
            opt_view(m.author) == field_from_tags(pdf_document_tags(*doc), MetadataTagKind::Author),
            opt_view(m.subject) == field_from_tags(pdf_document_tags(*doc), MetadataTagKind::Subject),
            opt_view(m.creator) == field_from_tags(pdf_document_tags(*doc), MetadataTagKind::Creator),
            opt_view(m.producer) == field_from_tags(pdf_document_tags(*doc), MetadataTagKind::Producer),
    {
        let pdf_name = pdf_name_from_path(path);
        let page_count = pages_len(document_pages(doc)) as u32;
        let pdf_version = document_version(doc);
        let raw = document_metadata_tags(doc);
        let ghost all = pdf_document_tags(*doc);
        let mut tags: Vec<(MetadataTagKind, String)> = Vec::new();
        let mut i: usize = 0;
        while i < raw.len()
            invariant
                i <= raw@.len(),
                raw@.len() == all.len(),
                forall|k: int| 0 <= k < raw@.len() ==> (pdf_tag_kind(#[trigger] raw@[k]), pdf_tag_value(raw@[k])) == all[k],
                tags@.len() == i,
                tags_view(tags@) == all.take(i as int),
            decreases raw@.len() - i,
        {
            let kind = tag_kind(&raw[i]);
            let value = tag_value(&raw[i]);
            proof {
                assert(all[i as int] == (kind, value@));
            }
            let ghost before = tags@;
            tags.push((kind, value));
            proof {
                assert forall|k: int| 0 <= k < i + 1 implies #[trigger] tags_view(tags@)[k] == all.take(i + 1)[k] by {
                    if k < i {
                        assert(tags@[k] == before[k]);
                        assert(tags_view(before)[k] == all.take(i as int)[k]);
                    }
                }
                assert(tags_view(tags@) =~= all.take(i + 1));
            }
            i = i + 1;
        }
        proof {
            assert(all.take(raw@.len() as int) =~= all);
        }
        PdfMetadata::from_parts(pdf_name, page_count, file_size_bytes, pdf_version, &tags)
    }

    /// Human-readable file size, e.g. "1.7 MB", "340.0 KB" or "512 B".
    pub fn file_size_display(&self) -> (r: String)
        ensures
            r@ == size_display(self.file_size_bytes as nat),
    {
        let bytes = self.file_size_bytes;
        let mut out = String::new();
        if bytes >= MB {
            push_one_decimal(&mut out, rounded_tenths_exec(bytes, MB));
            proof {
                reveal_strlit(" MB");
            }
            out.append(" MB");
        } else if bytes >= KB {
            push_one_decimal(&mut out, rounded_tenths_exec(bytes, KB));
            proof {
                reveal_strlit(" KB");
            }
            out.append(" KB");
        } else {
            push_decimal(&mut out, bytes);
            proof {
                reveal_strlit(" B");
            }
            out.append(" B");
        }
        assert(out@ =~= size_display(bytes as nat));
        out
    }
}

} // verus!
