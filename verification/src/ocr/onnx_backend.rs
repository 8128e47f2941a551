//! The parts of the local ONNX OCR backend that decide on plain values:
//! rejecting empty images and assembling the recognized lines.
use vstd::prelude::*;

use crate::ocr::OcrError;

verus! {

/// The recognized lines, joined by newlines.
pub open spec fn join_lines(lines: Seq<Seq<char>>) -> Seq<char>
    decreases lines.len(),
{
    if lines.len() == 0 {
        seq![]
    } else if lines.len() == 1 {
        lines[0]
    } else {
        join_lines(lines.drop_last()) + seq!['\n'] + lines.last()
    }
}

/// The number of characters of all the lines together.
pub open spec fn total_chars(lines: Seq<Seq<char>>) -> nat
    decreases lines.len(),
{
    if lines.len() == 0 {
        0
    } else {
        total_chars(lines.drop_last()) + lines.last().len()
    }
}

/// Where line `i` starts when the lines are written one after another with
/// one separator character between neighbours: after the characters of the
/// lines before it and one separator for each of them.
pub open spec fn line_start(lines: Seq<Seq<char>>, i: int) -> int {
    total_chars(lines.take(i)) + i
}

/// `joined` holds `lines` one after another, a newline between neighbours and
/// nothing else: each line stands whole at its start, a newline precedes every
/// line but the first, and the length is that of the lines plus one for each
/// separator.
pub open spec fn lines_laid_out(joined: Seq<char>, lines: Seq<Seq<char>>) -> bool {
    &&& joined.len() == if lines.len() == 0 { 0 } else { total_chars(lines) + lines.len() - 1 }
    &&& forall|i: int|
        0 <= i < lines.len() ==> joined.subrange(line_start(lines, i), line_start(lines, i) + lines[i].len())
            == #[trigger] lines[i]
    &&& forall|i: int| 0 < i < lines.len() ==> joined[#[trigger] line_start(lines, i) - 1] == '\n'
}

/// Adding a line after a non-empty list adds a newline and that line to the
/// joined text, and nothing else.
pub proof fn lemma_join_push(lines: Seq<Seq<char>>, line: Seq<char>)
    requires
        lines.len() > 0,
    ensures
        join_lines(lines.push(line)) == join_lines(lines) + seq!['\n'] + line,
{
    assert(lines.push(line).drop_last() =~= lines);
}

/// The characters of the first `k + 1` lines are those of the first `k` and
/// of line `k`.
proof fn lemma_total_chars_step(lines: Seq<Seq<char>>, k: int)
    requires
        0 <= k < lines.len(),
    ensures
        total_chars(lines.take(k + 1)) == total_chars(lines.take(k)) + lines[k].len(),
{
    assert(lines.take(k + 1).drop_last() =~= lines.take(k));
}

/// The first `k` lines hold no more characters than all of them.
proof fn lemma_total_chars_prefix(lines: Seq<Seq<char>>, k: int)
    requires
        0 <= k <= lines.len(),
    ensures
        total_chars(lines.take(k)) <= total_chars(lines),
    decreases lines.len(),
{
    if k == lines.len() {
        assert(lines.take(k) =~= lines);
    } else {
        let xs = lines.drop_last();
        assert(lines.take(k) =~= xs.take(k));
        lemma_total_chars_prefix(xs, k);
    }
}

/// Line `i` ends within the joined text.
proof fn lemma_line_within(lines: Seq<Seq<char>>, i: int)
    requires
        0 <= i < lines.len(),
    ensures
        line_start(lines, i) + lines[i].len() <= total_chars(lines) + lines.len() - 1,
{
    lemma_total_chars_step(lines, i);
    lemma_total_chars_prefix(lines, i + 1);
}

/// The joined text is as long as the lines plus one newline between each
/// two neighbours.
proof fn lemma_join_len(lines: Seq<Seq<char>>)
    ensures
        join_lines(lines).len() == if lines.len() == 0 { 0 } else { total_chars(lines) + lines.len() - 1 },
    decreases lines.len(),
{
    if lines.len() == 1 {
        assert(total_chars(lines.drop_last()) == 0);
    } else if lines.len() > 1 {
        lemma_join_len(lines.drop_last());
    }
}

/// Line `i` stands whole in the joined text, at its start.
proof fn lemma_join_line_at(lines: Seq<Seq<char>>, i: int)
    requires
        0 <= i < lines.len(),
    ensures
        join_lines(lines).subrange(line_start(lines, i), line_start(lines, i) + lines[i].len()) == lines[i],
    decreases lines.len(),
{
    let n = lines.len();
    if n == 1 {
        assert(lines.take(0) =~= Seq::<Seq<char>>::empty());
        assert(join_lines(lines).subrange(0, lines[0].len() as int) =~= lines[0]);
    } else {
        let xs = lines.drop_last();
        let jx = join_lines(xs);
        let j = join_lines(lines);
        lemma_join_len(xs);
        if i < n - 1 {
            assert(lines.take(i) =~= xs.take(i));
            lemma_join_line_at(xs, i);
            lemma_line_within(xs, i);
            let a = line_start(xs, i);
            let b = a + xs[i].len();
            assert(j.subrange(a, b) =~= jx.subrange(a, b));
        } else {
            assert(lines.take(n - 1) =~= xs);
            assert(j.subrange(jx.len() + 1int, jx.len() + 1int + lines.last().len()) =~= lines.last());
        }
    }
}

/// A newline precedes every line but the first.
proof fn lemma_join_separator_at(lines: Seq<Seq<char>>, i: int)
    requires
        0 < i < lines.len(),
    ensures
        join_lines(lines)[line_start(lines, i) - 1] == '\n',
    decreases lines.len(),
{
    let n = lines.len();
    let xs = lines.drop_last();
    lemma_join_len(xs);
    if i < n - 1 {
        assert(lines.take(i) =~= xs.take(i));
        lemma_join_separator_at(xs, i);
        lemma_line_within(xs, i);
    } else {
        assert(lines.take(n - 1) =~= xs);
    }
}

/// Every line appears in the joined text, whole and in order, separated by
/// single newlines, and the joined text holds nothing else.
pub proof fn lemma_join_layout(lines: Seq<Seq<char>>)
    ensures
        lines_laid_out(join_lines(lines), lines),
{
    lemma_join_len(lines);
    assert forall|i: int| 0 <= i < lines.len() implies join_lines(lines).subrange(
        line_start(lines, i),
        line_start(lines, i) + lines[i].len(),
    ) == #[trigger] lines[i] by {
        lemma_join_line_at(lines, i);
    }
    assert forall|i: int| 0 < i < lines.len() implies join_lines(lines)[#[trigger] line_start(lines, i) - 1]
        == '\n' by {
        lemma_join_separator_at(lines, i);
    }
}

/// The views of a list of strings.
pub open spec fn lines_view(lines: Seq<String>) -> Seq<Seq<char>> {
    lines.map_values(|l: String| l@)
}

/// Joins the text of the regions that passed the confidence filter, one per line.
pub fn join_region_texts(lines: &Vec<String>) -> (r: String)
    ensures
        r@ == join_lines(lines_view(lines@)),
        lines_laid_out(r@, lines_view(lines@)),
{
    let ghost lv = lines_view(lines@);
    let mut out = String::new();
    let mut i: usize = 0;
    while i < lines.len()
        invariant
            i <= lines@.len(),
            lv == lines_view(lines@),
            out@ == join_lines(lv.take(i as int)),
        decreases lines@.len() - i,
    {
        proof {
            reveal_strlit("\n");
            assert(lv.take(i + 1).drop_last() =~= lv.take(i as int));
        }
        if i > 0 {
            out.append("\n");
        }
        out.append(lines[i].as_str());
        proof {
            if i == 0 {
                assert(lv.take(1) =~= seq![lv[0]]);
                assert(out@ =~= join_lines(lv.take(1)));
            } else {
                assert(out@ =~= join_lines(lv.take(i + 1)));
            }
        }
        i = i + 1;
    }
    proof {
        assert(lv.take(lines@.len() as int) =~= lv);
    }
    assert(lines_laid_out(out@, lv)) by {
        lemma_join_layout(lv);
    }
    out
}

/// Rejects an image with no pixels: inference cannot run on it.
pub fn check_image_dimensions<S>(width: u32, height: u32, page_index: u32) -> (r: Result<(), OcrError<S>>)
    ensures
        r is Ok <==> width > 0 && height > 0,
        r matches Err(e) ==> (e == (OcrError::<S>::ImageConversionFailed { page: page_index })),
{
    if width == 0 || height == 0 {
        Err(OcrError::ImageConversionFailed { page: page_index })
    } else {
        Ok(())
    }
}

} // verus!
