//! Page-by-page OCR: render a page, run inference on it, and gather results.
//!
//! Rendering and inference are handed in as closures, so the orchestration
//! is the same whatever renders the pages and whatever backend reads them.
use vstd::prelude::*;

use super::OcrError;
use super::backend::OcrPageResult;

verus! {

/// `res` is a possible outcome of OCR on page `i`: rendering it gave an
/// image, and inference on that image gave `res`.
pub open spec fn page_done<Img, S, R, B>(render: R, backend: B, i: u32, res: OcrPageResult) -> bool where
    R: Fn(u32) -> Result<Img, OcrError<S>>,
    B: Fn(&Img, u32) -> Result<OcrPageResult, S>,
 {
    exists|img: Img| #[trigger]
        call_ensures(render, (i,), Ok(img)) && call_ensures(backend, (&img, i), Ok(res))
}

/// OCR on page `i` can succeed.
pub open spec fn page_succeeds<Img, S, R, B>(render: R, backend: B, i: u32) -> bool where
    R: Fn(u32) -> Result<Img, OcrError<S>>,
    B: Fn(&Img, u32) -> Result<OcrPageResult, S>,
 {
    exists|res: OcrPageResult| #[trigger] page_done(render, backend, i, res)
}

/// `e` is a possible failure of OCR on page `i`: rendering failed with `e`,
/// or inference on the rendered image failed and `e` reports it for page `i`.
pub open spec fn page_failed<Img, S, R, B>(render: R, backend: B, i: u32, e: OcrError<S>) -> bool where
    R: Fn(u32) -> Result<Img, OcrError<S>>,
    B: Fn(&Img, u32) -> Result<OcrPageResult, S>,
 {
    ||| call_ensures(render, (i,), Err(e))
    ||| exists|img: Img, s: S|
        #![trigger call_ensures(render, (i,), Ok(img)), call_ensures(backend, (&img, i), Err(s))]
        call_ensures(render, (i,), Ok(img)) && call_ensures(backend, (&img, i), Err(s)) && e
            == OcrError::InferenceFailed { page: i, source: s }
}

/// Both closures accept every input.
pub open spec fn callable<Img, S, R, B>(render: R, backend: B) -> bool where
    R: Fn(u32) -> Result<Img, OcrError<S>>,
    B: Fn(&Img, u32) -> Result<OcrPageResult, S>,
 {
    &&& forall|i: u32| #[trigger] call_requires(render, (i,))
    &&& forall|img: &Img, i: u32| #[trigger] call_requires(backend, (img, i))
}

/// Render page `page_index`, then run inference on the image.
pub fn ocr_page_with<Img, S, R, B>(page_index: u32, render: &R, backend: &B) -> (r: Result<
    OcrPageResult,
    OcrError<S>,
>) where
    R: Fn(u32) -> Result<Img, OcrError<S>>,
    B: Fn(&Img, u32) -> Result<OcrPageResult, S>,

    requires
        callable(*render, *backend),
    ensures
        r matches Ok(res) ==> page_done(*render, *backend, page_index, res),
        r matches Err(e) ==> page_failed(*render, *backend, page_index, e),
{
    let image = render(page_index)?;
    match backend(&image, page_index) {
        Ok(res) => Ok(res),
        Err(source) => Err(OcrError::InferenceFailed { page: page_index, source }),
    }
}

/// OCR every page in `0..page_count`, in order. Fails fast: the first page
/// that cannot be rendered or read ends the run with its error, and no later
/// page is rendered.
pub fn ocr_all_pages_seq<Img, S, R, B>(page_count: u32, render: &R, backend: &B) -> (r: Result<
    Vec<OcrPageResult>,
    OcrError<S>,
>) where
    R: Fn(u32) -> Result<Img, OcrError<S>>,
    B: Fn(&Img, u32) -> Result<OcrPageResult, S>,

    requires
        callable(*render, *backend),
    ensures
        r matches Ok(v) ==> {
            &&& v@.len() == page_count
            &&& forall|i: int| 0 <= i < page_count ==> page_done(*render, *backend, i as u32, #[trigger] v@[i])
        },
        r matches Err(e) ==> exists|k: u32| {
            &&& k < page_count
            &&& #[trigger] page_failed(*render, *backend, k, e)
            &&& forall|i: u32| i < k ==> #[trigger] page_succeeds(*render, *backend, i)
        },
{
    let mut results: Vec<OcrPageResult> = Vec::new();
    let mut i: u32 = 0;
    while i < page_count
        invariant
            i <= page_count,
            callable(*render, *backend),
            results@.len() == i,
            forall|j: int| 0 <= j < i ==> page_done(*render, *backend, j as u32, #[trigger] results@[j]),
        decreases page_count - i,
    {
        match ocr_page_with(i, render, backend) {
            Ok(res) => {
                results.push(res);
            },
            Err(e) => {
                assert forall|j: u32| j < i implies #[trigger] page_succeeds(*render, *backend, j) by {
                    assert(page_done(*render, *backend, j, results@[j as int]));
                }
                return Err(e);
            },
        }
        i = i + 1;
    }
    Ok(results)
}

/// `chunks` splits `0..page_count` into consecutive non-empty half-open
/// ranges of `chunk_size` pages, only the last one possibly shorter.
pub open spec fn chunks_partition(chunks: Seq<(u32, u32)>, page_count: u32, chunk_size: nat) -> bool {
    &&& chunks.len() == 0 <==> page_count == 0
    &&& chunks.len() > 0 ==> chunks[0].0 == 0 && chunks.last().1 == page_count
    &&& forall|k: int|
        0 <= k < chunks.len() ==> {
            &&& (#[trigger] chunks[k]).0 < chunks[k].1 <= page_count
            &&& chunks[k].1 - chunks[k].0 <= chunk_size
            &&& k + 1 < chunks.len() ==> chunks[k].1 == chunks[k + 1].0 && chunks[k].1 - chunks[k].0
                == chunk_size
        }
}

/// In a partition, an earlier chunk ends no later than a later one starts.
proof fn lemma_chunks_ordered(chunks: Seq<(u32, u32)>, page_count: u32, chunk_size: nat, k1: int, k2: int)
    requires
        chunks_partition(chunks, page_count, chunk_size),
        0 <= k1 < k2 < chunks.len(),
    ensures
        chunks[k1].1 <= chunks[k2].0,
    decreases k2 - k1,
{
    assert(chunks[k1].1 == chunks[k1 + 1].0);
    if k1 + 1 < k2 {
        assert(chunks[k1 + 1].0 < chunks[k1 + 1].1);
        lemma_chunks_ordered(chunks, page_count, chunk_size, k1 + 1, k2);
    }
}

/// Every page of `0..page_count` lies in exactly one chunk of a partition.
pub proof fn lemma_chunks_cover_each_page(chunks: Seq<(u32, u32)>, page_count: u32, chunk_size: nat, p: u32)
    requires
        chunks_partition(chunks, page_count, chunk_size),
        p < page_count,
    ensures
        exists|k: int| 0 <= k < chunks.len() && chunks[k].0 <= p < (#[trigger] chunks[k]).1,
        forall|k1: int, k2: int|
            0 <= k1 < chunks.len() && 0 <= k2 < chunks.len() && chunks[k1].0 <= p < (
            #[trigger] chunks[k1]).1 && chunks[k2].0 <= p < (#[trigger] chunks[k2]).1 ==> k1 == k2,
    decreases chunks.len(),
{
    let n = chunks.len();
    if p >= chunks[n - 1].0 {
        assert(chunks[n - 1].0 <= p < chunks[n - 1].1);
    } else {
        let prefix = chunks.drop_last();
        let end = chunks[n - 1].0;
        assert(n > 1);
        assert(chunks[n - 2].1 == end);
        assert forall|k: int| 0 <= k < prefix.len() implies {
            &&& (#[trigger] prefix[k]).0 < prefix[k].1 <= end
            &&& prefix[k].1 - prefix[k].0 <= chunk_size
            &&& k + 1 < prefix.len() ==> prefix[k].1 == prefix[k + 1].0 && prefix[k].1 - prefix[k].0
                == chunk_size
        } by {
            assert(prefix[k] == chunks[k]);
            lemma_chunks_ordered(chunks, page_count, chunk_size, k, n - 1);
            if k + 1 < prefix.len() {
                assert(prefix[k + 1] == chunks[k + 1]);
            }
        }
        assert(prefix[0] == chunks[0]);
        assert(prefix.last() == chunks[n - 2]);
        assert(chunks_partition(prefix, end, chunk_size));
        lemma_chunks_cover_each_page(prefix, end, chunk_size, p);
        let k = choose|k: int| 0 <= k < prefix.len() && prefix[k].0 <= p < (#[trigger] prefix[k]).1;
        assert(chunks[k] == prefix[k]);
    }
    assert forall|k1: int, k2: int|
        0 <= k1 < chunks.len() && 0 <= k2 < chunks.len() && chunks[k1].0 <= p < (
        #[trigger] chunks[k1]).1 && chunks[k2].0 <= p < (#[trigger] chunks[k2]).1 implies k1 == k2 by {
        if k1 < k2 {
            lemma_chunks_ordered(chunks, page_count, chunk_size, k1, k2);
        }
        if k2 < k1 {
            lemma_chunks_ordered(chunks, page_count, chunk_size, k2, k1);
        }
    }
}

/// Split `0..page_count` into consecutive chunks of `chunk_size` pages; only
/// the last chunk may be shorter. Each chunk is a half-open range `(start, end)`.
pub fn chunk_bounds(page_count: u32, chunk_size: usize) -> (r: Vec<(u32, u32)>)
    requires
        0 < chunk_size <= u32::MAX,
    ensures
        chunks_partition(r@, page_count, chunk_size as nat),
{
    let mut chunks: Vec<(u32, u32)> = Vec::new();
    let mut start: u32 = 0;
    while start < page_count
        invariant
            0 < chunk_size <= u32::MAX,
            start <= page_count,
            chunks@.len() == 0 <==> start == 0,
            chunks@.len() > 0 ==> chunks@[0].0 == 0 && chunks@.last().1 == start,
            forall|k: int|
                0 <= k < chunks@.len() ==> {
                    &&& (#[trigger] chunks@[k]).0 < chunks@[k].1 <= start
                    &&& chunks@[k].1 - chunks@[k].0 <= chunk_size
                    &&& k + 1 < chunks@.len() ==> chunks@[k].1 == chunks@[k + 1].0 && chunks@[k].1
                        - chunks@[k].0 == chunk_size
                },
            chunks@.len() > 0 ==> (chunks@.last().1 - chunks@.last().0 == chunk_size || start
                == page_count),
        decreases page_count - start,
    {
        let room: u32 = page_count - start;
        let end: u32 = if (room as usize) < chunk_size {
            page_count
        } else {
            start + (chunk_size as u32)
        };
        chunks.push((start, end));
        start = end;
    }
    chunks
}

/// Rendering page `i` can give an image.
pub open spec fn renders_ok<Img, S, R>(render: R, i: u32) -> bool where
    R: Fn(u32) -> Result<Img, OcrError<S>>,
 {
    exists|img: Img| #[trigger] call_ensures(render, (i,), Ok(img))
}

/// Render pages `start..end` in order, stopping at the first page that fails.
pub fn render_range<Img, S, R>(start: u32, end: u32, render: &R) -> (r: Result<
    Vec<(u32, Img)>,
    OcrError<S>,
>) where R: Fn(u32) -> Result<Img, OcrError<S>>
    requires
        forall|i: u32| #[trigger] call_requires(*render, (i,)),
    ensures
        r matches Ok(v) ==> {
            &&& v@.len() == if start <= end { end - start } else { 0 }
            &&& forall|k: int|
                0 <= k < v@.len() ==> (#[trigger] v@[k]).0 == start + k && call_ensures(
                    *render,
                    (v@[k].0,),
                    Ok(v@[k].1),
                )
        },
        r matches Err(e) ==> exists|k: u32| {
            &&& start <= k < end
            &&& #[trigger] call_ensures(*render, (k,), Err(e))
            &&& forall|j: u32| start <= j < k ==> #[trigger] renders_ok::<Img, S, R>(*render, j)
        },
{
    let mut images: Vec<(u32, Img)> = Vec::new();
    let mut i: u32 = start;
    while i < end
        invariant
            forall|j: u32| #[trigger] call_requires(*render, (j,)),
            start <= i,
            i <= end || i == start,
            images@.len() == i - start,
            forall|k: int|
                0 <= k < images@.len() ==> (#[trigger] images@[k]).0 == start + k && call_ensures(
                    *render,
                    (images@[k].0,),
                    Ok(images@[k].1),
                ),
        decreases end - i,
    {
        match render(i) {
            Ok(img) => images.push((i, img)),
            Err(e) => {
                assert forall|j: u32| start <= j < i implies #[trigger] renders_ok::<Img, S, R>(*render, j) by {
                    assert(images@[j - start].0 == j);
                    assert(call_ensures(*render, (j,), Ok(images@[j - start].1)));
                }
                return Err(e);
            },
        }
        i = i + 1;
    }
    Ok(images)
}

/// Gather the per-page outcomes of inference for the pages from
/// `first_page` on, page `first_page + i` being at index `i`: all results
/// when every page succeeded, else the first failure, reported for its page.
#[verifier::loop_isolation(false)]
pub fn collect_range_results<S>(first_page: u32, results: Vec<Result<OcrPageResult, S>>) -> (r: Result<
    Vec<OcrPageResult>,
    OcrError<S>,
>)
    requires
        first_page + results@.len() <= u32::MAX + 1,
    ensures
        r matches Ok(v) ==> {
            &&& v@.len() == results@.len()
            &&& forall|i: int| 0 <= i < v@.len() ==> results@[i] == Ok::<OcrPageResult, S>(#[trigger] v@[i])
        },
        r matches Err(e) ==> exists|k: int| {
            &&& 0 <= k < results@.len()
            &&& #[trigger] results@[k] matches Err(s) && e == OcrError::InferenceFailed { page: (first_page + k) as u32, source: s }
            &&& forall|i: int| 0 <= i < k ==> results@[i] is Ok
        },
        r is Ok <==> forall|i: int| 0 <= i < results@.len() ==> #[trigger] results@[i] is Ok,
{
    let ghost orig = results@;
    let mut out: Vec<OcrPageResult> = Vec::new();
    let mut i: usize = 0;
    let n = results.len();
    let mut pending = results;
    let mut rest: Vec<Result<OcrPageResult, S>> = Vec::new();
    while pending.len() > 0
        invariant
            n == orig.len(),
            pending@ == orig.take(pending@.len() as int),
            pending@.len() <= n,
            rest@.len() == n - pending@.len(),
            forall|j: int| 0 <= j < rest@.len() ==> #[trigger] rest@[j] == orig[n - 1 - j],
        decreases pending@.len(),
    {
        let item = pending.pop().unwrap();
        rest.push(item);
    }
    while i < n
        invariant
            n == orig.len(),
            first_page + n <= u32::MAX + 1,
            i <= n,
            rest@.len() == n - i,
            forall|j: int| 0 <= j < n - i ==> #[trigger] rest@[j] == orig[n - 1 - j],
            out@.len() == i,
            forall|j: int| 0 <= j < i ==> orig[j] == Ok::<OcrPageResult, S>(#[trigger] out@[j]),
        decreases n - i,
    {
        let item = rest.pop().unwrap();
        let ghost it = item;
        assert(it == orig[i as int]);
        match item {
            Ok(res) => out.push(res),
            Err(source) => {
                assert forall|j: int| 0 <= j < i implies orig[j] is Ok by {
                    assert(orig[j] == Ok::<OcrPageResult, S>(out@[j]));
                }
                let e = OcrError::InferenceFailed { page: first_page + i as u32, source };
                assert(orig[i as int] matches Err(s) && e == OcrError::InferenceFailed { page: (first_page + i as int) as u32, source: s });
                assert(!(orig[i as int] is Ok));
                return Err(e);
            },
        }
        i = i + 1;
    }
    assert forall|j: int| 0 <= j < orig.len() implies #[trigger] orig[j] is Ok by {
        assert(orig[j] == Ok::<OcrPageResult, S>(out@[j]));
    }
    Ok(out)
}


/// Gather the per-page outcomes of inference, page `i` being at index `i`:
/// all results when every page succeeded, else the first failure, reported
/// for its page.
pub fn collect_page_results<S>(results: Vec<Result<OcrPageResult, S>>) -> (r: Result<
    Vec<OcrPageResult>,
    OcrError<S>,
>)
    requires
        results@.len() <= u32::MAX,
    ensures
        r matches Ok(v) ==> {
            &&& v@.len() == results@.len()
            &&& forall|i: int| 0 <= i < v@.len() ==> results@[i] == Ok::<OcrPageResult, S>(#[trigger] v@[i])
        },
        r matches Err(e) ==> exists|k: int| {
            &&& 0 <= k < results@.len()
            &&& #[trigger] results@[k] matches Err(s) && e == OcrError::InferenceFailed { page: k as u32, source: s }
            &&& forall|i: int| 0 <= i < k ==> results@[i] is Ok
        },
        r is Ok <==> forall|i: int| 0 <= i < results@.len() ==> #[trigger] results@[i] is Ok,
{
    collect_range_results(0, results)
}

} // verus!
