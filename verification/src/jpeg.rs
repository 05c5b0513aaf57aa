//! Splitting a raw MJPEG byte pipe into complete JPEG images.
//!
//! A JPEG image begins with the start-of-image marker `FF D8` and ends with
//! the end-of-image marker `FF D9`.  The extractor scans a buffer once: a
//! start marker records a tentative frame start (discarding any earlier
//! unclosed start), an end marker emits the pending frame.  Whatever follows
//! the last pending start is handed back as the remainder, so a caller can
//! append freshly read bytes to it and scan again.

use vstd::prelude::*;

verus! {

/// The first byte of both JPEG markers.
pub const MARKER_PREFIX: u8 = 0xff;

/// The second byte of the start-of-image marker.
pub const SOI_SUFFIX: u8 = 0xd8;

/// The second byte of the end-of-image marker.
pub const EOI_SUFFIX: u8 = 0xd9;

/// A start-of-image marker `FF D8` sits at position `i`.
pub open spec fn soi_at(data: Seq<u8>, i: int) -> bool {
    &&& 0 <= i
    &&& i + 1 < data.len()
    &&& data[i] == MARKER_PREFIX
    &&& data[i + 1] == SOI_SUFFIX
}

/// An end-of-image marker `FF D9` sits at position `i`.
pub open spec fn eoi_at(data: Seq<u8>, i: int) -> bool {
    &&& 0 <= i
    &&& i + 1 < data.len()
    &&& data[i] == MARKER_PREFIX
    &&& data[i + 1] == EOI_SUFFIX
}

/// A complete frame: it opens with `FF D8` and closes with `FF D9`.
pub open spec fn frame_delimited(f: Seq<u8>) -> bool {
    &&& f.len() >= 4
    &&& f[0] == MARKER_PREFIX
    &&& f[1] == SOI_SUFFIX
    &&& f[f.len() - 2] == MARKER_PREFIX
    &&& f[f.len() - 1] == EOI_SUFFIX
}

/// One pass of the scanner from pair position `i` to the end of `data`,
/// carrying the pending frame start and the frames emitted so far.  This is
/// the mathematical model of the loop in [`extract_jpeg_frames`].
pub open spec fn scan_from(
    data: Seq<u8>,
    i: int,
    start: Option<int>,
    frames: Seq<Seq<u8>>,
) -> (Seq<Seq<u8>>, Option<int>)
    decreases data.len() - i,
{
    if i < 0 || i + 1 >= data.len() {
        (frames, start)
    } else {
        let pending = if soi_at(data, i) {
            Some(i)
        } else {
            start
        };
        if eoi_at(data, i) && pending is Some {
            scan_from(data, i + 1, None, frames.push(data.subrange(pending->0, i + 2)))
        } else {
            scan_from(data, i + 1, pending, frames)
        }
    }
}

/// The frames a full scan of `data` emits.
pub open spec fn spec_frames(data: Seq<u8>) -> Seq<Seq<u8>> {
    scan_from(data, 0, None, Seq::empty()).0
}

/// The pending frame start a full scan of `data` leaves behind, if any.
pub open spec fn spec_pending(data: Seq<u8>) -> Option<int> {
    scan_from(data, 0, None, Seq::empty()).1
}

/// The unconsumed trailing remainder of a full scan of `data`.
pub open spec fn spec_remainder(data: Seq<u8>) -> Seq<u8> {
    match spec_pending(data) {
        Some(s) => data.subrange(s, data.len() as int),
        None => Seq::empty(),
    }
}

/// A well-formed scanner state: a pending start always points at a
/// start-of-image marker.
pub open spec fn start_ok(data: Seq<u8>, start: Option<int>) -> bool {
    match start {
        Some(s) => soi_at(data, s),
        None => true,
    }
}

/// The pending start, if any, lies no further than pair position `i`.
pub open spec fn start_le(start: Option<int>, i: int) -> bool {
    match start {
        Some(s) => s <= i,
        None => true,
    }
}

/// The scanner preserves well-formedness: from a pending start that sits on a
/// start marker and a frame list of delimited frames, it produces the same,
/// and it only ever appends to the frame list.
pub proof fn lemma_scan_wf(data: Seq<u8>, i: int, start: Option<int>, frames: Seq<Seq<u8>>)
    requires
        start_ok(data, start),
        start_le(start, i),
        forall|k: int| 0 <= k < frames.len() ==> frame_delimited(#[trigger] frames[k]),
    ensures
        start_ok(data, scan_from(data, i, start, frames).1),
        forall|k: int|
            0 <= k < scan_from(data, i, start, frames).0.len() ==> frame_delimited(
                #[trigger] scan_from(data, i, start, frames).0[k],
            ),
        scan_from(data, i, start, frames).0.len() >= frames.len(),
        forall|k: int|
            0 <= k < frames.len() ==> #[trigger] scan_from(data, i, start, frames).0[k]
                == frames[k],
    decreases data.len() - i,
{
    if i < 0 || i + 1 >= data.len() {
    } else {
        let pending = if soi_at(data, i) {
            Some(i)
        } else {
            start
        };
        if eoi_at(data, i) && pending is Some {
            let s = pending->0;
            let f = data.subrange(s, i + 2);
            assert(soi_at(data, s));
            assert(s != i) by {
                assert(data[i + 1] == EOI_SUFFIX && data[s + 1] == SOI_SUFFIX);
            }
            assert(s != i - 1) by {
                assert(data[i] == MARKER_PREFIX && data[s + 1] == SOI_SUFFIX);
            }
            assert(s <= i - 2);
            assert(f.len() == i + 2 - s >= 4);
            assert(f[0] == data[s]);
            assert(f[1] == data[s + 1]);
            assert(f[f.len() - 2] == data[i]);
            assert(f[f.len() - 1] == data[i + 1]);
            assert(frame_delimited(f));
            lemma_scan_wf(data, i + 1, None, frames.push(f));
        } else {
            lemma_scan_wf(data, i + 1, pending, frames);
        }
    }
}

/// No start or end marker begins at any position in `[a, b)` of `data`.
pub open spec fn no_marker_in(data: Seq<u8>, a: int, b: int) -> bool {
    forall|j: int| a <= j < b ==> !soi_at(data, j) && !eoi_at(data, j)
}

/// A single complete JPEG image: delimited by the two markers, with no
/// further marker pair starting anywhere strictly inside.
pub open spec fn valid_frame(f: Seq<u8>) -> bool {
    &&& frame_delimited(f)
    &&& forall|j: int|
        1 <= j < f.len() - 2 ==> !(#[trigger] f[j] == MARKER_PREFIX && (f[j + 1] == SOI_SUFFIX
            || f[j + 1] == EOI_SUFFIX))
}

/// Scanning across a marker-free stretch changes nothing.
pub proof fn lemma_scan_inert(
    data: Seq<u8>,
    i: int,
    m: int,
    start: Option<int>,
    frames: Seq<Seq<u8>>,
)
    requires
        0 <= i <= m,
        no_marker_in(data, i, m),
    ensures
        scan_from(data, i, start, frames) == scan_from(data, m, start, frames),
    decreases m - i,
{
    if i < m {
        if i + 1 < data.len() {
            assert(!soi_at(data, i) && !eoi_at(data, i));
        } else {
            assert(scan_from(data, i, start, frames) == (frames, start));
            assert(scan_from(data, m, start, frames) == (frames, start));
        }
        lemma_scan_inert(data, i + 1, m, start, frames);
    }
}

/// `f` occupies positions `[p, p + f.len())` of `data`.
pub open spec fn frame_at(data: Seq<u8>, p: int, f: Seq<u8>) -> bool {
    &&& 0 <= p
    &&& p + f.len() <= data.len()
    &&& data.subrange(p, p + f.len() as int) == f
}

/// Scanning a complete frame that occupies `[p, p + f.len())` emits exactly
/// that frame, whatever was pending before, and leaves nothing pending.
pub proof fn lemma_scan_frame(
    data: Seq<u8>,
    p: int,
    f: Seq<u8>,
    start: Option<int>,
    frames: Seq<Seq<u8>>,
)
    requires
        valid_frame(f),
        frame_at(data, p, f),
    ensures
        scan_from(data, p, start, frames) == scan_from(
            data,
            p + f.len() - 1,
            None,
            frames.push(f),
        ),
{
    let len = f.len() as int;
    assert(data[p] == f[0] && data[p + 1] == f[1]);
    assert(soi_at(data, p));
    assert(!eoi_at(data, p));
    assert(scan_from(data, p, start, frames) == scan_from(data, p + 1, Some(p), frames));
    assert(no_marker_in(data, p + 1, p + len - 2)) by {
        assert forall|j: int| p + 1 <= j < p + len - 2 implies !soi_at(data, j) && !eoi_at(
            data,
            j,
        ) by {
            assert(data[j] == f[j - p] && data[j + 1] == f[j - p + 1]);
            assert(1 <= j - p < len - 2);
        }
    }
    lemma_scan_inert(data, p + 1, p + len - 2, Some(p), frames);
    let e = p + len - 2;
    assert(data[e] == f[len - 2] && data[e + 1] == f[len - 1]);
    assert(eoi_at(data, e));
    assert(!soi_at(data, e));
    assert(data.subrange(p, e + 2) =~= f);
    assert(scan_from(data, e, Some(p), frames) == scan_from(data, e + 1, None, frames.push(f)));
}

/// A stretch of bytes with no JPEG marker pair starting anywhere inside it.
pub open spec fn marker_free(g: Seq<u8>) -> bool {
    forall|j: int|
        0 <= j < g.len() - 1 ==> !(#[trigger] g[j] == MARKER_PREFIX && (g[j + 1] == SOI_SUFFIX
            || g[j + 1] == EOI_SUFFIX))
}

/// Interleaves garbage stretches and frames: `gs[0] + fs[0] + gs[1] + ... +
/// fs[n-1] + gs[n]`, for `gs.len() == fs.len() + 1`.
pub open spec fn interleave(gs: Seq<Seq<u8>>, fs: Seq<Seq<u8>>) -> Seq<u8>
    decreases fs.len(),
{
    if gs.len() == 0 {
        Seq::empty()
    } else if fs.len() == 0 {
        gs[0]
    } else {
        gs[0] + fs[0] + interleave(gs.drop_first(), fs.drop_first())
    }
}

proof fn lemma_scan_interleaved(
    data: Seq<u8>,
    a: int,
    gs: Seq<Seq<u8>>,
    fs: Seq<Seq<u8>>,
    frames: Seq<Seq<u8>>,
)
    requires
        gs.len() == fs.len() + 1,
        forall|k: int| 0 <= k < gs.len() ==> marker_free(#[trigger] gs[k]),
        forall|k: int| 0 <= k < fs.len() ==> valid_frame(#[trigger] fs[k]),
        0 <= a <= data.len(),
        data.subrange(a, data.len() as int) == interleave(gs, fs),
    ensures
        scan_from(data, a, None, frames) == (frames + fs, None::<int>),
    decreases fs.len(),
{
    let len = data.len() as int;
    let suffix = data.subrange(a, len);
    if fs.len() == 0 {
        let g = gs[0];
        assert(suffix == g);
        assert(len - a == g.len());
        assert(no_marker_in(data, a, len - 1)) by {
            assert forall|j: int| a <= j < len - 1 implies !soi_at(data, j) && !eoi_at(
                data,
                j,
            ) by {
                assert(data[j] == suffix[j - a] && data[j + 1] == suffix[j - a + 1]);
            }
        }
        let m = if a < len - 1 {
            len - 1
        } else {
            a
        };
        lemma_scan_inert(data, a, m, None, frames);
        assert(scan_from(data, m, None::<int>, frames) == (frames, None::<int>));
        assert(frames + fs =~= frames);
    } else {
        let g = gs[0];
        let f = fs[0];
        let rest = interleave(gs.drop_first(), fs.drop_first());
        assert(suffix == g + f + rest);
        let b = a + g.len() as int;
        let c = b + f.len() as int;
        assert(c <= len) by {
            assert(suffix.len() == g.len() + f.len() + rest.len());
        }
        assert forall|j: int| a <= j < c implies data[j] == suffix[j - a] by {}
        assert(data.subrange(b, c) =~= f) by {
            assert forall|j: int| 0 <= j < f.len() implies data.subrange(b, c)[j] == f[j] by {
                assert(data[b + j] == suffix[b + j - a]);
                assert(suffix[g.len() + j] == f[j]);
            }
        }
        assert(no_marker_in(data, a, b)) by {
            assert forall|j: int| a <= j < b implies !soi_at(data, j) && !eoi_at(data, j) by {
                assert(data[j] == suffix[j - a]);
                assert(suffix[j - a] == g[j - a]);
                if j < b - 1 {
                    assert(data[j + 1] == g[j - a + 1]);
                } else {
                    assert(data[j + 1] == suffix[g.len() as int] == f[0]);
                    assert(f[0] == MARKER_PREFIX);
                }
            }
        }
        lemma_scan_inert(data, a, b, None, frames);
        assert(frame_at(data, b, f));
        lemma_scan_frame(data, b, f, None, frames);
        assert(no_marker_in(data, c - 1, c)) by {
            assert(data[c - 1] == suffix[c - 1 - a] == f[f.len() - 1]);
            assert(f[f.len() - 1] == EOI_SUFFIX);
        }
        lemma_scan_inert(data, c - 1, c, None, frames.push(f));
        assert(data.subrange(c, len) =~= rest) by {
            assert forall|j: int| 0 <= j < rest.len() implies data.subrange(c, len)[j]
                == rest[j] by {
                assert(data[c + j] == suffix[c + j - a]);
                assert(suffix[g.len() + f.len() + j] == rest[j]);
            }
        }
        lemma_scan_interleaved(data, c, gs.drop_first(), fs.drop_first(), frames.push(f));
        assert(frames + fs =~= frames.push(f) + fs.drop_first());
    }
}

/// Concatenating any number of complete JPEG images with marker-free garbage
/// before, between, and after them scans to exactly those images, in order,
/// with nothing left over.
pub proof fn lemma_extract_interleaved(gs: Seq<Seq<u8>>, fs: Seq<Seq<u8>>)
    requires
        gs.len() == fs.len() + 1,
        forall|k: int| 0 <= k < gs.len() ==> marker_free(#[trigger] gs[k]),
        forall|k: int| 0 <= k < fs.len() ==> valid_frame(#[trigger] fs[k]),
    ensures
        spec_frames(interleave(gs, fs)) == fs,
        spec_remainder(interleave(gs, fs)) == Seq::<u8>::empty(),
{
    let data = interleave(gs, fs);
    assert(data.subrange(0, data.len() as int) =~= data);
    lemma_scan_interleaved(data, 0, gs, fs, Seq::empty());
    assert(Seq::<Seq<u8>>::empty() + fs =~= fs);
}

/// Scanning a complete frame alone yields exactly that frame.
pub proof fn lemma_extract_whole_frame(f: Seq<u8>)
    requires
        valid_frame(f),
    ensures
        spec_frames(f) == seq![f],
        spec_remainder(f) == Seq::<u8>::empty(),
{
    assert(f.subrange(0, f.len() as int) =~= f);
    lemma_scan_frame(f, 0, f, None, Seq::empty());
    assert(scan_from(f, f.len() - 1, None::<int>, Seq::empty().push(f)) == (
        Seq::empty().push(f),
        None::<int>,
    ));
    assert(Seq::<Seq<u8>>::empty().push(f) =~= seq![f]);
}

/// Scanning a strict prefix of a complete frame emits nothing and keeps the
/// whole prefix as the remainder, ready for more bytes to be appended.
pub proof fn lemma_extract_frame_prefix(f: Seq<u8>, m: int)
    requires
        valid_frame(f),
        2 <= m < f.len(),
    ensures
        spec_frames(f.take(m)) == Seq::<Seq<u8>>::empty(),
        spec_remainder(f.take(m)) == f.take(m),
{
    let p = f.take(m);
    assert(p[0] == f[0] && p[1] == f[1]);
    assert(soi_at(p, 0));
    assert(!eoi_at(p, 0));
    assert(scan_from(p, 0, None::<int>, Seq::<Seq<u8>>::empty()) == scan_from(
        p,
        1,
        Some(0int),
        Seq::<Seq<u8>>::empty(),
    ));
    assert(no_marker_in(p, 1, m - 1)) by {
        assert forall|j: int| 1 <= j < m - 1 implies !soi_at(p, j) && !eoi_at(p, j) by {
            assert(p[j] == f[j] && p[j + 1] == f[j + 1]);
            assert(1 <= j < f.len() - 2);
        }
    }
    lemma_scan_inert(p, 1, m - 1, Some(0int), Seq::empty());
    assert(scan_from(p, m - 1, Some(0int), Seq::<Seq<u8>>::empty()) == (
        Seq::<Seq<u8>>::empty(),
        Some(0int),
    ));
    assert(p.subrange(0, m) =~= p);
}

/// The concatenation of a list of byte chunks.
pub open spec fn concat_all(chunks: Seq<Seq<u8>>) -> Seq<u8>
    decreases chunks.len(),
{
    if chunks.len() == 0 {
        Seq::empty()
    } else {
        concat_all(chunks.drop_last()) + chunks.last()
    }
}

/// The accumulation protocol: after each chunk arrives, the remainder of the
/// previous scan is prepended and the whole buffer rescanned.  Returns all
/// frames emitted over the run and the final remainder.
pub open spec fn feed_chunks(chunks: Seq<Seq<u8>>) -> (Seq<Seq<u8>>, Seq<u8>)
    decreases chunks.len(),
{
    if chunks.len() == 0 {
        (Seq::empty(), Seq::empty())
    } else {
        let prior = feed_chunks(chunks.drop_last());
        let buf = prior.1 + chunks.last();
        (prior.0 + spec_frames(buf), spec_remainder(buf))
    }
}

/// One step of the accumulation protocol, as a capturer performs it on
/// each pipe read: scan the previous remainder with the new chunk
/// appended, emit the frames found, keep the new remainder.
pub proof fn lemma_feed_step(chunks: Seq<Seq<u8>>, chunk: Seq<u8>)
    ensures
        feed_chunks(chunks.push(chunk)) == (
            feed_chunks(chunks).0 + spec_frames(feed_chunks(chunks).1 + chunk),
            spec_remainder(feed_chunks(chunks).1 + chunk),
        ),
{
    assert(chunks.push(chunk).drop_last() =~= chunks);
    assert(chunks.push(chunk).last() == chunk);
}

proof fn lemma_feed_strict_prefix(f: Seq<u8>, chunks: Seq<Seq<u8>>)
    requires
        valid_frame(f),
        concat_all(chunks).len() < f.len(),
        concat_all(chunks) == f.take(concat_all(chunks).len() as int),
        forall|i: int| 0 <= i <= chunks.len() ==> concat_all(#[trigger] chunks.take(i)).len() != 1,
    ensures
        feed_chunks(chunks) == (
            Seq::<Seq<u8>>::empty(),
            f.take(concat_all(chunks).len() as int),
        ),
    decreases chunks.len(),
{
    if chunks.len() == 0 {
        assert(f.take(0) =~= Seq::<u8>::empty());
    } else {
        let cum = concat_all(chunks).len() as int;
        let prior_chunks = chunks.drop_last();
        let cum0 = concat_all(prior_chunks).len() as int;
        assert(concat_all(chunks) == concat_all(prior_chunks) + chunks.last());
        assert(concat_all(prior_chunks) =~= f.take(cum).take(cum0));
        assert(f.take(cum).take(cum0) =~= f.take(cum0));
        assert(forall|i: int|
            0 <= i <= prior_chunks.len() ==> #[trigger] prior_chunks.take(i) == chunks.take(i));
        lemma_feed_strict_prefix(f, prior_chunks);
        let buf = f.take(cum0) + chunks.last();
        assert(buf =~= f.take(cum));
        if cum == 0 {
            assert(scan_from(buf, 0, None::<int>, Seq::<Seq<u8>>::empty()) == (
                Seq::<Seq<u8>>::empty(),
                None::<int>,
            ));
            assert(feed_chunks(chunks).0 =~= Seq::<Seq<u8>>::empty());
        } else {
            assert(cum != 1) by {
                assert(chunks.take(chunks.len() as int) =~= chunks);
            }
            lemma_extract_frame_prefix(f, cum);
            assert(feed_chunks(chunks).0 =~= Seq::<Seq<u8>>::empty());
        }
    }
}

/// A complete JPEG image, split across arbitrary chunk boundaries and fed to
/// the extractor with the accumulated-remainder protocol, is reassembled
/// exactly once the final chunk arrives — provided no boundary falls after
/// the first byte alone, since a lone leading `FF` with nothing pending is
/// dropped by the scanner.
pub proof fn lemma_feed_reassembles(f: Seq<u8>, chunks: Seq<Seq<u8>>)
    requires
        valid_frame(f),
        concat_all(chunks) == f,
        forall|i: int| 0 <= i <= chunks.len() ==> concat_all(#[trigger] chunks.take(i)).len() != 1,
    ensures
        feed_chunks(chunks) == (seq![f], Seq::<u8>::empty()),
    decreases chunks.len(),
{
    assert(chunks.len() > 0) by {
        if chunks.len() == 0 {
            assert(concat_all(chunks).len() == 0);
        }
    }
    let prior_chunks = chunks.drop_last();
    let cum0 = concat_all(prior_chunks).len() as int;
    assert(concat_all(chunks) == concat_all(prior_chunks) + chunks.last());
    assert(cum0 <= f.len());
    assert(forall|i: int|
        0 <= i <= prior_chunks.len() ==> #[trigger] prior_chunks.take(i) == chunks.take(i));
    if cum0 < f.len() {
        assert(concat_all(prior_chunks) =~= f.take(cum0));
        lemma_feed_strict_prefix(f, prior_chunks);
        let buf = f.take(cum0) + chunks.last();
        assert(buf =~= f);
        lemma_extract_whole_frame(f);
        assert(feed_chunks(chunks).0 =~= seq![f]);
    } else {
        assert(chunks.last().len() == 0);
        assert(concat_all(prior_chunks) =~= f);
        lemma_feed_reassembles(f, prior_chunks);
        let buf = Seq::<u8>::empty() + chunks.last();
        assert(buf =~= Seq::<u8>::empty());
        assert(scan_from(buf, 0, None::<int>, Seq::<Seq<u8>>::empty()) == (
            Seq::<Seq<u8>>::empty(),
            None::<int>,
        ));
        assert(feed_chunks(chunks).0 =~= seq![f]);
    }
}

/// Splits a byte buffer into the complete JPEG images it contains and the
/// trailing remainder.  Every emitted frame begins `FF D8` and ends `FF D9`;
/// the remainder either begins `FF D8` or is empty.  A spurious end marker
/// before any start marker is dropped, and a second start marker before a
/// matching end marker discards the earlier partial frame.
pub fn extract_jpeg_frames(data: &[u8]) -> (r: (Vec<Vec<u8>>, Vec<u8>))
    ensures
        r.0.deep_view() == spec_frames(data@),
        r.1@ == spec_remainder(data@),
        forall|k: int| 0 <= k < r.0.len() ==> frame_delimited(#[trigger] r.0.deep_view()[k]),
        r.1@.len() == 0 || (r.1@.len() >= 2 && r.1@[0] == MARKER_PREFIX && r.1@[1] == SOI_SUFFIX),
{
    let ghost whole = data@;
    let mut frames: Vec<Vec<u8>> = Vec::new();
    let mut start: Option<usize> = None;
    let n = data.len();
    let mut i: usize = 0;
    proof {
        assert(frames.deep_view() =~= Seq::<Seq<u8>>::empty());
    }
    if n >= 2 {
        while i < n - 1
            invariant
                n == whole.len(),
                n >= 2,
                i <= n - 1,
                data@ == whole,
                start_ok(whole, start_view(start)),
                start_le(start_view(start), i as int),
                scan_from(whole, i as int, start_view(start), frames.deep_view()) == scan_from(
                    whole,
                    0,
                    None::<int>,
                    Seq::<Seq<u8>>::empty(),
                ),
            decreases n - i,
        {
            let ghost pre_i = i as int;
            let ghost pre_start = start_view(start);
            let ghost pre_frames = frames.deep_view();
            if data[i] == MARKER_PREFIX && data[i + 1] == SOI_SUFFIX {
                start = Some(i);
            }
            if data[i] == MARKER_PREFIX && data[i + 1] == EOI_SUFFIX {
                if let Some(s) = start {
                    let frame = vstd::slice::slice_to_vec(vstd::slice::slice_subrange(
                        data,
                        s,
                        i + 2,
                    ));
                    proof {
                        assert(frame@ == whole.subrange(s as int, i + 2));
                    }
                    frames.push(frame);
                    proof {
                        assert(frames.deep_view() =~~= pre_frames.push(
                            whole.subrange(s as int, i + 2),
                        ));
                    }
                    start = None;
                }
            }
            i = i + 1;
            proof {
                reveal_with_fuel(scan_from, 2);
                assert(scan_from(whole, pre_i, pre_start, pre_frames) == scan_from(
                    whole,
                    i as int,
                    start_view(start),
                    frames.deep_view(),
                ));
            }
        }
    }
    proof {
        lemma_scan_wf(whole, 0, None, Seq::empty());
        assert(scan_from(whole, i as int, start_view(start), frames.deep_view()) == (
            frames.deep_view(),
            start_view(start),
        ));
    }
    let remainder: Vec<u8> = match start {
        Some(s) => vstd::slice::slice_to_vec(vstd::slice::slice_subrange(data, s, n)),
        None => Vec::new(),
    };
    (frames, remainder)
}

/// The ghost image of a pending frame start held as a `usize`.
pub open spec fn start_view(start: Option<usize>) -> Option<int> {
    match start {
        Some(s) => Some(s as int),
        None => None,
    }
}

} // verus!
