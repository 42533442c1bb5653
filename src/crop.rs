use vstd::prelude::*;

verus! {

/// A change of the picture's active area: from `pts` (milliseconds) on, the content is
/// `width` by `height`, with display aspect ratio `aspect_num / aspect_den`.
#[derive(Clone, Copy, Debug, PartialEq, Eq, Structural)]
pub struct CropResult {
    pub pts: i64,
    pub width: i32,
    pub height: i32,
    pub aspect_num: i64,
    pub aspect_den: i64,
}

/// The first and the last index of a run of columns or rows, both included.
#[derive(Clone, Copy, Debug, PartialEq, Eq, Structural)]
pub struct Edges {
    pub first: i32,
    pub last: i32,
}

/// What the border analysis reported for one frame: the first and last non-black column
/// and row, and the frame's time in milliseconds.
#[derive(Clone, Copy, Debug, PartialEq, Eq, Structural)]
pub struct CropObservation {
    pub columns: Option<Edges>,
    pub rows: Option<Edges>,
    pub pts: Option<i64>,
}

/// The picture's declared size and pixel aspect ratio.
#[derive(Clone, Copy, Debug, PartialEq, Eq, Structural)]
pub struct PictureShape {
    pub width: i32,
    pub height: i32,
    pub pixel_num: i32,
    pub pixel_den: i32,
}

/// The size spanned by a first and a last index, both included.
pub open spec fn span(p: Edges) -> int {
    p.last - p.first + 1
}

/// Every reported span fits an `i32`.
pub open spec fn spans_fit(o: CropObservation) -> bool {
    &&& (o.columns matches Some(c) ==> i32::MIN <= span(c) <= i32::MAX)
    &&& (o.rows matches Some(r) ==> i32::MIN <= span(r) <= i32::MAX)
}

/// The record for a frame at `pts` whose content is `size`.
pub open spec fn crop_record(pts: i64, size: (i32, i32), shape: PictureShape) -> CropResult {
    CropResult {
        pts,
        width: size.0,
        height: size.1,
        aspect_num: (size.0 * shape.pixel_num) as i64,
        aspect_den: (size.1 * shape.pixel_den) as i64,
    }
}

/// The state: the size last measured, the size last recorded, and the records so far.
pub type CropState = ((i32, i32), (i32, i32), Seq<CropResult>);

/// One frame: a reported span updates the measured size; on a timed frame, a measured
/// size that differs from the last recorded one is recorded.
pub open spec fn crop_step(st: CropState, o: CropObservation, shape: PictureShape) -> CropState {
    let w = match o.columns {
        Some(c) => span(c) as i32,
        None => st.0.0,
    };
    let h = match o.rows {
        Some(r) => span(r) as i32,
        None => st.0.1,
    };
    match o.pts {
        Some(t) => if (w, h) != st.1 {
            ((w, h), (w, h), st.2.push(crop_record(t, (w, h), shape)))
        } else {
            ((w, h), st.1, st.2)
        },
        None => ((w, h), st.1, st.2),
    }
}

/// The state after all of `obs`, starting from the declared size.
pub open spec fn crop_run(obs: Seq<CropObservation>, shape: PictureShape) -> CropState
    decreases obs.len(),
{
    if obs.len() == 0 {
        ((shape.width, shape.height), (shape.width, shape.height), Seq::empty())
    } else {
        crop_step(crop_run(obs.drop_last(), shape), obs.last(), shape)
    }
}

/// Builds the timeline of active-area changes of a video stream.
///
/// Starting from the declared size, each timed frame whose measured content size differs
/// from the last recorded one (the declared size, before the first record) adds a record;
/// frames that keep the size add nothing.
pub fn detect_black_borders(obs: &Vec<CropObservation>, shape: &PictureShape) -> (r: Vec<CropResult>)
    requires
        forall|i: int| 0 <= i < obs@.len() ==> spans_fit(#[trigger] obs@[i]),
    ensures
        r@ == crop_run(obs@, *shape).2,
{
    let mut size: (i32, i32) = (shape.width, shape.height);
    let mut last: (i32, i32) = (shape.width, shape.height);
    let mut r: Vec<CropResult> = Vec::new();
    let mut i: usize = 0;
    while i < obs.len()
        invariant
            i <= obs.len(),
            forall|k: int| 0 <= k < obs@.len() ==> spans_fit(#[trigger] obs@[k]),
            (size, last, r@) == crop_run(obs@.take(i as int), *shape),
        decreases obs.len() - i,
    {
        assert(obs@.take(i as int + 1).drop_last() == obs@.take(i as int));
        assert(obs@.take(i as int + 1).last() == obs@[i as int]);
        let o = obs[i];
        assert(spans_fit(obs@[i as int]));
        if let Some(c) = o.columns {
            size.0 = ((c.last as i64) - (c.first as i64) + 1) as i32;
        }
        if let Some(rw) = o.rows {
            size.1 = ((rw.last as i64) - (rw.first as i64) + 1) as i32;
        }
        if let Some(t) = o.pts {
            if size.0 != last.0 || size.1 != last.1 {
                assert(-0x8000_0000 * 0x8000_0000 <= size.0 as int * shape.pixel_num as int <= 0x8000_0000 * 0x8000_0000)
                    by (nonlinear_arith)
                    requires -0x8000_0000 <= size.0 < 0x8000_0000, -0x8000_0000 <= shape.pixel_num < 0x8000_0000;
                assert(-0x8000_0000 * 0x8000_0000 <= size.1 as int * shape.pixel_den as int <= 0x8000_0000 * 0x8000_0000)
                    by (nonlinear_arith)
                    requires -0x8000_0000 <= size.1 < 0x8000_0000, -0x8000_0000 <= shape.pixel_den < 0x8000_0000;
                r.push(CropResult {
                    pts: t,
                    width: size.0,
                    height: size.1,
                    aspect_num: size.0 as i64 * shape.pixel_num as i64,
                    aspect_den: size.1 as i64 * shape.pixel_den as i64,
                });
                last = size;
            }
        }
        i += 1;
    }
    assert(obs@.take(obs.len() as int) == obs@);
    r
}

/// The luma level under which a border counts as black, for the stream's bit depth:
/// 64 for 10 bits, 256 for 12 bits, 16 otherwise.
pub fn black_limit(bits_per_raw_sample: Option<i32>) -> (r: i32)
    ensures
        r == match bits_per_raw_sample {
            Some(10) => 64i32,
            Some(12) => 256i32,
            _ => 16i32,
        },
{
    match bits_per_raw_sample {
        Some(10) => 64,
        Some(12) => 256,
        _ => 16,
    }
}

/// The frame interval between spot checks when at most `max_checks` frames of `nb_frames`
/// are analysed: `nb_frames / max_checks - 1`; none when no check is allowed.
pub fn spot_check_interval(nb_frames: u64, max_checks: u64) -> (r: Option<i128>)
    ensures
        max_checks == 0 ==> r is None,
        max_checks > 0 ==> r == Some((nb_frames / max_checks - 1) as i128),
{
    if max_checks == 0 {
        None
    } else {
        let q = nb_frames / max_checks;
        Some(q as i128 - 1)
    }
}

} // verus!
