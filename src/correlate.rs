use vstd::prelude::*;
use crate::interval::{add_clamped, all_retained, clamp64, retained, DurationBounds, Interval};

verus! {

/// The overlap of a black and a silence interval, extended by one frame (held within
/// `i64`), when the two actually overlap (the later start comes strictly before the earlier end).
pub open spec fn joint(k: Interval, s: Interval, frame_ms: i64) -> Option<Interval> {
    let start = if k.start <= s.start { s.start } else { k.start };
    let end = if k.end <= s.end { k.end } else { s.end };
    if start < end {
        Some(Interval { start, end: clamp64(end + frame_ms) })
    } else {
        None
    }
}

/// The retained joint intervals of one black interval with each silence, in order.
pub open spec fn joint_row(k: Interval, sil: Seq<Interval>, frame_ms: i64, b: DurationBounds) -> Seq<Interval>
    decreases sil.len(),
{
    if sil.len() == 0 {
        Seq::empty()
    } else {
        let prev = joint_row(k, sil.drop_last(), frame_ms, b);
        match joint(k, sil.last(), frame_ms) {
            Some(iv) => if retained(iv, b) { prev.push(iv) } else { prev },
            None => prev,
        }
    }
}

/// The retained joint intervals of every black interval with every silence: black
/// intervals in order, and for each of them the silences in order.
pub open spec fn joint_all(blacks: Seq<Interval>, sil: Seq<Interval>, frame_ms: i64, b: DurationBounds) -> Seq<Interval>
    decreases blacks.len(),
{
    if blacks.len() == 0 {
        Seq::empty()
    } else {
        joint_all(blacks.drop_last(), sil, frame_ms, b) + joint_row(blacks.last(), sil, frame_ms, b)
    }
}

proof fn lemma_row_retained(k: Interval, sil: Seq<Interval>, frame_ms: i64, b: DurationBounds)
    ensures
        all_retained(joint_row(k, sil, frame_ms, b), b),
    decreases sil.len(),
{
    if sil.len() > 0 {
        lemma_row_retained(k, sil.drop_last(), frame_ms, b);
    }
}

pub proof fn lemma_all_retained(blacks: Seq<Interval>, sil: Seq<Interval>, frame_ms: i64, b: DurationBounds)
    ensures
        all_retained(joint_all(blacks, sil, frame_ms, b), b),
    decreases blacks.len(),
{
    if blacks.len() > 0 {
        lemma_all_retained(blacks.drop_last(), sil, frame_ms, b);
        lemma_row_retained(blacks.last(), sil, frame_ms, b);
        let a = joint_all(blacks.drop_last(), sil, frame_ms, b);
        let r = joint_row(blacks.last(), sil, frame_ms, b);
        assert forall|i: int| 0 <= i < (a + r).len() implies #[trigger] retained((a + r)[i], b) by {
            if i < a.len() {
                assert((a + r)[i] == a[i]);
            } else {
                assert((a + r)[i] == r[i - a.len()]);
            }
        }
    }
}

/// Correlates black intervals of a video stream with silence intervals of an audio stream.
///
/// For each black interval and each silence, in that order, the overlap runs from the later
/// start to the earlier end; where it is not empty it is extended by one frame and kept if
/// its length lies within `bounds`.
pub fn detect_black_and_silence(
    blacks: &Vec<Interval>,
    silences: &Vec<Interval>,
    frame_ms: i64,
    bounds: DurationBounds,
) -> (r: Vec<Interval>)
    ensures
        r@ == joint_all(blacks@, silences@, frame_ms, bounds),
        all_retained(r@, bounds),
{
    let mut r: Vec<Interval> = Vec::new();
    let mut i: usize = 0;
    while i < blacks.len()
        invariant
            i <= blacks.len(),
            r@ == joint_all(blacks@.take(i as int), silences@, frame_ms, bounds),
        decreases blacks.len() - i,
    {
        let k = blacks[i];
        let ghost before = r@;
        let mut j: usize = 0;
        while j < silences.len()
            invariant
                j <= silences.len(),
                k == blacks@[i as int],
                r@ == before + joint_row(k, silences@.take(j as int), frame_ms, bounds),
            decreases silences.len() - j,
        {
            assert(silences@.take(j as int + 1).drop_last() == silences@.take(j as int));
            let s = silences[j];
            let start = if k.start <= s.start { s.start } else { k.start };
            let end = if k.end <= s.end { k.end } else { s.end };
            if start < end {
                let iv = Interval { start, end: add_clamped(end, frame_ms) };
                if iv.is_retained(&bounds) {
                    r.push(iv);
                }
            }
            j += 1;
        }
        assert(silences@.take(silences.len() as int) == silences@);
        assert(blacks@.take(i as int + 1).drop_last() == blacks@.take(i as int));
        i += 1;
    }
    assert(blacks@.take(blacks.len() as int) == blacks@);
    proof {
        lemma_all_retained(blacks@, silences@, frame_ms, bounds);
    }
    r
}

} // verus!
