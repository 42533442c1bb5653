use vstd::prelude::*;
use crate::interval::{all_retained, clamp64, retained, sub_clamped, DurationBounds, Interval};
use crate::tracks::{stereo_unit, is_stereo_unit, Track};

verus! {

/// A start or end tag reported by an analysis node, with its time in milliseconds.
#[derive(Clone, Copy, Debug, PartialEq, Eq, Structural)]
pub enum TagEvent {
    Start(i64),
    End(i64),
}

/// A tag event together with the elementary stream it was reported on.
#[derive(Clone, Copy, Debug, PartialEq, Eq, Structural)]
pub struct StreamEvent {
    pub stream: u32,
    pub event: TagEvent,
}

/// The events of one stream, in the order they were reported.
pub open spec fn events_for(s: Seq<StreamEvent>, stream: u32) -> Seq<TagEvent>
    decreases s.len(),
{
    if s.len() == 0 {
        Seq::empty()
    } else if s.last().stream == stream {
        events_for(s.drop_last(), stream).push(s.last().event)
    } else {
        events_for(s.drop_last(), stream)
    }
}

/// One step of the start/end pairing machine. The state is the list of intervals found so
/// far and whether its last one is still open (ending, for now, at `clip_end`).
/// Every start opens an interval; one still open then keeps `clip_end` as its end, and
/// stays only if it is retained under the bounds. An end while none is open is ignored.
/// Closing sets the end one frame before the end tag (held within `i64`) and drops the
/// interval unless it is retained under the bounds.
pub open spec fn pair_step(
    acc: (Seq<Interval>, bool),
    ev: TagEvent,
    clip_end: i64,
    frame_ms: i64,
    b: DurationBounds,
) -> (Seq<Interval>, bool) {
    match ev {
        TagEvent::Start(t) => {
            let settled = if acc.1 && acc.0.len() > 0 && !retained(acc.0.last(), b) {
                acc.0.drop_last()
            } else {
                acc.0
            };
            (settled.push(Interval { start: t, end: clip_end }), true)
        },
        TagEvent::End(t) => if acc.1 && acc.0.len() > 0 {
            let closed = Interval { start: acc.0.last().start, end: clamp64(t - frame_ms) };
            if retained(closed, b) {
                (acc.0.drop_last().push(closed), false)
            } else {
                (acc.0.drop_last(), false)
            }
        } else {
            acc
        },
    }
}

/// The pairing machine's state after all of `evs`.
pub open spec fn pair_run(evs: Seq<TagEvent>, clip_end: i64, frame_ms: i64, b: DurationBounds) -> (
    Seq<Interval>,
    bool,
)
    decreases evs.len(),
{
    if evs.len() == 0 {
        (Seq::empty(), false)
    } else {
        pair_step(pair_run(evs.drop_last(), clip_end, frame_ms, b), evs.last(), clip_end, frame_ms, b)
    }
}

/// The intervals found in `evs`: an interval still open at the end runs to `clip_end`,
/// and is kept only if it is retained under the bounds.
pub open spec fn paired_intervals(
    evs: Seq<TagEvent>,
    clip_end: i64,
    frame_ms: i64,
    b: DurationBounds,
) -> Seq<Interval> {
    let (s, open) = pair_run(evs, clip_end, frame_ms, b);
    if open && s.len() > 0 && !retained(s.last(), b) {
        s.drop_last()
    } else {
        s
    }
}

/// Whether the interval `iv` takes in the start or the end of the black interval `k`.
pub open spec fn touches_black(iv: Interval, k: Interval) -> bool {
    (iv.start < k.start && k.start <= iv.end) || (iv.start <= k.end && k.end < iv.end)
}

/// Whether some black interval of `blacks` is touched by `iv`.
pub open spec fn is_fade(iv: Interval, blacks: Seq<Interval>) -> bool {
    exists|j: int| 0 <= j < blacks.len() && touches_black(iv, #[trigger] blacks[j])
}

/// The intervals of `s` that are fades, in order.
pub open spec fn fades_of(s: Seq<Interval>, blacks: Seq<Interval>) -> Seq<Interval>
    decreases s.len(),
{
    if s.len() == 0 {
        Seq::empty()
    } else if is_fade(s.last(), blacks) {
        fades_of(s.drop_last(), blacks).push(s.last())
    } else {
        fades_of(s.drop_last(), blacks)
    }
}

proof fn lemma_pair_run_shape(evs: Seq<TagEvent>, clip_end: i64, frame_ms: i64, b: DurationBounds)
    ensures
        ({
            let (s, open) = pair_run(evs, clip_end, frame_ms, b);
            &&& open ==> s.len() > 0
            &&& forall|i: int|
                0 <= i < s.len() && !(open && i == s.len() - 1) ==> #[trigger] retained(s[i], b)
        }),
    decreases evs.len(),
{
    if evs.len() > 0 {
        lemma_pair_run_shape(evs.drop_last(), clip_end, frame_ms, b);
    }
}

pub proof fn lemma_paired_retained(evs: Seq<TagEvent>, clip_end: i64, frame_ms: i64, b: DurationBounds)
    ensures
        all_retained(paired_intervals(evs, clip_end, frame_ms, b), b),
{
    lemma_pair_run_shape(evs, clip_end, frame_ms, b);
    let (s, open) = pair_run(evs, clip_end, frame_ms, b);
    let r = paired_intervals(evs, clip_end, frame_ms, b);
    assert forall|i: int| 0 <= i < r.len() implies #[trigger] retained(r[i], b) by {
        assert(r[i] == s[i]);
    }
}

pub proof fn lemma_fades_subseq(s: Seq<Interval>, blacks: Seq<Interval>, b: DurationBounds)
    requires
        all_retained(s, b),
    ensures
        all_retained(fades_of(s, blacks), b),
        forall|i: int| 0 <= i < fades_of(s, blacks).len() ==> is_fade(#[trigger] fades_of(s, blacks)[i], blacks),
    decreases s.len(),
{
    if s.len() > 0 {
        assert(all_retained(s.drop_last(), b)) by {
            assert forall|i: int| 0 <= i < s.drop_last().len() implies #[trigger] retained(s.drop_last()[i], b) by {
                assert(s.drop_last()[i] == s[i]);
            }
        }
        assert(retained(s[s.len() - 1], b));
        lemma_fades_subseq(s.drop_last(), blacks, b);
    }
}

/// The events of `stream`, in order.
pub fn select_stream(events: &Vec<StreamEvent>, stream: u32) -> (r: Vec<TagEvent>)
    ensures
        r@ == events_for(events@, stream),
{
    let mut r: Vec<TagEvent> = Vec::new();
    let mut i: usize = 0;
    while i < events.len()
        invariant
            i <= events.len(),
            r@ == events_for(events@.take(i as int), stream),
        decreases events.len() - i,
    {
        assert(events@.take(i as int + 1).drop_last() == events@.take(i as int));
        if events[i].stream == stream {
            r.push(events[i].event);
        }
        i += 1;
    }
    assert(events@.take(events.len() as int) == events@);
    r
}

/// Pairs start and end tags of one stream into intervals.
///
/// Each start tag opens an interval ending, for now, at `clip_end`; the next end tag at
/// `t` closes it at `t - frame_ms`. An interval is kept only if it is well-ordered and its
/// length lies within `bounds`, which also holds of one still open at the end.
pub fn detect_paired(events: &Vec<TagEvent>, clip_end: i64, frame_ms: i64, bounds: DurationBounds) -> (r: Vec<Interval>)
    ensures
        r@ == paired_intervals(events@, clip_end, frame_ms, bounds),
        all_retained(r@, bounds),
{
    let mut found: Vec<Interval> = Vec::new();
    let mut open = false;
    let mut i: usize = 0;
    while i < events.len()
        invariant
            i <= events.len(),
            (found@, open) == pair_run(events@.take(i as int), clip_end, frame_ms, bounds),
        decreases events.len() - i,
    {
        assert(events@.take(i as int + 1).drop_last() == events@.take(i as int));
        assert(events@.take(i as int + 1).last() == events@[i as int]);
        let ev = events[i];
        match ev {
            TagEvent::Start(t) => {
                if open && found.len() > 0 {
                    let last = found[found.len() - 1];
                    if !last.is_retained(&bounds) {
                        found.pop();
                    }
                }
                found.push(Interval { start: t, end: clip_end });
                open = true;
            },
            TagEvent::End(t) => {
                if open && found.len() > 0 {
                    let last = found.pop().unwrap();
                    let closed = Interval { start: last.start, end: sub_clamped(t, frame_ms) };
                    if closed.is_retained(&bounds) {
                        found.push(closed);
                    }
                    open = false;
                }
            },
        }
        i += 1;
    }
    assert(events@.take(events.len() as int) == events@);
    if open && found.len() > 0 {
        let last = found[found.len() - 1];
        if !last.is_retained(&bounds) {
            found.pop();
        }
    }
    proof {
        lemma_paired_retained(events@, clip_end, frame_ms, bounds);
    }
    found
}

/// Pairs black-level start and end tags into fades: intervals found as `detect_paired`
/// finds them, kept only where they take in the start or the end of a black interval.
pub fn detect_blackfade(
    events: &Vec<TagEvent>,
    clip_end: i64,
    frame_ms: i64,
    bounds: DurationBounds,
    blacks: &Vec<Interval>,
) -> (r: Vec<Interval>)
    ensures
        r@ == fades_of(paired_intervals(events@, clip_end, frame_ms, bounds), blacks@),
        all_retained(r@, bounds),
{
    let found = detect_paired(events, clip_end, frame_ms, bounds);
    let mut r: Vec<Interval> = Vec::new();
    let mut i: usize = 0;
    while i < found.len()
        invariant
            i <= found.len(),
            r@ == fades_of(found@.take(i as int), blacks@),
        decreases found.len() - i,
    {
        assert(found@.take(i as int + 1).drop_last() == found@.take(i as int));
        let iv = found[i];
        let mut fade = false;
        let mut j: usize = 0;
        while j < blacks.len()
            invariant
                j <= blacks.len(),
                iv == found@[i as int],
                fade == exists|k: int| 0 <= k < j && touches_black(iv, #[trigger] blacks@[k]),
            decreases blacks.len() - j,
        {
            let k = blacks[j];
            if (iv.start < k.start && k.start <= iv.end) || (iv.start <= k.end && k.end < iv.end) {
                fade = true;
            }
            j += 1;
        }
        if fade {
            r.push(iv);
        }
        i += 1;
    }
    assert(found@.take(found.len() as int) == found@);
    proof {
        lemma_fades_subseq(found@, blacks@, bounds);
    }
    r
}

/// Whether one silence runs over the whole stream: the only interval found starts at 0
/// and ends at `clip_end`.
pub fn is_silent_stream(found: &Vec<Interval>, clip_end: i64) -> (r: bool)
    ensures
        r == (found@.len() == 1 && found@[0] == (Interval { start: 0, end: clip_end })),
{
    found.len() == 1 && found[0].start == 0 && found[0].end == clip_end
}

/// Silences found on one audio stream, and whether a single one spans it all.
#[derive(Debug)]
pub struct SilenceDetection {
    pub intervals: Vec<Interval>,
    pub silent_stream: bool,
}

/// Pairs silence start and end tags of one stream, as `detect_paired` does, and flags the
/// stream as silent when, before any duration bound is applied, the only silence found
/// runs from 0 to `clip_end`.
pub fn detect_silence(events: &Vec<TagEvent>, clip_end: i64, frame_ms: i64, bounds: DurationBounds) -> (r: SilenceDetection)
    ensures
        r.intervals@ == paired_intervals(events@, clip_end, frame_ms, bounds),
        r.silent_stream == (paired_intervals(events@, clip_end, frame_ms, DurationBounds { min: None, max: None })
            == seq![Interval { start: 0, end: clip_end }]),
        all_retained(r.intervals@, bounds),
{
    let intervals = detect_paired(events, clip_end, frame_ms, bounds);
    let all = detect_paired(events, clip_end, frame_ms, DurationBounds { min: None, max: None });
    let silent_stream = is_silent_stream(&all, clip_end);
    assert(silent_stream == (all@ == seq![Interval { start: 0, end: clip_end }])) by {
        if all@.len() == 1 {
            assert(seq![all@[0]] =~= all@);
        }
    }
    SilenceDetection { intervals, silent_stream }
}

/// Pairs mono-phase start and end tags of one pairing group, as `detect_paired` does; a
/// group that is not one stereo unit (one two-channel stream, or two mono streams) is not
/// compared and yields nothing.
pub fn detect_dualmono(
    group: &Vec<Track>,
    events: &Vec<TagEvent>,
    clip_end: i64,
    frame_ms: i64,
    bounds: DurationBounds,
) -> (r: Vec<Interval>)
    ensures
        stereo_unit(group@) ==> r@ == paired_intervals(events@, clip_end, frame_ms, bounds),
        !stereo_unit(group@) ==> r@.len() == 0,
        all_retained(r@, bounds),
{
    if is_stereo_unit(group) {
        detect_paired(events, clip_end, frame_ms, bounds)
    } else {
        Vec::new()
    }
}

} // verus!
