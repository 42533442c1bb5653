use vstd::prelude::*;
use vstd::arithmetic::div_mod::lemma_div_is_ordered;
use crate::interval::{retained, DurationBounds, Interval};
use crate::timing::FramePeriod;

verus! {

/// Lowest crest factor, in millionths, that a pure sine may show (sqrt(2) - 1e-3).
pub const CREST_LOW: i64 = 1_413_214;

/// Highest crest factor, in millionths, that a pure sine may show (sqrt(2) + 1e-3).
pub const CREST_HIGH: i64 = 1_415_213;

/// A sine tone found on one channel of a stream, in milliseconds.
#[derive(Clone, Copy, Debug, PartialEq, Eq, Structural)]
pub struct SineResult {
    pub channel: u8,
    pub start: i64,
    pub end: i64,
}

/// What the analysis reported for one channel on one frame: the crest factor in
/// millionths (already scaled to the sample format's range) and the zero crossings.
#[derive(Clone, Copy, Debug, PartialEq, Eq, Structural)]
pub struct ToneObservation {
    pub crest_micro: Option<i64>,
    pub zero_crossings: Option<u64>,
}

/// The crest factor is that of a pure sine.
pub open spec fn in_band(c: i64) -> bool {
    CREST_LOW <= c <= CREST_HIGH
}

/// A candidate from `s` to `e`, whose frames cover `covered` milliseconds with `zero`
/// zero crossings, is a 1000 Hz tone (two crossings per millisecond) and is retained.
pub open spec fn accepted(s: i64, e: i64, covered: int, zero: int, b: DurationBounds) -> bool {
    zero == 2 * covered && retained(Interval { start: s, end: e }, b)
}

/// The tracker's state: frames seen, start of the current candidate, zero crossings
/// counted since that start, and the tones found.
pub type ToneState = (int, Option<i64>, int, Seq<SineResult>);

/// One frame of the tone tracker.
///
/// An in-band crest factor opens a candidate at this frame when none is open (its zero
/// crossings start from this frame's); an out-of-band one closes an open candidate on the
/// previous frame, and a closed candidate becomes a result only if it is `accepted` on the
/// zero crossings of its own frames (the closing frame's are not counted).
pub open spec fn tone_step(
    st: ToneState,
    o: ToneObservation,
    p: FramePeriod,
    channel: u8,
    b: DurationBounds,
) -> ToneState {
    let f = st.0;
    let here: int = match o.zero_crossings {
        Some(z) => z as int,
        None => 0,
    };
    let zero = st.2 + here;
    match o.crest_micro {
        None => (f + 1, st.1, zero, st.3),
        Some(c) => if in_band(c) {
            if st.1 is None {
                (f + 1, Some(p.time_of(f) as i64), here, st.3)
            } else {
                (f + 1, st.1, zero, st.3)
            }
        } else {
            match st.1 {
                Some(s) => {
                    let e = p.time_of(f - 1) as i64;
                    let found = if accepted(s, e, p.time_of(f) - s, st.2, b) {
                        st.3.push(SineResult { channel, start: s, end: e })
                    } else {
                        st.3
                    };
                    (f + 1, None, 0, found)
                },
                None => (f + 1, None, zero, st.3),
            }
        },
    }
}

/// The tracker's state after all of `obs`.
pub open spec fn tone_run(obs: Seq<ToneObservation>, p: FramePeriod, channel: u8, b: DurationBounds) -> ToneState
    decreases obs.len(),
{
    if obs.len() == 0 {
        (0, None, 0, Seq::empty())
    } else {
        tone_step(tone_run(obs.drop_last(), p, channel, b), obs.last(), p, channel, b)
    }
}

/// The tones found in `obs`: a candidate still open when the stream ends is closed at
/// `clip_end`, covering every frame since its start.
pub open spec fn tones(obs: Seq<ToneObservation>, p: FramePeriod, clip_end: i64, channel: u8, b: DurationBounds) -> Seq<SineResult> {
    let st = tone_run(obs, p, channel, b);
    match st.1 {
        Some(s) => if accepted(s, clip_end, p.time_of(st.0) - s, st.2, b) {
            st.3.push(SineResult { channel, start: s, end: clip_end })
        } else {
            st.3
        },
        None => st.3,
    }
}

/// Each tone starts no later than it ends, and its length lies within the bounds.
pub open spec fn tones_retained(s: Seq<SineResult>, b: DurationBounds) -> bool {
    forall|i: int| 0 <= i < s.len() ==> retained(Interval { start: #[trigger] s[i].start, end: s[i].end }, b)
}

/// Frame start times grow with the frame index and are never negative.
pub proof fn lemma_time_monotone(p: FramePeriod, f: int, n: int)
    requires
        p.valid(),
        0 <= f <= n,
    ensures
        0 <= p.time_of(f) <= p.time_of(n),
{
    let y = p.den as int;
    assert(0 <= f * 1000 * p.num <= n * 1000 * p.num) by (nonlinear_arith)
        requires 0 <= f <= n, p.num >= 0;
    lemma_div_is_ordered(2 * (f * 1000 * p.num) + y, 2 * (n * 1000 * p.num) + y, 2 * y);
    assert(0 <= (2 * (f * 1000 * p.num) + y) / (2 * y)) by (nonlinear_arith)
        requires 2 * (f * 1000 * p.num) + y >= 0, y > 0;
}

/// Tracks a 1000 Hz tone on one channel of a stream, frame by frame.
///
/// A candidate opens on the first frame whose crest factor is that of a sine and closes on
/// the frame before the crest factor leaves that band, or at `clip_end` when the stream
/// ends first. It is kept only where its zero crossings come to exactly two per
/// millisecond of the frames it covers, and its length lies within `bounds`.
pub fn detect_sine(
    obs: &Vec<ToneObservation>,
    period: &FramePeriod,
    clip_end: i64,
    channel: u8,
    bounds: DurationBounds,
) -> (r: Vec<SineResult>)
    requires
        period.valid(),
        period.time_of(obs@.len() as int) <= 0x4000_0000_0000_0000,
    ensures
        r@ == tones(obs@, *period, clip_end, channel, bounds),
        tones_retained(r@, bounds),
{
    let mut found: Vec<SineResult> = Vec::new();
    let mut start: Option<i64> = None;
    let mut zero: u128 = 0;
    let mut i: usize = 0;
    while i < obs.len()
        invariant
            i <= obs.len(),
            period.valid(),
            period.time_of(obs@.len() as int) <= 0x4000_0000_0000_0000,
            (i as int, start, zero as int, found@) == tone_run(obs@.take(i as int), *period, channel, bounds),
            zero <= i * 0xffff_ffff_ffff_ffff,
            start is Some ==> i >= 1,
            start matches Some(s) ==> 0 <= s <= 0x4000_0000_0000_0000,
            tones_retained(found@, bounds),
        decreases obs.len() - i,
    {
        assert(obs@.take(i as int + 1).drop_last() == obs@.take(i as int));
        assert(obs@.take(i as int + 1).last() == obs@[i as int]);
        proof {
            lemma_time_monotone(*period, i as int, obs@.len() as int);
        }
        let o = obs[i];
        let here: u128 = match o.zero_crossings {
            Some(z) => z as u128,
            None => 0,
        };
        assert(zero + here <= (i + 1) * 0xffff_ffff_ffff_ffff) by (nonlinear_arith)
            requires zero <= i * 0xffff_ffff_ffff_ffff, here <= 0xffff_ffff_ffff_ffff;
        let total: u128 = zero + here;
        match o.crest_micro {
            None => {
                zero = total;
            },
            Some(c) => {
                if CREST_LOW <= c && c <= CREST_HIGH {
                    if start.is_none() {
                        start = Some(period.frame_time(i as u64));
                        zero = here;
                    } else {
                        zero = total;
                    }
                } else {
                    match start {
                        Some(s) => {
                            proof {
                                lemma_time_monotone(*period, i - 1, i as int);
                            }
                            let e = period.frame_time((i - 1) as u64);
                            let covered = period.frame_time(i as u64) - s;
                            let iv = Interval { start: s, end: e };
                            if covered >= 0 && zero == 2 * covered as u128 && iv.is_retained(&bounds) {
                                found.push(SineResult { channel, start: s, end: e });
                            }
                            start = None;
                            zero = 0;
                        },
                        None => {
                            zero = total;
                        },
                    }
                }
            },
        }
        i += 1;
    }
    assert(obs@.take(obs.len() as int) == obs@);
    if let Some(s) = start {
        proof {
            lemma_time_monotone(*period, obs@.len() as int, obs@.len() as int);
        }
        let covered = period.frame_time(obs.len() as u64) - s;
        let iv = Interval { start: s, end: clip_end };
        if covered >= 0 && zero == 2 * covered as u128 && iv.is_retained(&bounds) {
            found.push(SineResult { channel, start: s, end: clip_end });
        }
    }
    found
}

} // verus!
