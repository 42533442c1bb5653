use vstd::prelude::*;

verus! {

/// Running minimum and maximum of a loudness measure, in hundredths of LU.
#[derive(Clone, Copy, Debug, PartialEq, Eq, Structural)]
pub struct MinMax {
    pub min: i64,
    pub max: i64,
}

/// Loudness of one stream, in hundredths: integrated loudness, loudness range, the true
/// peak of each channel it covers, and the momentary and short-term extremes.
#[derive(Clone, Debug, PartialEq, Eq)]
pub struct LoudnessResult {
    pub integrated: i64,
    pub range: i64,
    pub true_peaks: Vec<i64>,
    pub momentary: MinMax,
    pub short_term: MinMax,
}

/// What the loudness meter reported on one frame, values in hundredths; `pts` counts
/// samples.
#[derive(Clone, Debug, PartialEq, Eq)]
pub struct LoudnessObservation {
    pub pts: Option<i64>,
    pub integrated: Option<i64>,
    pub range: Option<i64>,
    pub momentary: Option<i64>,
    pub short_term: Option<i64>,
    pub true_peaks: Vec<i64>,
}

/// Value that stands for "no measure".
pub const UNMEASURED: i64 = -9990;

/// Integrated loudness at the meter's floor, and the value that reports it.
pub const METER_FLOOR: i64 = -7000;
pub const SILENT_LOUDNESS: i64 = -9900;

/// The momentary window (0.3 s) has filled at sample `pts`.
pub open spec fn momentary_settled(pts: Option<i64>, sample_rate: u32) -> bool {
    pts matches Some(p) && 10 * p >= 3 * sample_rate
}

/// The short-term window (3 s) has filled at sample `pts`.
pub open spec fn short_term_settled(pts: Option<i64>, sample_rate: u32) -> bool {
    pts matches Some(p) && p >= 3 * sample_rate
}

/// The extremes after taking in `v`.
pub open spec fn widen(m: MinMax, v: i64) -> MinMax {
    MinMax { min: if v < m.min { v } else { m.min }, max: if v > m.max { v } else { m.max } }
}

/// The extremes after an optional reading that counts only once its window has settled.
pub open spec fn widen_if(m: MinMax, v: Option<i64>, settled: bool) -> MinMax {
    match v {
        Some(x) => if settled { widen(m, x) } else { m },
        None => m,
    }
}

fn widen_exec(m: MinMax, v: i64) -> (r: MinMax)
    ensures
        r == widen(m, v),
{
    MinMax { min: if v < m.min { v } else { m.min }, max: if v > m.max { v } else { m.max } }
}

impl LoudnessResult {
    /// A result before any measure: every value unmeasured, extremes empty.
    pub fn new() -> (r: LoudnessResult)
        ensures
            r.integrated == UNMEASURED,
            r.range == UNMEASURED,
            r.true_peaks@.len() == 0,
            r.momentary.min == -UNMEASURED && r.momentary.max == UNMEASURED,
            r.short_term.min == -UNMEASURED && r.short_term.max == UNMEASURED,
    {
        LoudnessResult {
            integrated: UNMEASURED,
            range: UNMEASURED,
            true_peaks: Vec::new(),
            momentary: MinMax { min: -UNMEASURED, max: UNMEASURED },
            short_term: MinMax { min: -UNMEASURED, max: UNMEASURED },
        }
    }

    /// Takes in one frame's readings: the latest integrated loudness (the meter's floor
    /// reported as silence) and range replace the old ones, momentary and short-term
    /// readings widen their extremes once their window has settled, and the frame's true
    /// peaks replace the previous ones.
    pub fn observe(&mut self, o: LoudnessObservation, sample_rate: u32)
        ensures
            final(self).integrated == match o.integrated {
                Some(i) => if i == METER_FLOOR { SILENT_LOUDNESS } else { i },
                None => old(self).integrated,
            },
            final(self).range == match o.range {
                Some(x) => x,
                None => old(self).range,
            },
            final(self).momentary == widen_if(old(self).momentary, o.momentary, momentary_settled(o.pts, sample_rate)),
            final(self).short_term == widen_if(old(self).short_term, o.short_term, short_term_settled(o.pts, sample_rate)),
            final(self).true_peaks@ == o.true_peaks@,
    {
        if let Some(i) = o.integrated {
            self.integrated = if i == METER_FLOOR { SILENT_LOUDNESS } else { i };
        }
        if let Some(x) = o.range {
            self.range = x;
        }
        let (m_settled, s_settled) = match o.pts {
            Some(p) => (p as i128 * 10 >= 3 * sample_rate as i128, p as i128 >= 3 * sample_rate as i128),
            None => (false, false),
        };
        if let Some(m) = o.momentary {
            if m_settled {
                self.momentary = widen_exec(self.momentary, m);
            }
        }
        if let Some(s) = o.short_term {
            if s_settled {
                self.short_term = widen_exec(self.short_term, s);
            }
        }
        self.true_peaks = o.true_peaks;
    }
}

} // verus!
