use vstd::prelude::*;

verus! {

/// A closed time interval in milliseconds.
#[derive(Clone, Copy, Debug, PartialEq, Eq, Structural)]
pub struct Interval {
    pub start: i64,
    pub end: i64,
}

/// A detected silence.
pub type SilenceResult = Interval;

/// A detected run of black frames.
pub type BlackResult = Interval;

/// A detected fade through black.
pub type BlackFadeResult = Interval;

/// A detected stretch both black and silent.
pub type BlackAndSilenceResult = Interval;

/// A detected stretch where a stereo pair carries the same signal on both channels.
pub type DualMonoResult = Interval;

/// Optional lower and upper bounds, in milliseconds, on an interval's length.
#[derive(Clone, Copy, Debug, PartialEq, Eq, Structural)]
pub struct DurationBounds {
    pub min: Option<u64>,
    pub max: Option<u64>,
}

/// The length `d` lies within the configured bounds.
pub open spec fn within(b: DurationBounds, d: int) -> bool {
    &&& (b.min matches Some(m) ==> m <= d)
    &&& (b.max matches Some(m) ==> d <= m)
}

/// An interval is well-ordered and its length lies within the bounds.
pub open spec fn retained(iv: Interval, b: DurationBounds) -> bool {
    iv.start <= iv.end && within(b, iv.end - iv.start)
}

/// Every interval of the sequence is retained under the bounds.
pub open spec fn all_retained(s: Seq<Interval>, b: DurationBounds) -> bool {
    forall|i: int| 0 <= i < s.len() ==> #[trigger] retained(s[i], b)
}

impl DurationBounds {
    /// Bounds that accept every length.
    pub fn unbounded() -> (r: DurationBounds)
        ensures
            r.min is None,
            r.max is None,
    {
        DurationBounds { min: None, max: None }
    }

    /// Whether the length `d` lies within the bounds.
    pub fn admits(&self, d: i128) -> (r: bool)
        ensures
            r == within(*self, d as int),
    {
        let lo = match self.min {
            Some(m) => d >= m as i128,
            None => true,
        };
        let hi = match self.max {
            Some(m) => d <= m as i128,
            None => true,
        };
        lo && hi
    }
}

/// `x`, held within the range of an `i64`.
pub open spec fn clamp64(x: int) -> i64 {
    if x < i64::MIN {
        i64::MIN
    } else if x > i64::MAX {
        i64::MAX
    } else {
        x as i64
    }
}

/// `a + b`, held within the range of an `i64`.
pub fn add_clamped(a: i64, b: i64) -> (r: i64)
    ensures
        r == clamp64(a + b),
{
    let x: i128 = a as i128 + b as i128;
    if x < i64::MIN as i128 {
        i64::MIN
    } else if x > i64::MAX as i128 {
        i64::MAX
    } else {
        x as i64
    }
}

/// `a - b`, held within the range of an `i64`.
pub fn sub_clamped(a: i64, b: i64) -> (r: i64)
    ensures
        r == clamp64(a - b),
{
    let x: i128 = a as i128 - b as i128;
    if x < i64::MIN as i128 {
        i64::MIN
    } else if x > i64::MAX as i128 {
        i64::MAX
    } else {
        x as i64
    }
}

impl Interval {
    /// Whether the interval is well-ordered and its length lies within the bounds.
    pub fn is_retained(&self, b: &DurationBounds) -> (r: bool)
        ensures
            r == retained(*self, *b),
    {
        self.start <= self.end && b.admits(self.end as i128 - self.start as i128)
    }
}

} // verus!
