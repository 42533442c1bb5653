use vstd::prelude::*;

verus! {

/// `x / y` rounded to the nearest integer, halves away from zero.
pub open spec fn round_div(x: int, y: int) -> int
    recommends
        y > 0,
{
    if x >= 0 {
        (2 * x + y) / (2 * y)
    } else {
        -((-2 * x + y) / (2 * y))
    }
}

/// The duration of one analysis frame: `num / den` seconds (for audio, samples per frame
/// over the sample rate; for video, the inverse of the frame rate).
#[derive(Clone, Copy, Debug, PartialEq, Eq, Structural)]
pub struct FramePeriod {
    pub num: u32,
    pub den: u32,
}

impl FramePeriod {
    pub open spec fn valid(self) -> bool {
        self.den > 0
    }

    /// The start of frame `f`, in milliseconds, rounded.
    pub open spec fn time_of(self, f: int) -> int {
        round_div(f * 1000 * self.num, self.den as int)
    }

    /// A frame period of `num / den` seconds.
    pub fn new(num: u32, den: u32) -> (r: FramePeriod)
        ensures
            r.num == num,
            r.den == den,
    {
        FramePeriod { num, den }
    }

    /// The length of one frame, in milliseconds, rounded.
    pub fn frame_ms(&self) -> (r: i64)
        requires
            self.valid(),
        ensures
            r == self.time_of(1),
    {
        let x: u64 = 2000 * self.num as u64 + self.den as u64;
        (x / (2 * self.den as u64)) as i64
    }

    /// The start of frame `f`, in milliseconds, rounded.
    pub fn frame_time(&self, f: u64) -> (r: i64)
        requires
            self.valid(),
            self.time_of(f as int) <= i64::MAX,
        ensures
            r == self.time_of(f as int),
    {
        assert(f as int * self.num as int <= 0xffff_ffff_ffff_ffff * 0xffff_ffff) by (nonlinear_arith)
            requires f <= 0xffff_ffff_ffff_ffff_u64, self.num <= 0xffff_ffff_u32;
        let a: u128 = f as u128 * self.num as u128;
        assert(2000 * a == 2 * (f * 1000 * self.num)) by (nonlinear_arith)
            requires a == f * self.num;
        let x: u128 = 2000 * a + self.den as u128;
        let q = x / (2 * self.den as u128);
        assert(q == self.time_of(f as int));
        q as i64
    }
}

/// The last frame's start when a stream's length is known, in milliseconds: one frame
/// before its end; otherwise inferred from the number of analysis entries shared evenly
/// among `streams` streams.
pub open spec fn clip_end_of(duration_ms: Option<i64>, period: FramePeriod, entries: u64, streams: u64) -> int {
    match duration_ms {
        Some(d) => d - period.time_of(1),
        None => round_div((entries - streams) * 1000 * period.num, streams * period.den),
    }
}

/// The time at which an interval still open when the stream ends is closed.
pub fn clip_end(duration_ms: Option<i64>, period: &FramePeriod, entries: u64, streams: u64) -> (r: i64)
    requires
        period.valid(),
        streams > 0,
        i64::MIN <= clip_end_of(duration_ms, *period, entries, streams) <= i64::MAX,
    ensures
        r == clip_end_of(duration_ms, *period, entries, streams),
{
    match duration_ms {
        Some(d) => d - period.frame_ms(),
        None => {
            let e: i128 = entries as i128 - streams as i128;
            let n: i128 = period.num as i128;
            assert(-0x1_0000_0000_0000_0000 * 0x1_0000_0000 <= e * n <= 0x1_0000_0000_0000_0000 * 0x1_0000_0000)
                by (nonlinear_arith)
                requires
                    -0x1_0000_0000_0000_0000 <= e <= 0x1_0000_0000_0000_0000,
                    0 <= n <= 0x1_0000_0000;
            let x: i128 = e * n * 1000;
            assert(0 < streams as int * period.den as int <= 0x1_0000_0000_0000_0000 * 0x1_0000_0000)
                by (nonlinear_arith)
                requires 0 < streams <= 0x1_0000_0000_0000_0000, 0 < period.den <= 0x1_0000_0000;
            let y: i128 = streams as i128 * period.den as i128;
            assert(x == (entries - streams) * 1000 * period.num) by (nonlinear_arith)
                requires x == e * n * 1000, e == entries - streams, n == period.num;
            if x >= 0 {
                ((2 * x + y) / (2 * y)) as i64
            } else {
                (-((-2 * x + y) / (2 * y))) as i64
            }
        },
    }
}

} // verus!
