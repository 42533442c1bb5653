use vstd::prelude::*;
use crate::rational::Rational;
use crate::timing::round_div;

verus! {

/// A block of samples handed to an audio encoder, stamped with its first sample's time.
#[derive(Debug)]
pub struct AudioChunk {
    pub samples: Vec<i32>,
    pub pts: i64,
}

/// Samples waiting between a decoder, whose frames have their own size, and an encoder,
/// which takes frames of `frame_size` samples (any size when `frame_size` is 0).
/// `next_pts` counts the samples handed out so far.
#[derive(Debug)]
pub struct SampleFifo {
    pub samples: Vec<i32>,
    pub frame_size: usize,
    pub next_pts: i64,
}

/// The number of samples the next chunk takes out of `pending` waiting ones.
pub open spec fn chunk_len(pending: int, frame_size: int) -> int {
    if frame_size == 0 || pending < frame_size {
        pending
    } else {
        frame_size
    }
}

impl SampleFifo {
    /// An empty queue for an encoder that takes `frame_size` samples per frame (0: any).
    pub fn new(frame_size: usize) -> (r: SampleFifo)
        ensures
            r.samples@.len() == 0,
            r.frame_size == frame_size,
            r.next_pts == 0,
    {
        SampleFifo { samples: Vec::new(), frame_size, next_pts: 0 }
    }

    /// Appends decoded samples.
    pub fn push(&mut self, more: &Vec<i32>)
        ensures
            final(self).samples@ == old(self).samples@ + more@,
            final(self).frame_size == old(self).frame_size,
            final(self).next_pts == old(self).next_pts,
    {
        let mut i: usize = 0;
        let ghost start = self.samples@;
        while i < more.len()
            invariant
                i <= more.len(),
                self.samples@ == start + more@.take(i as int),
                self.frame_size == old(self).frame_size,
                self.next_pts == old(self).next_pts,
                start == old(self).samples@,
            decreases more.len() - i,
        {
            self.samples.push(more[i]);
            assert(more@.take(i as int + 1) == more@.take(i as int).push(more@[i as int]));
            i += 1;
        }
        assert(more@.take(more.len() as int) == more@);
    }

    /// Takes the next chunk: the oldest `min(waiting, frame_size)` samples (all of them
    /// for an encoder of any frame size), stamped with the count of samples handed out
    /// before; nothing when no sample waits.
    pub fn pop_frame(&mut self) -> (r: Option<AudioChunk>)
        requires
            old(self).next_pts + old(self).samples@.len() <= i64::MAX,
            old(self).next_pts >= 0,
        ensures
            final(self).frame_size == old(self).frame_size,
            ({
                let n = chunk_len(old(self).samples@.len() as int, old(self).frame_size as int);
                if n == 0 {
                    r is None && final(self).samples@ == old(self).samples@ && final(self).next_pts == old(self).next_pts
                } else {
                    r matches Some(c) && c.samples@ == old(self).samples@.take(n) && c.pts == old(self).next_pts
                        && final(self).samples@ == old(self).samples@.skip(n)
                        && final(self).next_pts == old(self).next_pts + n
                }
            }),
    {
        let len = self.samples.len();
        let n = if self.frame_size == 0 || len < self.frame_size { len } else { self.frame_size };
        if n == 0 {
            return None;
        }
        let mut rest = self.samples.split_off(n);
        std::mem::swap(&mut self.samples, &mut rest);
        let pts = self.next_pts;
        self.next_pts = self.next_pts + n as i64;
        Some(AudioChunk { samples: rest, pts })
    }
}

/// `ts` counted in `from` units, in `to` units: `ts * from / to`, rounded to the nearest,
/// halves away from zero.
pub open spec fn rescaled(ts: i64, from: Rational, to: Rational) -> int {
    round_div(ts * from.num * to.den, from.den * to.num)
}

/// Rescales a timestamp or duration from one time base to another.
pub fn rescale(ts: i64, from: Rational, to: Rational) -> (r: i64)
    requires
        from.den * to.num > 0,
        i64::MIN <= rescaled(ts, from, to) <= i64::MAX,
    ensures
        r == rescaled(ts, from, to),
{
    assert(-0x8000_0000 * 0x8000_0000 <= from.num as int * to.den as int <= 0x8000_0000 * 0x8000_0000)
        by (nonlinear_arith)
        requires -0x8000_0000 <= from.num <= 0x7fff_ffff, -0x8000_0000 <= to.den <= 0x7fff_ffff;
    assert(from.den as int * to.num as int <= 0x8000_0000 * 0x8000_0000) by (nonlinear_arith)
        requires -0x8000_0000 <= from.den <= 0x7fff_ffff, -0x8000_0000 <= to.num <= 0x7fff_ffff;
    let a: i128 = from.num as i128 * to.den as i128;
    let b: i128 = from.den as i128 * to.num as i128;
    assert(-0x8000_0000_0000_0000 * 0x4000_0000_0000_0000 <= ts as int * a <= 0x8000_0000_0000_0000 * 0x4000_0000_0000_0000)
        by (nonlinear_arith)
        requires -0x8000_0000_0000_0000 <= ts <= 0x7fff_ffff_ffff_ffff, -0x4000_0000_0000_0000 <= a <= 0x4000_0000_0000_0000;
    let x: i128 = ts as i128 * a;
    assert(x == ts * from.num * to.den) by (nonlinear_arith)
        requires x == ts * a, a == from.num * to.den;
    if x >= 0 {
        ((2 * x + b) / (2 * b)) as i64
    } else {
        (-((-2 * x + b) / (2 * b))) as i64
    }
}

} // verus!
