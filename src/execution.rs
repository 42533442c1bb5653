use vstd::prelude::*;

verus! {

/// The number of audio and video sources registered in a graph.
#[derive(Clone, Copy, Debug, PartialEq, Eq, Structural)]
pub struct GraphArity {
    pub audio_inputs: usize,
    pub video_inputs: usize,
}

/// A frame set whose size does not match the graph's sources.
#[derive(Clone, Copy, Debug, PartialEq, Eq, Structural)]
pub struct ArityMismatch {
    pub expected: usize,
    pub given: usize,
}

impl GraphArity {
    /// Checks a frame set against the graph: one frame per audio source, then one per
    /// video source; the first count that differs is reported.
    pub fn check_frames(&self, audio_frames: usize, video_frames: usize) -> (r: Result<(), ArityMismatch>)
        ensures
            r is Ok <==> (audio_frames == self.audio_inputs && video_frames == self.video_inputs),
            r matches Err(e) ==> if audio_frames != self.audio_inputs {
                e == (ArityMismatch { expected: self.audio_inputs, given: audio_frames })
            } else {
                e == (ArityMismatch { expected: self.video_inputs, given: video_frames })
            },
    {
        if audio_frames != self.audio_inputs {
            Err(ArityMismatch { expected: self.audio_inputs, given: audio_frames })
        } else if video_frames != self.video_inputs {
            Err(ArityMismatch { expected: self.video_inputs, given: video_frames })
        } else {
            Ok(())
        }
    }

    /// Whether a tick's batch goes through the graph: it holds a frame for every source,
    /// and at least one frame.
    pub fn ready(&self, audio_frames: usize, video_frames: usize) -> (r: bool)
        ensures
            r == (audio_frames == self.audio_inputs && video_frames == self.video_inputs
                && (audio_frames > 0 || video_frames > 0)),
    {
        audio_frames == self.audio_inputs && video_frames == self.video_inputs && (audio_frames > 0
            || video_frames > 0)
    }
}

/// Whether the execution loop is done: every registered elementary stream is exhausted.
pub fn finished(exhausted_streams: u64, total_streams: u64) -> (r: bool)
    ensures
        r == (exhausted_streams >= total_streams),
{
    exhausted_streams >= total_streams
}

/// What reading one stream gave on one tick of the execution loop.
#[derive(Clone, Copy, Debug, PartialEq, Eq, Structural)]
pub enum ReadEvent {
    /// A packet decoded into an audio frame.
    AudioFrame,
    /// A packet decoded into a video frame, or a flush that still gave one.
    VideoFrame,
    /// A subtitle packet, queued for its output untouched.
    SubtitlePacket,
    /// A packet that gave no frame.
    Nothing,
    /// The stream is exhausted (a video decoder's flush gave no frame, or reading failed).
    Exhausted,
}

/// The batch collected on one tick.
#[derive(Clone, Copy, Debug, PartialEq, Eq, Structural)]
pub struct Tick {
    pub audio_frames: usize,
    pub video_frames: usize,
    pub subtitle_packets: usize,
    pub exhausted: u64,
}

/// What the loop does with a tick's batch.
#[derive(Clone, Copy, Debug, PartialEq, Eq, Structural)]
pub enum TickAction {
    /// Every stream is exhausted: drain the encoders and stop.
    Stop,
    /// The batch feeds every graph source: run the graph on it.
    Process,
    /// The batch is incomplete or empty: go on reading.
    Skip,
}

/// A tick's batch after one more read.
pub open spec fn tally(t: Tick, e: ReadEvent) -> Tick {
    match e {
        ReadEvent::AudioFrame => Tick { audio_frames: (t.audio_frames + 1) as usize, ..t },
        ReadEvent::VideoFrame => Tick { video_frames: (t.video_frames + 1) as usize, ..t },
        ReadEvent::SubtitlePacket => Tick { subtitle_packets: (t.subtitle_packets + 1) as usize, ..t },
        ReadEvent::Nothing => t,
        ReadEvent::Exhausted => Tick { exhausted: (t.exhausted + 1) as u64, ..t },
    }
}

impl Tick {
    /// An empty batch.
    pub fn new() -> (r: Tick)
        ensures
            r == (Tick { audio_frames: 0, video_frames: 0, subtitle_packets: 0, exhausted: 0 }),
    {
        Tick { audio_frames: 0, video_frames: 0, subtitle_packets: 0, exhausted: 0 }
    }

    /// Adds one read to the batch.
    pub fn record(&mut self, e: ReadEvent)
        requires
            old(self).audio_frames < usize::MAX,
            old(self).video_frames < usize::MAX,
            old(self).subtitle_packets < usize::MAX,
            old(self).exhausted < u64::MAX,
        ensures
            *final(self) == tally(*old(self), e),
    {
        match e {
            ReadEvent::AudioFrame => self.audio_frames = self.audio_frames + 1,
            ReadEvent::VideoFrame => self.video_frames = self.video_frames + 1,
            ReadEvent::SubtitlePacket => self.subtitle_packets = self.subtitle_packets + 1,
            ReadEvent::Nothing => {},
            ReadEvent::Exhausted => self.exhausted = self.exhausted + 1,
        }
    }

    /// Decides what the loop does with this batch: stop once all `total_streams` streams
    /// are exhausted, else run the graph when the batch is ready for it, else skip.
    pub fn decide(&self, arity: &GraphArity, total_streams: u64) -> (r: TickAction)
        ensures
            r == if self.exhausted >= total_streams {
                TickAction::Stop
            } else if self.audio_frames == arity.audio_inputs && self.video_frames == arity.video_inputs
                && (self.audio_frames > 0 || self.video_frames > 0) {
                TickAction::Process
            } else {
                TickAction::Skip
            },
    {
        if finished(self.exhausted, total_streams) {
            TickAction::Stop
        } else if arity.ready(self.audio_frames, self.video_frames) {
            TickAction::Process
        } else {
            TickAction::Skip
        }
    }
}

} // verus!
