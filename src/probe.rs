use vstd::prelude::*;
use crate::crop::CropResult;
use crate::interval::{BlackAndSilenceResult, BlackFadeResult, BlackResult, DualMonoResult, SilenceResult};
use crate::loudness::LoudnessResult;
use crate::ocr::OcrResult;
use crate::scene::{FalseSceneResult, SceneResult};
use crate::tone::SineResult;

verus! {

/// The checks a deep probe can run.
#[derive(Clone, Copy, Debug, PartialEq, Eq, Structural)]
pub enum CheckName {
    Silence,
    BlackFrame,
    BlackFade,
    BlackBorder,
    BlackAndSilence,
    MediaOffline,
    Scene,
    Loudness,
    DualMono,
    Tone,
}

/// What a deep probe found on one elementary stream: packet statistics, colour
/// description, and one field per check, present only when that check ran.
#[derive(Debug)]
pub struct StreamProbeResult {
    pub stream_index: usize,
    pub count_packets: usize,
    pub min_packet_size: i32,
    pub max_packet_size: i32,
    pub color_space: Option<String>,
    pub color_range: Option<String>,
    pub color_primaries: Option<String>,
    pub color_trc: Option<String>,
    pub color_matrix: Option<String>,
    pub detected_silence: Option<Vec<SilenceResult>>,
    pub silent_stream: Option<bool>,
    pub detected_black: Option<Vec<BlackResult>>,
    pub detected_blackfade: Option<Vec<BlackFadeResult>>,
    pub detected_crop: Option<Vec<CropResult>>,
    pub detected_scene: Option<Vec<SceneResult>>,
    pub detected_false_scene: Option<Vec<FalseSceneResult>>,
    pub detected_ocr: Option<Vec<OcrResult>>,
    pub detected_loudness: Option<Vec<LoudnessResult>>,
    pub detected_dualmono: Option<Vec<DualMonoResult>>,
    pub detected_bitrate: Option<i64>,
    pub detected_black_and_silence: Option<Vec<BlackAndSilenceResult>>,
    pub detected_sine: Option<Vec<SineResult>>,
}

impl StreamProbeResult {
    /// An empty result for stream `stream_index`: no packet seen (the minimum starts at
    /// `i32::MAX`, the maximum at `i32::MIN`), nothing described, no check run.
    pub fn new(stream_index: usize) -> (r: StreamProbeResult)
        ensures
            r.stream_index == stream_index,
            r.count_packets == 0,
            r.min_packet_size == i32::MAX,
            r.max_packet_size == i32::MIN,
            r.color_space is None && r.color_range is None && r.color_primaries is None,
            r.color_trc is None && r.color_matrix is None,
            r.detected_silence is None && r.silent_stream is None && r.detected_black is None,
            r.detected_blackfade is None && r.detected_crop is None && r.detected_scene is None,
            r.detected_false_scene is None && r.detected_ocr is None && r.detected_loudness is None,
            r.detected_dualmono is None && r.detected_bitrate is None,
            r.detected_black_and_silence is None && r.detected_sine is None,
    {
        StreamProbeResult {
            stream_index,
            count_packets: 0,
            min_packet_size: i32::MAX,
            max_packet_size: i32::MIN,
            color_space: None,
            color_range: None,
            color_primaries: None,
            color_trc: None,
            color_matrix: None,
            detected_silence: None,
            silent_stream: None,
            detected_black: None,
            detected_blackfade: None,
            detected_crop: None,
            detected_scene: None,
            detected_false_scene: None,
            detected_ocr: None,
            detected_loudness: None,
            detected_dualmono: None,
            detected_bitrate: None,
            detected_black_and_silence: None,
            detected_sine: None,
        }
    }

    /// Counts one packet of `size` bytes and widens the packet-size extremes.
    pub fn record_packet(&mut self, size: i32)
        requires
            old(self).count_packets < usize::MAX,
        ensures
            final(self).count_packets == old(self).count_packets + 1,
            final(self).min_packet_size == if size < old(self).min_packet_size { size } else { old(self).min_packet_size },
            final(self).max_packet_size == if size > old(self).max_packet_size { size } else { old(self).max_packet_size },
            final(self).stream_index == old(self).stream_index,
    {
        self.count_packets = self.count_packets + 1;
        if size < self.min_packet_size {
            self.min_packet_size = size;
        }
        if size > self.max_packet_size {
            self.max_packet_size = size;
        }
    }
}

/// The media type of an elementary stream.
#[derive(Clone, Copy, Debug, PartialEq, Eq, Structural)]
pub enum MediaKind {
    Audio,
    Video,
    Subtitle,
    Other,
}

/// The positions, in order, of the streams of kind `kind`.
pub open spec fn positions_of(kinds: Seq<MediaKind>, kind: MediaKind) -> Seq<u32>
    decreases kinds.len(),
{
    if kinds.len() == 0 {
        Seq::empty()
    } else if kinds.last() == kind {
        positions_of(kinds.drop_last(), kind).push((kinds.len() - 1) as u32)
    } else {
        positions_of(kinds.drop_last(), kind)
    }
}

/// The indexes of the streams of one kind (the audio streams, or the video streams), in
/// stream order.
pub fn stream_indexes(kinds: &Vec<MediaKind>, kind: MediaKind) -> (r: Vec<u32>)
    requires
        kinds@.len() <= u32::MAX,
    ensures
        r@ == positions_of(kinds@, kind),
{
    let mut r: Vec<u32> = Vec::new();
    let mut i: usize = 0;
    while i < kinds.len()
        invariant
            i <= kinds.len() <= u32::MAX,
            r@ == positions_of(kinds@.take(i as int), kind),
        decreases kinds.len() - i,
    {
        assert(kinds@.take(i as int + 1).drop_last() == kinds@.take(i as int));
        assert(kinds@.take(i as int + 1).last() == kinds@[i as int]);
        if kinds[i] == kind {
            r.push(i as u32);
        }
        i += 1;
    }
    assert(kinds@.take(kinds.len() as int) == kinds@);
    r
}

/// Black-and-silence correlation runs only where both black frames and silences were
/// detected.
pub fn black_and_silence_applies(black_requested: bool, silence_requested: bool) -> (r: bool)
    ensures
        r == (black_requested && silence_requested),
{
    black_requested && silence_requested
}

} // verus!
