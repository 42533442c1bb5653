use vstd::prelude::*;
use crate::correlate::{joint_all, lemma_all_retained};
use crate::interval::{all_retained, DurationBounds, Interval};
use crate::pairing::{fades_of, lemma_fades_subseq, lemma_paired_retained, paired_intervals, TagEvent};
use crate::scene::{scene_run, SceneCut};
use crate::crop::{crop_run, CropObservation, PictureShape};
use crate::timing::FramePeriod;
use crate::tone::{tone_run, tones, tones_retained, ToneObservation};

verus! {

proof fn lemma_tone_run_retained(obs: Seq<ToneObservation>, p: FramePeriod, channel: u8, b: DurationBounds)
    ensures
        tones_retained(tone_run(obs, p, channel, b).3, b),
    decreases obs.len(),
{
    if obs.len() > 0 {
        lemma_tone_run_retained(obs.drop_last(), p, channel, b);
    }
}

/// Every interval that a detector emits is well-ordered (`start <= end`), and its length
/// `end - start` lies within the configured minimum and maximum: for paired start/end
/// tags (silence, black, dual mono), for fades, for black-and-silence overlaps and for
/// tones.
pub proof fn lemma_emitted_intervals_retained(
    events: Seq<TagEvent>,
    clip_end: i64,
    frame_ms: i64,
    bounds: DurationBounds,
    blacks: Seq<Interval>,
    silences: Seq<Interval>,
    obs: Seq<ToneObservation>,
    period: FramePeriod,
    channel: u8,
)
    ensures
        all_retained(paired_intervals(events, clip_end, frame_ms, bounds), bounds),
        all_retained(fades_of(paired_intervals(events, clip_end, frame_ms, bounds), blacks), bounds),
        all_retained(joint_all(blacks, silences, frame_ms, bounds), bounds),
        tones_retained(tones(obs, period, clip_end, channel, bounds), bounds),
{
    lemma_paired_retained(events, clip_end, frame_ms, bounds);
    lemma_fades_subseq(paired_intervals(events, clip_end, frame_ms, bounds), blacks, bounds);
    lemma_all_retained(blacks, silences, frame_ms, bounds);
    lemma_tone_run_retained(obs, period, channel, bounds);
}

/// Detection results depend on the analysis entries and the parameters alone: two runs
/// over the same entries with the same parameters give the same intervals, fades,
/// overlaps, scene timeline, crop timeline and tones.
pub proof fn lemma_detection_deterministic(
    events1: Seq<TagEvent>,
    events2: Seq<TagEvent>,
    clip_end: i64,
    frame_ms: i64,
    bounds: DurationBounds,
    blacks1: Seq<Interval>,
    blacks2: Seq<Interval>,
    silences1: Seq<Interval>,
    silences2: Seq<Interval>,
    cuts1: Seq<SceneCut>,
    cuts2: Seq<SceneCut>,
    total_frames: i64,
    crops1: Seq<CropObservation>,
    crops2: Seq<CropObservation>,
    shape: PictureShape,
    obs1: Seq<ToneObservation>,
    obs2: Seq<ToneObservation>,
    period: FramePeriod,
    channel: u8,
)
    requires
        events1 == events2,
        blacks1 == blacks2,
        silences1 == silences2,
        cuts1 == cuts2,
        crops1 == crops2,
        obs1 == obs2,
    ensures
        paired_intervals(events1, clip_end, frame_ms, bounds) == paired_intervals(events2, clip_end, frame_ms, bounds),
        fades_of(paired_intervals(events1, clip_end, frame_ms, bounds), blacks1)
            == fades_of(paired_intervals(events2, clip_end, frame_ms, bounds), blacks2),
        joint_all(blacks1, silences1, frame_ms, bounds) == joint_all(blacks2, silences2, frame_ms, bounds),
        scene_run(cuts1, total_frames) == scene_run(cuts2, total_frames),
        crop_run(crops1, shape) == crop_run(crops2, shape),
        tones(obs1, period, clip_end, channel, bounds) == tones(obs2, period, clip_end, channel, bounds),
{
}

} // verus!
