use stainless_ffmpeg::correlate::detect_black_and_silence;
use stainless_ffmpeg::interval::{DurationBounds, Interval};
use stainless_ffmpeg::pairing::{
  detect_blackfade, detect_dualmono, detect_paired, detect_silence, is_silent_stream, select_stream,
  StreamEvent, TagEvent,
};
use stainless_ffmpeg::scene::{detect_scene, FalseSceneResult, SceneCut, SceneResult};
use stainless_ffmpeg::timing::{clip_end, FramePeriod};
use stainless_ffmpeg::tone::{detect_sine, SineResult, ToneObservation};
use stainless_ffmpeg::tracks::Track;

fn iv(start: i64, end: i64) -> Interval {
  Interval { start, end }
}

fn bounds(min: Option<u64>, max: Option<u64>) -> DurationBounds {
  DurationBounds { min, max }
}

#[test]
fn silence_over_whole_stream_is_silent() {
  let events = vec![TagEvent::Start(0)];
  let found = detect_silence(&events, 9960, 40, DurationBounds::unbounded());
  assert_eq!(found.intervals, vec![iv(0, 9960)]);
  assert!(found.silent_stream);
}

#[test]
fn silence_closed_at_stream_end_is_silent() {
  let events = vec![TagEvent::Start(0), TagEvent::End(10000)];
  let found = detect_silence(&events, 9960, 40, DurationBounds::unbounded());
  assert_eq!(found.intervals, vec![iv(0, 9960)]);
  assert!(found.silent_stream);
}

#[test]
fn partial_silence_is_not_silent_stream() {
  let events = vec![TagEvent::Start(0), TagEvent::End(5040)];
  let found = detect_silence(&events, 9960, 40, DurationBounds::unbounded());
  assert_eq!(found.intervals, vec![iv(0, 5000)]);
  assert!(!found.silent_stream);
  assert!(!is_silent_stream(&vec![], 9960));
}

#[test]
fn pairing_closes_one_frame_before_end_tag() {
  let events = vec![
    TagEvent::Start(1000),
    TagEvent::End(2040),
    TagEvent::Start(3000),
    TagEvent::End(3540),
  ];
  let found = detect_paired(&events, 9960, 40, DurationBounds::unbounded());
  assert_eq!(found, vec![iv(1000, 2000), iv(3000, 3500)]);
}

#[test]
fn pairing_applies_duration_bounds() {
  let events = vec![
    TagEvent::Start(1000),
    TagEvent::End(2040),
    TagEvent::Start(3000),
    TagEvent::End(3540),
    TagEvent::Start(9000),
  ];
  let found = detect_paired(&events, 9960, 40, bounds(Some(600), Some(900)));
  assert!(found.is_empty());
  let found = detect_paired(&events, 9960, 40, bounds(Some(500), Some(1000)));
  assert_eq!(found, vec![iv(1000, 2000), iv(3000, 3500), iv(9000, 9960)]);
  let found = detect_paired(&events, 9960, 40, bounds(Some(900), None));
  assert_eq!(found, vec![iv(1000, 2000), iv(9000, 9960)]);
}

#[test]
fn pairing_drops_reversed_interval() {
  let events = vec![TagEvent::Start(1000), TagEvent::End(1010)];
  let found = detect_paired(&events, 9960, 40, DurationBounds::unbounded());
  assert!(found.is_empty());
}

#[test]
fn pairing_opens_an_interval_on_every_start() {
  let events = vec![
    TagEvent::End(500),
    TagEvent::Start(1000),
    TagEvent::Start(1200),
    TagEvent::End(2040),
  ];
  let found = detect_paired(&events, 9960, 40, DurationBounds::unbounded());
  assert_eq!(found, vec![iv(1000, 9960), iv(1200, 2000)]);
  let found = detect_paired(&events, 9960, 40, bounds(None, Some(1000)));
  assert_eq!(found, vec![iv(1200, 2000)]);
}

#[test]
fn silent_stream_flag_ignores_duration_bounds() {
  let events = vec![TagEvent::Start(0)];
  let found = detect_silence(&events, 1000, 40, bounds(None, Some(500)));
  assert!(found.intervals.is_empty());
  assert!(found.silent_stream);
  let found = detect_silence(&events, 1000, 40, bounds(Some(2000), None));
  assert!(found.intervals.is_empty());
  assert!(found.silent_stream);
}

#[test]
fn extreme_times_are_held_in_range() {
  let events = vec![TagEvent::Start(i64::MIN), TagEvent::End(i64::MIN + 10)];
  let found = detect_paired(&events, 0, 40, DurationBounds::unbounded());
  assert_eq!(found, vec![iv(i64::MIN, i64::MIN)]);
  let blacks = vec![iv(0, i64::MAX)];
  let silences = vec![iv(10, i64::MAX)];
  let found = detect_black_and_silence(&blacks, &silences, 40, DurationBounds::unbounded());
  assert_eq!(found, vec![iv(10, i64::MAX)]);
}

#[test]
fn stream_events_are_selected_in_order() {
  let events = vec![
    StreamEvent { stream: 1, event: TagEvent::Start(10) },
    StreamEvent { stream: 2, event: TagEvent::Start(20) },
    StreamEvent { stream: 1, event: TagEvent::End(30) },
  ];
  assert_eq!(select_stream(&events, 1), vec![TagEvent::Start(10), TagEvent::End(30)]);
  assert_eq!(select_stream(&events, 2), vec![TagEvent::Start(20)]);
  assert!(select_stream(&events, 3).is_empty());
}

#[test]
fn blackfade_needs_a_black_edge_inside() {
  let events = vec![
    TagEvent::Start(1000),
    TagEvent::End(3040),
    TagEvent::Start(5000),
    TagEvent::End(6040),
  ];
  let blacks = vec![iv(1500, 2500)];
  let found = detect_blackfade(&events, 9960, 40, DurationBounds::unbounded(), &blacks);
  assert_eq!(found, vec![iv(1000, 3000)]);
}

#[test]
fn dualmono_needs_a_stereo_unit() {
  let events = vec![TagEvent::Start(0), TagEvent::End(1040)];
  let stereo = vec![Track::new(1, 2)];
  let pair = vec![Track::new(1, 1), Track::new(2, 1)];
  let odd = vec![Track::new(1, 1)];
  assert_eq!(
    detect_dualmono(&stereo, &events, 9960, 40, DurationBounds::unbounded()),
    vec![iv(0, 1000)]
  );
  assert_eq!(
    detect_dualmono(&pair, &events, 9960, 40, DurationBounds::unbounded()),
    vec![iv(0, 1000)]
  );
  assert!(detect_dualmono(&odd, &events, 9960, 40, DurationBounds::unbounded()).is_empty());
}

#[test]
fn black_and_silence_overlap_is_extended_by_one_frame() {
  let blacks = vec![iv(1000, 3000)];
  let silences = vec![iv(500, 2000)];
  let found = detect_black_and_silence(&blacks, &silences, 40, DurationBounds::unbounded());
  assert_eq!(found, vec![iv(1000, 2040)]);
}

#[test]
fn black_and_silence_below_minimum_is_discarded() {
  let blacks = vec![iv(1000, 3000)];
  let silences = vec![iv(500, 2000)];
  let found = detect_black_and_silence(&blacks, &silences, 40, bounds(Some(2100), None));
  assert!(found.is_empty());
}

#[test]
fn black_and_silence_without_overlap_is_empty() {
  let blacks = vec![iv(1000, 2000), iv(5000, 6000)];
  let silences = vec![iv(2000, 3000), iv(5500, 7000)];
  let found = detect_black_and_silence(&blacks, &silences, 40, DurationBounds::unbounded());
  assert_eq!(found, vec![iv(5500, 6040)]);
}

#[test]
fn emitted_intervals_respect_bounds() {
  let blacks = vec![iv(0, 400), iv(1000, 3000), iv(4000, 9000)];
  let silences = vec![iv(100, 200), iv(1500, 4500), iv(8000, 8100)];
  let b = bounds(Some(100), Some(1000));
  for found in [
    detect_black_and_silence(&blacks, &silences, 40, b),
    detect_paired(
      &vec![TagEvent::Start(0), TagEvent::End(90), TagEvent::Start(200), TagEvent::End(700)],
      9960,
      40,
      b,
    ),
  ] {
    for i in &found {
      assert!(i.start <= i.end);
      assert!(100 <= i.end - i.start && i.end - i.start <= 1000);
    }
  }
}

#[test]
fn scene_cut_within_one_frame_is_false_positive() {
  // 10.00 s and 10.03 s at 25 frames per second.
  let cuts = vec![
    SceneCut { frame_start: (10.00f64 * 25.0) as i64, score: 30 },
    SceneCut { frame_start: (10.03f64 * 25.0) as i64, score: 12 },
  ];
  let timeline = detect_scene(&cuts, 1000);
  assert_eq!(
    timeline.scenes,
    vec![
      SceneResult { frame_start: 0, frame_end: 249, frames_length: 250, score: 100, index: 0 },
      SceneResult { frame_start: 250, frame_end: 249, frames_length: 0, score: 30, index: 1 },
      SceneResult { frame_start: 250, frame_end: 1000, frames_length: 751, score: 12, index: 2 },
    ]
  );
  assert_eq!(timeline.false_scenes, vec![FalseSceneResult { frame_index: 250 }]);
}

#[test]
fn first_cut_is_compared_with_no_earlier_cut() {
  let cuts = vec![SceneCut { frame_start: 1, score: 40 }, SceneCut { frame_start: 50, score: 20 }];
  let timeline = detect_scene(&cuts, 100);
  assert_eq!(timeline.scenes.len(), 3);
  assert!(timeline.false_scenes.is_empty());
}

#[test]
fn scene_without_cuts_is_one_segment() {
  let timeline = detect_scene(&vec![], 1000);
  assert_eq!(
    timeline.scenes,
    vec![SceneResult { frame_start: 0, frame_end: 0, frames_length: 0, score: 100, index: 0 }]
  );
  assert!(timeline.false_scenes.is_empty());
}

fn tone(crest: i64, zc: u64) -> ToneObservation {
  ToneObservation { crest_micro: Some(crest), zero_crossings: Some(zc) }
}

#[test]
fn tone_until_stream_end_is_accepted() {
  let period = FramePeriod::new(1, 10);
  let obs = vec![tone(1_414_200, 200), tone(1_414_200, 200), tone(1_414_200, 200)];
  let found = detect_sine(&obs, &period, 200, 1, DurationBounds::unbounded());
  assert_eq!(found, vec![SineResult { channel: 1, start: 0, end: 200 }]);
}

#[test]
fn tone_with_wrong_crossing_rate_is_discarded() {
  let period = FramePeriod::new(1, 10);
  let obs = vec![tone(1_414_200, 180), tone(1_414_200, 180), tone(1_414_200, 180)];
  let found = detect_sine(&obs, &period, 200, 1, DurationBounds::unbounded());
  assert!(found.is_empty());
}

#[test]
fn tone_closed_when_crest_leaves_band() {
  let period = FramePeriod::new(1, 10);
  let obs = vec![
    tone(900_000, 7),
    tone(1_414_200, 200),
    tone(1_414_200, 200),
    tone(1_000_000, 37),
    tone(1_000_000, 0),
  ];
  let found = detect_sine(&obs, &period, 400, 2, DurationBounds::unbounded());
  assert_eq!(found, vec![SineResult { channel: 2, start: 100, end: 200 }]);
  let found = detect_sine(&obs, &period, 400, 2, bounds(Some(200), None));
  assert!(found.is_empty());
}

#[test]
fn frame_times_are_rounded() {
  let period = FramePeriod::new(1024, 48000);
  assert_eq!(period.frame_ms(), 21);
  assert_eq!(period.frame_time(2), 43);
  assert_eq!(period.frame_time(3), 64);
}

#[test]
fn clip_end_from_duration_or_entries() {
  let period = FramePeriod::new(1, 25);
  assert_eq!(clip_end(Some(10000), &period, 0, 1), 9960);
  assert_eq!(clip_end(None, &period, 500, 2), 9960);
  assert_eq!(clip_end(None, &FramePeriod::new(1024, 48000), 4, 1), 64);
}

#[test]
fn closing_frame_crossings_do_not_count() {
  // Frames of 40 ms; three in-band frames with 80 crossings each cover 120 ms.
  let period = FramePeriod::new(1, 25);
  let band = vec![tone(1_414_200, 80), tone(1_414_200, 80), tone(1_414_200, 80)];
  let found = detect_sine(&band, &period, 80, 1, DurationBounds::unbounded());
  assert_eq!(found, vec![SineResult { channel: 1, start: 0, end: 80 }]);
  let mut closed = band.clone();
  closed.push(tone(1_000_000, 50));
  let found = detect_sine(&closed, &period, 120, 1, DurationBounds::unbounded());
  assert_eq!(found, vec![SineResult { channel: 1, start: 0, end: 80 }]);
}
