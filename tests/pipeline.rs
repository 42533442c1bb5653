use stainless_ffmpeg::encoding::{rescale, SampleFifo};
use stainless_ffmpeg::probe::{black_and_silence_applies, stream_indexes, MediaKind, StreamProbeResult};
use stainless_ffmpeg::graphs::{dualmono_graph, loudness_graph, silence_graph, sine_graph, CheckGraph, PairingMissing};
use stainless_ffmpeg::names::{decimal_string, numbered};
use stainless_ffmpeg::crop::{black_limit, detect_black_borders, spot_check_interval, CropObservation, CropResult, Edges, PictureShape};
use stainless_ffmpeg::execution::{finished, ArityMismatch, GraphArity, ReadEvent, Tick, TickAction};
use stainless_ffmpeg::loudness::{LoudnessObservation, LoudnessResult, MinMax};
use stainless_ffmpeg::ocr::{detect_ocr, format_confidence, is_offline_text, last_frame, OcrObservation};
use stainless_ffmpeg::order::{
  find_label, plan_graph, Endpoint, Filter, FilterInput, FilterOutput, InputKind, Link, Order,
  SetupError,
};
use stainless_ffmpeg::rational::Rational;
use stainless_ffmpeg::tracks::{channel_range, is_stereo_unit, merged_channels, qualifying_tracks, Track};

fn chars(s: &str) -> Vec<char> {
  s.chars().collect()
}

fn filter(name: &str, inputs: Option<Vec<FilterInput>>, outputs: Option<Vec<&str>>) -> Filter {
  Filter {
    name: name.to_string(),
    label: None,
    inputs,
    outputs: outputs.map(|o| {
      o.into_iter()
        .map(|l| FilterOutput { stream_label: l.to_string() })
        .collect()
    }),
  }
}

fn stream_input(label: &str) -> FilterInput {
  FilterInput { kind: InputKind::Stream, stream_label: label.to_string() }
}

#[test]
fn rational() {
  let r = Rational::new(2, 4);

  let f = r.num as f32 / r.den as f32;
  assert_eq!(f, 0.5);

  let r = r.invert();
  assert!(r.num == 4);
  assert!(r.den == 2);

  let r = r.reduce();
  assert!(r.num == 2);
  assert!(r.den == 1);
}

#[test]
fn rational_reduce_keeps_signs() {
  let r = Rational::new(-6, 4).reduce();
  assert_eq!((r.num, r.den), (-3, 2));
  let r = Rational::new(0, 5).reduce();
  assert_eq!((r.num, r.den), (0, 1));
}

#[test]
fn unresolved_stream_input_fails_setup() {
  let graph = vec![filter("silencedetect", Some(vec![stream_input("nonexistent")]), None)];
  let mut order = Order::new(graph);
  let sources = vec!["audio_input_1".to_string()];
  let sinks = vec!["audio_output_1".to_string()];
  let r = order.setup(&sources, &sinks);
  assert_eq!(r, Err(SetupError::UnresolvedInput("nonexistent".to_string())));
  assert!(order.links.is_empty());
}

#[test]
fn unknown_output_label_fails_setup() {
  let graph = vec![filter("aformat", Some(vec![stream_input("a")]), Some(vec!["nowhere"]))];
  let r = plan_graph(&graph, &vec!["a".to_string()], &vec!["out".to_string()]);
  assert_eq!(r, Err(SetupError::UnknownLabel("nowhere".to_string())));
}

#[test]
fn graph_wiring_chains_unlabelled_filters() {
  let graph = vec![
    filter("silencedetect", Some(vec![stream_input("in1")]), None),
    filter("aformat", None, Some(vec!["out1"])),
  ];
  let sources = vec!["in0".to_string(), "in1".to_string()];
  let sinks = vec!["out1".to_string()];
  let mut order = Order::new(graph);
  assert_eq!(order.setup(&sources, &sinks), Ok(()));
  assert_eq!(
    order.links,
    vec![
      Link { from: Endpoint::Source(1), from_pad: 0, to: Endpoint::Node(0), to_pad: 0 },
      Link { from: Endpoint::Node(0), from_pad: 0, to: Endpoint::Node(1), to_pad: 0 },
      Link { from: Endpoint::Node(1), from_pad: 0, to: Endpoint::Sink(0), to_pad: 0 },
    ]
  );
}

#[test]
fn first_unlabelled_filter_reads_default_source() {
  let graph = vec![filter("idet", None, None)];
  assert_eq!(
    plan_graph(&graph, &vec!["x".to_string(), "".to_string()], &vec![]),
    Ok(vec![Link { from: Endpoint::Source(1), from_pad: 0, to: Endpoint::Node(0), to_pad: 0 }])
  );
  assert_eq!(
    plan_graph(&graph, &vec!["x".to_string()], &vec![]),
    Err(SetupError::UnresolvedInput(String::new()))
  );
}

#[test]
fn filter_kind_inputs_are_not_wired_to_sources() {
  let graph = vec![filter(
    "amerge",
    Some(vec![
      FilterInput { kind: InputKind::Filter, stream_label: "other".to_string() },
      stream_input("a2"),
    ]),
    None,
  )];
  assert_eq!(
    plan_graph(&graph, &vec!["a1".to_string(), "a2".to_string()], &vec![]),
    Ok(vec![Link { from: Endpoint::Source(1), from_pad: 0, to: Endpoint::Node(0), to_pad: 1 }])
  );
}

#[test]
fn labels_are_found_first_match() {
  let labels = vec!["a".to_string(), "b".to_string(), "b".to_string()];
  assert_eq!(find_label(&labels, &"b".to_string()), Some(1));
  assert_eq!(find_label(&labels, &"c".to_string()), None);
}

#[test]
fn frame_set_arity_is_checked() {
  let arity = GraphArity { audio_inputs: 2, video_inputs: 1 };
  assert_eq!(arity.check_frames(2, 1), Ok(()));
  assert_eq!(arity.check_frames(1, 1), Err(ArityMismatch { expected: 2, given: 1 }));
  assert_eq!(arity.check_frames(2, 0), Err(ArityMismatch { expected: 1, given: 0 }));
  assert!(arity.ready(2, 1));
  assert!(!arity.ready(2, 0));
  assert!(!GraphArity { audio_inputs: 0, video_inputs: 0 }.ready(0, 0));
  assert!(finished(3, 3));
  assert!(!finished(2, 3));
}

#[test]
fn crop_records_only_transitions() {
  let shape = PictureShape { width: 1920, height: 1080, pixel_num: 1, pixel_den: 1 };
  let full = CropObservation {
    columns: Some(Edges { first: 0, last: 1919 }),
    rows: Some(Edges { first: 0, last: 1079 }),
    pts: Some(0),
  };
  let boxed = CropObservation {
    columns: Some(Edges { first: 0, last: 1919 }),
    rows: Some(Edges { first: 140, last: 939 }),
    pts: Some(40),
  };
  let boxed_later = CropObservation { pts: Some(80), ..boxed };
  let back = CropObservation { pts: Some(120), ..full };
  let found = detect_black_borders(&vec![full, boxed, boxed_later, back], &shape);
  assert_eq!(
    found,
    vec![
      CropResult { pts: 40, width: 1920, height: 800, aspect_num: 1920, aspect_den: 800 },
      CropResult { pts: 120, width: 1920, height: 1080, aspect_num: 1920, aspect_den: 1080 },
    ]
  );
}

fn ocr_frame(cut: Option<u64>, text: Option<&str>, conf: Option<&str>) -> OcrObservation {
  OcrObservation { cut_frame: cut, text: text.map(chars), confidence: conf.map(chars) }
}

#[test]
fn confidences_become_percent_tokens() {
  assert_eq!(format_confidence(&chars("95 87 ")), chars("95%,87%"));
  assert_eq!(format_confidence(&chars("95 87")), chars("95%,87%"));
  assert_eq!(format_confidence(&chars(" 95   87\t")), chars("95%,87%"));
  assert_eq!(format_confidence(&chars("")), chars(""));
}

#[test]
fn offline_card_is_anchored_at_cuts() {
  assert!(is_offline_text(&chars("MEDIA OFFLINE clip")));
  assert!(is_offline_text(&chars("OFFLINE")));
  assert!(!is_offline_text(&chars("ONLINE")));
  let obs = vec![
    ocr_frame(None, Some("hello"), Some("90 ")),
    ocr_frame(None, Some("MEDIA OFFLINE"), Some("95 87 ")),
    ocr_frame(Some(100), Some("MEDIA OFFLINE"), Some("96 88")),
    ocr_frame(Some(150), Some("MEDIA OFFLINE"), Some("96 88")),
    ocr_frame(None, None, None),
    ocr_frame(Some(250), None, None),
    ocr_frame(None, Some("OFFLINE"), Some("70")),
  ];
  let found = detect_ocr(&obs, 999);
  assert_eq!(found.len(), 1);
  assert_eq!(found[0].frame_start, 100);
  assert_eq!(found[0].frame_end, 249);
  assert_eq!(found[0].text, chars("MEDIA OFFLINE"));
  assert_eq!(found[0].word_confidence, chars("95%,87%"));

  let obs = vec![ocr_frame(Some(10), Some("OFFLINE"), Some("80")), ocr_frame(Some(20), Some("OFFLINE"), Some("80"))];
  let found = detect_ocr(&obs, 999);
  assert_eq!(found.len(), 1);
  assert_eq!((found[0].frame_start, found[0].frame_end), (10, 999));
}

#[test]
fn pairing_groups_give_channels() {
  let pairs = vec![vec![Track::new(1, 2)], vec![Track::new(2, 1), Track::new(3, 1)]];
  assert_eq!(Track::get_channels_number(&pairs, 1), 2);
  assert_eq!(Track::get_channels_number(&pairs, 3), 1);
  assert_eq!(Track::get_channels_number(&pairs, 9), 0);
  assert_eq!(channel_range(&pairs, 1), (0, 2));
  assert_eq!(channel_range(&pairs, 3), (1, 2));
  assert_eq!(channel_range(&pairs, 9), (0, 0));
  assert!(is_stereo_unit(&pairs[0]));
  assert!(is_stereo_unit(&pairs[1]));
  assert!(!is_stereo_unit(&vec![Track::new(4, 6)]));
}

#[test]
fn loudness_windows_settle_before_counting() {
  let mut l = LoudnessResult::new();
  let early = LoudnessObservation {
    pts: Some(4800),
    integrated: Some(-7000),
    range: Some(120),
    momentary: Some(-2300),
    short_term: Some(-2400),
    true_peaks: vec![-100, -120],
  };
  l.observe(early, 48000);
  assert_eq!(l.integrated, -9900);
  assert_eq!(l.range, 120);
  assert_eq!(l.momentary, MinMax { min: 9990, max: -9990 });
  let later = LoudnessObservation {
    pts: Some(144000),
    integrated: Some(-2310),
    range: None,
    momentary: Some(-2200),
    short_term: Some(-2400),
    true_peaks: vec![-90],
  };
  l.observe(later, 48000);
  assert_eq!(l.integrated, -2310);
  assert_eq!(l.range, 120);
  assert_eq!(l.momentary, MinMax { min: -2200, max: -2200 });
  assert_eq!(l.short_term, MinMax { min: -2400, max: -2400 });
  assert_eq!(l.true_peaks, vec![-90]);
}

#[test]
fn qualifying_tracks_count_stereo_units() {
  let pairs = vec![
    vec![Track::new(1, 2)],
    vec![Track::new(2, 1), Track::new(3, 1)],
    vec![Track::new(4, 6)],
    vec![Track::new(5, 1), Track::new(6, 2)],
  ];
  assert_eq!(qualifying_tracks(&pairs), 4);
  assert_eq!(qualifying_tracks(&vec![]), 0);
}

#[test]
fn sample_fifo_reframes_with_running_pts() {
  let mut fifo = SampleFifo::new(4);
  fifo.push(&vec![1, 2, 3]);
  fifo.push(&vec![4, 5, 6]);
  let a = fifo.pop_frame().unwrap();
  assert_eq!((a.samples, a.pts), (vec![1, 2, 3, 4], 0));
  let b = fifo.pop_frame().unwrap();
  assert_eq!((b.samples, b.pts), (vec![5, 6], 4));
  assert!(fifo.pop_frame().is_none());
  assert_eq!(fifo.next_pts, 6);

  let mut any = SampleFifo::new(0);
  any.push(&vec![7, 8, 9]);
  let c = any.pop_frame().unwrap();
  assert_eq!((c.samples, c.pts), (vec![7, 8, 9], 0));
}

#[test]
fn timestamps_are_rescaled_to_nearest() {
  assert_eq!(rescale(3, Rational::new(1, 25), Rational::new(1, 1000)), 120);
  assert_eq!(rescale(1024, Rational::new(1, 48000), Rational::new(1, 90000)), 1920);
  assert_eq!(rescale(1, Rational::new(1, 3), Rational::new(1, 2)), 1);
  assert_eq!(rescale(-1, Rational::new(1, 4), Rational::new(1, 2)), -1);
}

#[test]
fn packets_are_counted_per_stream() {
  let mut s = StreamProbeResult::new(3);
  s.record_packet(500);
  s.record_packet(120);
  s.record_packet(900);
  assert_eq!(s.stream_index, 3);
  assert_eq!(s.count_packets, 3);
  assert_eq!(s.min_packet_size, 120);
  assert_eq!(s.max_packet_size, 900);
  assert!(s.detected_silence.is_none());
}

#[test]
fn crop_parameters_follow_bit_depth_and_spot_checks() {
  assert_eq!(black_limit(Some(8)), 16);
  assert_eq!(black_limit(Some(10)), 64);
  assert_eq!(black_limit(Some(12)), 256);
  assert_eq!(black_limit(None), 16);
  assert_eq!(spot_check_interval(20000, 100), Some(199));
  assert_eq!(spot_check_interval(20000, 0), None);
}

#[test]
fn merged_group_channels() {
  assert_eq!(merged_channels(&vec![Track::new(1, 6)]), 6);
  assert_eq!(merged_channels(&vec![Track::new(1, 1), Track::new(2, 1)]), 2);
}

#[test]
fn last_frame_from_count_or_entries() {
  assert_eq!(last_frame(Some(250), 10), 249);
  assert_eq!(last_frame(None, 10), 9);
  assert_eq!(last_frame(Some(0), 10), 0);
  assert_eq!(last_frame(None, 0), 0);
}

#[test]
fn ticks_decide_stop_process_or_skip() {
  let arity = GraphArity { audio_inputs: 1, video_inputs: 1 };
  let mut t = Tick::new();
  t.record(ReadEvent::AudioFrame);
  t.record(ReadEvent::SubtitlePacket);
  assert_eq!(t.decide(&arity, 2), TickAction::Skip);
  t.record(ReadEvent::VideoFrame);
  assert_eq!(t.decide(&arity, 2), TickAction::Process);
  assert_eq!(t.subtitle_packets, 1);

  let mut done = Tick::new();
  done.record(ReadEvent::Exhausted);
  done.record(ReadEvent::Nothing);
  assert_eq!(done.decide(&arity, 2), TickAction::Skip);
  done.record(ReadEvent::Exhausted);
  assert_eq!(done.decide(&arity, 2), TickAction::Stop);
}

fn strings(v: &[&str]) -> Vec<String> {
  v.iter().map(|s| s.to_string()).collect()
}

fn wiring(g: &CheckGraph) -> Vec<Filter> {
  g.nodes
    .iter()
    .map(|n| Filter {
      name: n.name.clone(),
      label: Some(n.label.clone()),
      inputs: n.inputs.as_ref().map(|v| v.iter().map(|l| stream_input(l)).collect()),
      outputs: n
        .outputs
        .as_ref()
        .map(|v| v.iter().map(|l| FilterOutput { stream_label: l.clone() }).collect()),
    })
    .collect()
}

#[test]
fn labels_are_written_in_decimal() {
  assert_eq!(decimal_string(0), "0");
  assert_eq!(decimal_string(1234), "1234");
  assert_eq!(numbered("audio_input_", 17), "audio_input_17");
}

#[test]
fn silence_graph_chains_detection_and_format() {
  let g = silence_graph(&vec![3]);
  let names: Vec<&str> = g.nodes.iter().map(|n| n.name.as_str()).collect();
  let labels: Vec<&str> = g.nodes.iter().map(|n| n.label.as_str()).collect();
  assert_eq!(names, vec!["silencedetect", "aformat"]);
  assert_eq!(labels, vec!["silencedetect_filter3", "aformat_filter3"]);
  assert_eq!(g.nodes[0].inputs, Some(strings(&["audio_input_3"])));
  assert_eq!(g.nodes[1].outputs, Some(strings(&["audio_output_3"])));
  assert_eq!(g.sources.len(), 1);
  assert_eq!((g.sources[0].index, g.sources[0].label.as_str()), (3, "audio_input_3"));
  assert_eq!(g.sinks[0].label, "audio_output_3");
  assert_eq!(g.sinks[0].keys, strings(&["lavfi.silence_start", "lavfi.silence_end", "lavfi.silence_duration"]));
  let sources: Vec<String> = g.sources.iter().map(|s| s.label.clone()).collect();
  let sinks: Vec<String> = g.sinks.iter().map(|s| s.label.clone()).collect();
  assert_eq!(plan_graph(&wiring(&g), &sources, &sinks).map(|l| l.len()), Ok(3));
}

#[test]
fn sine_graph_needs_a_pairing_list() {
  assert!(matches!(sine_graph(&vec![1], &None), Err(PairingMissing)));
  let pairs = Some(vec![vec![Track::new(1, 2)]]);
  let g = sine_graph(&vec![1], &pairs).unwrap();
  assert_eq!(
    g.sinks[0].keys,
    strings(&[
      "lavfi.astats.1.Crest_factor",
      "lavfi.astats.1.Zero_crossings",
      "lavfi.astats.2.Crest_factor",
      "lavfi.astats.2.Zero_crossings",
    ])
  );
}

#[test]
fn loudness_graph_merges_each_group() {
  assert!(matches!(loudness_graph(&None), Err(PairingMissing)));
  let pairs = Some(vec![vec![Track::new(1, 1), Track::new(2, 1)]]);
  let g = loudness_graph(&pairs).unwrap();
  let names: Vec<&str> = g.nodes.iter().map(|n| n.name.as_str()).collect();
  assert_eq!(names, vec!["amerge", "ebur128", "aformat"]);
  assert_eq!(g.nodes[0].label, "amerge_filter0");
  assert_eq!(g.nodes[0].inputs, Some(strings(&["audio_input_1", "audio_input_2"])));
  assert_eq!(g.nodes[2].outputs, Some(strings(&["audio_output_0"])));
  assert_eq!(
    g.sinks[0].keys,
    strings(&[
      "lavfi.r128.I",
      "lavfi.r128.LRA",
      "lavfi.r128.S",
      "lavfi.r128.M",
      "lavfi.r128.true_peaks_ch0",
      "lavfi.r128.true_peaks_ch1",
    ])
  );
  let sources: Vec<String> = g.sources.iter().map(|s| s.label.clone()).collect();
  let sinks: Vec<String> = g.sinks.iter().map(|s| s.label.clone()).collect();
  assert_eq!(plan_graph(&wiring(&g), &sources, &sinks).map(|l| l.len()), Ok(5));
  let d = dualmono_graph(&pairs).unwrap();
  assert_eq!(d.nodes[1].name, "aphasemeter");
  assert_eq!(d.sinks[0].keys.len(), 3);
}

#[test]
fn stream_kinds_give_index_lists() {
  let kinds = vec![MediaKind::Video, MediaKind::Audio, MediaKind::Subtitle, MediaKind::Audio];
  assert_eq!(stream_indexes(&kinds, MediaKind::Audio), vec![1, 3]);
  assert_eq!(stream_indexes(&kinds, MediaKind::Video), vec![0]);
  assert!(black_and_silence_applies(true, true));
  assert!(!black_and_silence_applies(true, false));
}
