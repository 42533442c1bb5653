use vstd::prelude::*;
use vstd::string::StringExecFns;
use crate::names::{decimal, labelled, numbered, numbered_with};
use crate::tracks::{channels_of, Track};

verus! {

/// A node option value that is not a floating-point number.
#[derive(Debug)]
pub enum PlainParam {
    Bool(bool),
    Int64(i64),
    Text(String),
}

/// A node option value as plain values.
pub enum ParamValue {
    Bool(bool),
    Int64(i64),
    Text(Seq<char>),
}

impl View for PlainParam {
    type V = ParamValue;

    open spec fn view(&self) -> ParamValue {
        match self {
            PlainParam::Bool(b) => ParamValue::Bool(*b),
            PlainParam::Int64(i) => ParamValue::Int64(*i),
            PlainParam::Text(s) => ParamValue::Text(s@),
        }
    }
}

/// One option of a node.
#[derive(Debug)]
pub struct Param {
    pub key: String,
    pub value: PlainParam,
}

pub struct ParamView {
    pub key: Seq<char>,
    pub value: ParamValue,
}

impl View for Param {
    type V = ParamView;

    open spec fn view(&self) -> ParamView {
        ParamView { key: self.key@, value: self.value@ }
    }
}

/// One node of a check's graph: its kind, its label, its options, the sources it reads
/// (none: the previous node) and the sinks it feeds.
#[derive(Debug)]
pub struct NodeSpec {
    pub name: String,
    pub label: String,
    pub params: Vec<Param>,
    pub inputs: Option<Vec<String>>,
    pub outputs: Option<Vec<String>>,
}

pub struct NodeView {
    pub name: Seq<char>,
    pub label: Seq<char>,
    pub params: Seq<ParamView>,
    pub inputs: Option<Seq<Seq<char>>>,
    pub outputs: Option<Seq<Seq<char>>>,
}

pub open spec fn strs(v: Seq<String>) -> Seq<Seq<char>> {
    v.map_values(|s: String| s@)
}

pub open spec fn params_view(v: Seq<Param>) -> Seq<ParamView> {
    v.map_values(|p: Param| p@)
}

impl View for NodeSpec {
    type V = NodeView;

    open spec fn view(&self) -> NodeView {
        NodeView {
            name: self.name@,
            label: self.label@,
            params: params_view(self.params@),
            inputs: match self.inputs {
                Some(v) => Some(strs(v@)),
                None => None,
            },
            outputs: match self.outputs {
                Some(v) => Some(strs(v@)),
                None => None,
            },
        }
    }
}

/// A decoded elementary stream that feeds the graph, and its label.
#[derive(Debug)]
pub struct SourceSpec {
    pub index: u32,
    pub label: String,
}

/// A metadata sink of the graph and the tags read off its frames.
#[derive(Debug)]
pub struct SinkSpec {
    pub label: String,
    pub keys: Vec<String>,
}

/// The graph that one check runs.
#[derive(Debug)]
pub struct CheckGraph {
    pub nodes: Vec<NodeSpec>,
    pub sources: Vec<SourceSpec>,
    pub sinks: Vec<SinkSpec>,
}

pub struct GraphView {
    pub nodes: Seq<NodeView>,
    pub sources: Seq<(u32, Seq<char>)>,
    pub sinks: Seq<(Seq<char>, Seq<Seq<char>>)>,
}

impl View for CheckGraph {
    type V = GraphView;

    open spec fn view(&self) -> GraphView {
        GraphView {
            nodes: self.nodes@.map_values(|n: NodeSpec| n@),
            sources: self.sources@.map_values(|s: SourceSpec| (s.index, s.label@)),
            sinks: self.sinks@.map_values(|s: SinkSpec| (s.label@, strs(s.keys@))),
        }
    }
}

/// A check that needs pairing groups was given none.
#[derive(Clone, Copy, Debug, PartialEq, Eq, Structural)]
pub struct PairingMissing;

fn clone_strs(v: &Vec<String>) -> (r: Vec<String>)
    ensures
        strs(r@) == strs(v@),
{
    let mut r: Vec<String> = Vec::new();
    let mut i: usize = 0;
    while i < v.len()
        invariant
            i <= v.len(),
            r@.len() == i,
            strs(r@) == strs(v@.take(i as int)),
        decreases v.len() - i,
    {
        assert(v@.take(i as int + 1) == v@.take(i as int).push(v@[i as int]));
        let ghost old_r = r@;
        let c = v[i].clone();
        r.push(c);
        assert forall|j: int| 0 <= j < i + 1 implies #[trigger] strs(r@)[j] == strs(v@.take(i as int + 1))[j] by {
            if j < i {
                assert(strs(old_r)[j] == strs(v@.take(i as int))[j]);
                assert(r@[j] == old_r[j]);
            } else {
                assert(r@[j] == c);
            }
        }
        assert(strs(r@) =~= strs(v@.take(i as int + 1)));
        i += 1;
    }
    assert(v@.take(v.len() as int) == v@);
    r
}

fn clone_params(v: &Vec<Param>) -> (r: Vec<Param>)
    ensures
        params_view(r@) == params_view(v@),
{
    let mut r: Vec<Param> = Vec::new();
    let mut i: usize = 0;
    while i < v.len()
        invariant
            i <= v.len(),
            r@.len() == i,
            params_view(r@) == params_view(v@.take(i as int)),
        decreases v.len() - i,
    {
        let p = &v[i];
        let value = match &p.value {
            PlainParam::Bool(b) => PlainParam::Bool(*b),
            PlainParam::Int64(x) => PlainParam::Int64(*x),
            PlainParam::Text(s) => PlainParam::Text(s.clone()),
        };
        assert(v@.take(i as int + 1) == v@.take(i as int).push(v@[i as int]));
        let ghost old_r = r@;
        r.push(Param { key: p.key.clone(), value });
        assert forall|j: int| 0 <= j < i + 1 implies #[trigger] params_view(r@)[j] == params_view(v@.take(i as int + 1))[j] by {
            if j < i {
                assert(params_view(old_r)[j] == params_view(v@.take(i as int))[j]);
                assert(r@[j] == old_r[j]);
            } else {
                assert(r@[j]@ == v@[i as int]@);
            }
        }
        assert(params_view(r@) =~= params_view(v@.take(i as int + 1)));
        i += 1;
    }
    assert(v@.take(v.len() as int) == v@);
    r
}

fn param(key: &str, value: PlainParam) -> (r: Param)
    ensures
        r@ == (ParamView { key: key@, value: value@ }),
{
    Param { key: key.to_owned(), value }
}

fn one(s: String) -> (r: Vec<String>)
    ensures
        strs(r@) == seq![s@],
{
    let r = vec![s];
    assert(strs(r@) =~= seq![s@]);
    r
}

/// The nodes that analyse stream `i` with `analysis` (options `ap`), fed from
/// `<in_prefix><i>` and, directly or after a `tail` node (options `tp`), feeding
/// `<out_prefix><i>`. A node of kind `k` is labelled `<k>_filter<i>`.
pub open spec fn stream_nodes(
    i: u32,
    in_prefix: Seq<char>,
    out_prefix: Seq<char>,
    analysis: Seq<char>,
    ap: Seq<ParamView>,
    tail: Option<(Seq<char>, Seq<ParamView>)>,
) -> Seq<NodeView> {
    let input = in_prefix + decimal(i as nat);
    let output = out_prefix + decimal(i as nat);
    let label = analysis + "_filter"@ + decimal(i as nat);
    match tail {
        None => seq![NodeView { name: analysis, label, params: ap, inputs: Some(seq![input]), outputs: Some(seq![output]) }],
        Some((t, tp)) => seq![
            NodeView { name: analysis, label, params: ap, inputs: Some(seq![input]), outputs: None },
            NodeView { name: t, label: t + "_filter"@ + decimal(i as nat), params: tp, inputs: None, outputs: Some(seq![output]) },
        ],
    }
}

/// The graph of a check that analyses each stream of `indexes` on its own; `keys[k]` are
/// the tags of the sink of stream `indexes[k]`.
pub open spec fn stream_graph(
    indexes: Seq<u32>,
    in_prefix: Seq<char>,
    out_prefix: Seq<char>,
    analysis: Seq<char>,
    ap: Seq<ParamView>,
    tail: Option<(Seq<char>, Seq<ParamView>)>,
    keys: Seq<Seq<Seq<char>>>,
) -> GraphView
    decreases indexes.len(),
{
    if indexes.len() == 0 {
        GraphView { nodes: Seq::empty(), sources: Seq::empty(), sinks: Seq::empty() }
    } else {
        let n = indexes.len() - 1;
        let prev = stream_graph(indexes.drop_last(), in_prefix, out_prefix, analysis, ap, tail, keys.take(n));
        let i = indexes.last();
        GraphView {
            nodes: prev.nodes + stream_nodes(i, in_prefix, out_prefix, analysis, ap, tail),
            sources: prev.sources.push((i, in_prefix + decimal(i as nat))),
            sinks: prev.sinks.push((out_prefix + decimal(i as nat), keys[n])),
        }
    }
}

fn push_node(
    nodes: &mut Vec<NodeSpec>,
    name: &str,
    label: String,
    params: Vec<Param>,
    inputs: Option<Vec<String>>,
    outputs: Option<Vec<String>>,
)
    ensures
        final(nodes)@.map_values(|n: NodeSpec| n@) == old(nodes)@.map_values(|n: NodeSpec| n@).push(
            NodeView {
                name: name@,
                label: label@,
                params: params_view(params@),
                inputs: match inputs { Some(v) => Some(strs(v@)), None => None },
                outputs: match outputs { Some(v) => Some(strs(v@)), None => None },
            },
        ),
{
    let ghost before = nodes@.map_values(|n: NodeSpec| n@);
    nodes.push(NodeSpec { name: name.to_owned(), label, params, inputs, outputs });
    assert(nodes@.map_values(|n: NodeSpec| n@) =~= before.push(nodes@.last()@));
}

fn build_stream_graph(
    indexes: &Vec<u32>,
    in_prefix: &str,
    out_prefix: &str,
    analysis: &str,
    ap: &Vec<Param>,
    tail: Option<(&str, &Vec<Param>)>,
    keys: &Vec<Vec<String>>,
) -> (r: CheckGraph)
    requires
        keys@.len() == indexes@.len(),
    ensures
        r@ == stream_graph(
            indexes@,
            in_prefix@,
            out_prefix@,
            analysis@,
            params_view(ap@),
            match tail { Some((t, tp)) => Some((t@, params_view(tp@))), None => None },
            keys@.map_values(|k: Vec<String>| strs(k@)),
        ),
{
    let ghost tv = match tail { Some((t, tp)) => Some((t@, params_view(tp@))), None => None };
    let ghost kv = keys@.map_values(|k: Vec<String>| strs(k@));
    let mut g = CheckGraph { nodes: Vec::new(), sources: Vec::new(), sinks: Vec::new() };
    assert(g@.nodes =~= Seq::<NodeView>::empty());
    assert(g@.sources =~= Seq::<(u32, Seq<char>)>::empty());
    assert(g@.sinks =~= Seq::<(Seq<char>, Seq<Seq<char>>)>::empty());
    assert(indexes@.take(0).len() == 0);
    let mut k: usize = 0;
    while k < indexes.len()
        invariant
            k <= indexes.len(),
            keys@.len() == indexes@.len(),
            kv == keys@.map_values(|k: Vec<String>| strs(k@)),
            tv == match tail { Some((t, tp)) => Some((t@, params_view(tp@))), None => None },
            g@ == stream_graph(indexes@.take(k as int), in_prefix@, out_prefix@, analysis@, params_view(ap@), tv, kv.take(k as int)),
        decreases indexes.len() - k,
    {
        let i = indexes[k];
        let ghost prev = g@;
        assert(indexes@.take(k as int + 1).drop_last() == indexes@.take(k as int));
        assert(indexes@.take(k as int + 1).last() == i);
        assert(kv.take(k as int + 1).take(k as int) == kv.take(k as int));
        let label = labelled(analysis, "_filter", i as u64);
        let output_label = numbered(out_prefix, i as u64);
        match tail {
            None => {
                push_node(&mut g.nodes, analysis, label, clone_params(ap), Some(one(numbered(in_prefix, i as u64))), Some(one(numbered(out_prefix, i as u64))));
            },
            Some((t, tp)) => {
                push_node(&mut g.nodes, analysis, label, clone_params(ap), Some(one(numbered(in_prefix, i as u64))), None);
                let tl = labelled(t, "_filter", i as u64);
                push_node(&mut g.nodes, t, tl, clone_params(tp), None, Some(one(numbered(out_prefix, i as u64))));
            },
        }
        let ghost nodes_before = prev.nodes;
        assert(g@.nodes =~= nodes_before + stream_nodes(i, in_prefix@, out_prefix@, analysis@, params_view(ap@), tv));
        g.sources.push(SourceSpec { index: i, label: numbered(in_prefix, i as u64) });
        g.sinks.push(SinkSpec { label: output_label, keys: clone_strs(&keys[k]) });
        assert(g@.sources =~= prev.sources.push((i, in_prefix@ + decimal(i as nat))));
        assert(g@.sinks =~= prev.sinks.push((out_prefix@ + decimal(i as nat), kv[k as int])));
        k += 1;
    }
    assert(indexes@.take(indexes.len() as int) == indexes@);
    assert(kv.take(indexes.len() as int) == kv);
    g
}

/// `n` copies of the key list `k`.
pub open spec fn repeated(k: Seq<Seq<char>>, n: nat) -> Seq<Seq<Seq<char>>> {
    Seq::new(n, |_j: int| k)
}

fn repeat_keys(keys: &Vec<String>, n: usize) -> (r: Vec<Vec<String>>)
    ensures
        r@.len() == n,
        r@.map_values(|k: Vec<String>| strs(k@)) == repeated(strs(keys@), n as nat),
{
    let mut r: Vec<Vec<String>> = Vec::new();
    let mut i: usize = 0;
    while i < n
        invariant
            i <= n,
            r@.len() == i,
            forall|j: int| 0 <= j < i ==> #[trigger] strs(r@[j]@) == strs(keys@),
        decreases n - i,
    {
        r.push(clone_strs(keys));
        i += 1;
    }
    assert(r@.map_values(|k: Vec<String>| strs(k@)) =~= repeated(strs(keys@), n as nat));
    r
}

fn text(s: &str) -> (r: String)
    ensures
        r@ == s@,
{
    s.to_owned()
}

/// The mono channel layout option of a format node.
pub open spec fn mono_layout() -> ParamView {
    ParamView { key: "channel_layouts"@, value: ParamValue::Text("mono"@) }
}

fn mono_params() -> (r: Vec<Param>)
    ensures
        params_view(r@) == seq![mono_layout()],
{
    let r = vec![param("channel_layouts", PlainParam::Text(text("mono")))];
    assert(params_view(r@) =~= seq![mono_layout()]);
    r
}

fn no_params() -> (r: Vec<Param>)
    ensures
        params_view(r@) == Seq::<ParamView>::empty(),
{
    let r: Vec<Param> = Vec::new();
    assert(params_view(r@) =~= Seq::<ParamView>::empty());
    r
}

pub open spec fn silence_keys() -> Seq<Seq<char>> {
    seq!["lavfi.silence_start"@, "lavfi.silence_end"@, "lavfi.silence_duration"@]
}

/// Silence check: on each audio stream `i`, `silencedetect` fed from `audio_input_<i>`,
/// then a mono `aformat` feeding `audio_output_<i>`, whose entries carry the silence tags.
/// (The detection's numeric thresholds are options added to `silencedetect` by the caller.)
pub fn silence_graph(indexes: &Vec<u32>) -> (r: CheckGraph)
    ensures
        r@ == stream_graph(indexes@, "audio_input_"@, "audio_output_"@, "silencedetect"@, Seq::empty(),
            Some(("aformat"@, seq![mono_layout()])), repeated(silence_keys(), indexes@.len())),
{
    let keys = vec![text("lavfi.silence_start"), text("lavfi.silence_end"), text("lavfi.silence_duration")];
    assert(strs(keys@) =~= silence_keys());
    let tp = mono_params();
    build_stream_graph(indexes, "audio_input_", "audio_output_", "silencedetect", &no_params(), Some(("aformat", &tp)), &repeat_keys(&keys, indexes.len()))
}

pub open spec fn black_keys() -> Seq<Seq<char>> {
    seq!["lavfi.black_start"@, "lavfi.black_end"@]
}

/// Black-frame check: on each video stream `i`, `blackdetect` from `video_input_<i>` to
/// `video_output_<i>`. (Its ratio thresholds are options added by the caller.)
pub fn black_graph(indexes: &Vec<u32>) -> (r: CheckGraph)
    ensures
        r@ == stream_graph(indexes@, "video_input_"@, "video_output_"@, "blackdetect"@, Seq::empty(), None,
            repeated(black_keys(), indexes@.len())),
{
    let keys = vec![text("lavfi.black_start"), text("lavfi.black_end")];
    assert(strs(keys@) =~= black_keys());
    build_stream_graph(indexes, "video_input_", "video_output_", "blackdetect", &no_params(), None, &repeat_keys(&keys, indexes.len()))
}

pub open spec fn crop_keys() -> Seq<Seq<char>> {
    seq!["lavfi.cropdetect.w"@, "lavfi.cropdetect.h"@, "lavfi.cropdetect.x1"@, "lavfi.cropdetect.x2"@,
        "lavfi.cropdetect.y1"@, "lavfi.cropdetect.y2"@]
}

/// Border check: on each video stream `i`, `cropdetect` with the black `limit`, then a
/// `select` node feeding `video_output_<i>`. (The selection expression for spot checks is
/// an option added by the caller.)
pub fn crop_graph(indexes: &Vec<u32>, limit: i32) -> (r: CheckGraph)
    ensures
        r@ == stream_graph(indexes@, "video_input_"@, "video_output_"@, "cropdetect"@,
            seq![ParamView { key: "limit"@, value: ParamValue::Int64(limit as i64) }],
            Some(("select"@, Seq::empty())), repeated(crop_keys(), indexes@.len())),
{
    let keys = vec![text("lavfi.cropdetect.w"), text("lavfi.cropdetect.h"), text("lavfi.cropdetect.x1"),
        text("lavfi.cropdetect.x2"), text("lavfi.cropdetect.y1"), text("lavfi.cropdetect.y2")];
    assert(strs(keys@) =~= crop_keys());
    let ap = vec![param("limit", PlainParam::Int64(limit as i64))];
    assert(params_view(ap@) =~= seq![ParamView { key: "limit"@, value: ParamValue::Int64(limit as i64) }]);
    let tp = no_params();
    build_stream_graph(indexes, "video_input_", "video_output_", "cropdetect", &ap, Some(("select", &tp)), &repeat_keys(&keys, indexes.len()))
}

pub open spec fn scene_keys() -> Seq<Seq<char>> {
    seq!["lavfi.scd.time"@, "lavfi.scd.score"@]
}

/// Scene check: on each video stream `i`, `scdet` from `video_input_<i>` to
/// `video_output_<i>`. (Its threshold is an option added by the caller.)
pub fn scene_graph(indexes: &Vec<u32>) -> (r: CheckGraph)
    ensures
        r@ == stream_graph(indexes@, "video_input_"@, "video_output_"@, "scdet"@, Seq::empty(), None,
            repeated(scene_keys(), indexes@.len())),
{
    let keys = vec![text("lavfi.scd.time"), text("lavfi.scd.score")];
    assert(strs(keys@) =~= scene_keys());
    build_stream_graph(indexes, "video_input_", "video_output_", "scdet", &no_params(), None, &repeat_keys(&keys, indexes.len()))
}

pub open spec fn ocr_keys() -> Seq<Seq<char>> {
    seq!["lavfi.ocr.text"@, "lavfi.ocr.confidence"@, "lavfi.scd.time"@]
}

/// Offline-card check: on each video stream `i`, `scdet` reporting cuts (`sc_pass`), then
/// `ocr` feeding `video_output_<i>`. (The cut threshold is an option added by the caller.)
pub fn ocr_graph(indexes: &Vec<u32>) -> (r: CheckGraph)
    ensures
        r@ == stream_graph(indexes@, "video_input_"@, "video_output_"@, "scdet"@,
            seq![ParamView { key: "sc_pass"@, value: ParamValue::Int64(1) }],
            Some(("ocr"@, Seq::empty())), repeated(ocr_keys(), indexes@.len())),
{
    let keys = vec![text("lavfi.ocr.text"), text("lavfi.ocr.confidence"), text("lavfi.scd.time")];
    assert(strs(keys@) =~= ocr_keys());
    let ap = vec![param("sc_pass", PlainParam::Int64(1))];
    assert(params_view(ap@) =~= seq![ParamView { key: "sc_pass"@, value: ParamValue::Int64(1) }]);
    let tp = no_params();
    build_stream_graph(indexes, "video_input_", "video_output_", "scdet", &ap, Some(("ocr", &tp)), &repeat_keys(&keys, indexes.len()))
}

/// The crest factor and zero-crossing tags of channels 1 to `n`.
pub open spec fn astats_keys(n: nat) -> Seq<Seq<char>>
    decreases n,
{
    if n == 0 {
        Seq::empty()
    } else {
        astats_keys((n - 1) as nat).push("lavfi.astats."@ + decimal(n) + ".Crest_factor"@).push(
            "lavfi.astats."@ + decimal(n) + ".Zero_crossings"@,
        )
    }
}

fn tone_keys(n: u8) -> (r: Vec<String>)
    ensures
        strs(r@) == astats_keys(n as nat),
{
    let mut r: Vec<String> = Vec::new();
    let mut ch: u8 = 0;
    while ch < n
        invariant
            ch <= n,
            strs(r@) == astats_keys(ch as nat),
        decreases n - ch,
    {
        ch = ch + 1;
        let ghost before = r@;
        r.push(numbered_with("lavfi.astats.", ch as u64, ".Crest_factor"));
        r.push(numbered_with("lavfi.astats.", ch as u64, ".Zero_crossings"));
        assert(strs(r@) =~= strs(before).push(r@[r@.len() - 2]@).push(r@[r@.len() - 1]@));
    }
    r
}

pub open spec fn groups_view(v: Seq<Vec<Track>>) -> Seq<Seq<Track>> {
    v.map_values(|g: Vec<Track>| g@)
}

pub open spec fn astats_params() -> Seq<ParamView> {
    seq![
        ParamView { key: "metadata"@, value: ParamValue::Bool(true) },
        ParamView { key: "reset"@, value: ParamValue::Int64(1) },
    ]
}

/// Tone check: on each audio stream `i`, `astats` (per-frame statistics) from
/// `audio_input_<i>`, then a mono `aformat` feeding `audio_output_<i>`, whose entries
/// carry the crest factor and zero crossings of channels 1 to the stream's channel count
/// in the pairing list. Without a pairing list the check cannot be built.
pub fn sine_graph(indexes: &Vec<u32>, pairing: &Option<Vec<Vec<Track>>>) -> (r: Result<CheckGraph, PairingMissing>)
    ensures
        pairing is None <==> r is Err,
        match (pairing, r) {
            (Some(groups), Ok(g)) => g@ == stream_graph(indexes@, "audio_input_"@, "audio_output_"@, "astats"@,
                astats_params(), Some(("aformat"@, seq![mono_layout()])),
                Seq::new(indexes@.len(), |k: int| astats_keys(channels_of(groups_view(groups@), indexes@[k] as u8) as nat))),
            _ => true,
        },
{
    match pairing {
        None => Err(PairingMissing),
        Some(groups) => {
            let ghost want = Seq::new(indexes@.len(), |k: int| astats_keys(channels_of(groups_view(groups@), indexes@[k] as u8) as nat));
            let mut keys: Vec<Vec<String>> = Vec::new();
            let mut k: usize = 0;
            while k < indexes.len()
                invariant
                    k <= indexes.len(),
                    keys@.len() == k,
                    want == Seq::new(indexes@.len(), |k: int| astats_keys(channels_of(groups_view(groups@), indexes@[k] as u8) as nat)),
                    forall|j: int| 0 <= j < k ==> #[trigger] strs(keys@[j]@) == want[j],
                decreases indexes.len() - k,
            {
                let n = Track::get_channels_number(groups, indexes[k] as u8);
                keys.push(tone_keys(n));
                k += 1;
            }
            assert(keys@.map_values(|k: Vec<String>| strs(k@)) =~= want);
            let ap = vec![param("metadata", PlainParam::Bool(true)), param("reset", PlainParam::Int64(1))];
            assert(params_view(ap@) =~= astats_params());
            let tp = mono_params();
            Ok(build_stream_graph(indexes, "audio_input_", "audio_output_", "astats", &ap, Some(("aformat", &tp)), &keys))
        },
    }
}

/// The source label of a track's stream.
pub open spec fn track_input(t: Track) -> Seq<char> {
    "audio_input_"@ + decimal(t.index as nat)
}

/// The nodes of pairing group `n`: `amerge` of the group's streams, then `analysis`
/// (options `ap`), then `aformat` feeding `audio_output_<n>`.
pub open spec fn group_nodes(n: nat, g: Seq<Track>, analysis: Seq<char>, ap: Seq<ParamView>) -> Seq<NodeView> {
    seq![
        NodeView {
            name: "amerge"@,
            label: "amerge"@ + "_filter"@ + decimal(n),
            params: seq![ParamView { key: "inputs"@, value: ParamValue::Int64(g.len() as i64) }],
            inputs: Some(g.map_values(|t: Track| track_input(t))),
            outputs: None,
        },
        NodeView { name: analysis, label: analysis + "_filter"@ + decimal(n), params: ap, inputs: None, outputs: None },
        NodeView {
            name: "aformat"@,
            label: "aformat"@ + "_filter"@ + decimal(n),
            params: Seq::empty(),
            inputs: None,
            outputs: Some(seq!["audio_output_"@ + decimal(n)]),
        },
    ]
}

/// The graph of a check that merges each pairing group before analysing it; `keys[n]` are
/// the tags of group `n`'s sink.
pub open spec fn group_graph(groups: Seq<Seq<Track>>, analysis: Seq<char>, ap: Seq<ParamView>, keys: Seq<Seq<Seq<char>>>) -> GraphView
    decreases groups.len(),
{
    if groups.len() == 0 {
        GraphView { nodes: Seq::empty(), sources: Seq::empty(), sinks: Seq::empty() }
    } else {
        let n = (groups.len() - 1) as nat;
        let g = groups.last();
        let prev = group_graph(groups.drop_last(), analysis, ap, keys.take(n as int));
        GraphView {
            nodes: prev.nodes + group_nodes(n, g, analysis, ap),
            sources: prev.sources + g.map_values(|t: Track| (t.index as u32, track_input(t))),
            sinks: prev.sinks.push(("audio_output_"@ + decimal(n), keys[n as int])),
        }
    }
}

pub open spec fn groups_fit(groups: Seq<Vec<Track>>) -> bool {
    forall|k: int| 0 <= k < groups.len() ==> #[trigger] groups[k]@.len() <= i64::MAX
}

fn build_group_graph(groups: &Vec<Vec<Track>>, analysis: &str, ap: &Vec<Param>, keys: &Vec<Vec<String>>) -> (r: CheckGraph)
    requires
        keys@.len() == groups@.len(),
        groups_fit(groups@),
    ensures
        r@ == group_graph(groups_view(groups@), analysis@, params_view(ap@), keys@.map_values(|k: Vec<String>| strs(k@))),
{
    let ghost gv = groups_view(groups@);
    let ghost kv = keys@.map_values(|k: Vec<String>| strs(k@));
    let mut g = CheckGraph { nodes: Vec::new(), sources: Vec::new(), sinks: Vec::new() };
    assert(g@.nodes =~= Seq::<NodeView>::empty());
    assert(g@.sources =~= Seq::<(u32, Seq<char>)>::empty());
    assert(g@.sinks =~= Seq::<(Seq<char>, Seq<Seq<char>>)>::empty());
    assert(gv.take(0).len() == 0);
    let mut n: usize = 0;
    while n < groups.len()
        invariant
            n <= groups.len(),
            keys@.len() == groups@.len(),
            groups_fit(groups@),
            gv == groups_view(groups@),
            kv == keys@.map_values(|k: Vec<String>| strs(k@)),
            g@ == group_graph(gv.take(n as int), analysis@, params_view(ap@), kv.take(n as int)),
        decreases groups.len() - n,
    {
        let group = &groups[n];
        let ghost prev = g@;
        assert(gv.take(n as int + 1).drop_last() == gv.take(n as int));
        assert(gv.take(n as int + 1).last() == group@);
        assert(kv.take(n as int + 1).take(n as int) == kv.take(n as int));
        assert(group@.len() <= i64::MAX);
        let mut inputs: Vec<String> = Vec::new();
        let mut j: usize = 0;
        while j < group.len()
            invariant
                j <= group.len(),
                group@ == gv[n as int],
                strs(inputs@) == group@.take(j as int).map_values(|t: Track| track_input(t)),
                g@.sources == prev.sources + group@.take(j as int).map_values(|t: Track| (t.index as u32, track_input(t))),
                g@.nodes == prev.nodes,
                g@.sinks == prev.sinks,
            decreases group.len() - j,
        {
            let t = group[j];
            let ghost before_in = inputs@;
            let ghost before_src = g@.sources;
            inputs.push(numbered("audio_input_", t.index as u64));
            g.sources.push(SourceSpec { index: t.index as u32, label: numbered("audio_input_", t.index as u64) });
            assert(group@.take(j as int + 1) == group@.take(j as int).push(t));
            assert(strs(inputs@) =~= strs(before_in).push(track_input(t)));
            assert(strs(inputs@) =~= group@.take(j as int + 1).map_values(|t: Track| track_input(t)));
            assert(g@.sources =~= before_src.push((t.index as u32, track_input(t))));
            assert(g@.sources =~= prev.sources + group@.take(j as int + 1).map_values(|t: Track| (t.index as u32, track_input(t))));
            j += 1;
        }
        assert(group@.take(group@.len() as int) == group@);
        let merge = vec![param("inputs", PlainParam::Int64(group.len() as i64))];
        assert(params_view(merge@) =~= seq![ParamView { key: "inputs"@, value: ParamValue::Int64(group@.len() as i64) }]);
        assert(strs(inputs@) == group@.map_values(|t: Track| track_input(t)));
        push_node(&mut g.nodes, "amerge", labelled("amerge", "_filter", n as u64), merge, Some(inputs), None);
        push_node(&mut g.nodes, analysis, labelled(analysis, "_filter", n as u64), clone_params(ap), None, None);
        push_node(&mut g.nodes, "aformat", labelled("aformat", "_filter", n as u64), no_params(), None, Some(one(numbered("audio_output_", n as u64))));
        assert(g@.nodes =~= prev.nodes + group_nodes(n as nat, group@, analysis@, params_view(ap@)));
        let ghost src = g@.sources;
        g.sinks.push(SinkSpec { label: numbered("audio_output_", n as u64), keys: clone_strs(&keys[n]) });
        assert(g@.sinks =~= prev.sinks.push(("audio_output_"@ + decimal(n as nat), kv[n as int])));
        assert(g@.sources == src);
        n += 1;
    }
    assert(gv.take(groups.len() as int) == gv);
    assert(kv.take(groups.len() as int) == kv);
    g
}

/// The true-peak tags of channels 0 to `n - 1`.
pub open spec fn peak_keys(n: nat) -> Seq<Seq<char>>
    decreases n,
{
    if n == 0 {
        Seq::empty()
    } else {
        peak_keys((n - 1) as nat).push("lavfi.r128.true_peaks_ch"@ + decimal((n - 1) as nat))
    }
}

/// The channel count of a group's merged signal.
pub open spec fn merged_of(g: Seq<Track>) -> nat {
    if g.len() == 1 { g[0].channel as nat } else { g.len() }
}

/// The tags of a loudness sink: integrated loudness, range, short-term and momentary
/// loudness, and the true peak of each merged channel.
pub open spec fn loudness_keys(g: Seq<Track>) -> Seq<Seq<char>> {
    seq!["lavfi.r128.I"@, "lavfi.r128.LRA"@, "lavfi.r128.S"@, "lavfi.r128.M"@] + peak_keys(merged_of(g))
}

fn loudness_keys_of(group: &Vec<Track>) -> (r: Vec<String>)
    ensures
        strs(r@) == loudness_keys(group@),
{
    let mut r = vec![text("lavfi.r128.I"), text("lavfi.r128.LRA"), text("lavfi.r128.S"), text("lavfi.r128.M")];
    let ghost head = strs(r@);
    assert(head =~= seq!["lavfi.r128.I"@, "lavfi.r128.LRA"@, "lavfi.r128.S"@, "lavfi.r128.M"@]);
    let n = crate::tracks::merged_channels(group);
    let mut ch: usize = 0;
    while ch < n
        invariant
            ch <= n,
            n == merged_of(group@),
            strs(r@) == head + peak_keys(ch as nat),
        decreases n - ch,
    {
        let ghost before = r@;
        r.push(numbered("lavfi.r128.true_peaks_ch", ch as u64));
        assert(strs(r@) =~= strs(before).push(r@.last()@));
        ch += 1;
    }
    r
}

pub open spec fn ebur128_params() -> Seq<ParamView> {
    seq![
        ParamView { key: "metadata"@, value: ParamValue::Bool(true) },
        ParamView { key: "peak"@, value: ParamValue::Text("true"@) },
        ParamView { key: "dualmono"@, value: ParamValue::Bool(true) },
    ]
}

/// Loudness check: each pairing group `n` is merged (`amerge` fed from
/// `audio_input_<index>` of each of its tracks), metered by `ebur128`, and formatted into
/// `audio_output_<n>`, whose entries carry `loudness_keys` of the group. Without a pairing
/// list the check cannot be built.
pub fn loudness_graph(pairing: &Option<Vec<Vec<Track>>>) -> (r: Result<CheckGraph, PairingMissing>)
    requires
        pairing matches Some(groups) ==> groups_fit(groups@),
    ensures
        pairing is None <==> r is Err,
        match (pairing, r) {
            (Some(groups), Ok(g)) => g@ == group_graph(groups_view(groups@), "ebur128"@, ebur128_params(),
                Seq::new(groups@.len(), |k: int| loudness_keys(groups@[k]@))),
            _ => true,
        },
{
    match pairing {
        None => Err(PairingMissing),
        Some(groups) => {
            let ghost want = Seq::new(groups@.len(), |k: int| loudness_keys(groups@[k]@));
            let mut keys: Vec<Vec<String>> = Vec::new();
            let mut k: usize = 0;
            while k < groups.len()
                invariant
                    k <= groups.len(),
                    keys@.len() == k,
                    want == Seq::new(groups@.len(), |k: int| loudness_keys(groups@[k]@)),
                    forall|j: int| 0 <= j < k ==> #[trigger] strs(keys@[j]@) == want[j],
                decreases groups.len() - k,
            {
                keys.push(loudness_keys_of(&groups[k]));
                k += 1;
            }
            assert(keys@.map_values(|k: Vec<String>| strs(k@)) =~= want);
            let ap = vec![
                param("metadata", PlainParam::Bool(true)),
                param("peak", PlainParam::Text(text("true"))),
                param("dualmono", PlainParam::Bool(true)),
            ];
            assert(params_view(ap@) =~= ebur128_params());
            Ok(build_group_graph(groups, "ebur128", &ap, &keys))
        },
    }
}

pub open spec fn dualmono_keys() -> Seq<Seq<char>> {
    seq!["lavfi.aphasemeter.mono_start"@, "lavfi.aphasemeter.mono_end"@, "lavfi.aphasemeter.mono_duration"@]
}

pub open spec fn aphasemeter_params() -> Seq<ParamView> {
    seq![
        ParamView { key: "video"@, value: ParamValue::Bool(false) },
        ParamView { key: "phasing"@, value: ParamValue::Bool(true) },
    ]
}

/// Dual-mono check: each pairing group `n` is merged, phase-compared by `aphasemeter`, and
/// formatted into `audio_output_<n>`, whose entries carry the mono start, end and duration.
/// (The phase tolerance and minimum duration are options added by the caller.) Without a
/// pairing list the check cannot be built.
pub fn dualmono_graph(pairing: &Option<Vec<Vec<Track>>>) -> (r: Result<CheckGraph, PairingMissing>)
    requires
        pairing matches Some(groups) ==> groups_fit(groups@),
    ensures
        pairing is None <==> r is Err,
        match (pairing, r) {
            (Some(groups), Ok(g)) => g@ == group_graph(groups_view(groups@), "aphasemeter"@, aphasemeter_params(),
                repeated(dualmono_keys(), groups@.len())),
            _ => true,
        },
{
    match pairing {
        None => Err(PairingMissing),
        Some(groups) => {
            let keys = vec![text("lavfi.aphasemeter.mono_start"), text("lavfi.aphasemeter.mono_end"),
                text("lavfi.aphasemeter.mono_duration")];
            assert(strs(keys@) =~= dualmono_keys());
            let ap = vec![param("video", PlainParam::Bool(false)), param("phasing", PlainParam::Bool(true))];
            assert(params_view(ap@) =~= aphasemeter_params());
            Ok(build_group_graph(groups, "aphasemeter", &ap, &repeat_keys(&keys, groups.len())))
        },
    }
}

} // verus!
