use vstd::prelude::*;

verus! {

/// What a filter input refers to: a decoded elementary stream or another filter.
#[derive(Clone, Copy, Debug, PartialEq, Eq, Structural)]
pub enum InputKind {
    Stream,
    Filter,
}

/// One declared input of a filter.
#[derive(Clone, Debug, PartialEq, Eq)]
pub struct FilterInput {
    pub kind: InputKind,
    pub stream_label: String,
}

/// One declared output of a filter: the sink it feeds.
#[derive(Clone, Debug, PartialEq, Eq)]
pub struct FilterOutput {
    pub stream_label: String,
}

/// Where one frame of a pre-indexed raw stream lies in its file.
#[derive(Clone, Copy, Debug, PartialEq, Eq, Structural)]
pub struct FrameAddress {
    pub index: u32,
    pub offset: u64,
    pub size: u64,
}

/// What a pipeline output does with the frames of its sink.
#[derive(Clone, Copy, Debug, PartialEq, Eq, Structural)]
pub enum OutputKind {
    File,
    Packet,
    AudioMetadata,
    VideoMetadata,
}

/// One processing node of an order's graph, as declared: its wiring to streams, to the
/// previous node and to sinks. Declared nodes are created in order.
#[derive(Clone, Debug, PartialEq, Eq)]
pub struct Filter {
    pub name: String,
    pub label: Option<String>,
    pub inputs: Option<Vec<FilterInput>>,
    pub outputs: Option<Vec<FilterOutput>>,
}

/// A node of the compiled graph: a registered stream source, a declared filter, or a sink,
/// each by its position.
#[derive(Clone, Copy, Debug, PartialEq, Eq, Structural)]
pub enum Endpoint {
    Source(usize),
    Node(usize),
    Sink(usize),
}

/// A link from an output pad of one node to an input pad of another.
#[derive(Clone, Copy, Debug, PartialEq, Eq, Structural)]
pub struct Link {
    pub from: Endpoint,
    pub from_pad: usize,
    pub to: Endpoint,
    pub to_pad: usize,
}

/// Why an order's graph cannot be compiled.
#[derive(Clone, Debug, PartialEq, Eq)]
pub enum SetupError {
    /// A stream input names no registered source.
    UnresolvedInput(String),
    /// A filter output names no registered sink.
    UnknownLabel(String),
}

/// A setup error as its kind and the label it names.
pub enum SetupFault {
    UnresolvedInput(Seq<char>),
    UnknownLabel(Seq<char>),
}

impl View for SetupError {
    type V = SetupFault;

    open spec fn view(&self) -> SetupFault {
        match self {
            SetupError::UnresolvedInput(l) => SetupFault::UnresolvedInput(l@),
            SetupError::UnknownLabel(l) => SetupFault::UnknownLabel(l@),
        }
    }
}

/// The position of the first label equal to `l`.
pub open spec fn label_pos(labels: Seq<Seq<char>>, l: Seq<char>) -> Option<int>
    decreases labels.len(),
{
    if labels.len() == 0 {
        None
    } else {
        match label_pos(labels.drop_last(), l) {
            Some(i) => Some(i),
            None => if labels.last() == l {
                Some(labels.len() - 1)
            } else {
                None
            },
        }
    }
}

pub open spec fn views(v: Seq<String>) -> Seq<Seq<char>> {
    v.map_values(|s: String| s@)
}

/// The label that an unlabelled first filter is fed from.
pub open spec fn default_label() -> Seq<char> {
    Seq::empty()
}

/// Links that feed node `k` from its declared inputs `ins` (pad `j` from input `j`);
/// filter-kind inputs are wired elsewhere and add nothing.
pub open spec fn input_links(k: int, ins: Seq<FilterInput>, sources: Seq<Seq<char>>) -> Result<Seq<Link>, SetupFault>
    decreases ins.len(),
{
    if ins.len() == 0 {
        Ok(Seq::empty())
    } else {
        match input_links(k, ins.drop_last(), sources) {
            Err(e) => Err(e),
            Ok(prev) => {
                let inp = ins.last();
                match inp.kind {
                    InputKind::Filter => Ok(prev),
                    InputKind::Stream => match label_pos(sources, inp.stream_label@) {
                        Some(s) => Ok(prev.push(Link {
                            from: Endpoint::Source(s as usize),
                            from_pad: 0,
                            to: Endpoint::Node(k as usize),
                            to_pad: (ins.len() - 1) as usize,
                        })),
                        None => Err(SetupFault::UnresolvedInput(inp.stream_label@)),
                    },
                }
            },
        }
    }
}

/// Links from node `k`'s output pads to the sinks its outputs name (pad `j` for output `j`).
pub open spec fn output_links(k: int, outs: Seq<FilterOutput>, sinks: Seq<Seq<char>>) -> Result<Seq<Link>, SetupFault>
    decreases outs.len(),
{
    if outs.len() == 0 {
        Ok(Seq::empty())
    } else {
        match output_links(k, outs.drop_last(), sinks) {
            Err(e) => Err(e),
            Ok(prev) => match label_pos(sinks, outs.last().stream_label@) {
                Some(s) => Ok(prev.push(Link {
                    from: Endpoint::Node(k as usize),
                    from_pad: (outs.len() - 1) as usize,
                    to: Endpoint::Sink(s as usize),
                    to_pad: 0,
                })),
                None => Err(SetupFault::UnknownLabel(outs.last().stream_label@)),
            },
        }
    }
}

/// The links that wire node `k`: from its declared inputs, or else from the previous
/// node's first pad, or, for the first node, from the source with the default label;
/// then to the sinks its outputs name.
pub open spec fn node_links(k: int, f: Filter, sources: Seq<Seq<char>>, sinks: Seq<Seq<char>>) -> Result<Seq<Link>, SetupFault> {
    let fed = match f.inputs {
        Some(ins) => input_links(k, ins@, sources),
        None => if k > 0 {
            Ok(seq![Link { from: Endpoint::Node((k - 1) as usize), from_pad: 0, to: Endpoint::Node(k as usize), to_pad: 0 }])
        } else {
            match label_pos(sources, default_label()) {
                Some(s) => Ok(seq![Link { from: Endpoint::Source(s as usize), from_pad: 0, to: Endpoint::Node(0), to_pad: 0 }]),
                None => Err(SetupFault::UnresolvedInput(default_label())),
            }
        },
    };
    match fed {
        Err(e) => Err(e),
        Ok(a) => match f.outputs {
            Some(outs) => match output_links(k, outs@, sinks) {
                Err(e) => Err(e),
                Ok(b) => Ok(a + b),
            },
            None => Ok(a),
        },
    }
}

/// The links of a whole graph, node by node in declaration order; the first node that
/// cannot be wired gives the error.
pub open spec fn graph_links(filters: Seq<Filter>, sources: Seq<Seq<char>>, sinks: Seq<Seq<char>>) -> Result<Seq<Link>, SetupFault>
    decreases filters.len(),
{
    if filters.len() == 0 {
        Ok(Seq::empty())
    } else {
        match graph_links(filters.drop_last(), sources, sinks) {
            Err(e) => Err(e),
            Ok(prev) => match node_links(filters.len() - 1, filters.last(), sources, sinks) {
                Err(e) => Err(e),
                Ok(more) => Ok(prev + more),
            },
        }
    }
}

proof fn lemma_label_pos_prefix(labels: Seq<Seq<char>>, l: Seq<char>, i: int)
    requires
        0 <= i <= labels.len(),
        label_pos(labels.take(i), l) is Some,
    ensures
        label_pos(labels, l) == label_pos(labels.take(i), l),
    decreases labels.len() - i,
{
    if i < labels.len() {
        assert(labels.take(i + 1).drop_last() == labels.take(i));
        lemma_label_pos_prefix(labels, l, i + 1);
    } else {
        assert(labels.take(i) == labels);
    }
}

/// The position of the first label equal to `l`.
pub fn find_label(labels: &Vec<String>, l: &String) -> (r: Option<usize>)
    ensures
        r matches Some(i) ==> label_pos(views(labels@), l@) == Some(i as int),
        r is None ==> label_pos(views(labels@), l@) is None,
{
    let ghost v = views(labels@);
    let mut i: usize = 0;
    while i < labels.len()
        invariant
            i <= labels.len(),
            v == views(labels@),
            label_pos(v.take(i as int), l@) is None,
        decreases labels.len() - i,
    {
        assert(v.take(i as int + 1).drop_last() == v.take(i as int));
        assert(v.take(i as int + 1).last() == labels@[i as int]@);
        if labels[i] == *l {
            proof {
                lemma_label_pos_prefix(v, l@, i + 1);
            }
            return Some(i);
        }
        i += 1;
    }
    assert(v.take(labels.len() as int) == v);
    None
}

/// The result of a wiring step, seen through the views of its error.
pub open spec fn wiring(r: Result<Vec<Link>, SetupError>) -> Result<Seq<Link>, SetupFault> {
    match r {
        Ok(v) => Ok(v@),
        Err(e) => Err(e@),
    }
}

proof fn lemma_input_err_prefix(k: int, ins: Seq<FilterInput>, sources: Seq<Seq<char>>, i: int)
    requires
        0 <= i <= ins.len(),
        input_links(k, ins.take(i), sources) is Err,
    ensures
        input_links(k, ins, sources) == input_links(k, ins.take(i), sources),
    decreases ins.len() - i,
{
    if i < ins.len() {
        assert(ins.take(i + 1).drop_last() == ins.take(i));
        lemma_input_err_prefix(k, ins, sources, i + 1);
    } else {
        assert(ins.take(i) == ins);
    }
}

proof fn lemma_output_err_prefix(k: int, outs: Seq<FilterOutput>, sinks: Seq<Seq<char>>, i: int)
    requires
        0 <= i <= outs.len(),
        output_links(k, outs.take(i), sinks) is Err,
    ensures
        output_links(k, outs, sinks) == output_links(k, outs.take(i), sinks),
    decreases outs.len() - i,
{
    if i < outs.len() {
        assert(outs.take(i + 1).drop_last() == outs.take(i));
        lemma_output_err_prefix(k, outs, sinks, i + 1);
    } else {
        assert(outs.take(i) == outs);
    }
}

proof fn lemma_graph_err_prefix(filters: Seq<Filter>, sources: Seq<Seq<char>>, sinks: Seq<Seq<char>>, i: int)
    requires
        0 <= i <= filters.len(),
        graph_links(filters.take(i), sources, sinks) is Err,
    ensures
        graph_links(filters, sources, sinks) == graph_links(filters.take(i), sources, sinks),
    decreases filters.len() - i,
{
    if i < filters.len() {
        assert(filters.take(i + 1).drop_last() == filters.take(i));
        lemma_graph_err_prefix(filters, sources, sinks, i + 1);
    } else {
        assert(filters.take(i) == filters);
    }
}

fn wire_inputs(k: usize, ins: &Vec<FilterInput>, sources: &Vec<String>) -> (r: Result<Vec<Link>, SetupError>)
    ensures
        wiring(r) == input_links(k as int, ins@, views(sources@)),
{
    let ghost src = views(sources@);
    let mut out: Vec<Link> = Vec::new();
    let mut j: usize = 0;
    while j < ins.len()
        invariant
            j <= ins.len(),
            src == views(sources@),
            input_links(k as int, ins@.take(j as int), src) == Ok::<Seq<Link>, SetupFault>(out@),
        decreases ins.len() - j,
    {
        assert(ins@.take(j as int + 1).drop_last() == ins@.take(j as int));
        assert(ins@.take(j as int + 1).last() == ins@[j as int]);
        let inp = &ins[j];
        match inp.kind {
            InputKind::Filter => {},
            InputKind::Stream => {
                match find_label(sources, &inp.stream_label) {
                    Some(s) => {
                        out.push(Link { from: Endpoint::Source(s), from_pad: 0, to: Endpoint::Node(k), to_pad: j });
                    },
                    None => {
                        let e = SetupError::UnresolvedInput(inp.stream_label.clone());
                        proof {
                            lemma_input_err_prefix(k as int, ins@, src, j + 1);
                        }
                        return Err(e);
                    },
                }
            },
        }
        j += 1;
    }
    assert(ins@.take(ins.len() as int) == ins@);
    Ok(out)
}

fn wire_outputs(k: usize, outs: &Vec<FilterOutput>, sinks: &Vec<String>) -> (r: Result<Vec<Link>, SetupError>)
    ensures
        wiring(r) == output_links(k as int, outs@, views(sinks@)),
{
    let ghost snk = views(sinks@);
    let mut out: Vec<Link> = Vec::new();
    let mut j: usize = 0;
    while j < outs.len()
        invariant
            j <= outs.len(),
            snk == views(sinks@),
            output_links(k as int, outs@.take(j as int), snk) == Ok::<Seq<Link>, SetupFault>(out@),
        decreases outs.len() - j,
    {
        assert(outs@.take(j as int + 1).drop_last() == outs@.take(j as int));
        assert(outs@.take(j as int + 1).last() == outs@[j as int]);
        let o = &outs[j];
        match find_label(sinks, &o.stream_label) {
            Some(s) => {
                out.push(Link { from: Endpoint::Node(k), from_pad: j, to: Endpoint::Sink(s), to_pad: 0 });
            },
            None => {
                let e = SetupError::UnknownLabel(o.stream_label.clone());
                proof {
                    lemma_output_err_prefix(k as int, outs@, snk, j + 1);
                }
                return Err(e);
            },
        }
        j += 1;
    }
    assert(outs@.take(outs.len() as int) == outs@);
    Ok(out)
}

fn wire_node(k: usize, f: &Filter, sources: &Vec<String>, sinks: &Vec<String>) -> (r: Result<Vec<Link>, SetupError>)
    ensures
        wiring(r) == node_links(k as int, *f, views(sources@), views(sinks@)),
{
    let mut links: Vec<Link> = match &f.inputs {
        Some(ins) => match wire_inputs(k, ins, sources) {
            Ok(v) => v,
            Err(e) => {
                return Err(e);
            },
        },
        None => if k > 0 {
            let v = vec![Link { from: Endpoint::Node(k - 1), from_pad: 0, to: Endpoint::Node(k), to_pad: 0 }];
            assert(v@ == seq![Link { from: Endpoint::Node((k - 1) as usize), from_pad: 0, to: Endpoint::Node(k), to_pad: 0 }]);
            v
        } else {
            let dflt = String::new();
            match find_label(sources, &dflt) {
                Some(s) => {
                    let v = vec![Link { from: Endpoint::Source(s), from_pad: 0, to: Endpoint::Node(0), to_pad: 0 }];
                    assert(v@ == seq![Link { from: Endpoint::Source(s), from_pad: 0, to: Endpoint::Node(0), to_pad: 0 }]);
                    v
                },
                None => {
                    return Err(SetupError::UnresolvedInput(dflt));
                },
            }
        },
    };
    match &f.outputs {
        Some(outs) => match wire_outputs(k, outs, sinks) {
            Ok(more) => {
                let mut more = more;
                links.append(&mut more);
                Ok(links)
            },
            Err(e) => Err(e),
        },
        None => Ok(links),
    }
}

/// Compiles the wiring of an order's graph.
///
/// Nodes are wired in declaration order. A node with declared inputs takes each
/// stream-kind input on the pad of its position, from the first source of that label; a
/// node without them is fed on pad 0 from the previous node's pad 0, the first node from
/// the source labelled with the empty string. Each declared output links the pad of its
/// position to the first sink of its label. The first label that names nothing fails the
/// whole graph: `UnresolvedInput` for a source, `UnknownLabel` for a sink.
pub fn plan_graph(filters: &Vec<Filter>, sources: &Vec<String>, sinks: &Vec<String>) -> (r: Result<Vec<Link>, SetupError>)
    ensures
        wiring(r) == graph_links(filters@, views(sources@), views(sinks@)),
{
    let ghost src = views(sources@);
    let ghost snk = views(sinks@);
    let mut links: Vec<Link> = Vec::new();
    let mut k: usize = 0;
    while k < filters.len()
        invariant
            k <= filters.len(),
            src == views(sources@),
            snk == views(sinks@),
            graph_links(filters@.take(k as int), src, snk) == Ok::<Seq<Link>, SetupFault>(links@),
        decreases filters.len() - k,
    {
        assert(filters@.take(k as int + 1).drop_last() == filters@.take(k as int));
        assert(filters@.take(k as int + 1).last() == filters@[k as int]);
        match wire_node(k, &filters[k], sources, sinks) {
            Ok(more) => {
                let mut more = more;
                links.append(&mut more);
            },
            Err(e) => {
                proof {
                    lemma_graph_err_prefix(filters@, src, snk, k + 1);
                }
                return Err(e);
            },
        }
        k += 1;
    }
    assert(filters@.take(filters.len() as int) == filters@);
    Ok(links)
}

/// A declared pipeline: its graph of nodes and, once set up, the links that wire it.
#[derive(Debug)]
pub struct Order {
    pub graph: Vec<Filter>,
    pub links: Vec<Link>,
}

impl Order {
    /// An order over the declared graph, not yet set up.
    pub fn new(graph: Vec<Filter>) -> (r: Order)
        ensures
            r.graph@ == graph@,
            r.links@.len() == 0,
    {
        Order { graph, links: Vec::new() }
    }

    /// Compiles the graph's wiring against the registered source and sink labels. On
    /// success the order holds the links; on failure it is left as it was.
    pub fn setup(&mut self, sources: &Vec<String>, sinks: &Vec<String>) -> (r: Result<(), SetupError>)
        ensures
            final(self).graph@ == old(self).graph@,
            match graph_links(old(self).graph@, views(sources@), views(sinks@)) {
                Ok(l) => r is Ok && final(self).links@ == l,
                Err(e) => r matches Err(x) && x@ == e && final(self).links@ == old(self).links@,
            },
    {
        match plan_graph(&self.graph, sources, sinks) {
            Ok(l) => {
                self.links = l;
                Ok(())
            },
            Err(e) => Err(e),
        }
    }
}

} // verus!
