use vstd::prelude::*;

verus! {

/// One segment between two scene cuts, in frame indices.
#[derive(Clone, Copy, Debug, PartialEq, Eq, Structural)]
pub struct SceneResult {
    pub frame_start: i64,
    pub frame_end: i64,
    pub frames_length: i64,
    pub score: i32,
    pub index: u32,
}

/// A cut that follows the previous one within one frame.
#[derive(Clone, Copy, Debug, PartialEq, Eq, Structural)]
pub struct FalseSceneResult {
    pub frame_index: i64,
}

/// A scene cut reported by the analysis, at a frame index, with its score.
#[derive(Clone, Copy, Debug, PartialEq, Eq, Structural)]
pub struct SceneCut {
    pub frame_start: i64,
    pub score: i32,
}

/// The segments and the false cuts found by a scene segmentation.
#[derive(Debug)]
pub struct SceneTimeline {
    pub scenes: Vec<SceneResult>,
    pub false_scenes: Vec<FalseSceneResult>,
}

/// Frame indices are kept within a range where their differences fit.
pub open spec fn frame_fits(f: int) -> bool {
    -0x2000_0000_0000_0000 <= f <= 0x2000_0000_0000_0000
}

/// The segment that stands before the first cut.
pub open spec fn first_scene() -> SceneResult {
    SceneResult { frame_start: 0, frame_end: 0, frames_length: 0, score: 100, index: 0 }
}

/// One cut: the open segment ends on the frame before it, a new segment runs from it to
/// `total`, and a cut within one frame of the previous cut is also recorded as a false cut
/// (the segment before the first cut is no cut).
pub open spec fn scene_step(
    acc: (Seq<SceneResult>, Seq<FalseSceneResult>),
    c: SceneCut,
    total: i64,
) -> (Seq<SceneResult>, Seq<FalseSceneResult>) {
    let last = acc.0.last();
    let end = c.frame_start - 1;
    let closed = SceneResult { frame_end: end as i64, frames_length: (end - last.frame_start + 1) as i64, ..last };
    let scene = SceneResult {
        frame_start: c.frame_start,
        frame_end: total,
        frames_length: (total - c.frame_start + 1) as i64,
        score: c.score,
        index: (last.index + 1) as u32,
    };
    let falses = if last.index > 0 && c.frame_start - last.frame_start <= 1 {
        acc.1.push(FalseSceneResult { frame_index: c.frame_start })
    } else {
        acc.1
    };
    (acc.0.drop_last().push(closed).push(scene), falses)
}

/// Segments and false cuts after all of `cuts`.
pub open spec fn scene_run(cuts: Seq<SceneCut>, total: i64) -> (Seq<SceneResult>, Seq<FalseSceneResult>)
    decreases cuts.len(),
{
    if cuts.len() == 0 {
        (seq![first_scene()], Seq::empty())
    } else {
        scene_step(scene_run(cuts.drop_last(), total), cuts.last(), total)
    }
}

proof fn lemma_scene_run_shape(cuts: Seq<SceneCut>, total: i64)
    requires
        forall|i: int| 0 <= i < cuts.len() ==> frame_fits(#[trigger] cuts[i].frame_start as int),
        frame_fits(total as int),
        cuts.len() < u32::MAX,
    ensures
        scene_run(cuts, total).0.len() == cuts.len() + 1,
        scene_run(cuts, total).0.last().index == cuts.len(),
        frame_fits(scene_run(cuts, total).0.last().frame_start as int),
    decreases cuts.len(),
{
    if cuts.len() > 0 {
        lemma_scene_run_shape(cuts.drop_last(), total);
        assert(frame_fits(cuts[cuts.len() - 1].frame_start as int));
    }
}

/// Segments a video stream at its scene cuts, given in the order they were reported.
///
/// The timeline starts with one segment at frame 0 (score 100, index 0). Each cut ends the
/// last segment on the frame before it and opens a new one that runs to `total_frames`,
/// with the next index; a cut within one frame of the previous cut is also recorded as a
/// false cut, and stays in the segment list.
pub fn detect_scene(cuts: &Vec<SceneCut>, total_frames: i64) -> (r: SceneTimeline)
    requires
        forall|i: int| 0 <= i < cuts@.len() ==> frame_fits(#[trigger] cuts@[i].frame_start as int),
        frame_fits(total_frames as int),
        cuts@.len() < u32::MAX,
    ensures
        (r.scenes@, r.false_scenes@) == scene_run(cuts@, total_frames),
        r.scenes@.len() == cuts@.len() + 1,
{
    let mut scenes: Vec<SceneResult> = vec![
        SceneResult { frame_start: 0, frame_end: 0, frames_length: 0, score: 100, index: 0 },
    ];
    let mut false_scenes: Vec<FalseSceneResult> = Vec::new();
    let mut i: usize = 0;
    proof {
        assert(scenes@ == seq![first_scene()]);
        lemma_scene_run_shape(cuts@.take(0), total_frames);
    }
    while i < cuts.len()
        invariant
            i <= cuts.len(),
            forall|k: int| 0 <= k < cuts@.len() ==> frame_fits(#[trigger] cuts@[k].frame_start as int),
            frame_fits(total_frames as int),
            cuts@.len() < u32::MAX,
            (scenes@, false_scenes@) == scene_run(cuts@.take(i as int), total_frames),
        decreases cuts.len() - i,
    {
        assert(cuts@.take(i as int + 1).drop_last() == cuts@.take(i as int));
        proof {
            lemma_scene_run_shape(cuts@.take(i as int), total_frames);
            lemma_scene_run_shape(cuts@.take(i as int + 1), total_frames);
        }
        let c = cuts[i];
        assert(frame_fits(cuts@[i as int].frame_start as int));
        let ghost prev = scenes@;
        let last = scenes.pop().unwrap();
        assert(last == prev.last());
        assert(frame_fits(last.frame_start as int));
        let end = c.frame_start - 1;
        let closed = SceneResult { frame_end: end, frames_length: end - last.frame_start + 1, ..last };
        if last.index > 0 && c.frame_start - last.frame_start <= 1 {
            false_scenes.push(FalseSceneResult { frame_index: c.frame_start });
        }
        scenes.push(closed);
        scenes.push(SceneResult {
            frame_start: c.frame_start,
            frame_end: total_frames,
            frames_length: total_frames - c.frame_start + 1,
            score: c.score,
            index: last.index + 1,
        });
        i += 1;
    }
    assert(cuts@.take(cuts.len() as int) == cuts@);
    proof {
        lemma_scene_run_shape(cuts@, total_frames);
    }
    SceneTimeline { scenes, false_scenes }
}

} // verus!
