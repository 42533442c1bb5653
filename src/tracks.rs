use vstd::prelude::*;

verus! {

/// An elementary audio stream and its channel count.
#[derive(Clone, Copy, Debug, PartialEq, Eq, Hash, Structural)]
pub struct Track {
    pub index: u8,
    pub channel: u8,
}

/// The channel count of the first track of `index`, groups and their tracks taken in
/// order, or 0 when no group holds that stream.
pub open spec fn channels_of(groups: Seq<Seq<Track>>, index: u8) -> u8
    decreases groups.len(),
{
    if groups.len() == 0 {
        0
    } else {
        match first_in(groups[0], index) {
            Some(t) => t.channel,
            None => channels_of(groups.drop_first(), index),
        }
    }
}

/// The first track of `index` in one group.
pub open spec fn first_in(g: Seq<Track>, index: u8) -> Option<Track>
    decreases g.len(),
{
    if g.len() == 0 {
        None
    } else if g[0].index == index {
        Some(g[0])
    } else {
        first_in(g.drop_first(), index)
    }
}

/// A group forms one stereo unit: a single two-channel stream, or two mono streams.
pub open spec fn stereo_unit(g: Seq<Track>) -> bool {
    (g.len() == 1 && g[0].channel == 2) || (g.len() == 2 && g[0].channel == 1 && g[1].channel == 1)
}

/// The channels `[start, end)` that a stream covers in the merged signal of its group:
/// all of its channels when it is alone in its group, else the one slot at its position.
/// Where the stream appears more than once, the last appearance counts; where it does not
/// appear, the range is empty.
pub open spec fn channel_range_of(groups: Seq<Seq<Track>>, index: u8) -> (u8, u8)
    decreases groups.len(),
{
    if groups.len() == 0 {
        (0, 0)
    } else {
        let g = groups.last();
        match last_pos_in(g, index) {
            Some(p) => if g.len() == 1 {
                (0, g[p].channel)
            } else {
                (p as u8, (p + 1) as u8)
            },
            None => channel_range_of(groups.drop_last(), index),
        }
    }
}

/// The position of the last track of `index` in one group.
pub open spec fn last_pos_in(g: Seq<Track>, index: u8) -> Option<int>
    decreases g.len(),
{
    if g.len() == 0 {
        None
    } else if g.last().index == index {
        Some(g.len() - 1)
    } else {
        last_pos_in(g.drop_last(), index)
    }
}

impl Track {
    /// The track of stream `index` with `channel` channels.
    pub fn new(index: u8, channel: u8) -> (r: Track)
        ensures
            r.index == index,
            r.channel == channel,
    {
        Track { index, channel }
    }

    /// The channel count given for stream `index` in the pairing list: that of its first
    /// appearance, or 0 when it does not appear.
    pub fn get_channels_number(pairing_list: &Vec<Vec<Track>>, index: u8) -> (r: u8)
        ensures
            r == channels_of(pairing_list@.map_values(|g: Vec<Track>| g@), index),
    {
        let ghost groups = pairing_list@.map_values(|g: Vec<Track>| g@);
        assert(groups.subrange(0, groups.len() as int) == groups);
        let mut i: usize = 0;
        while i < pairing_list.len()
            invariant
                i <= pairing_list.len(),
                groups == pairing_list@.map_values(|g: Vec<Track>| g@),
                channels_of(groups, index) == channels_of(groups.subrange(i as int, groups.len() as int), index),
            decreases pairing_list.len() - i,
        {
            let g = &pairing_list[i];
            let ghost rest = groups.subrange(i as int, groups.len() as int);
            assert(rest[0] == g@);
            assert(rest.drop_first() == groups.subrange(i as int + 1, groups.len() as int));
            let mut j: usize = 0;
            assert(g@.subrange(0, g@.len() as int) == g@);
            while j < g.len()
                invariant
                    j <= g.len(),
                    i < pairing_list.len(),
                    groups == pairing_list@.map_values(|g: Vec<Track>| g@),
                    g@ == groups[i as int],
                    rest == groups.subrange(i as int, groups.len() as int),
                    rest[0] == g@,
                    channels_of(groups, index) == channels_of(rest, index),
                    first_in(g@, index) == first_in(g@.subrange(j as int, g@.len() as int), index),
                decreases g.len() - j,
            {
                let ghost tail = g@.subrange(j as int, g@.len() as int);
                assert(tail.drop_first() == g@.subrange(j as int + 1, g@.len() as int));
                if g[j].index == index {
                    assert(first_in(g@, index) == Some(g@[j as int]));
                    return g[j].channel;
                }
                j += 1;
            }
            assert(g@.subrange(g@.len() as int, g@.len() as int).len() == 0);
            i += 1;
        }
        0
    }
}

/// Whether the group forms one stereo unit.
pub fn is_stereo_unit(group: &Vec<Track>) -> (r: bool)
    ensures
        r == stereo_unit(group@),
{
    (group.len() == 1 && group[0].channel == 2) || (group.len() == 2 && group[0].channel == 1
        && group[1].channel == 1)
}

/// The channels `[start, end)` that stream `index` covers in its group's merged signal.
pub fn channel_range(pairing_list: &Vec<Vec<Track>>, index: u8) -> (r: (u8, u8))
    requires
        forall|i: int| 0 <= i < pairing_list@.len() ==> #[trigger] pairing_list@[i]@.len() < 255,
    ensures
        r == channel_range_of(pairing_list@.map_values(|g: Vec<Track>| g@), index),
{
    let ghost groups = pairing_list@.map_values(|g: Vec<Track>| g@);
    assert(groups.take(groups.len() as int) == groups);
    let mut i: usize = pairing_list.len();
    while i > 0
        invariant
            i <= pairing_list.len(),
            groups == pairing_list@.map_values(|g: Vec<Track>| g@),
            forall|k: int| 0 <= k < pairing_list@.len() ==> #[trigger] pairing_list@[k]@.len() < 255,
            channel_range_of(groups, index) == channel_range_of(groups.take(i as int), index),
        decreases i,
    {
        let g = &pairing_list[i - 1];
        assert(groups.take(i as int).last() == g@);
        assert(groups.take(i as int).drop_last() == groups.take(i as int - 1));
        assert(g@.len() < 255);
        let mut j: usize = g.len();
        assert(g@.take(g@.len() as int) == g@);
        while j > 0
            invariant
                j <= g.len(),
                0 < i <= pairing_list.len(),
                g@.len() < 255,
                groups == pairing_list@.map_values(|g: Vec<Track>| g@),
                g@ == groups.take(i as int).last(),
                channel_range_of(groups, index) == channel_range_of(groups.take(i as int), index),
                last_pos_in(g@, index) == last_pos_in(g@.take(j as int), index),
            decreases j,
        {
            assert(g@.take(j as int).drop_last() == g@.take(j as int - 1));
            assert(g@.take(j as int).last() == g@[j - 1]);
            if g[j - 1].index == index {
                assert(last_pos_in(g@, index) == Some(j - 1));
                if g.len() == 1 {
                    return (0, g[0].channel);
                } else {
                    return ((j - 1) as u8, j as u8);
                }
            }
            j -= 1;
        }
        i -= 1;
    }
    (0, 0)
}

/// The tracks of `g` that belong to a stereo unit of their group: a two-channel stream
/// alone in its group, or a mono stream in a group of two; `t` counts the first tracks.
pub open spec fn unit_tracks(g: Seq<Track>, t: int) -> nat
    decreases t,
{
    if t <= 0 {
        0
    } else {
        let k = g[t - 1];
        unit_tracks(g, t - 1) + if (g.len() == 1 && k.channel == 2) || (g.len() == 2 && k.channel == 1) {
            1nat
        } else {
            0nat
        }
    }
}

/// The tracks of all groups that belong to a stereo unit.
pub open spec fn qualifying_of(groups: Seq<Seq<Track>>) -> nat
    decreases groups.len(),
{
    if groups.len() == 0 {
        0
    } else {
        qualifying_of(groups.drop_last()) + unit_tracks(groups.last(), groups.last().len() as int)
    }
}

proof fn lemma_unit_tracks_bound(g: Seq<Track>, t: int)
    requires
        0 <= t <= g.len(),
    ensures
        unit_tracks(g, t) <= t,
        g.len() > 2 ==> unit_tracks(g, t) == 0,
    decreases t,
{
    if t > 0 {
        lemma_unit_tracks_bound(g, t - 1);
    }
}

/// The number of tracks that belong to a stereo unit of their group, over the whole
/// pairing list.
pub fn qualifying_tracks(pairing_list: &Vec<Vec<Track>>) -> (r: usize)
    requires
        pairing_list@.len() <= usize::MAX / 2,
    ensures
        r == qualifying_of(pairing_list@.map_values(|g: Vec<Track>| g@)),
{
    let ghost groups = pairing_list@.map_values(|g: Vec<Track>| g@);
    let mut count: usize = 0;
    let mut i: usize = 0;
    while i < pairing_list.len()
        invariant
            i <= pairing_list.len() <= usize::MAX / 2,
            groups == pairing_list@.map_values(|g: Vec<Track>| g@),
            count == qualifying_of(groups.take(i as int)),
            count <= 2 * i,
        decreases pairing_list.len() - i,
    {
        assert(groups.take(i as int + 1).drop_last() == groups.take(i as int));
        let g = &pairing_list[i];
        assert(groups.take(i as int + 1).last() == g@);
        let mut here: usize = 0;
        let mut j: usize = 0;
        while j < g.len()
            invariant
                j <= g.len(),
                here == unit_tracks(g@, j as int),
                here <= j,
            decreases g.len() - j,
        {
            if (g.len() == 1 && g[j].channel == 2) || (g.len() == 2 && g[j].channel == 1) {
                here = here + 1;
            }
            j += 1;
        }
        proof {
            lemma_unit_tracks_bound(g@, g@.len() as int);
        }
        count = count + here;
        i += 1;
    }
    assert(groups.take(pairing_list.len() as int) == groups);
    count
}

/// The channel count of a group's merged signal: that of its single stream, or one per
/// stream.
pub fn merged_channels(group: &Vec<Track>) -> (r: usize)
    ensures
        r == if group@.len() == 1 { group@[0].channel as int } else { group@.len() as int },
{
    if group.len() == 1 {
        group[0].channel as usize
    } else {
        group.len()
    }
}

} // verus!
