//! Splitting a timeline into its main track and its overlay tracks, each in
//! the order in which its clips are processed.

use vstd::prelude::*;
use crate::timeline::ClipView;
use crate::timeline::MultiTrackClip;
use crate::timeline::MultiTrackExportOptions;
use crate::timeline::ValidationError;
use crate::timeline::clip_views;

verus! {

/// Whether clip `i` belongs to the main track (`main`) or to an overlay track.
pub open spec fn selected(clips: Seq<ClipView>, main: bool, i: int) -> bool {
    if main {
        clips[i].on_main_track()
    } else {
        clips[i].on_overlay_track()
    }
}

/// The processing order of two clips of one kind. Main-track clips go by
/// start time; overlay clips by track, then start time. Clips that tie keep
/// their insertion order.
pub open spec fn precedes(clips: Seq<ClipView>, main: bool, i: int, j: int) -> bool {
    let a = clips[i];
    let b = clips[j];
    if !main && a.track_id != b.track_id {
        a.track_id < b.track_id
    } else if a.start_time != b.start_time {
        a.start_time < b.start_time
    } else {
        i < j
    }
}

/// `order` lists exactly the selected clips, by index, in processing order.
pub open spec fn is_track_order(clips: Seq<ClipView>, main: bool, order: Seq<usize>) -> bool {
    &&& forall|k: int|
        0 <= k < order.len() ==> (#[trigger] order[k]) < clips.len() && selected(
            clips,
            main,
            order[k] as int,
        )
    &&& forall|i: int|
        0 <= i < clips.len() && #[trigger] selected(clips, main, i) ==> order.contains(i as usize)
    &&& forall|a: int, b: int|
        0 <= a < b < order.len() ==> precedes(
            clips,
            main,
            (#[trigger] order[a]) as int,
            (#[trigger] order[b]) as int,
        )
}

fn is_selected(clips: &Vec<MultiTrackClip>, main: bool, i: usize) -> (r: bool)
    requires
        i < clips.len(),
    ensures
        r == selected(clip_views(clips@), main, i as int),
{
    if main {
        clips[i].track_id == 0
    } else {
        clips[i].track_id > 0
    }
}

fn comes_before(clips: &Vec<MultiTrackClip>, main: bool, i: usize, j: usize) -> (r: bool)
    requires
        i < clips.len(),
        j < clips.len(),
    ensures
        r == precedes(clip_views(clips@), main, i as int, j as int),
{
    let a = &clips[i];
    let b = &clips[j];
    if !main && a.track_id != b.track_id {
        a.track_id < b.track_id
    } else if a.start_time != b.start_time {
        a.start_time < b.start_time
    } else {
        i < j
    }
}

/// Lists the clips of the main track (`main`) or of the overlay tracks, by
/// index into `clips`, in processing order.
pub fn track_order(clips: &Vec<MultiTrackClip>, main: bool) -> (order: Vec<usize>)
    ensures
        is_track_order(clip_views(clips@), main, order@),
        order@ == track_order_of(clip_views(clips@), main),
{
    let order = ordered_indices(clips, main);
    proof {
        let views = clip_views(clips@);
        lemma_track_order_unique(views, main, order@, track_order_of(views, main));
    }
    order
}

fn ordered_indices(clips: &Vec<MultiTrackClip>, main: bool) -> (order: Vec<usize>)
    ensures
        is_track_order(clip_views(clips@), main, order@),
{
    let ghost views = clip_views(clips@);
    let n = clips.len();
    let mut order: Vec<usize> = Vec::new();
    let mut i: usize = 0;
    while i < n
        invariant
            n == clips.len(),
            views == clip_views(clips@),
            i <= n,
            forall|k: int|
                0 <= k < order.len() ==> (#[trigger] order[k]) < i && selected(
                    views,
                    main,
                    order[k] as int,
                ),
            forall|j: int|
                0 <= j < i && #[trigger] selected(views, main, j) ==> order@.contains(j as usize),
            forall|a: int, b: int|
                0 <= a < b < order.len() ==> precedes(
                    views,
                    main,
                    (#[trigger] order[a]) as int,
                    (#[trigger] order[b]) as int,
                ),
        decreases n - i,
    {
        if is_selected(clips, main, i) {
            let mut p: usize = 0;
            while p < order.len() && comes_before(clips, main, order[p], i)
                invariant
                    i < n,
                    n == clips.len(),
                    views == clip_views(clips@),
                    p <= order.len(),
                    forall|k: int| 0 <= k < order.len() ==> (#[trigger] order[k]) < i,
                    forall|k: int|
                        0 <= k < p ==> precedes(views, main, (#[trigger] order[k]) as int, i as int),
                decreases order.len() - p,
            {
                p = p + 1;
            }
            let ghost before = order@;
            order.insert(p, i);
            proof {
                before.insert_ensures(p as int, i);
                assert forall|k: int| 0 <= k < order.len() implies (#[trigger] order[k]) < i + 1
                    && selected(views, main, order[k] as int) by {
                    if k < p {
                        assert(order[k] == before[k]);
                    } else if k > p {
                        assert(order[k] == before[k - 1]);
                    }
                }
                assert forall|j: int| 0 <= j < i + 1 && #[trigger] selected(
                    views,
                    main,
                    j,
                ) implies order@.contains(j as usize) by {
                    if j == i {
                        assert(order@[p as int] == i);
                    } else {
                        assert(before.contains(j as usize));
                        let k = choose|k: int| 0 <= k < before.len() && before[k] == j as usize;
                        if k < p {
                            assert(order@[k] == before[k]);
                        } else {
                            assert(order@[k + 1] == before[k]);
                        }
                    }
                }
                assert forall|a: int, b: int| 0 <= a < b < order.len() implies precedes(
                    views,
                    main,
                    (#[trigger] order[a]) as int,
                    (#[trigger] order[b]) as int,
                ) by {
                    let oa = if a < p {
                        a
                    } else {
                        a - 1
                    };
                    let ob = if b < p {
                        b
                    } else {
                        b - 1
                    };
                    if a != p {
                        assert(order[a] == before[oa]);
                    }
                    if b != p {
                        assert(order[b] == before[ob]);
                    }
                    if a == p {
                        // the new clip against a later one
                        assert(before[p as int] < i);
                        if ob > p {
                            assert(precedes(views, main, before[p as int] as int, before[ob] as int));
                        }
                    }
                }
            }
        }
        i = i + 1;
    }
    order
}

/// Every pair of positions of `s` is in processing order.
spec fn strictly_ordered(clips: Seq<ClipView>, main: bool, s: Seq<usize>) -> bool {
    forall|a: int, b: int|
        0 <= a < b < s.len() ==> precedes(
            clips,
            main,
            (#[trigger] s[a]) as int,
            (#[trigger] s[b]) as int,
        )
}

proof fn lemma_ordered_lists_of_one_set(clips: Seq<ClipView>, main: bool, a: Seq<usize>, b: Seq<usize>)
    requires
        strictly_ordered(clips, main, a),
        strictly_ordered(clips, main, b),
        forall|x: usize| a.contains(x) <==> b.contains(x),
    ensures
        a == b,
    decreases a.len(),
{
    if a.len() == 0 {
        if b.len() > 0 {
            assert(b.contains(b[0]));
        }
        assert(a =~= b);
    } else if b.len() == 0 {
        assert(a.contains(a[0]));
    } else {
        assert(a.contains(a[0]));
        assert(b.contains(b[0]));
        let j = choose|j: int| 0 <= j < b.len() && b[j] == a[0];
        let i = choose|i: int| 0 <= i < a.len() && a[i] == b[0];
        if j > 0 && i > 0 {
            assert(precedes(clips, main, b[0] as int, b[j] as int));
            assert(precedes(clips, main, a[0] as int, a[i] as int));
        }
        assert(a[0] == b[0]);
        let ra = a.drop_first();
        let rb = b.drop_first();
        assert forall|x: usize| ra.contains(x) <==> rb.contains(x) by {
            if ra.contains(x) {
                let k = choose|k: int| 0 <= k < ra.len() && ra[k] == x;
                assert(a[k + 1] == x);
                assert(precedes(clips, main, a[0] as int, a[k + 1] as int));
                assert(b.contains(x));
                let m = choose|m: int| 0 <= m < b.len() && b[m] == x;
                assert(m != 0);
                assert(rb[m - 1] == x);
            }
            if rb.contains(x) {
                let k = choose|k: int| 0 <= k < rb.len() && rb[k] == x;
                assert(b[k + 1] == x);
                assert(precedes(clips, main, b[0] as int, b[k + 1] as int));
                assert(a.contains(x));
                let m = choose|m: int| 0 <= m < a.len() && a[m] == x;
                assert(m != 0);
                assert(ra[m - 1] == x);
            }
        }
        assert forall|p: int, q: int| 0 <= p < q < ra.len() implies precedes(
            clips,
            main,
            (#[trigger] ra[p]) as int,
            (#[trigger] ra[q]) as int,
        ) by {
            assert(ra[p] == a[p + 1] && ra[q] == a[q + 1]);
        }
        assert forall|p: int, q: int| 0 <= p < q < rb.len() implies precedes(
            clips,
            main,
            (#[trigger] rb[p]) as int,
            (#[trigger] rb[q]) as int,
        ) by {
            assert(rb[p] == b[p + 1] && rb[q] == b[q + 1]);
        }
        lemma_ordered_lists_of_one_set(clips, main, ra, rb);
        assert(a =~= seq![a[0]] + ra);
        assert(b =~= seq![b[0]] + rb);
    }
}

/// The processing order of a track is unique: two lists that both satisfy
/// [`is_track_order`] for the same clips are the same list.
pub proof fn lemma_track_order_unique(clips: Seq<ClipView>, main: bool, a: Seq<usize>, b: Seq<usize>)
    requires
        is_track_order(clips, main, a),
        is_track_order(clips, main, b),
    ensures
        a == b,
{
    assert forall|x: usize| a.contains(x) <==> b.contains(x) by {
        if a.contains(x) {
            let k = choose|k: int| 0 <= k < a.len() && a[k] == x;
            assert(selected(clips, main, a[k] as int));
        }
        if b.contains(x) {
            let k = choose|k: int| 0 <= k < b.len() && b[k] == x;
            assert(selected(clips, main, b[k] as int));
        }
    }
    lemma_ordered_lists_of_one_set(clips, main, a, b);
}

/// A track order names no clip twice.
pub proof fn lemma_track_order_distinct(clips: Seq<ClipView>, main: bool, order: Seq<usize>)
    requires
        is_track_order(clips, main, order),
    ensures
        forall|a: int, b: int|
            0 <= a < order.len() && 0 <= b < order.len() && a != b ==> (#[trigger] order[a])
                != (#[trigger] order[b]),
{
    assert forall|a: int, b: int|
        0 <= a < order.len() && 0 <= b < order.len() && a != b implies (#[trigger] order[a])
        != (#[trigger] order[b]) by {
        if a < b {
            assert(precedes(clips, main, order[a] as int, order[b] as int));
        } else {
            assert(precedes(clips, main, order[b] as int, order[a] as int));
        }
    }
}

/// The processing order of a track: the one list that [`is_track_order`]
/// admits.
pub open spec fn track_order_of(clips: Seq<ClipView>, main: bool) -> Seq<usize> {
    choose|order: Seq<usize>| is_track_order(clips, main, order)
}

/// A timeline that passed every check, with its main track and its overlay
/// tracks in processing order.
#[derive(Debug, PartialEq, Eq)]
pub struct ValidatedTimeline {
    pub options: MultiTrackExportOptions,
    /// Indices into `options.clips` of the main-track clips, by start time.
    pub main_order: Vec<usize>,
    /// Indices into `options.clips` of the overlay clips, by track, then
    /// start time.
    pub overlay_order: Vec<usize>,
}

impl ValidatedTimeline {
    pub open spec fn wf(&self) -> bool {
        &&& self.options@.valid()
        &&& is_track_order(self.options@.clips, true, self.main_order@)
        &&& is_track_order(self.options@.clips, false, self.overlay_order@)
        &&& self.main_order@ == track_order_of(self.options@.clips, true)
        &&& self.overlay_order@ == track_order_of(self.options@.clips, false)
    }
}

/// Checks the timeline and, when it passes, orders its tracks. The checks are
/// made in order and the first that fails is the error.
pub fn validate(timeline: MultiTrackExportOptions) -> (r: Result<
    ValidatedTimeline,
    ValidationError,
>)
    ensures
        r is Ok <==> timeline@.valid(),
        r matches Ok(v) ==> v.wf() && v.options == timeline,
        r matches Err(e) ==> timeline@.rejected_with(e) && e == timeline@.rejection(),
{
    match timeline.check() {
        Err(e) => Err(e),
        Ok(()) => {
            let main_order = track_order(&timeline.clips, true);
            let overlay_order = track_order(&timeline.clips, false);
            Ok(ValidatedTimeline { options: timeline, main_order, overlay_order })
        },
    }
}

} // verus!
