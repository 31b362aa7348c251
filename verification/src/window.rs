//! Where a clip shows on the rendered output: its placement, moved by the
//! global trim start and cut to the length of the output.

use vstd::prelude::*;
use crate::timeline::ClipView;
use crate::timeline::MultiTrackClip;

verus! {

/// A half-open stretch `[start, end)` of the output clock, in microseconds.
#[derive(Debug, Clone, Copy, PartialEq, Eq)]
pub struct Window {
    pub start: u64,
    pub end: u64,
}

impl Window {
    /// The render clock `t` lies inside the window.
    pub open spec fn contains(self, t: int) -> bool {
        self.start <= t < self.end
    }

    /// Whether a clip drawn in this window shows at render clock `t`.
    pub fn is_visible_at(&self, t: i64) -> (r: bool)
        ensures
            r == self.contains(t as int),
    {
        t >= 0 && self.start <= t as u64 && (t as u64) < self.end
    }
}

/// Length of the rendered output for a global trim window.
pub open spec fn output_length(global_trim_start: int, global_trim_end: int) -> int {
    if global_trim_end > global_trim_start {
        global_trim_end - global_trim_start
    } else {
        0
    }
}

/// Where the clip starts on the output clock, before cutting.
pub open spec fn placed_start(c: ClipView, global_trim_start: int) -> int {
    c.start_time - global_trim_start
}

/// Where the clip ends on the output clock, before cutting.
pub open spec fn placed_end(c: ClipView, global_trim_start: int) -> int {
    c.start_time - global_trim_start + c.span()
}

/// `v` moved into `[0, limit]`.
pub open spec fn cut_to(v: int, limit: int) -> int {
    if v < 0 {
        0
    } else if v > limit {
        limit
    } else {
        v
    }
}

/// The effective output window of a clip: its placement cut to the output.
pub open spec fn effective_window(c: ClipView, global_trim_start: int, global_trim_end: int) -> Window {
    let limit = output_length(global_trim_start, global_trim_end);
    Window {
        start: cut_to(placed_start(c, global_trim_start), limit) as u64,
        end: cut_to(placed_end(c, global_trim_start), limit) as u64,
    }
}

/// Computes the effective output window of `clip` under a global trim window.
pub fn window_of(clip: &MultiTrackClip, global_trim_start: i64, global_trim_end: i64) -> (w: Window)
    ensures
        w == effective_window(clip@, global_trim_start as int, global_trim_end as int),
{
    let limit: i128 = if global_trim_end > global_trim_start {
        global_trim_end as i128 - global_trim_start as i128
    } else {
        0
    };
    let start: i128 = clip.start_time as i128 - global_trim_start as i128;
    let end: i128 = start + (clip.trim_end as i128 - clip.trim_start as i128);
    let cut_start: i128 = if start < 0 {
        0
    } else if start > limit {
        limit
    } else {
        start
    };
    let cut_end: i128 = if end < 0 {
        0
    } else if end > limit {
        limit
    } else {
        end
    };
    Window { start: cut_start as u64, end: cut_end as u64 }
}

/// A clip shows at render clock `t` exactly when `t` lies in its placement
/// `[start_time - global_trim_start, start_time - global_trim_start + trim_end - trim_start)`
/// and inside the output `[0, global_trim_end - global_trim_start)`.
pub proof fn lemma_window_is_cut_placement(
    c: ClipView,
    global_trim_start: i64,
    global_trim_end: i64,
    t: int,
)
    ensures
        effective_window(c, global_trim_start as int, global_trim_end as int).contains(t) <==> (0
            <= t < output_length(global_trim_start as int, global_trim_end as int) && placed_start(
            c,
            global_trim_start as int,
        ) <= t < placed_end(c, global_trim_start as int)),
{
}

} // verus!
