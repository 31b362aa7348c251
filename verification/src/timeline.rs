//! The timeline model: clips on a main track and on overlay tracks, the
//! global trim window, and the checks a timeline must pass before any work is
//! done for it.

use vstd::prelude::*;
use crate::text::decimal;
use crate::text::numbered;

verus! {

/// Opacity of an overlay that names none, in millionths.
pub const DEFAULT_OPACITY: u32 = 800_000;

/// Full opacity, in millionths.
pub const FULL_OPACITY: u32 = 1_000_000;

/// One clip of a multi-track timeline. Times are microseconds, the opacity is
/// in millionths. Track 0 is the main track; greater tracks lie above it.
#[derive(Debug, Clone, PartialEq, Eq)]
pub struct MultiTrackClip {
    pub input_path: String,
    pub track_id: i32,
    pub start_time: i64,
    pub duration: i64,
    pub trim_start: i64,
    pub trim_end: i64,
    pub overlay_position: Option<(i32, i32)>,
    pub overlay_size: Option<(i32, i32)>,
    pub overlay_opacity: Option<u32>,
    pub overlay_blend_mode: Option<String>,
}

/// The mathematical content of a [`MultiTrackClip`].
pub struct ClipView {
    pub input_path: Seq<char>,
    pub track_id: i32,
    pub start_time: i64,
    pub duration: i64,
    pub trim_start: i64,
    pub trim_end: i64,
    pub overlay_position: Option<(i32, i32)>,
    pub overlay_size: Option<(i32, i32)>,
    pub overlay_opacity: Option<u32>,
    pub overlay_blend_mode: Option<Seq<char>>,
}

impl View for MultiTrackClip {
    type V = ClipView;

    open spec fn view(&self) -> ClipView {
        ClipView {
            input_path: self.input_path@,
            track_id: self.track_id,
            start_time: self.start_time,
            duration: self.duration,
            trim_start: self.trim_start,
            trim_end: self.trim_end,
            overlay_position: self.overlay_position,
            overlay_size: self.overlay_size,
            overlay_opacity: self.overlay_opacity,
            overlay_blend_mode: match self.overlay_blend_mode {
                Some(mode) => Some(mode@),
                None => None,
            },
        }
    }
}

/// A timeline to export: its clips in insertion order, the destination, and
/// the global trim window in microseconds.
#[derive(Debug, Clone, PartialEq, Eq)]
pub struct MultiTrackExportOptions {
    pub clips: Vec<MultiTrackClip>,
    pub output_path: String,
    pub global_trim_start: i64,
    pub global_trim_end: i64,
}

/// The mathematical content of a [`MultiTrackExportOptions`].
pub struct TimelineView {
    pub clips: Seq<ClipView>,
    pub output_path: Seq<char>,
    pub global_trim_start: i64,
    pub global_trim_end: i64,
}

/// The views of a list of clips, in the same order.
pub open spec fn clip_views(clips: Seq<MultiTrackClip>) -> Seq<ClipView> {
    clips.map_values(|c: MultiTrackClip| c@)
}

impl View for MultiTrackExportOptions {
    type V = TimelineView;

    open spec fn view(&self) -> TimelineView {
        TimelineView {
            clips: clip_views(self.clips@),
            output_path: self.output_path@,
            global_trim_start: self.global_trim_start,
            global_trim_end: self.global_trim_end,
        }
    }
}

impl ClipView {
    /// The clip keeps a non-empty stretch of its source.
    pub open spec fn trim_ok(self) -> bool {
        self.trim_end > self.trim_start
    }

    /// Length of the kept stretch, in microseconds.
    pub open spec fn span(self) -> int {
        self.trim_end - self.trim_start
    }

    pub open spec fn on_main_track(self) -> bool {
        self.track_id == 0
    }

    pub open spec fn on_overlay_track(self) -> bool {
        self.track_id > 0
    }
}

impl TimelineView {
    /// The global trim window starts at or after zero and is not empty.
    pub open spec fn global_trim_ok(self) -> bool {
        0 <= self.global_trim_start < self.global_trim_end
    }

    /// Length of the rendered output, in microseconds.
    pub open spec fn total(self) -> int {
        self.global_trim_end - self.global_trim_start
    }

    pub open spec fn all_trims_ok(self) -> bool {
        forall|i: int| 0 <= i < self.clips.len() ==> (#[trigger] self.clips[i]).trim_ok()
    }

    pub open spec fn has_main_clip(self) -> bool {
        exists|i: int| 0 <= i < self.clips.len() && (#[trigger] self.clips[i]).on_main_track()
    }

    /// Everything that must hold before the first invocation.
    pub open spec fn valid(self) -> bool {
        &&& self.clips.len() > 0
        &&& self.all_trims_ok()
        &&& self.global_trim_ok()
        &&& self.has_main_clip()
    }

    /// `index` is the first clip whose trim window is empty or reversed.
    pub open spec fn first_bad_trim(self, index: int) -> bool {
        &&& 0 <= index < self.clips.len()
        &&& !self.clips[index].trim_ok()
        &&& forall|j: int| 0 <= j < index ==> (#[trigger] self.clips[j]).trim_ok()
    }

    /// The error with which a timeline that is not valid is refused.
    pub open spec fn rejection(self) -> ValidationError {
        choose|error: ValidationError| self.rejected_with(error)
    }

    /// The checks run in a fixed order and the first one that fails names
    /// the error.
    pub open spec fn rejected_with(self, error: ValidationError) -> bool {
        match error {
            ValidationError::EmptyTimeline => self.clips.len() == 0,
            ValidationError::InvalidClipTrim { index } => self.first_bad_trim(index as int),
            ValidationError::InvalidGlobalTrim => {
                &&& self.clips.len() > 0
                &&& self.all_trims_ok()
                &&& !self.global_trim_ok()
            },
            ValidationError::NoMainTrack => {
                &&& self.clips.len() > 0
                &&& self.all_trims_ok()
                &&& self.global_trim_ok()
                &&& !self.has_main_clip()
            },
        }
    }
}

/// How an overlay clip is drawn: where, how large, how opaque, and in which
/// blend mode.
#[derive(Debug, PartialEq, Eq)]
pub struct OverlaySpec {
    pub position: (i32, i32),
    pub size: (i32, i32),
    /// In millionths, at most [`FULL_OPACITY`].
    pub opacity: u32,
    pub blend_mode: String,
}

impl ClipView {
    /// The position of the overlay, `(0, 0)` when the clip names none.
    pub open spec fn position(self) -> (i32, i32) {
        match self.overlay_position {
            Some(p) => p,
            None => (0i32, 0i32),
        }
    }

    /// The size of the overlay, 640 x 360 when the clip names none.
    pub open spec fn size(self) -> (i32, i32) {
        match self.overlay_size {
            Some(s) => s,
            None => (640i32, 360i32),
        }
    }

    /// The opacity of the overlay in millionths: 0.8 when the clip names
    /// none, and never more than 1.
    pub open spec fn opacity(self) -> u32 {
        match self.overlay_opacity {
            Some(o) => if o > FULL_OPACITY {
                FULL_OPACITY
            } else {
                o
            },
            None => DEFAULT_OPACITY,
        }
    }

    /// The blend mode of the overlay, `normal` when the clip names none.
    pub open spec fn blend_mode(self) -> Seq<char> {
        match self.overlay_blend_mode {
            Some(m) => m,
            None => "normal"@,
        }
    }
}

impl MultiTrackClip {
    /// The overlay settings of the clip, with the defaults filled in.
    pub fn overlay_spec(&self) -> (spec: OverlaySpec)
        ensures
            spec.position == self@.position(),
            spec.size == self@.size(),
            spec.opacity == self@.opacity(),
            spec.opacity <= FULL_OPACITY,
            spec.blend_mode@ == self@.blend_mode(),
    {
        let position = match self.overlay_position {
            Some(p) => p,
            None => (0, 0),
        };
        let size = match self.overlay_size {
            Some(s) => s,
            None => (640, 360),
        };
        let opacity = match self.overlay_opacity {
            Some(o) => if o > FULL_OPACITY {
                FULL_OPACITY
            } else {
                o
            },
            None => DEFAULT_OPACITY,
        };
        let blend_mode = match &self.overlay_blend_mode {
            Some(m) => m.clone(),
            None => String::from_str("normal"),
        };
        OverlaySpec { position, size, opacity, blend_mode }
    }
}

/// One clip of a single-track export: the stretch `[trim_start, trim_end)`
/// of a source, in microseconds.
#[derive(Debug, Clone, PartialEq, Eq)]
pub struct ClipData {
    pub input_path: String,
    pub trim_start: i64,
    pub trim_end: i64,
}

/// The mathematical content of a [`ClipData`].
pub struct ClipDataView {
    pub input_path: Seq<char>,
    pub trim_start: i64,
    pub trim_end: i64,
}

impl View for ClipData {
    type V = ClipDataView;

    open spec fn view(&self) -> ClipDataView {
        ClipDataView {
            input_path: self.input_path@,
            trim_start: self.trim_start,
            trim_end: self.trim_end,
        }
    }
}

/// The views of a list of clips, in the same order.
pub open spec fn clip_data_views(clips: Seq<ClipData>) -> Seq<ClipDataView> {
    clips.map_values(|c: ClipData| c@)
}

/// A single-clip export: the stretch `[trim_start, trim_end)` of the input,
/// in microseconds, written to the output.
#[derive(Debug, Clone, PartialEq, Eq)]
pub struct ExportOptions {
    pub input_path: String,
    pub output_path: String,
    pub trim_start: i64,
    pub trim_end: i64,
}

/// The mathematical content of an [`ExportOptions`].
pub struct ExportOptionsView {
    pub input_path: Seq<char>,
    pub output_path: Seq<char>,
    pub trim_start: i64,
    pub trim_end: i64,
}

impl View for ExportOptions {
    type V = ExportOptionsView;

    open spec fn view(&self) -> ExportOptionsView {
        ExportOptionsView {
            input_path: self.input_path@,
            output_path: self.output_path@,
            trim_start: self.trim_start,
            trim_end: self.trim_end,
        }
    }
}

/// Why a timeline is refused before any work is done for it.
#[derive(Debug, Clone, Copy, PartialEq, Eq)]
pub enum ValidationError {
    /// The timeline holds no clip.
    EmptyTimeline,
    /// The clip at `index` has `trim_end <= trim_start`.
    InvalidClipTrim { index: usize },
    /// The global trim window is empty, reversed, or starts before zero.
    InvalidGlobalTrim,
    /// No clip lies on track 0.
    NoMainTrack,
}

/// The message of a refusal.
pub open spec fn refusal_text(error: ValidationError) -> Seq<char> {
    match error {
        ValidationError::EmptyTimeline => "No clips provided"@,
        ValidationError::InvalidClipTrim { index } => "Invalid trim range for clip "@ + decimal(
            index as nat,
        ),
        ValidationError::InvalidGlobalTrim => "Invalid global trim range"@,
        ValidationError::NoMainTrack => "No main track clips found (track 0)"@,
    }
}

impl ValidationError {
    /// The message of the refusal, for the caller.
    pub fn message(&self) -> (s: String)
        ensures
            s@ == refusal_text(*self),
    {
        match self {
            ValidationError::EmptyTimeline => String::from_str("No clips provided"),
            ValidationError::InvalidClipTrim { index } => {
                let s = numbered("Invalid trim range for clip ", *index, "");
                proof {
                    reveal_strlit("");
                    assert(s@ =~= refusal_text(*self));
                }
                s
            },
            ValidationError::InvalidGlobalTrim => String::from_str("Invalid global trim range"),
            ValidationError::NoMainTrack => String::from_str("No main track clips found (track 0)"),
        }
    }
}

impl MultiTrackExportOptions {
    /// Runs the checks in order: a non-empty clip list, every clip's trim
    /// window, the global trim window, a clip on the main track.
    pub fn check(&self) -> (r: Result<(), ValidationError>)
        ensures
            r is Ok <==> self@.valid(),
            r matches Err(e) ==> self@.rejected_with(e) && e == self@.rejection(),
    {
        let r = self.run_checks();
        proof {
            if let Err(e) = r {
                lemma_rejection_is_exact(self@, e, self@.rejection());
            }
        }
        r
    }

    fn run_checks(&self) -> (r: Result<(), ValidationError>)
        ensures
            r is Ok <==> self@.valid(),
            r matches Err(e) ==> self@.rejected_with(e),
    {
        let n = self.clips.len();
        if n == 0 {
            return Err(ValidationError::EmptyTimeline);
        }
        let mut i: usize = 0;
        while i < n
            invariant
                n == self.clips.len(),
                i <= n,
                forall|j: int| 0 <= j < i ==> (#[trigger] self@.clips[j]).trim_ok(),
            decreases n - i,
        {
            if self.clips[i].trim_end <= self.clips[i].trim_start {
                assert(!self@.clips[i as int].trim_ok());
                return Err(ValidationError::InvalidClipTrim { index: i });
            }
            i = i + 1;
        }
        if self.global_trim_start < 0 || self.global_trim_end <= self.global_trim_start {
            return Err(ValidationError::InvalidGlobalTrim);
        }
        let mut k: usize = 0;
        while k < n
            invariant
                n == self.clips.len(),
                0 < n,
                k <= n,
                self@.all_trims_ok(),
                self@.global_trim_ok(),
                forall|j: int| 0 <= j < k ==> !(#[trigger] self@.clips[j]).on_main_track(),
            decreases n - k,
        {
            if self.clips[k].track_id == 0 {
                assert(self@.clips[k as int].on_main_track());
                return Ok(());
            }
            k = k + 1;
        }
        Err(ValidationError::NoMainTrack)
    }
}

/// A rejected timeline is not valid, and the error names the one check that
/// failed first: no timeline is rejected with two different errors.
pub proof fn lemma_rejection_is_exact(t: TimelineView, a: ValidationError, b: ValidationError)
    requires
        t.rejected_with(a),
    ensures
        !t.valid(),
        t.rejected_with(b) ==> a == b,
{
    match a {
        ValidationError::InvalidClipTrim { index } => {
            assert(!t.clips[index as int].trim_ok());
            if let ValidationError::InvalidClipTrim { index: other } = b {
                if t.rejected_with(b) {
                    assert(!t.clips[other as int].trim_ok());
                    assert(index == other);
                }
            }
        },
        _ => {
            if let ValidationError::InvalidClipTrim { index: other } = b {
                if t.rejected_with(b) {
                    assert(!t.clips[other as int].trim_ok());
                }
            }
        },
    }
}

/// A timeline is refused exactly when its clip list is empty, some clip has
/// `trim_end <= trim_start`, the global trim window is not `0 <= start < end`,
/// or no clip lies on track 0.
pub proof fn lemma_valid_iff_no_defect(t: TimelineView)
    ensures
        t.valid() <==> !(t.clips.len() == 0 || (exists|i: int|
            0 <= i < t.clips.len() && (#[trigger] t.clips[i]).trim_end <= t.clips[i].trim_start)
            || t.global_trim_end <= t.global_trim_start || t.global_trim_start < 0 || (forall|i: int|
            0 <= i < t.clips.len() ==> (#[trigger] t.clips[i]).track_id != 0)),
{
    if t.all_trims_ok() {
        assert forall|i: int| 0 <= i < t.clips.len() implies !((#[trigger] t.clips[i]).trim_end
            <= t.clips[i].trim_start) by {
            assert(t.clips[i].trim_ok());
        }
    } else {
        let i = choose|i: int| 0 <= i < t.clips.len() && !(#[trigger] t.clips[i]).trim_ok();
        assert(t.clips[i].trim_end <= t.clips[i].trim_start);
    }
    if t.has_main_clip() {
        let i = choose|i: int| 0 <= i < t.clips.len() && (#[trigger] t.clips[i]).on_main_track();
        assert(t.clips[i].track_id == 0);
    } else {
        assert forall|i: int| 0 <= i < t.clips.len() implies (#[trigger] t.clips[i]).track_id
            != 0 by {
            assert(!t.clips[i].on_main_track());
        }
    }
}

} // verus!
