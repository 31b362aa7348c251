//! The plan of an export: every unit of outside work, in order, compiled
//! from the request before anything is run.

use vstd::prelude::*;
use crate::graph::Layer;
use crate::invocation::Invocation;
use crate::invocation::audio_trim_args;
use crate::invocation::copy_trim_args;
use crate::invocation::texts;
use crate::invocation::video_trim_args;
use crate::step::PlannedStep;
use crate::step::StepView;
use crate::step::Work;
use crate::step::WorkView;
use crate::step::step_views;
use crate::text::decimal;
use crate::text::numbered;
use crate::timeline::ClipView;
use crate::timeline::MultiTrackClip;
use crate::timeline::clip_views;
use crate::window::Window;
use crate::window::effective_window;
use crate::window::window_of;
use crate::workspace::Asset;
use crate::workspace::Workspace;
use crate::workspace::asset_path;

verus! {

/// What a trim keeps of its clip, and for which track.
#[derive(Debug, Clone, Copy, PartialEq, Eq)]
pub enum TrimKind {
    /// The video of a main-track clip.
    MainVideo,
    /// The video of an overlay clip.
    OverlayVideo,
    /// The audio of a main-track clip.
    MainAudio,
    /// Both streams of a clip of a single-track export, copied.
    Segment,
}

/// The asset that trim number `k` of a kind writes.
pub open spec fn trim_asset(kind: TrimKind, k: usize) -> Asset {
    match kind {
        TrimKind::MainVideo => Asset::MainClip(k),
        TrimKind::OverlayVideo => Asset::Overlay(k),
        TrimKind::MainAudio => Asset::MainAudioClip(k),
        TrimKind::Segment => Asset::Clip(k),
    }
}

/// The arguments of a trim of a kind.
pub open spec fn trim_args(
    kind: TrimKind,
    input: Seq<char>,
    trim_start: int,
    span: int,
    output: Seq<char>,
) -> Seq<Seq<char>> {
    match kind {
        TrimKind::MainVideo => video_trim_args(input, trim_start, span, output),
        TrimKind::OverlayVideo => video_trim_args(input, trim_start, span, output),
        TrimKind::MainAudio => audio_trim_args(input, trim_start, span, output),
        TrimKind::Segment => copy_trim_args(input, trim_start, span, output),
    }
}

/// The words before the tool's diagnostics when trim number `k` fails.
pub open spec fn trim_failure_prefix(kind: TrimKind, k: nat) -> Seq<char> {
    match kind {
        TrimKind::MainVideo => "FFmpeg error creating main clip "@ + decimal(k) + ": "@,
        TrimKind::OverlayVideo => "FFmpeg error creating overlay video "@ + decimal(k) + ": "@,
        TrimKind::MainAudio => "FFmpeg error extracting audio from clip "@ + decimal(k) + ": "@,
        TrimKind::Segment => "FFmpeg error trimming clip "@ + decimal(k) + ": "@,
    }
}

/// The words before the reason when the tool cannot be started for trim
/// number `k`.
pub open spec fn trim_refusal_prefix(kind: TrimKind, k: nat) -> Seq<char> {
    match kind {
        TrimKind::MainVideo => "Failed to execute FFmpeg for main clip "@ + decimal(k) + ": "@,
        TrimKind::OverlayVideo => "Failed to execute FFmpeg for overlay video "@ + decimal(k)
            + ": "@,
        TrimKind::MainAudio => "Failed to execute FFmpeg for audio extraction from clip "@
            + decimal(k) + ": "@,
        TrimKind::Segment => "Failed to execute FFmpeg for clip "@ + decimal(k) + ": "@,
    }
}

/// Trim number `k` of a kind: the stretch `[trim_start, trim_end)` of `input`
/// is written to the asset of that number in the scratch directory `dir`.
/// The duration handed to the tool is `trim_end - trim_start`.
pub open spec fn trim_step(
    kind: TrimKind,
    k: usize,
    input: Seq<char>,
    trim_start: int,
    trim_end: int,
    dir: Seq<char>,
) -> StepView {
    StepView {
        work: WorkView::Run {
            args: trim_args(
                kind,
                input,
                trim_start,
                trim_end - trim_start,
                asset_path(dir, trim_asset(kind, k)),
            ),
        },
        failure_prefix: trim_failure_prefix(kind, k as nat),
        refusal_prefix: trim_refusal_prefix(kind, k as nat),
    }
}

fn asset_of(kind: TrimKind, k: usize) -> (a: Asset)
    ensures
        a == trim_asset(kind, k),
{
    match kind {
        TrimKind::MainVideo => Asset::MainClip(k),
        TrimKind::OverlayVideo => Asset::Overlay(k),
        TrimKind::MainAudio => Asset::MainAudioClip(k),
        TrimKind::Segment => Asset::Clip(k),
    }
}

/// Plans trim number `ordinal` of a kind. A clip whose stretch is empty or
/// reversed needs no work and gets no step.
pub fn plan_trim(
    kind: TrimKind,
    ordinal: usize,
    input: &str,
    trim_start: i64,
    trim_end: i64,
    workspace: &Workspace,
) -> (r: Option<PlannedStep>)
    ensures
        r is Some <==> trim_end > trim_start,
        r matches Some(step) ==> step@ == trim_step(
            kind,
            ordinal,
            input@,
            trim_start as int,
            trim_end as int,
            workspace.dir@,
        ),
{
    if trim_end <= trim_start {
        return None;
    }
    let output = workspace.path_of(asset_of(kind, ordinal));
    let (invocation, failure_prefix, refusal_prefix) = match kind {
        TrimKind::MainVideo => (
            Invocation::video_trim(input, trim_start, trim_end, output.as_str()),
            numbered("FFmpeg error creating main clip ", ordinal, ": "),
            numbered("Failed to execute FFmpeg for main clip ", ordinal, ": "),
        ),
        TrimKind::OverlayVideo => (
            Invocation::video_trim(input, trim_start, trim_end, output.as_str()),
            numbered("FFmpeg error creating overlay video ", ordinal, ": "),
            numbered("Failed to execute FFmpeg for overlay video ", ordinal, ": "),
        ),
        TrimKind::MainAudio => (
            Invocation::audio_trim(input, trim_start, trim_end, output.as_str()),
            numbered("FFmpeg error extracting audio from clip ", ordinal, ": "),
            numbered("Failed to execute FFmpeg for audio extraction from clip ", ordinal, ": "),
        ),
        TrimKind::Segment => (
            Invocation::copy_trim(input, trim_start, trim_end, output.as_str()),
            numbered("FFmpeg error trimming clip ", ordinal, ": "),
            numbered("Failed to execute FFmpeg for clip ", ordinal, ": "),
        ),
    };
    Some(PlannedStep { work: Work::Run { invocation }, failure_prefix, refusal_prefix })
}

/// The trims of one track, one per clip, in processing order.
pub open spec fn track_trim_steps(
    kind: TrimKind,
    clips: Seq<ClipView>,
    order: Seq<usize>,
    dir: Seq<char>,
) -> Seq<StepView> {
    Seq::new(
        order.len(),
        |k: int|
            trim_step(
                kind,
                k as usize,
                clips[order[k] as int].input_path,
                clips[order[k] as int].trim_start as int,
                clips[order[k] as int].trim_end as int,
                dir,
            ),
    )
}

/// The assets that the first `count` trims of a kind write, in order.
pub open spec fn track_assets(kind: TrimKind, count: nat, dir: Seq<char>) -> Seq<Seq<char>> {
    Seq::new(count, |k: int| asset_path(dir, trim_asset(kind, k as usize)))
}

/// The effective output windows of the clips of one track, in processing
/// order.
pub open spec fn track_windows(
    clips: Seq<ClipView>,
    order: Seq<usize>,
    global_trim_start: int,
    global_trim_end: int,
) -> Seq<Window> {
    Seq::new(
        order.len(),
        |k: int| effective_window(clips[order[k] as int], global_trim_start, global_trim_end),
    )
}

/// What the graph builder is told of an overlay clip.
pub open spec fn layer_of(c: ClipView, global_trim_start: int, global_trim_end: int) -> Layer {
    Layer {
        x: c.position().0,
        y: c.position().1,
        width: c.size().0,
        height: c.size().1,
        opacity: c.opacity(),
        window: effective_window(c, global_trim_start, global_trim_end),
    }
}

/// What the graph builder is told of the overlay clips, in processing order.
pub open spec fn track_layers(
    clips: Seq<ClipView>,
    order: Seq<usize>,
    global_trim_start: int,
    global_trim_end: int,
) -> Seq<Layer> {
    Seq::new(
        order.len(),
        |k: int| layer_of(clips[order[k] as int], global_trim_start, global_trim_end),
    )
}

/// Every index in `order` names a clip, and that clip keeps a non-empty
/// stretch of its source.
pub open spec fn order_is_trimmable(clips: Seq<ClipView>, order: Seq<usize>) -> bool {
    forall|k: int|
        0 <= k < order.len() ==> (#[trigger] order[k]) < clips.len() && clips[order[k] as int].trim_ok()
}

/// Plans the trims of one track and names the assets they write.
pub(crate) fn plan_track_trims(
    kind: TrimKind,
    clips: &Vec<MultiTrackClip>,
    order: &Vec<usize>,
    workspace: &Workspace,
) -> (r: (Vec<PlannedStep>, Vec<String>))
    requires
        order_is_trimmable(clip_views(clips@), order@),
    ensures
        step_views(r.0@) == track_trim_steps(kind, clip_views(clips@), order@, workspace.dir@),
        texts(r.1@) == track_assets(kind, order@.len(), workspace.dir@),
{
    let ghost views = clip_views(clips@);
    let ghost dir = workspace.dir@;
    let mut steps: Vec<PlannedStep> = Vec::new();
    let mut assets: Vec<String> = Vec::new();
    let mut k: usize = 0;
    while k < order.len()
        invariant
            k <= order.len(),
            views == clip_views(clips@),
            dir == workspace.dir@,
            order_is_trimmable(views, order@),
            steps.len() == k,
            assets.len() == k,
            forall|j: int|
                0 <= j < k ==> (#[trigger] steps[j])@ == track_trim_steps(kind, views, order@, dir)[j],
            forall|j: int|
                0 <= j < k ==> (#[trigger] assets[j])@ == track_assets(kind, order@.len(), dir)[j],
        decreases order.len() - k,
    {
        let index = order[k];
        let clip = &clips[index];
        assert(views[index as int] == clip@);
        assert(views[index as int].trim_ok());
        match plan_trim(
            kind,
            k,
            clip.input_path.as_str(),
            clip.trim_start,
            clip.trim_end,
            workspace,
        ) {
            Some(step) => {
                steps.push(step);
                assets.push(workspace.path_of(asset_of(kind, k)));
            },
            None => {},
        }
        k = k + 1;
    }
    assert(step_views(steps@) =~= track_trim_steps(kind, views, order@, dir));
    assert(texts(assets@) =~= track_assets(kind, order@.len(), dir));
    (steps, assets)
}

/// Computes the effective output windows of the clips of one track.
pub(crate) fn windows_of_track(
    clips: &Vec<MultiTrackClip>,
    order: &Vec<usize>,
    global_trim_start: i64,
    global_trim_end: i64,
) -> (r: Vec<Window>)
    requires
        forall|k: int| 0 <= k < order.len() ==> (#[trigger] order[k]) < clips.len(),
    ensures
        r@ == track_windows(
            clip_views(clips@),
            order@,
            global_trim_start as int,
            global_trim_end as int,
        ),
{
    let mut windows: Vec<Window> = Vec::new();
    let mut k: usize = 0;
    while k < order.len()
        invariant
            k <= order.len(),
            forall|j: int| 0 <= j < order.len() ==> (#[trigger] order[j]) < clips.len(),
            windows.len() == k,
            forall|j: int|
                0 <= j < k ==> #[trigger] windows[j] == effective_window(
                    clip_views(clips@)[order[j] as int],
                    global_trim_start as int,
                    global_trim_end as int,
                ),
        decreases order.len() - k,
    {
        let clip = &clips[order[k]];
        windows.push(window_of(clip, global_trim_start, global_trim_end));
        k = k + 1;
    }
    assert(windows@ =~= track_windows(
        clip_views(clips@),
        order@,
        global_trim_start as int,
        global_trim_end as int,
    ));
    windows
}

/// Collects what the graph builder needs of the overlay clips.
pub(crate) fn layers_of_track(
    clips: &Vec<MultiTrackClip>,
    order: &Vec<usize>,
    global_trim_start: i64,
    global_trim_end: i64,
) -> (r: Vec<Layer>)
    requires
        forall|k: int| 0 <= k < order.len() ==> (#[trigger] order[k]) < clips.len(),
    ensures
        r@ == track_layers(
            clip_views(clips@),
            order@,
            global_trim_start as int,
            global_trim_end as int,
        ),
{
    let mut layers: Vec<Layer> = Vec::new();
    let mut k: usize = 0;
    while k < order.len()
        invariant
            k <= order.len(),
            forall|j: int| 0 <= j < order.len() ==> (#[trigger] order[j]) < clips.len(),
            layers.len() == k,
            forall|j: int|
                0 <= j < k ==> #[trigger] layers[j] == layer_of(
                    clip_views(clips@)[order[j] as int],
                    global_trim_start as int,
                    global_trim_end as int,
                ),
        decreases order.len() - k,
    {
        let clip = &clips[order[k]];
        let spec = clip.overlay_spec();
        layers.push(
            Layer {
                x: spec.position.0,
                y: spec.position.1,
                width: spec.size.0,
                height: spec.size.1,
                opacity: spec.opacity,
                window: window_of(clip, global_trim_start, global_trim_end),
            },
        );
        k = k + 1;
    }
    assert(layers@ =~= track_layers(
        clip_views(clips@),
        order@,
        global_trim_start as int,
        global_trim_end as int,
    ));
    layers
}

} // verus!
