//! The three exports: one trimmed clip, several clips joined end to end,
//! and a multi-track timeline. Each is checked and compiled into a plan.

use vstd::prelude::*;
use crate::audio::assemble_audio;
use crate::audio::audio_assembly;
use crate::audio::concat_list;
use crate::audio::concat_list_text;
use crate::graph::Label;
use crate::graph::Layer;
use crate::graph::lemma_main_graph_well_formed;
use crate::graph::lemma_overlay_graph_well_formed;
use crate::graph::main_input_count;
use crate::graph::well_formed;
use crate::graph::build_main_graph;
use crate::graph::build_overlay_graph;
use crate::graph::graph_text;
use crate::graph::label_text;
use crate::graph::last_main_label;
use crate::graph::main_graph;
use crate::graph::main_last_label;
use crate::graph::overlay_graph;
use crate::graph::render_graph;
use crate::graph::render_label;
use crate::invocation::Invocation;
use crate::invocation::assembly_args;
use crate::invocation::background_args;
use crate::invocation::composition_args;
use crate::invocation::concat_args;
use crate::invocation::copy_trim_args;
use crate::invocation::push_texts;
use crate::invocation::texts;
use crate::plan::TrimKind;
use crate::plan::layers_of_track;
use crate::plan::order_is_trimmable;
use crate::plan::plan_track_trims;
use crate::plan::plan_trim;
use crate::plan::track_assets;
use crate::plan::track_layers;
use crate::plan::track_trim_steps;
use crate::plan::track_windows;
use crate::plan::trim_step;
use crate::plan::windows_of_track;
use crate::step::ErrorKind;
use crate::step::ErrorView;
use crate::step::ExportError;
use crate::step::PlannedStep;
use crate::step::StepView;
use crate::step::Work;
use crate::step::WorkView;
use crate::step::append_steps;
use crate::step::push_step;
use crate::step::step_views;
use crate::timeline::ClipData;
use crate::timeline::ClipDataView;
use crate::timeline::ExportOptions;
use crate::timeline::ExportOptionsView;
use crate::timeline::MultiTrackExportOptions;
use crate::timeline::TimelineView;
use crate::timeline::ValidationError;
use crate::timeline::clip_data_views;
use crate::timeline::refusal_text;
use crate::tracks::ValidatedTimeline;
use crate::tracks::selected;
use crate::tracks::track_order_of;
use crate::tracks::validate;
use crate::window::Window;
use crate::workspace::Asset;
use crate::workspace::Workspace;
use crate::workspace::asset_path;

verus! {

/// What the final composition of a multi-track export is made from: the
/// assembled main track and the overlays, the assembled audio, what the
/// graph builder is told of each overlay, and the destination.
#[derive(Debug, PartialEq, Eq)]
pub struct Composition {
    pub video_inputs: Vec<String>,
    pub audio_input: String,
    pub layers: Vec<Layer>,
    pub output: String,
}

/// The mathematical content of a [`Composition`].
pub struct CompositionView {
    pub video_inputs: Seq<Seq<char>>,
    pub audio_input: Seq<char>,
    pub layers: Seq<Layer>,
    pub output: Seq<char>,
}

impl View for Composition {
    type V = CompositionView;

    open spec fn view(&self) -> CompositionView {
        CompositionView {
            video_inputs: texts(self.video_inputs@),
            audio_input: self.audio_input@,
            layers: self.layers@,
            output: self.output@,
        }
    }
}

/// The last invocation of an export: given as it is, or still to be built
/// from a composition.
#[derive(Debug, PartialEq, Eq)]
pub enum FinalStep {
    Direct(Invocation),
    Layered(Composition),
}

/// The mathematical content of a [`FinalStep`].
pub enum FinalView {
    Direct(Seq<Seq<char>>),
    Layered(CompositionView),
}

impl View for FinalStep {
    type V = FinalView;

    open spec fn view(&self) -> FinalView {
        match self {
            FinalStep::Direct(invocation) => FinalView::Direct(invocation@),
            FinalStep::Layered(composition) => FinalView::Layered(composition@),
        }
    }
}

/// The arguments of the last invocation. For a composition the graph is
/// built from the layers and written out here.
pub open spec fn final_args(last: FinalView) -> Seq<Seq<char>> {
    match last {
        FinalView::Direct(args) => args,
        FinalView::Layered(c) => composition_args(
            c.video_inputs,
            c.audio_input,
            graph_text(overlay_graph(c.layers)),
            c.output,
        ),
    }
}

impl FinalStep {
    /// Builds the last invocation.
    pub fn render(&self) -> (r: Invocation)
        ensures
            r@ == final_args(self@),
    {
        match self {
            FinalStep::Direct(invocation) => invocation.duplicate(),
            FinalStep::Layered(c) => {
                let graph = build_overlay_graph(&c.layers);
                let text = render_graph(&graph);
                Invocation::composition(
                    &c.video_inputs,
                    c.audio_input.as_str(),
                    text.as_str(),
                    c.output.as_str(),
                )
            },
        }
    }
}

/// Everything an export will do, in order: the scratch directory it owns, if
/// any; the preprocessing steps; the audio steps; the last invocation with
/// the words that open its error messages; and the message of success.
#[derive(Debug, PartialEq, Eq)]
pub struct ExportPlan {
    pub workspace: Option<String>,
    pub preprocessing: Vec<PlannedStep>,
    pub audio: Vec<PlannedStep>,
    pub last: FinalStep,
    pub failure_prefix: String,
    pub refusal_prefix: String,
    pub success: String,
}

/// The mathematical content of an [`ExportPlan`].
pub struct PlanView {
    pub workspace: Option<Seq<char>>,
    pub preprocessing: Seq<StepView>,
    pub audio: Seq<StepView>,
    pub last: FinalView,
    pub failure_prefix: Seq<char>,
    pub refusal_prefix: Seq<char>,
    pub success: Seq<char>,
}

impl View for ExportPlan {
    type V = PlanView;

    open spec fn view(&self) -> PlanView {
        PlanView {
            workspace: match self.workspace {
                Some(dir) => Some(dir@),
                None => None,
            },
            preprocessing: step_views(self.preprocessing@),
            audio: step_views(self.audio@),
            last: self.last@,
            failure_prefix: self.failure_prefix@,
            refusal_prefix: self.refusal_prefix@,
            success: self.success@,
        }
    }
}

/// The mathematical content of what checking and compiling a request gives.
pub open spec fn compiled_view(r: Result<ExportPlan, ExportError>) -> Result<PlanView, ErrorView> {
    match r {
        Ok(plan) => Ok(plan@),
        Err(e) => Err(e@),
    }
}

/// The error of a refused request.
pub open spec fn validation_failure(error: ValidationError) -> ErrorView {
    ErrorView { kind: ErrorKind::Validation, message: refusal_text(error) }
}

fn refusal(error: ValidationError) -> (e: ExportError)
    ensures
        e@ == validation_failure(error),
{
    ExportError { kind: ErrorKind::Validation, message: error.message() }
}

/// The step that creates the scratch directory.
pub open spec fn create_dir_step(dir: Seq<char>) -> StepView {
    StepView {
        work: WorkView::CreateDir { path: dir },
        failure_prefix: "Failed to create temp directory: "@,
        refusal_prefix: "Failed to create temp directory: "@,
    }
}

// ---------------------------------------------------------------------------
// One trimmed clip
// ---------------------------------------------------------------------------
/// A single-clip export is accepted when its stretch starts at or after zero
/// and is not empty.
pub open spec fn single_clip_valid(o: ExportOptionsView) -> bool {
    o.trim_start >= 0 && o.trim_end > o.trim_start
}

/// The error of a refused single-clip export.
pub open spec fn single_clip_refusal() -> ErrorView {
    ErrorView { kind: ErrorKind::Validation, message: "Invalid trim range"@ }
}

/// The plan of a single-clip export: one invocation that copies the stretch
/// from the input to the output, with the duration `trim_end - trim_start`.
/// It needs no scratch directory.
pub open spec fn single_clip_plan(o: ExportOptionsView) -> PlanView {
    PlanView {
        workspace: None,
        preprocessing: Seq::empty(),
        audio: Seq::empty(),
        last: FinalView::Direct(
            copy_trim_args(o.input_path, o.trim_start as int, o.trim_end - o.trim_start, o.output_path),
        ),
        failure_prefix: "FFmpeg error: "@,
        refusal_prefix: "Failed to execute FFmpeg. Make sure FFmpeg is installed and in your PATH. Error: "@,
        success: "Video exported successfully to: "@ + o.output_path,
    }
}

/// What checking and compiling a single-clip export gives.
pub open spec fn compiled_trimmed(o: ExportOptionsView) -> Result<PlanView, ErrorView> {
    if single_clip_valid(o) {
        Ok(single_clip_plan(o))
    } else {
        Err(single_clip_refusal())
    }
}

/// Checks and compiles the export of one trimmed clip.
pub fn export_trimmed_video(options: &ExportOptions) -> (r: Result<ExportPlan, ExportError>)
    ensures
        r is Ok <==> single_clip_valid(options@),
        compiled_view(r) == compiled_trimmed(options@),
{
    if options.trim_start < 0 || options.trim_end <= options.trim_start {
        return Err(
            ExportError {
                kind: ErrorKind::Validation,
                message: String::from_str("Invalid trim range"),
            },
        );
    }
    let invocation = Invocation::copy_trim(
        options.input_path.as_str(),
        options.trim_start,
        options.trim_end,
        options.output_path.as_str(),
    );
    let mut success = String::from_str("Video exported successfully to: ");
    success.append(options.output_path.as_str());
    let plan = ExportPlan {
        workspace: None,
        preprocessing: Vec::new(),
        audio: Vec::new(),
        last: FinalStep::Direct(invocation),
        failure_prefix: String::from_str("FFmpeg error: "),
        refusal_prefix: String::from_str(
            "Failed to execute FFmpeg. Make sure FFmpeg is installed and in your PATH. Error: ",
        ),
        success,
    };
    assert(plan@.preprocessing =~= Seq::<StepView>::empty());
    assert(plan@.audio =~= Seq::<StepView>::empty());
    Ok(plan)
}

// ---------------------------------------------------------------------------
// Several clips joined end to end
// ---------------------------------------------------------------------------
/// Clip `index` is the first whose stretch is empty or reversed.
pub open spec fn first_bad_segment(clips: Seq<ClipDataView>, index: int) -> bool {
    &&& 0 <= index < clips.len()
    &&& clips[index].trim_end <= clips[index].trim_start
    &&& forall|j: int| 0 <= j < index ==> (#[trigger] clips[j]).trim_end > clips[j].trim_start
}

/// A list of clips can be joined when it is not empty and every clip keeps a
/// non-empty stretch.
pub open spec fn segments_valid(clips: Seq<ClipDataView>) -> bool {
    &&& clips.len() > 0
    &&& forall|j: int| 0 <= j < clips.len() ==> (#[trigger] clips[j]).trim_end > clips[j].trim_start
}

/// An empty list is refused as such; otherwise the first clip with an empty
/// or reversed stretch is the error.
pub open spec fn segments_rejected_with(clips: Seq<ClipDataView>, error: ValidationError) -> bool {
    match error {
        ValidationError::EmptyTimeline => clips.len() == 0,
        ValidationError::InvalidClipTrim { index } => first_bad_segment(clips, index as int),
        _ => false,
    }
}

/// The trims of a single-track export, one per clip, in the given order.
pub open spec fn segment_trim_steps(clips: Seq<ClipDataView>, dir: Seq<char>) -> Seq<StepView> {
    Seq::new(
        clips.len(),
        |k: int|
            trim_step(
                TrimKind::Segment,
                k as usize,
                clips[k].input_path,
                clips[k].trim_start as int,
                clips[k].trim_end as int,
                dir,
            ),
    )
}

/// The step that writes the list file of a single-track export: one line
/// per trimmed clip, in the order of the clips.
pub open spec fn segment_list_step(count: nat, dir: Seq<char>) -> StepView {
    StepView {
        work: WorkView::WriteText {
            path: asset_path(dir, Asset::ClipList),
            content: concat_list_text(track_assets(TrimKind::Segment, count, dir)),
        },
        failure_prefix: "Failed to write concat file: "@,
        refusal_prefix: "Failed to write concat file: "@,
    }
}

/// The plan of a single-track export: the scratch directory is created, each
/// clip is trimmed into it, the trimmed clips are listed in input order, and
/// one invocation joins them in the list's order into the output.
pub open spec fn multi_clip_plan(clips: Seq<ClipDataView>, output: Seq<char>, dir: Seq<char>) -> PlanView {
    PlanView {
        workspace: Some(dir),
        preprocessing: seq![create_dir_step(dir)] + segment_trim_steps(clips, dir) + seq![
            segment_list_step(clips.len(), dir),
        ],
        audio: Seq::empty(),
        last: FinalView::Direct(concat_args(asset_path(dir, Asset::ClipList), false, output)),
        failure_prefix: "FFmpeg concatenation error: "@,
        refusal_prefix: "Failed to execute FFmpeg concatenation. Error: "@,
        success: "Multi-clip video exported successfully to: "@ + output,
    }
}

/// The error with which a list of clips that cannot be joined is refused.
pub open spec fn segments_rejection(clips: Seq<ClipDataView>) -> ValidationError {
    choose|error: ValidationError| segments_rejected_with(clips, error)
}

/// A refused list of clips cannot be joined, and it is refused with one
/// error only.
pub proof fn lemma_segments_rejection_is_exact(
    clips: Seq<ClipDataView>,
    a: ValidationError,
    b: ValidationError,
)
    requires
        segments_rejected_with(clips, a),
    ensures
        !segments_valid(clips),
        segments_rejected_with(clips, b) ==> a == b,
{
    if let ValidationError::InvalidClipTrim { index } = a {
        assert(clips[index as int].trim_end <= clips[index as int].trim_start);
        if let ValidationError::InvalidClipTrim { index: other } = b {
            if segments_rejected_with(clips, b) {
                assert(clips[other as int].trim_end <= clips[other as int].trim_start);
            }
        }
    }
}

/// What checking and compiling a single-track export gives.
pub open spec fn compiled_joined(clips: Seq<ClipDataView>, output: Seq<char>, dir: Seq<char>) -> Result<
    PlanView,
    ErrorView,
> {
    if segments_valid(clips) {
        Ok(multi_clip_plan(clips, output, dir))
    } else {
        Err(validation_failure(segments_rejection(clips)))
    }
}

fn check_segments(clips: &Vec<ClipData>) -> (r: Result<(), ValidationError>)
    ensures
        r is Ok <==> segments_valid(clip_data_views(clips@)),
        r matches Err(e) ==> segments_rejected_with(clip_data_views(clips@), e) && e
            == segments_rejection(clip_data_views(clips@)),
{
    let r = find_bad_segment(clips);
    proof {
        if let Err(e) = r {
            let views = clip_data_views(clips@);
            lemma_segments_rejection_is_exact(views, e, segments_rejection(views));
        }
    }
    r
}

fn find_bad_segment(clips: &Vec<ClipData>) -> (r: Result<(), ValidationError>)
    ensures
        r is Ok <==> segments_valid(clip_data_views(clips@)),
        r matches Err(e) ==> segments_rejected_with(clip_data_views(clips@), e),
{
    let ghost views = clip_data_views(clips@);
    if clips.len() == 0 {
        return Err(ValidationError::EmptyTimeline);
    }
    let mut i: usize = 0;
    while i < clips.len()
        invariant
            i <= clips.len(),
            views == clip_data_views(clips@),
            forall|j: int| 0 <= j < i ==> (#[trigger] views[j]).trim_end > views[j].trim_start,
        decreases clips.len() - i,
    {
        if clips[i].trim_end <= clips[i].trim_start {
            assert(views[i as int].trim_end <= views[i as int].trim_start);
            return Err(ValidationError::InvalidClipTrim { index: i });
        }
        i = i + 1;
    }
    Ok(())
}

/// Checks and compiles the export of several clips joined end to end.
pub fn export_multi_clip_video(clips: &Vec<ClipData>, output_path: &str, workspace: &Workspace) -> (r:
    Result<ExportPlan, ExportError>)
    ensures
        r is Ok <==> segments_valid(clip_data_views(clips@)),
        compiled_view(r) == compiled_joined(clip_data_views(clips@), output_path@, workspace.dir@),
{
    let ghost views = clip_data_views(clips@);
    let ghost dir = workspace.dir@;
    match check_segments(clips) {
        Err(v) => {
            return Err(refusal(v));
        },
        Ok(()) => {},
    }
    let mut steps: Vec<PlannedStep> = Vec::new();
    assert(step_views(steps@) =~= Seq::<StepView>::empty());
    push_step(
        &mut steps,
        Work::CreateDir { path: workspace.dir.clone() },
        "Failed to create temp directory: ",
        "Failed to create temp directory: ",
    );
    let mut trims: Vec<PlannedStep> = Vec::new();
    let mut assets: Vec<String> = Vec::new();
    let mut k: usize = 0;
    while k < clips.len()
        invariant
            k <= clips.len(),
            views == clip_data_views(clips@),
            dir == workspace.dir@,
            segments_valid(views),
            trims.len() == k,
            assets.len() == k,
            forall|j: int| 0 <= j < k ==> (#[trigger] trims[j])@ == segment_trim_steps(views, dir)[j],
            forall|j: int|
                0 <= j < k ==> (#[trigger] assets[j])@ == track_assets(
                    TrimKind::Segment,
                    views.len(),
                    dir,
                )[j],
        decreases clips.len() - k,
    {
        let clip = &clips[k];
        assert(views[k as int] == clip@);
        match plan_trim(
            TrimKind::Segment,
            k,
            clip.input_path.as_str(),
            clip.trim_start,
            clip.trim_end,
            workspace,
        ) {
            Some(step) => {
                trims.push(step);
                assets.push(workspace.path_of(Asset::Clip(k)));
            },
            None => {},
        }
        k = k + 1;
    }
    assert(step_views(trims@) =~= segment_trim_steps(views, dir));
    assert(texts(assets@) =~= track_assets(TrimKind::Segment, views.len(), dir));
    append_steps(&mut steps, trims);
    let list = workspace.path_of(Asset::ClipList);
    let joined = Invocation::concat(list.as_str(), false, output_path);
    push_step(
        &mut steps,
        Work::WriteText { path: list, content: concat_list(&assets) },
        "Failed to write concat file: ",
        "Failed to write concat file: ",
    );
    let mut success = String::from_str("Multi-clip video exported successfully to: ");
    success.append(output_path);
    let plan = ExportPlan {
        workspace: Some(workspace.dir.clone()),
        preprocessing: steps,
        audio: Vec::new(),
        last: FinalStep::Direct(joined),
        failure_prefix: String::from_str("FFmpeg concatenation error: "),
        refusal_prefix: String::from_str("Failed to execute FFmpeg concatenation. Error: "),
        success,
    };
    assert(plan@.audio =~= Seq::<StepView>::empty());
    assert(plan@.preprocessing =~= multi_clip_plan(views, output_path@, dir).preprocessing);
    Ok(plan)
}

/// The length of the joined output: the sum of the lengths of the stretches
/// that the clips keep. A clip that keeps nothing adds nothing.
pub open spec fn total_span(clips: Seq<ClipDataView>) -> int
    decreases clips.len(),
{
    if clips.len() == 0 {
        0
    } else {
        let last = clips.last();
        total_span(clips.drop_last()) + if last.trim_end > last.trim_start {
            last.trim_end - last.trim_start
        } else {
            0
        }
    }
}

/// Computes the length of the output that joining `clips` gives, in
/// microseconds.
pub fn assembled_span(clips: &Vec<ClipData>) -> (total: u128)
    ensures
        total == total_span(clip_data_views(clips@)),
{
    let ghost views = clip_data_views(clips@);
    let mut total: u128 = 0;
    let mut k: usize = 0;
    assert(views.take(0) =~= Seq::<ClipDataView>::empty());
    while k < clips.len()
        invariant
            k <= clips.len(),
            views == clip_data_views(clips@),
            total == total_span(views.take(k as int)),
            total <= k * 0xffff_ffff_ffff_ffff,
        decreases clips.len() - k,
    {
        let clip = &clips[k];
        proof {
            let upto = views.take(k + 1);
            assert(upto.drop_last() =~= views.take(k as int));
            assert(upto.last() == clip@);
        }
        if clip.trim_end > clip.trim_start {
            let span: u128 = (clip.trim_end as i128 - clip.trim_start as i128) as u128;
            total = total + span;
        }
        k = k + 1;
    }
    assert(views.take(k as int) =~= views);
    total
}

/// Determinism: two timelines with the same content, compiled for the same
/// scratch directory, have the same plan. Every file name, every argument
/// and the text of both graphs agree.
pub proof fn lemma_plan_is_determined(
    a: MultiTrackExportOptions,
    b: MultiTrackExportOptions,
    dir_a: Seq<char>,
    dir_b: Seq<char>,
)
    requires
        a@ == b@,
        dir_a == dir_b,
    ensures
        timeline_plan(a@, dir_a) == timeline_plan(b@, dir_b),
        final_args(timeline_plan(a@, dir_a).last) == final_args(timeline_plan(b@, dir_b).last),
{
}

// ---------------------------------------------------------------------------
// A multi-track timeline
// ---------------------------------------------------------------------------
/// The step that renders the black canvas under the main track.
pub open spec fn background_step(length: int, dir: Seq<char>) -> StepView {
    StepView {
        work: WorkView::Run { args: background_args(length, asset_path(dir, Asset::Background)) },
        failure_prefix: "FFmpeg error creating background: "@,
        refusal_prefix: "Failed to execute FFmpeg for background: "@,
    }
}

/// The canvas is needed only under two or more main-track clips, which are
/// placed on it one by one.
pub open spec fn background_steps(clips: nat, length: int, dir: Seq<char>) -> Seq<StepView> {
    if clips >= 2 {
        seq![background_step(length, dir)]
    } else {
        Seq::empty()
    }
}

/// The inputs of the main-track assembly, in the order in which its graph
/// numbers them: the canvas first when there is one, then the trimmed clips.
pub open spec fn assembly_inputs(clips: nat, dir: Seq<char>) -> Seq<Seq<char>> {
    if clips >= 2 {
        seq![asset_path(dir, Asset::Background)] + track_assets(TrimKind::MainVideo, clips, dir)
    } else {
        track_assets(TrimKind::MainVideo, clips, dir)
    }
}

/// The step that assembles the main track from its trimmed clips.
pub open spec fn assembly_step(windows: Seq<Window>, dir: Seq<char>) -> StepView {
    StepView {
        work: WorkView::Run {
            args: assembly_args(
                assembly_inputs(windows.len(), dir),
                graph_text(main_graph(windows)),
                label_text(main_last_label(windows.len())),
                asset_path(dir, Asset::MainVideo),
            ),
        },
        failure_prefix: "FFmpeg error creating main video: "@,
        refusal_prefix: "Failed to execute FFmpeg for main video: "@,
    }
}

/// The plan of a multi-track export whose main track is `main` and whose
/// overlays are `overlay`, both in processing order.
///
/// Preprocessing creates the scratch directory, renders the canvas if one is
/// needed, trims every main-track clip, assembles the main track, and trims
/// every overlay clip. The audio steps extract the audio of every main-track
/// clip and assemble it. The last invocation reads the assembled main track,
/// the overlays and the assembled audio, in that order.
pub open spec fn multi_track_plan(
    t: TimelineView,
    main: Seq<usize>,
    overlay: Seq<usize>,
    dir: Seq<char>,
) -> PlanView {
    let start = t.global_trim_start as int;
    let end = t.global_trim_end as int;
    PlanView {
        workspace: Some(dir),
        preprocessing: seq![create_dir_step(dir)] + background_steps(main.len(), t.total(), dir)
            + track_trim_steps(TrimKind::MainVideo, t.clips, main, dir) + seq![
            assembly_step(track_windows(t.clips, main, start, end), dir),
        ] + track_trim_steps(TrimKind::OverlayVideo, t.clips, overlay, dir),
        audio: track_trim_steps(TrimKind::MainAudio, t.clips, main, dir) + audio_assembly(
            dir,
            track_assets(TrimKind::MainAudio, main.len(), dir),
        ),
        last: FinalView::Layered(
            CompositionView {
                video_inputs: seq![asset_path(dir, Asset::MainVideo)] + track_assets(
                    TrimKind::OverlayVideo,
                    overlay.len(),
                    dir,
                ),
                audio_input: asset_path(dir, Asset::MainAudio),
                layers: track_layers(t.clips, overlay, start, end),
                output: t.output_path,
            },
        ),
        failure_prefix: "FFmpeg composition error: "@,
        refusal_prefix: "Failed to execute FFmpeg composition. Error: "@,
        success: "Multi-track video exported successfully to: "@ + t.output_path,
    }
}

/// The plan of a valid timeline: [`multi_track_plan`] over the processing
/// orders of its tracks.
pub open spec fn timeline_plan(t: TimelineView, dir: Seq<char>) -> PlanView {
    multi_track_plan(t, track_order_of(t.clips, true), track_order_of(t.clips, false), dir)
}

/// The inputs of each composite invocation are exactly the streams that
/// its graph reads, each under its place in the argument list: the main-track
/// assembly reads the canvas, if any, and the trimmed clips; the final
/// composition reads the assembled main track and the overlays, and maps the
/// audio input that follows them.
pub proof fn lemma_stream_indices_agree(
    t: TimelineView,
    main: Seq<usize>,
    overlay: Seq<usize>,
    dir: Seq<char>,
)
    requires
        0 < main.len() <= usize::MAX,
        overlay.len() < usize::MAX,
    ensures
        ({
            let windows = track_windows(
                t.clips,
                main,
                t.global_trim_start as int,
                t.global_trim_end as int,
            );
            let inputs = assembly_inputs(windows.len(), dir);
            &&& inputs.len() == main_input_count(main.len())
            &&& well_formed(main_graph(windows), inputs.len(), main_last_label(main.len()))
            &&& multi_track_plan(t, main, overlay, dir).last matches FinalView::Layered(c)
            &&& c.video_inputs.len() == c.layers.len() + 1
            &&& well_formed(overlay_graph(c.layers), c.video_inputs.len(), Label::Video)
        }),
{
    let windows = track_windows(t.clips, main, t.global_trim_start as int, t.global_trim_end as int);
    lemma_main_graph_well_formed(windows);
    lemma_overlay_graph_well_formed(
        track_layers(t.clips, overlay, t.global_trim_start as int, t.global_trim_end as int),
    );
}

/// A validated timeline has a main-track clip, and every clip in either
/// order keeps a non-empty stretch.
pub proof fn lemma_validated_orders(v: ValidatedTimeline)
    requires
        v.wf(),
    ensures
        v.main_order@.len() > 0,
        order_is_trimmable(v.options@.clips, v.main_order@),
        order_is_trimmable(v.options@.clips, v.overlay_order@),
{
    let clips = v.options@.clips;
    let i = choose|i: int| 0 <= i < clips.len() && (#[trigger] clips[i]).on_main_track();
    assert(selected(clips, true, i));
    assert(v.main_order@.contains(i as usize));
    assert forall|k: int| 0 <= k < v.main_order@.len() implies (#[trigger] v.main_order@[k])
        < clips.len() && clips[v.main_order@[k] as int].trim_ok() by {
        assert(clips[v.main_order@[k] as int].trim_ok());
    }
    assert forall|k: int| 0 <= k < v.overlay_order@.len() implies (#[trigger] v.overlay_order@[k])
        < clips.len() && clips[v.overlay_order@[k] as int].trim_ok() by {
        assert(clips[v.overlay_order@[k] as int].trim_ok());
    }
}

/// Compiles a validated timeline into its plan. A validated timeline always
/// has audio to assemble, so this never fails.
pub fn plan_multi_track(timeline: &ValidatedTimeline, workspace: &Workspace) -> (r: Result<
    ExportPlan,
    ExportError,
>)
    requires
        timeline.wf(),
    ensures
        r matches Ok(plan) && plan@ == timeline_plan(timeline.options@, workspace.dir@),
{
    let ghost t = timeline.options@;
    let ghost dir = workspace.dir@;
    let ghost main = timeline.main_order@;
    let ghost overlay = timeline.overlay_order@;
    let ghost expected = multi_track_plan(t, main, overlay, dir);
    proof {
        lemma_validated_orders(*timeline);
    }
    let clips = &timeline.options.clips;
    let start = timeline.options.global_trim_start;
    let end = timeline.options.global_trim_end;
    let n = timeline.main_order.len();
    let (main_trims, main_assets) = plan_track_trims(
        TrimKind::MainVideo,
        clips,
        &timeline.main_order,
        workspace,
    );
    let (overlay_trims, overlay_assets) = plan_track_trims(
        TrimKind::OverlayVideo,
        clips,
        &timeline.overlay_order,
        workspace,
    );
    let (audio_trims, audio_assets) = plan_track_trims(
        TrimKind::MainAudio,
        clips,
        &timeline.main_order,
        workspace,
    );
    let windows = windows_of_track(clips, &timeline.main_order, start, end);
    let layers = layers_of_track(clips, &timeline.overlay_order, start, end);

    let mut steps: Vec<PlannedStep> = Vec::new();
    assert(step_views(steps@) =~= Seq::<StepView>::empty());
    push_step(
        &mut steps,
        Work::CreateDir { path: workspace.dir.clone() },
        "Failed to create temp directory: ",
        "Failed to create temp directory: ",
    );
    let mut inputs: Vec<String> = Vec::new();
    assert(texts(inputs@) =~= Seq::<Seq<char>>::empty());
    if n >= 2 {
        let canvas = workspace.path_of(Asset::Background);
        let invocation = Invocation::background(end as i128 - start as i128, canvas.as_str());
        push_step(
            &mut steps,
            Work::Run { invocation },
            "FFmpeg error creating background: ",
            "Failed to execute FFmpeg for background: ",
        );
        inputs.push(canvas);
        assert(texts(inputs@) =~= seq![asset_path(dir, Asset::Background)]);
    }
    assert(step_views(steps@) =~= seq![create_dir_step(dir)] + background_steps(
        main.len(),
        t.total(),
        dir,
    ));
    push_texts(&mut inputs, &main_assets);
    assert(texts(inputs@) =~= assembly_inputs(main.len(), dir));
    append_steps(&mut steps, main_trims);
    let graph = build_main_graph(&windows);
    let graph_words = render_graph(&graph);
    let label_words = render_label(last_main_label(n));
    let main_video = workspace.path_of(Asset::MainVideo);
    let assembly = Invocation::assembly(
        &inputs,
        graph_words.as_str(),
        label_words.as_str(),
        main_video.as_str(),
    );
    push_step(
        &mut steps,
        Work::Run { invocation: assembly },
        "FFmpeg error creating main video: ",
        "Failed to execute FFmpeg for main video: ",
    );
    append_steps(&mut steps, overlay_trims);
    assert(step_views(steps@) =~= expected.preprocessing);

    let mut audio = audio_trims;
    match assemble_audio(workspace, &audio_assets) {
        Err(e) => {
            return Err(e);
        },
        Ok(assembly_steps) => {
            append_steps(&mut audio, assembly_steps);
        },
    }
    assert(step_views(audio@) =~= expected.audio);

    let mut video_inputs: Vec<String> = Vec::new();
    video_inputs.push(main_video);
    assert(texts(video_inputs@) =~= seq![asset_path(dir, Asset::MainVideo)]);
    push_texts(&mut video_inputs, &overlay_assets);
    let composition = Composition {
        video_inputs,
        audio_input: workspace.path_of(Asset::MainAudio),
        layers,
        output: timeline.options.output_path.clone(),
    };
    let mut success = String::from_str("Multi-track video exported successfully to: ");
    success.append(timeline.options.output_path.as_str());
    let plan = ExportPlan {
        workspace: Some(workspace.dir.clone()),
        preprocessing: steps,
        audio,
        last: FinalStep::Layered(composition),
        failure_prefix: String::from_str("FFmpeg composition error: "),
        refusal_prefix: String::from_str("Failed to execute FFmpeg composition. Error: "),
        success,
    };
    assert(plan@ == expected);
    Ok(plan)
}

/// What checking and compiling a multi-track export gives.
pub open spec fn compiled_layered(t: TimelineView, dir: Seq<char>) -> Result<PlanView, ErrorView> {
    if t.valid() {
        Ok(timeline_plan(t, dir))
    } else {
        Err(validation_failure(t.rejection()))
    }
}

/// Checks and compiles the export of a multi-track timeline. The checks are
/// made in order, before anything else, and the first that fails is the
/// error.
pub fn export_multi_track_video(options: MultiTrackExportOptions, workspace: &Workspace) -> (r:
    Result<ExportPlan, ExportError>)
    ensures
        r is Ok <==> options@.valid(),
        compiled_view(r) == compiled_layered(options@, workspace.dir@),
{
    match validate(options) {
        Err(v) => Err(refusal(v)),
        Ok(timeline) => plan_multi_track(&timeline, workspace),
    }
}

// ---------------------------------------------------------------------------
// Requests
// ---------------------------------------------------------------------------
/// A request for an export, with the scratch directory it may use.
#[derive(Debug, PartialEq, Eq)]
pub enum ExportRequest {
    /// One trimmed clip.
    Trimmed(ExportOptions),
    /// Several clips joined end to end.
    Joined { clips: Vec<ClipData>, output_path: String, workspace: Workspace },
    /// A multi-track timeline.
    Layered { options: MultiTrackExportOptions, workspace: Workspace },
}

/// The mathematical content of an [`ExportRequest`].
pub enum RequestView {
    Trimmed(ExportOptionsView),
    Joined { clips: Seq<ClipDataView>, output_path: Seq<char>, dir: Seq<char> },
    Layered { timeline: TimelineView, dir: Seq<char> },
}

impl View for ExportRequest {
    type V = RequestView;

    open spec fn view(&self) -> RequestView {
        match self {
            ExportRequest::Trimmed(options) => RequestView::Trimmed(options@),
            ExportRequest::Joined { clips, output_path, workspace } => RequestView::Joined {
                clips: clip_data_views(clips@),
                output_path: output_path@,
                dir: workspace.dir@,
            },
            ExportRequest::Layered { options, workspace } => RequestView::Layered {
                timeline: options@,
                dir: workspace.dir@,
            },
        }
    }
}

/// What checking and compiling a request gives: its plan, or the error with
/// which it is refused.
pub open spec fn compiled(request: RequestView) -> Result<PlanView, ErrorView> {
    match request {
        RequestView::Trimmed(o) => compiled_trimmed(o),
        RequestView::Joined { clips, output_path, dir } => compiled_joined(clips, output_path, dir),
        RequestView::Layered { timeline, dir } => compiled_layered(timeline, dir),
    }
}

impl ExportRequest {
    /// Checks and compiles the request.
    pub fn compile(self) -> (r: Result<ExportPlan, ExportError>)
        ensures
            compiled_view(r) == compiled(self@),
    {
        match self {
            ExportRequest::Trimmed(options) => export_trimmed_video(&options),
            ExportRequest::Joined { clips, output_path, workspace } => export_multi_clip_video(
                &clips,
                output_path.as_str(),
                &workspace,
            ),
            ExportRequest::Layered { options, workspace } => export_multi_track_video(
                options,
                &workspace,
            ),
        }
    }
}

} // verus!
