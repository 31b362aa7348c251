//! Assembling the audio track of an export from the audio of its main-track
//! clips.

use vstd::prelude::*;
use crate::invocation::Invocation;
use crate::invocation::concat_args;
use crate::invocation::texts;
use crate::step::ErrorKind;
use crate::step::ErrorView;
use crate::step::ExportError;
use crate::step::PlannedStep;
use crate::step::StepView;
use crate::step::Work;
use crate::step::WorkView;
use crate::step::push_step;
use crate::step::step_views;
use crate::workspace::Asset;
use crate::workspace::Workspace;
use crate::workspace::asset_path;

verus! {

/// The line of a list file that names one segment.
pub open spec fn list_line(path: Seq<char>) -> Seq<char> {
    "file '"@ + path + "'\n"@
}

/// The text of a list file: one line per segment, in play order.
pub open spec fn concat_list_text(paths: Seq<Seq<char>>) -> Seq<char>
    decreases paths.len(),
{
    if paths.len() == 0 {
        Seq::empty()
    } else {
        concat_list_text(paths.drop_last()) + list_line(paths.last())
    }
}

/// Writes the list file that names `paths`, in order.
pub fn concat_list(paths: &Vec<String>) -> (s: String)
    ensures
        s@ == concat_list_text(texts(paths@)),
{
    let mut s = String::new();
    let mut k: usize = 0;
    assert(texts(paths@).take(0) =~= Seq::<Seq<char>>::empty());
    while k < paths.len()
        invariant
            k <= paths.len(),
            s@ == concat_list_text(texts(paths@).take(k as int)),
        decreases paths.len() - k,
    {
        let ghost upto = texts(paths@).take(k + 1);
        assert(upto.drop_last() =~= texts(paths@).take(k as int));
        assert(upto.last() == paths@[k as int]@);
        s.append("file '");
        s.append(paths[k].as_str());
        s.append("'\n");
        assert(s@ =~= concat_list_text(upto));
        k = k + 1;
    }
    assert(texts(paths@).take(k as int) =~= texts(paths@));
    s
}

/// The list file of segments `a` followed by segments `b` is the list file of
/// `a` followed by the list file of `b`: lines come in the order of the
/// segments, and no line depends on another.
pub proof fn lemma_concat_list_keeps_order(a: Seq<Seq<char>>, b: Seq<Seq<char>>)
    ensures
        concat_list_text(a + b) == concat_list_text(a) + concat_list_text(b),
    decreases b.len(),
{
    if b.len() == 0 {
        assert(a + b =~= a);
        assert(concat_list_text(a) + concat_list_text(b) =~= concat_list_text(a));
    } else {
        lemma_concat_list_keeps_order(a, b.drop_last());
        assert((a + b).drop_last() =~= a + b.drop_last());
        assert((a + b).last() == b.last());
        assert(concat_list_text(a + b) =~= concat_list_text(a) + concat_list_text(b));
    }
}

/// The error of an export that has no audio to assemble.
pub open spec fn no_audio_error() -> ErrorView {
    ErrorView { kind: ErrorKind::NoAudioTrack, message: "no audio track available"@ }
}

/// How the extracted audio `assets` become the audio track of the export in
/// the scratch directory `dir`: a single asset is copied; several are listed
/// in a file and joined in the list's order.
pub open spec fn audio_assembly(dir: Seq<char>, assets: Seq<Seq<char>>) -> Seq<StepView> {
    if assets.len() == 1 {
        seq![
            StepView {
                work: WorkView::CopyFile { from: assets[0], to: asset_path(dir, Asset::MainAudio) },
                failure_prefix: "Failed to copy audio clip: "@,
                refusal_prefix: "Failed to copy audio clip: "@,
            },
        ]
    } else {
        seq![
            StepView {
                work: WorkView::WriteText {
                    path: asset_path(dir, Asset::AudioList),
                    content: concat_list_text(assets),
                },
                failure_prefix: "Failed to write audio concat file: "@,
                refusal_prefix: "Failed to write audio concat file: "@,
            },
            StepView {
                work: WorkView::Run {
                    args: concat_args(
                        asset_path(dir, Asset::AudioList),
                        true,
                        asset_path(dir, Asset::MainAudio),
                    ),
                },
                failure_prefix: "FFmpeg error concatenating audio clips: "@,
                refusal_prefix: "Failed to execute FFmpeg for audio concatenation: "@,
            },
        ]
    }
}

/// Plans the assembly of the audio track from the extracted `assets`, in
/// play order. Without any asset there is no audio track, which is an error.
pub fn assemble_audio(workspace: &Workspace, assets: &Vec<String>) -> (r: Result<
    Vec<PlannedStep>,
    ExportError,
>)
    ensures
        r is Err <==> assets.len() == 0,
        r matches Err(e) ==> e@ == no_audio_error(),
        r matches Ok(steps) ==> step_views(steps@) == audio_assembly(
            workspace.dir@,
            texts(assets@),
        ),
{
    let mut steps: Vec<PlannedStep> = Vec::new();
    assert(step_views(steps@) =~= Seq::<StepView>::empty());
    if assets.len() == 0 {
        return Err(
            ExportError {
                kind: ErrorKind::NoAudioTrack,
                message: String::from_str("no audio track available"),
            },
        );
    }
    let target = workspace.path_of(Asset::MainAudio);
    if assets.len() == 1 {
        push_step(
            &mut steps,
            Work::CopyFile { from: assets[0].clone(), to: target },
            "Failed to copy audio clip: ",
            "Failed to copy audio clip: ",
        );
    } else {
        let list = workspace.path_of(Asset::AudioList);
        let joined = Invocation::concat(list.as_str(), true, target.as_str());
        push_step(
            &mut steps,
            Work::WriteText { path: list, content: concat_list(assets) },
            "Failed to write audio concat file: ",
            "Failed to write audio concat file: ",
        );
        push_step(
            &mut steps,
            Work::Run { invocation: joined },
            "FFmpeg error concatenating audio clips: ",
            "Failed to execute FFmpeg for audio concatenation: ",
        );
    }
    assert(step_views(steps@) =~= audio_assembly(workspace.dir@, texts(assets@)));
    Ok(steps)
}

} // verus!
