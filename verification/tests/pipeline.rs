use nolanforge::export::ExportRequest;
use nolanforge::pipeline::{Action, Event, ExportJob, Phase};
use nolanforge::step::{ErrorKind, ExportError, Work};
use nolanforge::timeline::{ClipData, ExportOptions, MultiTrackClip, MultiTrackExportOptions};
use nolanforge::workspace::Workspace;

const SECOND: i64 = 1_000_000;

fn clip(path: &str, track_id: i32, start_time: i64, trim_start: i64, trim_end: i64) -> MultiTrackClip {
    MultiTrackClip {
        input_path: path.to_string(),
        track_id,
        start_time,
        duration: trim_end - trim_start,
        trim_start,
        trim_end,
        overlay_position: None,
        overlay_size: None,
        overlay_opacity: None,
        overlay_blend_mode: None,
    }
}

fn timeline() -> MultiTrackExportOptions {
    MultiTrackExportOptions {
        clips: vec![
            clip("a.mp4", 0, 0, 0, 2 * SECOND),
            clip("b.mp4", 0, 2 * SECOND, 0, 2 * SECOND),
            clip("o.mp4", 1, SECOND, 0, SECOND),
        ],
        output_path: "final.mp4".to_string(),
        global_trim_start: 0,
        global_trim_end: 4 * SECOND,
    }
}

fn job() -> ExportJob {
    ExportJob::new(ExportRequest::Layered {
        options: timeline(),
        workspace: Workspace::for_export("/tmp", 8),
    })
}

/// Drives a job: every action is answered by `answer`, which is given the
/// number of the action and the action itself. Returns the phases passed,
/// the actions asked for, and the final action.
fn drive(mut job: ExportJob, answer: &dyn Fn(usize, &Action) -> Event) -> (Vec<Phase>, Vec<Action>) {
    let mut phases = vec![job.phase()];
    let mut actions: Vec<Action> = Vec::new();
    let mut event = Event::Completed;
    loop {
        let (next, action) = job.advance(event);
        job = next;
        phases.push(job.phase());
        let over = matches!(action, Action::Finish { .. });
        event = answer(actions.len(), &action);
        actions.push(action);
        if over {
            return (phases, actions);
        }
        assert!(actions.len() < 100);
    }
}

fn removals(actions: &[Action]) -> Vec<usize> {
    let mut at: Vec<usize> = Vec::new();
    for (k, a) in actions.iter().enumerate() {
        if matches!(a, Action::RemoveDir { .. }) {
            at.push(k);
        }
    }
    at
}

#[test]
fn a_successful_export_passes_every_phase_and_cleans_up() {
    let (phases, actions) = drive(job(), &|_, _| Event::Completed);
    let mut order = phases.clone();
    order.dedup();
    assert_eq!(
        order,
        vec![
            Phase::Validating,
            Phase::Preprocessing,
            Phase::AudioAssembling,
            Phase::GraphBuilding,
            Phase::Composing,
            Phase::CleaningUp,
            Phase::Done
        ]
    );
    // create dir, background, 2 main clips, assembly, overlay; 2 audio, list, concat;
    // proceed; compose; remove; finish
    assert_eq!(actions.len(), 6 + 4 + 1 + 1 + 1 + 1);
    assert_eq!(
        actions[0],
        Action::Perform(Work::CreateDir { path: "/tmp/nolanforge_export_8".to_string() })
    );
    assert_eq!(actions[10], Action::Proceed);
    match &actions[11] {
        Action::Perform(Work::Run { invocation }) => {
            assert_eq!(invocation.args.last().unwrap(), "final.mp4");
            assert_eq!(invocation.args[0], "-i");
            assert_eq!(invocation.args[1], "/tmp/nolanforge_export_8/main_video.mp4");
        }
        other => panic!("unexpected {:?}", other),
    }
    assert_eq!(actions[12], Action::RemoveDir { path: "/tmp/nolanforge_export_8".to_string() });
    assert_eq!(
        actions[13],
        Action::Finish {
            result: Ok("Multi-track video exported successfully to: final.mp4".to_string()),
            warning: None
        }
    );
    assert_eq!(removals(&actions), vec![12]);
}

#[test]
fn a_failure_in_the_middle_still_cleans_up() {
    // the tool fails on the assembly of the main track
    let (phases, actions) = drive(job(), &|k, _| {
        if k == 4 {
            Event::ToolFailed { stderr: b"Invalid data found".to_vec() }
        } else {
            Event::Completed
        }
    });
    assert_eq!(actions.len(), 7);
    assert_eq!(actions[5], Action::RemoveDir { path: "/tmp/nolanforge_export_8".to_string() });
    assert_eq!(
        actions[6],
        Action::Finish {
            result: Err(ExportError {
                kind: ErrorKind::ToolExecution,
                message: "FFmpeg error creating main video: Invalid data found".to_string()
            }),
            warning: None
        }
    );
    assert_eq!(phases[phases.len() - 2..], [Phase::CleaningUp, Phase::Done]);
    assert!(!phases.contains(&Phase::AudioAssembling));
    assert!(!phases.contains(&Phase::Composing));
}

#[test]
fn every_failing_step_leads_to_cleanup_and_one_error() {
    let (_, all) = drive(job(), &|_, _| Event::Completed);
    let steps = all.len() - 2;
    for failing in 0..steps {
        let (_, actions) = drive(job(), &|k, _| {
            if k == failing {
                Event::Refused { reason: "boom".to_string() }
            } else {
                Event::Completed
            }
        });
        assert_eq!(actions.len(), failing + 3);
        assert_eq!(removals(&actions), vec![failing + 1]);
        match actions.last().unwrap() {
            Action::Finish { result: Err(e), warning: None } => {
                assert!(e.message.ends_with("boom"));
            }
            other => panic!("unexpected {:?}", other),
        }
    }
}

#[test]
fn the_tool_that_cannot_be_started_is_told_apart_from_the_tool_that_fails() {
    let (_, refused) = drive(job(), &|k, _| {
        if k == 1 {
            Event::Refused { reason: "No such file or directory (os error 2)".to_string() }
        } else {
            Event::Completed
        }
    });
    assert_eq!(
        *refused.last().unwrap(),
        Action::Finish {
            result: Err(ExportError {
                kind: ErrorKind::ToolInvocation,
                message: "Failed to execute FFmpeg for background: No such file or directory (os error 2)"
                    .to_string()
            }),
            warning: None
        }
    );
    let (_, failed) = drive(job(), &|k, _| {
        if k == 1 {
            Event::ToolFailed { stderr: b"bad".to_vec() }
        } else {
            Event::Completed
        }
    });
    assert_eq!(
        *failed.last().unwrap(),
        Action::Finish {
            result: Err(ExportError {
                kind: ErrorKind::ToolExecution,
                message: "FFmpeg error creating background: bad".to_string()
            }),
            warning: None
        }
    );
}

#[test]
fn a_scratch_directory_that_cannot_be_made_is_a_workspace_error() {
    let (_, actions) = drive(job(), &|k, _| {
        if k == 0 {
            Event::Refused { reason: "Permission denied".to_string() }
        } else {
            Event::Completed
        }
    });
    assert_eq!(
        *actions.last().unwrap(),
        Action::Finish {
            result: Err(ExportError {
                kind: ErrorKind::Workspace,
                message: "Failed to create temp directory: Permission denied".to_string()
            }),
            warning: None
        }
    );
}

#[test]
fn a_list_file_that_cannot_be_written_is_a_workspace_error() {
    let (_, actions) = drive(job(), &|_, a| match a {
        Action::Perform(Work::WriteText { .. }) => Event::Refused { reason: "disk full".to_string() },
        _ => Event::Completed,
    });
    assert_eq!(
        *actions.last().unwrap(),
        Action::Finish {
            result: Err(ExportError {
                kind: ErrorKind::Workspace,
                message: "Failed to write audio concat file: disk full".to_string()
            }),
            warning: None
        }
    );
}

#[test]
fn the_last_invocation_failing_is_a_composition_error() {
    let (_, actions) = drive(job(), &|k, _| {
        if k == 11 {
            Event::ToolFailed { stderr: b"Conversion failed!\n".to_vec() }
        } else {
            Event::Completed
        }
    });
    assert_eq!(
        *actions.last().unwrap(),
        Action::Finish {
            result: Err(ExportError {
                kind: ErrorKind::ToolExecution,
                message: "FFmpeg composition error: Conversion failed!\n".to_string()
            }),
            warning: None
        }
    );
    assert_eq!(removals(&actions), vec![12]);
}

#[test]
fn diagnostics_that_are_not_utf8_are_kept_lossily() {
    let (_, actions) = drive(job(), &|k, _| {
        if k == 2 {
            Event::ToolFailed { stderr: vec![b'a', 0xff, b'b', 0xe2, 0x82] }
        } else {
            Event::Completed
        }
    });
    assert_eq!(
        *actions.last().unwrap(),
        Action::Finish {
            result: Err(ExportError {
                kind: ErrorKind::ToolExecution,
                message: "FFmpeg error creating main clip 0: a\u{fffd}b\u{fffd}".to_string()
            }),
            warning: None
        }
    );
}

#[test]
fn a_failed_cleanup_is_a_warning_and_keeps_the_result() {
    let (_, ok) = drive(job(), &|_, a| match a {
        Action::RemoveDir { .. } => Event::Refused { reason: "busy".to_string() },
        _ => Event::Completed,
    });
    assert_eq!(
        *ok.last().unwrap(),
        Action::Finish {
            result: Ok("Multi-track video exported successfully to: final.mp4".to_string()),
            warning: Some("Warning: Failed to clean up temp directory: busy".to_string())
        }
    );
    let (_, failed) = drive(job(), &|k, a| match a {
        Action::RemoveDir { .. } => Event::ToolFailed { stderr: b"busy".to_vec() },
        _ if k == 3 => Event::ToolFailed { stderr: b"x".to_vec() },
        _ => Event::Completed,
    });
    assert_eq!(
        *failed.last().unwrap(),
        Action::Finish {
            result: Err(ExportError {
                kind: ErrorKind::ToolExecution,
                message: "FFmpeg error creating main clip 1: x".to_string()
            }),
            warning: Some("Warning: Failed to clean up temp directory: busy".to_string())
        }
    );
}

#[test]
fn a_refused_request_ends_at_once_without_any_work() {
    let mut bad = timeline();
    bad.global_trim_end = 0;
    let job = ExportJob::new(ExportRequest::Layered {
        options: bad,
        workspace: Workspace::for_export("/tmp", 8),
    });
    let (phases, actions) = drive(job, &|_, _| Event::Completed);
    assert_eq!(phases, vec![Phase::Validating, Phase::Done]);
    assert_eq!(
        actions,
        vec![Action::Finish {
            result: Err(ExportError {
                kind: ErrorKind::Validation,
                message: "Invalid global trim range".to_string()
            }),
            warning: None
        }]
    );
}

#[test]
fn a_finished_export_stays_finished() {
    let mut job = job();
    let mut last = None;
    for _ in 0..40 {
        let (next, action) = job.advance(Event::Completed);
        job = next;
        last = Some(action);
    }
    assert_eq!(job.phase(), Phase::Done);
    let (job, again) = job.advance(Event::ToolFailed { stderr: vec![1] });
    assert_eq!(job.phase(), Phase::Done);
    assert_eq!(Some(again), last);
}

#[test]
fn single_clip_export_runs_one_invocation_and_owns_no_directory() {
    let make = || {
        ExportJob::new(ExportRequest::Trimmed(ExportOptions {
            input_path: "in.mp4".to_string(),
            output_path: "out.mp4".to_string(),
            trim_start: 0,
            trim_end: 2 * SECOND,
        }))
    };
    let (phases, actions) = drive(make(), &|_, _| Event::Completed);
    assert_eq!(actions.len(), 6);
    assert_eq!(actions[0], Action::Proceed);
    assert_eq!(actions[1], Action::Proceed);
    assert_eq!(actions[2], Action::Proceed);
    assert!(matches!(actions[3], Action::Perform(Work::Run { .. })));
    assert_eq!(actions[4], Action::Proceed);
    assert_eq!(
        actions[5],
        Action::Finish { result: Ok("Video exported successfully to: out.mp4".to_string()), warning: None }
    );
    assert_eq!(*phases.last().unwrap(), Phase::Done);
    assert!(removals(&actions).is_empty());

    let (_, failed) = drive(make(), &|k, _| {
        if k == 3 {
            Event::ToolFailed { stderr: b"oops".to_vec() }
        } else {
            Event::Completed
        }
    });
    assert_eq!(
        *failed.last().unwrap(),
        Action::Finish {
            result: Err(ExportError {
                kind: ErrorKind::ToolExecution,
                message: "FFmpeg error: oops".to_string()
            }),
            warning: None
        }
    );
}

#[test]
fn multi_clip_export_cleans_up_after_success_and_failure() {
    let clips = vec![
        ClipData { input_path: "A".to_string(), trim_start: 0, trim_end: SECOND },
        ClipData { input_path: "B".to_string(), trim_start: 0, trim_end: SECOND },
    ];
    let make = || {
        ExportJob::new(ExportRequest::Joined {
            clips: clips.clone(),
            output_path: "o.mp4".to_string(),
            workspace: Workspace::for_export("/tmp", 2),
        })
    };
    let (_, ok) = drive(make(), &|_, _| Event::Completed);
    assert_eq!(removals(&ok).len(), 1);
    assert_eq!(
        *ok.last().unwrap(),
        Action::Finish {
            result: Ok("Multi-clip video exported successfully to: o.mp4".to_string()),
            warning: None
        }
    );
    let (_, failed) = drive(make(), &|k, _| {
        if k == 2 {
            Event::ToolFailed { stderr: b"no".to_vec() }
        } else {
            Event::Completed
        }
    });
    assert_eq!(removals(&failed).len(), 1);
    assert_eq!(
        *failed.last().unwrap(),
        Action::Finish {
            result: Err(ExportError {
                kind: ErrorKind::ToolExecution,
                message: "FFmpeg error trimming clip 1: no".to_string()
            }),
            warning: None
        }
    );
}

#[test]
fn a_refused_single_clip_request_ends_at_once() {
    let job = ExportJob::new(ExportRequest::Trimmed(ExportOptions {
        input_path: "in.mp4".to_string(),
        output_path: "out.mp4".to_string(),
        trim_start: 3 * SECOND,
        trim_end: 2 * SECOND,
    }));
    assert_eq!(job.phase(), Phase::Validating);
    let (job, action) = job.advance(Event::Completed);
    assert_eq!(job.phase(), Phase::Done);
    assert_eq!(
        action,
        Action::Finish {
            result: Err(ExportError {
                kind: ErrorKind::Validation,
                message: "Invalid trim range".to_string()
            }),
            warning: None
        }
    );
}

#[test]
fn compiling_a_request_is_compiling_its_export() {
    let w = Workspace::for_export("/tmp", 8);
    assert_eq!(
        ExportRequest::Layered { options: timeline(), workspace: w.clone() }.compile(),
        nolanforge::export::export_multi_track_video(timeline(), &w)
    );
}
