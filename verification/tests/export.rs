use nolanforge::audio::{assemble_audio, concat_list};
use nolanforge::export::{
    assembled_span, export_multi_clip_video, export_multi_track_video, export_trimmed_video,
    ExportPlan, FinalStep,
};
use nolanforge::graph::Layer;
use nolanforge::invocation::Invocation;
use nolanforge::plan::{plan_trim, TrimKind};
use nolanforge::step::{ErrorKind, PlannedStep, Work};
use nolanforge::timeline::{ClipData, ExportOptions, MultiTrackClip, MultiTrackExportOptions};
use nolanforge::window::Window;
use nolanforge::workspace::{file_name, Asset, Workspace};

const SECOND: i64 = 1_000_000;

fn strings(items: &[&str]) -> Vec<String> {
    items.iter().map(|s| s.to_string()).collect()
}

fn run_args(step: &PlannedStep) -> Vec<String> {
    match &step.work {
        Work::Run { invocation } => invocation.args.clone(),
        other => panic!("not a tool run: {:?}", other),
    }
}

fn segment(path: &str, trim_start: i64, trim_end: i64) -> ClipData {
    ClipData { input_path: path.to_string(), trim_start, trim_end }
}

fn clip(path: &str, track_id: i32, start_time: i64, trim_start: i64, trim_end: i64) -> MultiTrackClip {
    MultiTrackClip {
        input_path: path.to_string(),
        track_id,
        start_time,
        duration: trim_end - trim_start,
        trim_start,
        trim_end,
        overlay_position: None,
        overlay_size: None,
        overlay_opacity: None,
        overlay_blend_mode: None,
    }
}

#[test]
fn workspace_is_named_by_the_export() {
    let w = Workspace::for_export("/tmp", 7);
    assert_eq!(w.dir, "/tmp/nolanforge_export_7");
    assert_eq!(w.path_of(Asset::MainVideo), "/tmp/nolanforge_export_7/main_video.mp4");
    assert_eq!(w.path_of(Asset::MainClip(3)), "/tmp/nolanforge_export_7/main_clip_3.mp4");
}

#[test]
fn assets_are_named_by_kind_and_number() {
    assert_eq!(file_name(Asset::Background), "background.mp4");
    assert_eq!(file_name(Asset::MainClip(0)), "main_clip_0.mp4");
    assert_eq!(file_name(Asset::MainVideo), "main_video.mp4");
    assert_eq!(file_name(Asset::MainAudioClip(2)), "main_audio_2.mp3");
    assert_eq!(file_name(Asset::MainAudio), "main_audio.mp3");
    assert_eq!(file_name(Asset::AudioList), "audio_concat_list.txt");
    assert_eq!(file_name(Asset::Overlay(11)), "overlay_11.mp4");
    assert_eq!(file_name(Asset::Clip(5)), "clip_5.mp4");
    assert_eq!(file_name(Asset::ClipList), "concat_list.txt");
}

#[test]
fn exports_with_different_identifiers_share_no_file() {
    let assets = [
        Asset::Background,
        Asset::MainClip(0),
        Asset::MainClip(1),
        Asset::MainVideo,
        Asset::MainAudioClip(0),
        Asset::MainAudio,
        Asset::AudioList,
        Asset::Overlay(0),
        Asset::Clip(0),
        Asset::ClipList,
    ];
    let mut seen: Vec<String> = Vec::new();
    for id in [1u64, 10, 11, 100, 101] {
        let w = Workspace::for_export("/tmp", id);
        for a in assets {
            let p = w.path_of(a);
            assert!(!seen.contains(&p));
            seen.push(p);
        }
    }
}

#[test]
fn single_clip_export_trims_to_the_target_duration() {
    let options = ExportOptions {
        input_path: "in.mp4".to_string(),
        output_path: "out.mp4".to_string(),
        trim_start: 1_500_000,
        trim_end: 4 * SECOND,
    };
    let plan = export_trimmed_video(&options).unwrap();
    assert_eq!(plan.workspace, None);
    assert!(plan.preprocessing.is_empty());
    assert!(plan.audio.is_empty());
    assert_eq!(
        plan.last,
        FinalStep::Direct(Invocation {
            args: strings(&["-ss", "1.5", "-i", "in.mp4", "-t", "2.5", "-c", "copy", "-y", "out.mp4"])
        })
    );
    assert_eq!(plan.success, "Video exported successfully to: out.mp4");
    assert_eq!(plan.failure_prefix, "FFmpeg error: ");
    assert_eq!(
        plan.refusal_prefix,
        "Failed to execute FFmpeg. Make sure FFmpeg is installed and in your PATH. Error: "
    );
}

#[test]
fn single_clip_duration_is_end_minus_start() {
    for (s, e) in [(0i64, 1i64), (0, SECOND), (3 * SECOND, 10 * SECOND), (250_000, 750_000)] {
        let options = ExportOptions {
            input_path: "a".to_string(),
            output_path: "b".to_string(),
            trim_start: s,
            trim_end: e,
        };
        let plan = export_trimmed_video(&options).unwrap();
        let args = plan.last.render().args;
        let seconds: f64 = args[5].parse().unwrap();
        assert_eq!(args[4], "-t");
        assert_eq!((seconds * 1e6).round() as i64, e - s);
    }
}

#[test]
fn single_clip_export_rejects_a_bad_trim() {
    for (s, e) in [(-1i64, 5i64), (5, 5), (6, 5)] {
        let options = ExportOptions {
            input_path: "in.mp4".to_string(),
            output_path: "out.mp4".to_string(),
            trim_start: s,
            trim_end: e,
        };
        let error = export_trimmed_video(&options).unwrap_err();
        assert_eq!(error.kind, ErrorKind::Validation);
        assert_eq!(error.message, "Invalid trim range");
    }
}

#[test]
fn trims_of_each_kind() {
    let w = Workspace::for_export("/tmp", 1);
    let video = plan_trim(TrimKind::MainVideo, 2, "a.mp4", SECOND, 3 * SECOND, &w).unwrap();
    assert_eq!(
        run_args(&video),
        strings(&[
            "-ss", "1", "-i", "a.mp4", "-t", "2", "-an", "-c:v", "libx264", "-y",
            "/tmp/nolanforge_export_1/main_clip_2.mp4"
        ])
    );
    assert_eq!(video.failure_prefix, "FFmpeg error creating main clip 2: ");
    assert_eq!(video.refusal_prefix, "Failed to execute FFmpeg for main clip 2: ");

    let overlay = plan_trim(TrimKind::OverlayVideo, 0, "o.mp4", 0, 500_000, &w).unwrap();
    assert_eq!(
        run_args(&overlay),
        strings(&[
            "-ss", "0", "-i", "o.mp4", "-t", "0.5", "-an", "-c:v", "libx264", "-y",
            "/tmp/nolanforge_export_1/overlay_0.mp4"
        ])
    );
    assert_eq!(overlay.failure_prefix, "FFmpeg error creating overlay video 0: ");
    assert_eq!(overlay.refusal_prefix, "Failed to execute FFmpeg for overlay video 0: ");

    let audio = plan_trim(TrimKind::MainAudio, 1, "a.mp4", SECOND, 3 * SECOND, &w).unwrap();
    assert_eq!(
        run_args(&audio),
        strings(&[
            "-ss", "1", "-i", "a.mp4", "-t", "2", "-vn", "-acodec", "mp3", "-y",
            "/tmp/nolanforge_export_1/main_audio_1.mp3"
        ])
    );
    assert_eq!(audio.failure_prefix, "FFmpeg error extracting audio from clip 1: ");
    assert_eq!(
        audio.refusal_prefix,
        "Failed to execute FFmpeg for audio extraction from clip 1: "
    );

    let copy = plan_trim(TrimKind::Segment, 4, "s.mp4", 0, SECOND, &w).unwrap();
    assert_eq!(
        run_args(&copy),
        strings(&[
            "-ss", "0", "-i", "s.mp4", "-t", "1", "-c", "copy", "-y",
            "/tmp/nolanforge_export_1/clip_4.mp4"
        ])
    );
    assert_eq!(copy.failure_prefix, "FFmpeg error trimming clip 4: ");
    assert_eq!(copy.refusal_prefix, "Failed to execute FFmpeg for clip 4: ");
}

#[test]
fn a_clip_that_keeps_nothing_is_skipped() {
    let w = Workspace::for_export("/tmp", 1);
    assert_eq!(plan_trim(TrimKind::MainVideo, 0, "a.mp4", SECOND, SECOND, &w), None);
    assert_eq!(plan_trim(TrimKind::MainAudio, 0, "a.mp4", 2 * SECOND, SECOND, &w), None);
}

#[test]
fn concat_list_names_one_segment_per_line() {
    assert_eq!(concat_list(&vec![]), "");
    assert_eq!(concat_list(&strings(&["/w/a.mp4"])), "file '/w/a.mp4'\n");
    assert_eq!(
        concat_list(&strings(&["/w/a.mp4", "/w/b.mp4", "/w/c.mp4"])),
        "file '/w/a.mp4'\nfile '/w/b.mp4'\nfile '/w/c.mp4'\n"
    );
}

#[test]
fn concat_list_of_joined_lists_is_the_joined_list() {
    let a = strings(&["1", "2"]);
    let b = strings(&["3"]);
    let mut both = a.clone();
    both.extend(b.clone());
    assert_eq!(concat_list(&both), format!("{}{}", concat_list(&a), concat_list(&b)));
}

#[test]
fn multi_clip_concatenation_preserves_input_order() {
    let clips = vec![
        segment("A.mp4", 0, 2 * SECOND),
        segment("B.mp4", SECOND, 4 * SECOND),
        segment("C.mp4", 5 * SECOND, 6 * SECOND),
    ];
    assert_eq!(assembled_span(&clips), 6_000_000);
    let w = Workspace::for_export("/tmp", 3);
    let plan = export_multi_clip_video(&clips, "joined.mp4", &w).unwrap();
    assert_eq!(plan.workspace, Some("/tmp/nolanforge_export_3".to_string()));
    assert_eq!(plan.preprocessing.len(), 5);
    assert_eq!(
        plan.preprocessing[0].work,
        Work::CreateDir { path: "/tmp/nolanforge_export_3".to_string() }
    );
    assert_eq!(plan.preprocessing[0].refusal_prefix, "Failed to create temp directory: ");
    let inputs: Vec<String> = plan.preprocessing[1..4].iter().map(|s| run_args(s)[3].clone()).collect();
    assert_eq!(inputs, strings(&["A.mp4", "B.mp4", "C.mp4"]));
    let durations: Vec<String> =
        plan.preprocessing[1..4].iter().map(|s| run_args(s)[5].clone()).collect();
    assert_eq!(durations, strings(&["2", "3", "1"]));
    assert_eq!(
        plan.preprocessing[4].work,
        Work::WriteText {
            path: "/tmp/nolanforge_export_3/concat_list.txt".to_string(),
            content: "file '/tmp/nolanforge_export_3/clip_0.mp4'\n\
                      file '/tmp/nolanforge_export_3/clip_1.mp4'\n\
                      file '/tmp/nolanforge_export_3/clip_2.mp4'\n"
                .to_string(),
        }
    );
    assert_eq!(plan.preprocessing[4].refusal_prefix, "Failed to write concat file: ");
    assert!(plan.audio.is_empty());
    assert_eq!(
        plan.last.render().args,
        strings(&[
            "-f", "concat", "-safe", "0", "-i", "/tmp/nolanforge_export_3/concat_list.txt", "-c",
            "copy", "-y", "joined.mp4"
        ])
    );
    assert_eq!(plan.failure_prefix, "FFmpeg concatenation error: ");
    assert_eq!(plan.refusal_prefix, "Failed to execute FFmpeg concatenation. Error: ");
    assert_eq!(plan.success, "Multi-clip video exported successfully to: joined.mp4");
}

#[test]
fn assembled_span_skips_clips_that_keep_nothing() {
    assert_eq!(assembled_span(&vec![]), 0);
    let clips = vec![
        segment("A", 0, 2 * SECOND),
        segment("B", 3 * SECOND, 3 * SECOND),
        segment("C", 9 * SECOND, SECOND),
        segment("D", i64::MIN, i64::MAX),
    ];
    assert_eq!(assembled_span(&clips), 2_000_000 + u64::MAX as u128);
}

#[test]
fn multi_clip_export_rejects_bad_input() {
    let w = Workspace::for_export("/tmp", 3);
    let empty = export_multi_clip_video(&vec![], "o.mp4", &w).unwrap_err();
    assert_eq!(empty.kind, ErrorKind::Validation);
    assert_eq!(empty.message, "No clips provided");
    let clips = vec![segment("A", 0, 1), segment("B", 2, 2), segment("C", 3, 1)];
    let bad = export_multi_clip_video(&clips, "o.mp4", &w).unwrap_err();
    assert_eq!(bad.kind, ErrorKind::Validation);
    assert_eq!(bad.message, "Invalid trim range for clip 1");
}

#[test]
fn audio_is_copied_when_there_is_one_asset() {
    let w = Workspace::for_export("/tmp", 9);
    let steps = assemble_audio(&w, &strings(&["/tmp/x/main_audio_0.mp3"])).unwrap();
    assert_eq!(steps.len(), 1);
    assert_eq!(
        steps[0].work,
        Work::CopyFile {
            from: "/tmp/x/main_audio_0.mp3".to_string(),
            to: "/tmp/nolanforge_export_9/main_audio.mp3".to_string()
        }
    );
    assert_eq!(steps[0].failure_prefix, "Failed to copy audio clip: ");
    assert_eq!(steps[0].refusal_prefix, "Failed to copy audio clip: ");
}

#[test]
fn audio_is_joined_in_order_when_there_are_several_assets() {
    let w = Workspace::for_export("/tmp", 9);
    let steps = assemble_audio(&w, &strings(&["/a/0.mp3", "/a/1.mp3"])).unwrap();
    assert_eq!(steps.len(), 2);
    assert_eq!(
        steps[0].work,
        Work::WriteText {
            path: "/tmp/nolanforge_export_9/audio_concat_list.txt".to_string(),
            content: "file '/a/0.mp3'\nfile '/a/1.mp3'\n".to_string()
        }
    );
    assert_eq!(steps[0].refusal_prefix, "Failed to write audio concat file: ");
    assert_eq!(
        run_args(&steps[1]),
        strings(&[
            "-f", "concat", "-safe", "0", "-i", "/tmp/nolanforge_export_9/audio_concat_list.txt",
            "-c:a", "mp3", "-y", "/tmp/nolanforge_export_9/main_audio.mp3"
        ])
    );
    assert_eq!(steps[1].failure_prefix, "FFmpeg error concatenating audio clips: ");
    assert_eq!(steps[1].refusal_prefix, "Failed to execute FFmpeg for audio concatenation: ");
}

#[test]
fn no_audio_asset_is_an_error() {
    let w = Workspace::for_export("/tmp", 9);
    let error = assemble_audio(&w, &vec![]).unwrap_err();
    assert_eq!(error.kind, ErrorKind::NoAudioTrack);
    assert_eq!(error.message, "no audio track available");
}

fn sample_timeline() -> MultiTrackExportOptions {
    let mut over = clip("logo.mp4", 1, 5 * SECOND, 0, 2 * SECOND);
    over.overlay_position = Some((100, 50));
    let mut top = clip("title.mp4", 2, SECOND, SECOND, 2 * SECOND);
    top.overlay_size = Some((320, 180));
    top.overlay_opacity = Some(500_000);
    MultiTrackExportOptions {
        clips: vec![
            top,
            clip("second.mp4", 0, 4 * SECOND, SECOND, 5 * SECOND),
            over,
            clip("first.mp4", 0, 0, 0, 4 * SECOND),
        ],
        output_path: "final.mp4".to_string(),
        global_trim_start: 0,
        global_trim_end: 8 * SECOND,
    }
}

fn sample_plan() -> ExportPlan {
    export_multi_track_video(sample_timeline(), &Workspace::for_export("/tmp", 5)).unwrap()
}

#[test]
fn multi_track_preprocessing_steps() {
    let plan = sample_plan();
    let d = "/tmp/nolanforge_export_5";
    assert_eq!(plan.workspace, Some(d.to_string()));
    assert_eq!(plan.preprocessing.len(), 7);
    assert_eq!(plan.preprocessing[0].work, Work::CreateDir { path: d.to_string() });
    assert_eq!(
        run_args(&plan.preprocessing[1]),
        strings(&[
            "-f", "lavfi", "-i", "color=black:size=1920x1080:duration=0.1", "-vf",
            "scale=1920:1080,loop=loop=-1:size=1:start=0", "-t", "8", "-c:v", "libx264", "-y",
            "/tmp/nolanforge_export_5/background.mp4"
        ])
    );
    assert_eq!(plan.preprocessing[1].failure_prefix, "FFmpeg error creating background: ");
    assert_eq!(plan.preprocessing[1].refusal_prefix, "Failed to execute FFmpeg for background: ");
    // main-track clips by start time
    assert_eq!(
        run_args(&plan.preprocessing[2]),
        strings(&[
            "-ss", "0", "-i", "first.mp4", "-t", "4", "-an", "-c:v", "libx264", "-y",
            "/tmp/nolanforge_export_5/main_clip_0.mp4"
        ])
    );
    assert_eq!(
        run_args(&plan.preprocessing[3]),
        strings(&[
            "-ss", "1", "-i", "second.mp4", "-t", "4", "-an", "-c:v", "libx264", "-y",
            "/tmp/nolanforge_export_5/main_clip_1.mp4"
        ])
    );
    assert_eq!(
        run_args(&plan.preprocessing[4]),
        strings(&[
            "-i",
            "/tmp/nolanforge_export_5/background.mp4",
            "-i",
            "/tmp/nolanforge_export_5/main_clip_0.mp4",
            "-i",
            "/tmp/nolanforge_export_5/main_clip_1.mp4",
            "-filter_complex",
            "[1:v]scale=1920:1080[main0];[0:v][main0]overlay=0:0:enable='gte(t,0)*lt(t,4)'[out0];\
             [2:v]scale=1920:1080[main1];[out0][main1]overlay=0:0:enable='gte(t,4)*lt(t,8)'[out1]",
            "-map",
            "[out1]",
            "-c:v",
            "libx264",
            "-y",
            "/tmp/nolanforge_export_5/main_video.mp4"
        ])
    );
    assert_eq!(plan.preprocessing[4].failure_prefix, "FFmpeg error creating main video: ");
    assert_eq!(plan.preprocessing[4].refusal_prefix, "Failed to execute FFmpeg for main video: ");
    // overlays by track, then start time
    assert_eq!(
        run_args(&plan.preprocessing[5]),
        strings(&[
            "-ss", "0", "-i", "logo.mp4", "-t", "2", "-an", "-c:v", "libx264", "-y",
            "/tmp/nolanforge_export_5/overlay_0.mp4"
        ])
    );
    assert_eq!(
        run_args(&plan.preprocessing[6]),
        strings(&[
            "-ss", "1", "-i", "title.mp4", "-t", "1", "-an", "-c:v", "libx264", "-y",
            "/tmp/nolanforge_export_5/overlay_1.mp4"
        ])
    );
}

#[test]
fn multi_track_audio_steps() {
    let plan = sample_plan();
    assert_eq!(plan.audio.len(), 4);
    assert_eq!(
        run_args(&plan.audio[0]),
        strings(&[
            "-ss", "0", "-i", "first.mp4", "-t", "4", "-vn", "-acodec", "mp3", "-y",
            "/tmp/nolanforge_export_5/main_audio_0.mp3"
        ])
    );
    assert_eq!(
        run_args(&plan.audio[1]),
        strings(&[
            "-ss", "1", "-i", "second.mp4", "-t", "4", "-vn", "-acodec", "mp3", "-y",
            "/tmp/nolanforge_export_5/main_audio_1.mp3"
        ])
    );
    assert_eq!(
        plan.audio[2].work,
        Work::WriteText {
            path: "/tmp/nolanforge_export_5/audio_concat_list.txt".to_string(),
            content: "file '/tmp/nolanforge_export_5/main_audio_0.mp3'\n\
                      file '/tmp/nolanforge_export_5/main_audio_1.mp3'\n"
                .to_string()
        }
    );
    assert_eq!(
        run_args(&plan.audio[3]),
        strings(&[
            "-f", "concat", "-safe", "0", "-i", "/tmp/nolanforge_export_5/audio_concat_list.txt",
            "-c:a", "mp3", "-y", "/tmp/nolanforge_export_5/main_audio.mp3"
        ])
    );
}

#[test]
fn multi_track_composition() {
    let plan = sample_plan();
    match &plan.last {
        FinalStep::Layered(c) => {
            assert_eq!(
                c.video_inputs,
                strings(&[
                    "/tmp/nolanforge_export_5/main_video.mp4",
                    "/tmp/nolanforge_export_5/overlay_0.mp4",
                    "/tmp/nolanforge_export_5/overlay_1.mp4"
                ])
            );
            assert_eq!(c.audio_input, "/tmp/nolanforge_export_5/main_audio.mp3");
            assert_eq!(c.output, "final.mp4");
            assert_eq!(
                c.layers,
                vec![
                    Layer {
                        x: 100,
                        y: 50,
                        width: 640,
                        height: 360,
                        opacity: 800_000,
                        window: Window { start: 5_000_000, end: 7_000_000 }
                    },
                    Layer {
                        x: 0,
                        y: 0,
                        width: 320,
                        height: 180,
                        opacity: 500_000,
                        window: Window { start: 1_000_000, end: 2_000_000 }
                    },
                ]
            );
        }
        other => panic!("not a composition: {:?}", other),
    }
    assert_eq!(
        plan.last.render().args,
        strings(&[
            "-i",
            "/tmp/nolanforge_export_5/main_video.mp4",
            "-i",
            "/tmp/nolanforge_export_5/overlay_0.mp4",
            "-i",
            "/tmp/nolanforge_export_5/overlay_1.mp4",
            "-i",
            "/tmp/nolanforge_export_5/main_audio.mp3",
            "-filter_complex",
            "[0:v]scale=1920:1080[main];\
             [1:v]scale=640:360[overlay0_scaled];\
             [overlay0_scaled]format=yuva420p,colorchannelmixer=aa=0.8[overlay0_alpha];\
             [2:v]scale=320:180[overlay1_scaled];\
             [overlay1_scaled]format=yuva420p,colorchannelmixer=aa=0.5[overlay1_alpha];\
             [main][overlay0_alpha]overlay=100:50:enable='gte(t,5)*lt(t,7)'[overlay0];\
             [overlay0][overlay1_alpha]overlay=0:0:enable='gte(t,1)*lt(t,2)'[video]",
            "-map",
            "[video]",
            "-map",
            "3:a",
            "-c:v",
            "libx264",
            "-c:a",
            "aac",
            "-preset",
            "fast",
            "-y",
            "final.mp4"
        ])
    );
    assert_eq!(plan.failure_prefix, "FFmpeg composition error: ");
    assert_eq!(plan.refusal_prefix, "Failed to execute FFmpeg composition. Error: ");
    assert_eq!(plan.success, "Multi-track video exported successfully to: final.mp4");
}

#[test]
fn a_single_main_clip_needs_no_background() {
    let options = MultiTrackExportOptions {
        clips: vec![clip("only.mp4", 0, 0, 0, 3 * SECOND)],
        output_path: "o.mp4".to_string(),
        global_trim_start: 0,
        global_trim_end: 3 * SECOND,
    };
    let plan = export_multi_track_video(options, &Workspace::for_export("/t", 1)).unwrap();
    assert_eq!(plan.preprocessing.len(), 3);
    assert_eq!(
        run_args(&plan.preprocessing[2]),
        strings(&[
            "-i", "/t/nolanforge_export_1/main_clip_0.mp4", "-filter_complex",
            "[0:v]scale=1920:1080[out0]", "-map", "[out0]", "-c:v", "libx264", "-y",
            "/t/nolanforge_export_1/main_video.mp4"
        ])
    );
    // one audio asset is copied, not joined
    assert_eq!(plan.audio.len(), 2);
    assert_eq!(
        plan.audio[1].work,
        Work::CopyFile {
            from: "/t/nolanforge_export_1/main_audio_0.mp3".to_string(),
            to: "/t/nolanforge_export_1/main_audio.mp3".to_string()
        }
    );
    assert_eq!(
        plan.last.render().args,
        strings(&[
            "-i", "/t/nolanforge_export_1/main_video.mp4", "-i",
            "/t/nolanforge_export_1/main_audio.mp3", "-filter_complex",
            "[0:v]scale=1920:1080[video]", "-map", "[video]", "-map", "1:a", "-c:v", "libx264",
            "-c:a", "aac", "-preset", "fast", "-y", "o.mp4"
        ])
    );
}

#[test]
fn multi_track_export_rejects_bad_timelines() {
    let w = Workspace::for_export("/tmp", 5);
    let mut empty = sample_timeline();
    empty.clips.clear();
    let e = export_multi_track_video(empty, &w).unwrap_err();
    assert_eq!((e.kind, e.message.as_str()), (ErrorKind::Validation, "No clips provided"));

    let mut bad_clip = sample_timeline();
    bad_clip.clips[2].trim_end = bad_clip.clips[2].trim_start;
    let e = export_multi_track_video(bad_clip, &w).unwrap_err();
    assert_eq!(
        (e.kind, e.message.as_str()),
        (ErrorKind::Validation, "Invalid trim range for clip 2")
    );

    let mut bad_global = sample_timeline();
    bad_global.global_trim_end = 0;
    let e = export_multi_track_video(bad_global, &w).unwrap_err();
    assert_eq!((e.kind, e.message.as_str()), (ErrorKind::Validation, "Invalid global trim range"));

    let mut no_main = sample_timeline();
    no_main.clips.retain(|c| c.track_id != 0);
    let e = export_multi_track_video(no_main, &w).unwrap_err();
    assert_eq!(
        (e.kind, e.message.as_str()),
        (ErrorKind::Validation, "No main track clips found (track 0)")
    );
}

#[test]
fn identical_timelines_give_identical_plans() {
    let w = Workspace::for_export("/tmp", 5);
    let first = export_multi_track_video(sample_timeline(), &w).unwrap();
    let second = export_multi_track_video(sample_timeline().clone(), &w).unwrap();
    assert_eq!(first, second);
    assert_eq!(first.last.render(), second.last.render());
}
