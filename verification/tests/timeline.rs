use nolanforge::timeline::{
    MultiTrackClip, MultiTrackExportOptions, ValidationError, DEFAULT_OPACITY, FULL_OPACITY,
};
use nolanforge::tracks::{track_order, validate};
use nolanforge::window::{window_of, Window};

const SECOND: i64 = 1_000_000;

fn clip(track_id: i32, start_time: i64, trim_start: i64, trim_end: i64) -> MultiTrackClip {
    MultiTrackClip {
        input_path: format!("in_{}_{}.mp4", track_id, start_time),
        track_id,
        start_time,
        duration: trim_end - trim_start,
        trim_start,
        trim_end,
        overlay_position: None,
        overlay_size: None,
        overlay_opacity: None,
        overlay_blend_mode: None,
    }
}

fn timeline(clips: Vec<MultiTrackClip>, start: i64, end: i64) -> MultiTrackExportOptions {
    MultiTrackExportOptions {
        clips,
        output_path: "out.mp4".to_string(),
        global_trim_start: start,
        global_trim_end: end,
    }
}

#[test]
fn validation_rejects_an_empty_clip_list() {
    let t = timeline(vec![], 0, 10 * SECOND);
    assert_eq!(t.check(), Err(ValidationError::EmptyTimeline));
    assert_eq!(validate(t), Err(ValidationError::EmptyTimeline));
}

#[test]
fn validation_rejects_a_reversed_or_empty_clip_trim() {
    let reversed = timeline(
        vec![clip(0, 0, 0, 2 * SECOND), clip(0, 0, 3 * SECOND, 1 * SECOND)],
        0,
        10 * SECOND,
    );
    assert_eq!(reversed.check(), Err(ValidationError::InvalidClipTrim { index: 1 }));
    let empty = timeline(vec![clip(0, 0, SECOND, SECOND)], 0, 10 * SECOND);
    assert_eq!(empty.check(), Err(ValidationError::InvalidClipTrim { index: 0 }));
}

#[test]
fn validation_names_the_first_bad_clip() {
    let t = timeline(
        vec![
            clip(0, 0, 0, SECOND),
            clip(1, 0, 5, 5),
            clip(0, 0, 9, 2),
        ],
        0,
        10 * SECOND,
    );
    assert_eq!(t.check(), Err(ValidationError::InvalidClipTrim { index: 1 }));
}

#[test]
fn validation_rejects_a_bad_global_trim() {
    let clips = vec![clip(0, 0, 0, SECOND)];
    assert_eq!(
        timeline(clips.clone(), 5 * SECOND, 5 * SECOND).check(),
        Err(ValidationError::InvalidGlobalTrim)
    );
    assert_eq!(
        timeline(clips.clone(), 5 * SECOND, 4 * SECOND).check(),
        Err(ValidationError::InvalidGlobalTrim)
    );
    assert_eq!(
        timeline(clips, -1, 4 * SECOND).check(),
        Err(ValidationError::InvalidGlobalTrim)
    );
}

#[test]
fn validation_rejects_a_timeline_without_main_track() {
    let t = timeline(vec![clip(1, 0, 0, SECOND), clip(2, 0, 0, SECOND)], 0, SECOND);
    assert_eq!(t.check(), Err(ValidationError::NoMainTrack));
}

#[test]
fn validation_checks_in_order() {
    // a bad clip trim is reported before a bad global trim,
    // and a bad global trim before a missing main track
    let both = timeline(vec![clip(1, 0, 2, 1)], 3, 3);
    assert_eq!(both.check(), Err(ValidationError::InvalidClipTrim { index: 0 }));
    let global_and_main = timeline(vec![clip(1, 0, 1, 2)], 3, 3);
    assert_eq!(global_and_main.check(), Err(ValidationError::InvalidGlobalTrim));
}

#[test]
fn validation_accepts_a_well_formed_timeline() {
    let t = timeline(vec![clip(0, 0, 0, SECOND)], 0, SECOND);
    assert_eq!(t.check(), Ok(()));
    let v = validate(t.clone()).unwrap();
    assert_eq!(v.options, t);
    assert_eq!(v.main_order, vec![0]);
    assert!(v.overlay_order.is_empty());
}

#[test]
fn validation_messages() {
    assert_eq!(ValidationError::EmptyTimeline.message(), "No clips provided");
    assert_eq!(
        ValidationError::InvalidClipTrim { index: 12 }.message(),
        "Invalid trim range for clip 12"
    );
    assert_eq!(ValidationError::InvalidGlobalTrim.message(), "Invalid global trim range");
    assert_eq!(
        ValidationError::NoMainTrack.message(),
        "No main track clips found (track 0)"
    );
}

#[test]
fn main_track_is_ordered_by_start_time_and_ties_keep_their_order() {
    let clips = vec![
        clip(0, 5 * SECOND, 0, SECOND), // 0
        clip(1, 0, 0, SECOND),          // 1 overlay
        clip(0, 2 * SECOND, 0, SECOND), // 2
        clip(0, 5 * SECOND, 0, SECOND), // 3 ties with 0
        clip(0, 0, 0, SECOND),          // 4
        clip(-1, 0, 0, SECOND),         // 5 on no track
    ];
    assert_eq!(track_order(&clips, true), vec![4, 2, 0, 3]);
}

#[test]
fn overlays_are_ordered_by_track_then_start_time() {
    let clips = vec![
        clip(2, 0, 0, SECOND),          // 0
        clip(1, 9 * SECOND, 0, SECOND), // 1
        clip(0, 0, 0, SECOND),          // 2 main
        clip(1, 3 * SECOND, 0, SECOND), // 3
        clip(2, 0, 0, SECOND),          // 4 ties with 0
        clip(1, 3 * SECOND, 0, SECOND), // 5 ties with 3
    ];
    assert_eq!(track_order(&clips, false), vec![3, 5, 1, 0, 4]);
}

#[test]
fn overlay_visibility_window() {
    let overlay = clip(1, 5 * SECOND, 0, 2 * SECOND);
    let w = window_of(&overlay, 0, 60 * SECOND);
    assert_eq!(w, Window { start: 5_000_000, end: 7_000_000 });
    assert!(w.is_visible_at(5_000_000));
    assert!(w.is_visible_at(6_000_000));
    assert!(w.is_visible_at(6_999_999));
    assert!(!w.is_visible_at(7_000_000));
    assert!(!w.is_visible_at(4_999_999));
    assert!(!w.is_visible_at(0));
    assert!(!w.is_visible_at(-1));
}

#[test]
fn window_is_moved_by_the_global_trim_start() {
    let c = clip(0, 5 * SECOND, SECOND, 4 * SECOND);
    assert_eq!(
        window_of(&c, 2 * SECOND, 60 * SECOND),
        Window { start: 3_000_000, end: 6_000_000 }
    );
}

#[test]
fn window_is_cut_to_the_output() {
    // starts before the output
    let early = clip(0, SECOND, 0, 4 * SECOND);
    assert_eq!(
        window_of(&early, 3 * SECOND, 10 * SECOND),
        Window { start: 0, end: 2_000_000 }
    );
    // ends after the output
    let late = clip(0, 8 * SECOND, 0, 4 * SECOND);
    assert_eq!(
        window_of(&late, 0, 10 * SECOND),
        Window { start: 8_000_000, end: 10_000_000 }
    );
    // lies outside the output: never visible
    let outside = clip(0, 20 * SECOND, 0, 4 * SECOND);
    let w = window_of(&outside, 0, 10 * SECOND);
    assert_eq!(w, Window { start: 10_000_000, end: 10_000_000 });
    assert!(!w.is_visible_at(10_000_000));
    let before = clip(0, 0, 0, SECOND);
    assert_eq!(window_of(&before, 5 * SECOND, 10 * SECOND), Window { start: 0, end: 0 });
}

#[test]
fn window_of_extreme_times_does_not_overflow() {
    let c = clip(0, i64::MIN, i64::MIN, i64::MAX);
    assert_eq!(window_of(&c, i64::MAX, i64::MIN), Window { start: 0, end: 0 });
    let d = clip(0, i64::MAX, i64::MIN, i64::MAX);
    assert_eq!(
        window_of(&d, i64::MIN, i64::MAX),
        Window { start: u64::MAX, end: u64::MAX }
    );
}

#[test]
fn overlay_settings_have_defaults() {
    let plain = clip(1, 0, 0, SECOND);
    let spec = plain.overlay_spec();
    assert_eq!(spec.position, (0, 0));
    assert_eq!(spec.size, (640, 360));
    assert_eq!(spec.opacity, 800_000);
    assert_eq!(spec.opacity, DEFAULT_OPACITY);
    assert_eq!(spec.blend_mode, "normal");
}

#[test]
fn overlay_settings_are_taken_from_the_clip() {
    let mut c = clip(1, 0, 0, SECOND);
    c.overlay_position = Some((-10, 20));
    c.overlay_size = Some((320, 180));
    c.overlay_opacity = Some(250_000);
    c.overlay_blend_mode = Some("screen".to_string());
    let spec = c.overlay_spec();
    assert_eq!(spec.position, (-10, 20));
    assert_eq!(spec.size, (320, 180));
    assert_eq!(spec.opacity, 250_000);
    assert_eq!(spec.blend_mode, "screen");
}

#[test]
fn overlay_opacity_is_at_most_one() {
    let mut c = clip(1, 0, 0, SECOND);
    c.overlay_opacity = Some(3_000_000);
    assert_eq!(c.overlay_spec().opacity, FULL_OPACITY);
    c.overlay_opacity = Some(1_000_000);
    assert_eq!(c.overlay_spec().opacity, 1_000_000);
    c.overlay_opacity = Some(0);
    assert_eq!(c.overlay_spec().opacity, 0);
}
