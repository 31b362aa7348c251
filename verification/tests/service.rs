use nolanforge::config::Config;
use nolanforge::pipeline::removal_warning;
use nolanforge::probe::{check_ffmpeg, first_line_of, Probe};
use nolanforge::step::{ErrorKind, ExportError};
use nolanforge::recording::{report_save, SaveOutcome};
use nolanforge::transcription::{api_failure, transcription_request, FormField};

#[test]
fn stored_key_is_preferred_and_trimmed() {
    let config = Config::resolve(
        Some("  sk-stored \n".to_string()),
        Some("sk-env".to_string()),
        None,
    )
    .unwrap();
    assert_eq!(config.openai_api_key, "sk-stored");
    assert_eq!(config.openai_model, "whisper-1");
}

#[test]
fn environment_key_is_the_fallback() {
    let config = Config::resolve(None, Some(" sk-env ".to_string()), Some("whisper-2".to_string())).unwrap();
    assert_eq!(config.openai_api_key, " sk-env ");
    assert_eq!(config.openai_model, "whisper-2");
}

#[test]
fn no_key_is_an_error() {
    assert_eq!(
        Config::resolve(None, None, Some("m".to_string())),
        Err("OPENAI_API_KEY not found. Please set it in Settings or add it to your .env file."
            .to_string())
    );
}

#[test]
fn version_is_the_first_line_of_the_answer() {
    let answer = |bytes: &[u8]| check_ffmpeg(&Probe::Answered { stdout: bytes.to_vec() });
    assert_eq!(
        answer(b"ffmpeg version 6.0 Copyright\nbuilt with gcc\n"),
        Ok("ffmpeg version 6.0 Copyright".to_string())
    );
    assert_eq!(answer(b"ffmpeg version 6.0\r\nbuilt"), Ok("ffmpeg version 6.0".to_string()));
    assert_eq!(answer(b"one line"), Ok("one line".to_string()));
    assert_eq!(answer(b"bare\r"), Ok("bare\r".to_string()));
    assert_eq!(answer(b"\nsecond"), Ok("".to_string()));
    assert_eq!(answer(b"\r\nsecond"), Ok("".to_string()));
    assert_eq!(answer(b""), Ok("Unknown version".to_string()));
    assert_eq!(answer(&[b'v', 0xff, b'\n', b'x']), Ok("v\u{fffd}".to_string()));
}

#[test]
fn version_agrees_with_the_lines_of_the_decoded_answer() {
    let samples: [&[u8]; 7] = [
        b"a\nb",
        b"a\r\nb",
        b"a\r",
        b"\r\n",
        b"\n",
        b"a\rb\nc",
        &[0xe2, 0x82, b'\n', 0xac],
    ];
    for bytes in samples {
        let text = String::from_utf8_lossy(bytes).into_owned();
        let expected = text.lines().next().unwrap_or("Unknown version").to_string();
        assert_eq!(check_ffmpeg(&Probe::Answered { stdout: bytes.to_vec() }), Ok(expected));
    }
}

#[test]
fn a_tool_that_is_missing_or_fails_is_reported() {
    assert_eq!(
        check_ffmpeg(&Probe::NotFound),
        Err("FFmpeg not found. Please install FFmpeg and add it to your PATH.".to_string())
    );
    assert_eq!(
        check_ffmpeg(&Probe::Failed),
        Err("FFmpeg found but returned an error".to_string())
    );
}

#[test]
fn transcription_request_names_the_model_and_the_language() {
    let field = |name: &str, value: &str| FormField { name: name.to_string(), value: value.to_string() };
    let with = transcription_request(Some("talk.mp3"), "sk-1", "whisper-1", Some("en"));
    assert_eq!(with.url, "https://api.openai.com/v1/audio/transcriptions");
    assert_eq!(with.authorization, "Bearer sk-1");
    assert_eq!(with.file_name, "talk.mp3");
    assert_eq!(
        with.fields,
        vec![
            field("model", "whisper-1"),
            field("response_format", "verbose_json"),
            field("timestamp_granularities", "[\"word\", \"segment\"]"),
            field("language", "en"),
        ]
    );
    let without = transcription_request(None, "k", "m", None);
    assert_eq!(without.file_name, "audio.mp3");
    assert_eq!(without.fields.len(), 3);
    assert_eq!(without.fields[0], field("model", "m"));
}

#[test]
fn service_failures_are_worded_with_status_and_body() {
    assert_eq!(
        api_failure("401 Unauthorized", Some("{\"error\":\"bad key\"}")),
        "OpenAI API error (401 Unauthorized): {\"error\":\"bad key\"}"
    );
    assert_eq!(api_failure("500 Internal Server Error", None), "OpenAI API error (500 Internal Server Error): Unknown error");
}

#[test]
fn saving_a_recording_is_reported() {
    assert_eq!(
        report_save("/r/a.webm", &SaveOutcome::Saved),
        Ok("Recording saved successfully to: /r/a.webm".to_string())
    );
    assert_eq!(
        report_save("/r/a.webm", &SaveOutcome::NotCreated { reason: "denied".to_string() }),
        Err("Failed to create file: denied".to_string())
    );
    assert_eq!(
        report_save("/r/a.webm", &SaveOutcome::NotWritten { reason: "full".to_string() }),
        Err("Failed to write file: full".to_string())
    );
}

#[test]
fn first_line_is_cut_at_the_line_feed() {
    assert_eq!(first_line_of(&b"abc\ndef".to_vec()), b"abc".to_vec());
    assert_eq!(first_line_of(&b"abc\r\ndef".to_vec()), b"abc".to_vec());
    assert_eq!(first_line_of(&b"abc\r".to_vec()), b"abc\r".to_vec());
    assert_eq!(first_line_of(&b"\r\n".to_vec()), b"".to_vec());
    assert_eq!(first_line_of(&b"".to_vec()), b"".to_vec());
    assert_eq!(first_line_of(&b"a\rb\n".to_vec()), b"a\rb".to_vec());
}

#[test]
fn settled_settings_take_the_stored_key_as_it_is() {
    let config = Config::settle(Some(" k ".to_string()), None, None).unwrap();
    assert_eq!(config.openai_api_key, " k ");
    assert_eq!(config.openai_model, "whisper-1");
    assert!(Config::settle(None, None, None).is_err());
}

#[test]
fn errors_are_worded_from_the_step_and_the_detail() {
    assert_eq!(
        ExportError::tool_failure("FFmpeg error: ", "moov atom not found"),
        ExportError {
            kind: ErrorKind::ToolExecution,
            message: "FFmpeg error: moov atom not found".to_string()
        }
    );
    assert_eq!(
        ExportError::refusal("Failed to execute FFmpeg for background: ", true, "not found"),
        ExportError {
            kind: ErrorKind::ToolInvocation,
            message: "Failed to execute FFmpeg for background: not found".to_string()
        }
    );
    assert_eq!(
        ExportError::refusal("Failed to copy audio clip: ", false, "denied"),
        ExportError {
            kind: ErrorKind::Workspace,
            message: "Failed to copy audio clip: denied".to_string()
        }
    );
    assert_eq!(removal_warning("busy"), "Warning: Failed to clean up temp directory: busy");
}
