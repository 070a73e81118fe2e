use chrome_devtools::json::ArgValue;
use chrome_devtools::record_video::{
    ffmpeg_args, find_ffmpeg, frame_ack_session, next_read_timeout, recording_error, saved_summary, last_line_of, new_recorder,
    no_frames_error, on_frame_written, on_read_error, path_from_which_output, record_step, screencast_params,
    take_frame, validate_record_video_params, FfmpegExit, RecordAction, RecordEvent, RecordStage,
    RecordVideoError, RecordVideoParams, ScreencastMessage,
};

fn params(duration_secs: u64, fps: u32, quality: u32) -> RecordVideoParams {
    RecordVideoParams {
        output: "/tmp/test.mp4".to_string(),
        duration_secs,
        fps,
        quality,
        max_width: None,
        max_height: None,
    }
}

#[test]
fn find_ffmpeg_returns_path_or_clear_error() {
    match find_ffmpeg(None) {
        Ok(path) => assert!(!path.is_empty()),
        Err(e) => {
            let msg = e.message();
            assert!(msg.contains("ffmpeg not found"));
            assert!(msg.contains("brew install ffmpeg"));
        }
    }
    match find_ffmpeg(Some("/usr/bin/ffmpeg".to_string())) {
        Ok(path) => assert!(!path.is_empty()),
        Err(e) => {
            let msg = e.message();
            assert!(msg.contains("ffmpeg not found"));
            assert!(msg.contains("brew install ffmpeg"));
        }
    }
}

#[test]
fn record_video_params_defaults() {
    let params = RecordVideoParams {
        output: "/tmp/test.mp4".to_string(),
        duration_secs: 5,
        fps: 12,
        quality: 80,
        max_width: None,
        max_height: None,
    };
    assert_eq!(params.duration_secs, 5);
    assert_eq!(params.fps, 12);
    assert_eq!(params.quality, 80);
    assert!(params.max_width.is_none());
}

#[test]
fn reject_zero_fps() {
    let params = RecordVideoParams {
        output: "/tmp/test.mp4".to_string(),
        duration_secs: 5,
        fps: 0,
        quality: 80,
        max_width: None,
        max_height: None,
    };

    let error = validate_record_video_params(&params).unwrap_err();
    assert!(format!("{}", error.message()).contains("fps must be between 1 and 1000"));
}

#[test]
fn reject_over_max_fps() {
    let params = RecordVideoParams {
        output: "/tmp/test.mp4".to_string(),
        duration_secs: 5,
        fps: 1001,
        quality: 80,
        max_width: None,
        max_height: None,
    };

    let error = validate_record_video_params(&params).unwrap_err();
    assert!(format!("{}", error.message()).contains("fps must be between 1 and 1000"));
}

#[test]
fn reject_out_of_range_quality() {
    let params = RecordVideoParams {
        output: "/tmp/test.mp4".to_string(),
        duration_secs: 5,
        fps: 12,
        quality: 101,
        max_width: None,
        max_height: None,
    };

    let error = validate_record_video_params(&params).unwrap_err();
    assert!(format!("{}", error.message()).contains("quality must be between 1 and 100"));
}

#[test]
fn validation_order_and_bounds() {
    assert_eq!(
        validate_record_video_params(&params(0, 0, 0)),
        Err(RecordVideoError::ZeroDuration)
    );
    assert_eq!(
        validate_record_video_params(&params(1, 0, 0)),
        Err(RecordVideoError::FpsOutOfRange)
    );
    assert_eq!(
        validate_record_video_params(&params(1, 1, 0)),
        Err(RecordVideoError::QualityOutOfRange)
    );
    assert_eq!(validate_record_video_params(&params(1, 1, 1)), Ok(()));
    assert_eq!(validate_record_video_params(&params(1, 1000, 100)), Ok(()));
    assert_eq!(
        RecordVideoError::ZeroDuration.message(),
        "duration must be greater than 0 seconds"
    );
}

#[test]
fn missing_ffmpeg_message_tells_how_to_install() {
    assert_eq!(
        find_ffmpeg(None).unwrap_err().message(),
        "ffmpeg not found in PATH. Install it to use record-video:\n  macOS:  brew install ffmpeg\n  Ubuntu: sudo apt install ffmpeg\n  Other:  https://ffmpeg.org/download.html"
    );
    assert_eq!(find_ffmpeg(Some("/opt/ffmpeg".to_string())).unwrap(), "/opt/ffmpeg");
}

#[test]
fn which_output_gives_first_trimmed_line() {
    assert_eq!(
        path_from_which_output("/usr/bin/ffmpeg\n").as_deref(),
        Some("/usr/bin/ffmpeg")
    );
    assert_eq!(
        path_from_which_output("  /a/ffmpeg\r\n/b/ffmpeg\n").as_deref(),
        Some("/a/ffmpeg")
    );
    assert_eq!(path_from_which_output(" \n\t").as_deref(), None);
    assert_eq!(path_from_which_output("").as_deref(), None);
}

#[test]
fn last_line_follows_str_lines() {
    for text in ["", "a", "a\n", "a\nb", "a\r\nb\r\n", "x\n\n", "\n", "a\r", "a\nb\r"] {
        assert_eq!(
            last_line_of(text).as_deref(),
            text.lines().last(),
            "text {:?}",
            text
        );
    }
}

#[test]
fn ffmpeg_command_line() {
    let args = ffmpeg_args(&params(5, 12, 80));
    assert_eq!(
        args,
        vec![
            "-y", "-f", "image2pipe", "-framerate", "12", "-vcodec", "mjpeg", "-i", "-", "-c:v",
            "libx264", "-pix_fmt", "yuv420p", "-preset", "fast", "-movflags", "+faststart",
            "/tmp/test.mp4"
        ]
    );
}

#[test]
fn screencast_parameters() {
    let mut p = params(5, 12, 80);
    p.max_width = Some(640);
    let o = screencast_params(&p);
    let keys: Vec<&str> = o.fields.iter().map(|(k, _)| k.as_str()).collect();
    assert_eq!(keys, vec!["format", "quality", "everyNthFrame", "maxWidth"]);
    assert!(matches!(&o.fields[0].1, ArgValue::Text(s) if s == "jpeg"));
    assert!(matches!(o.fields[1].1, ArgValue::Number(80)));
    assert!(matches!(o.fields[2].1, ArgValue::Number(1)));
    assert!(matches!(o.fields[3].1, ArgValue::Number(640)));
}

fn frame(data: Option<&str>) -> ScreencastMessage {
    ScreencastMessage {
        method: Some("Page.screencastFrame".to_string()),
        has_params: true,
        session_id: Some(7),
        data: data.map(|d| d.to_string()),
    }
}

#[test]
fn frames_are_acked_rate_limited_and_decoded() {
    let mut st = new_recorder();
    let other = ScreencastMessage {
        method: Some("Page.loadEventFired".to_string()),
        has_params: true,
        session_id: None,
        data: None,
    };
    assert_eq!(frame_ack_session(&other), None);
    let no_params = ScreencastMessage {
        has_params: false,
        ..frame(Some("AAEC"))
    };
    assert_eq!(frame_ack_session(&no_params), None);
    assert_eq!(frame_ack_session(&frame(None)), Some(7));
    let no_sid = ScreencastMessage {
        session_id: None,
        ..frame(None)
    };
    assert_eq!(frame_ack_session(&no_sid), Some(0));

    // The first frame is kept whatever the rate limit says; "AAEC" is Base64 for 0, 1, 2.
    assert_eq!(
        take_frame(&mut st, &frame(Some("AAEC")), 10, false),
        Some(vec![0u8, 1, 2])
    );
    assert_eq!(st.last_emit_ms, Some(10));
    assert!(on_frame_written(&mut st, None));
    assert_eq!(st.frames_written, 1);

    // Too soon: not kept.
    assert_eq!(take_frame(&mut st, &frame(Some("AAEC")), 20, false), None);
    assert_eq!(st.last_emit_ms, Some(10));

    // Undecodable data is dropped, but counts as the last kept frame.
    assert_eq!(take_frame(&mut st, &frame(Some("not base64!")), 30, true), None);
    assert_eq!(st.last_emit_ms, Some(30));
    assert_eq!(take_frame(&mut st, &frame(None), 40, true), None);
    assert_eq!(st.last_emit_ms, Some(40));
    assert_eq!(
        take_frame(&mut st, &frame(Some("aGk=")), 50, true),
        Some(b"hi".to_vec())
    );
}

#[test]
fn recording_outcomes() {
    let mut st = new_recorder();
    assert_eq!(
        no_frames_error(&st).unwrap(),
        "No frames captured during recording — the page may not be visible or screencast may not be supported"
    );
    on_read_error(&mut st, "closed");
    assert_eq!(
        no_frames_error(&st).unwrap(),
        "WebSocket error during recording: closed"
    );

    let mut ok = new_recorder();
    assert!(on_frame_written(&mut ok, None));
    assert!(on_frame_written(&mut ok, None));
    assert_eq!(no_frames_error(&ok), None);
    let exited = FfmpegExit::Exited {
        success: true,
        status: "exit status: 0".to_string(),
        stderr: String::new(),
    };
    assert_eq!(recording_error(&ok, &exited), None);
    assert_eq!(
        saved_summary("/tmp/v.mp4", ok.frames_written, 5, 1234),
        "Video saved to /tmp/v.mp4 (2 frames, 5s, 1234 bytes)"
    );
    let failed = FfmpegExit::Exited {
        success: false,
        status: "exit status: 1".to_string(),
        stderr: "first\nlast problem\n".to_string(),
    };
    assert_eq!(
        recording_error(&ok, &failed).unwrap(),
        "ffmpeg exited with status exit status: 1: last problem"
    );
    let silent = FfmpegExit::Exited {
        success: false,
        status: "signal: 9".to_string(),
        stderr: String::new(),
    };
    assert_eq!(
        recording_error(&ok, &silent).unwrap(),
        "ffmpeg exited with status signal: 9: unknown error"
    );
    assert_eq!(
        recording_error(&ok, &FfmpegExit::WaitFailed("gone".to_string())).unwrap(),
        "Failed to wait for ffmpeg: gone"
    );
    let mut broken = new_recorder();
    assert!(on_frame_written(&mut broken, None));
    assert!(!on_frame_written(&mut broken, Some("broken pipe".to_string())));
    assert_eq!(broken.frames_written, 1);
    assert_eq!(
        recording_error(&broken, &exited).unwrap(),
        "Failed to write frame to ffmpeg: broken pipe"
    );
}

#[test]
fn capture_stops_when_the_time_is_up() {
    // Five seconds at 83 ms per frame; (seconds, nanoseconds) of the read timeout.
    assert_eq!(next_read_timeout(0, 5, 83), Some((0, 83_000_000)));
    assert_eq!(next_read_timeout(4_950_000_000, 5, 83), Some((0, 50_000_000)));
    assert_eq!(next_read_timeout(4_999_999_999, 5, 83), Some((0, 1)));
    assert_eq!(next_read_timeout(4_999_500_000, 5, 83), Some((0, 500_000)));
    assert_eq!(next_read_timeout(5_000_000_000, 5, 83), None);
    assert_eq!(next_read_timeout(7_000_000_000, 5, 83), None);
    assert_eq!(next_read_timeout(0, 10, 2500), Some((2, 500_000_000)));
    assert_eq!(
        next_read_timeout(0, u64::MAX, u64::MAX),
        Some((u64::MAX / 1000, (u64::MAX % 1000) as u32 * 1_000_000))
    );
}

fn step(
    stage: RecordStage,
    event: RecordEvent<String>,
    p: &RecordVideoParams,
    state: &chrome_devtools::record_video::RecorderState,
) -> (RecordStage, RecordAction<String>) {
    record_step(stage, &event, p, state)
}

#[test]
fn recording_steps_through_a_successful_run() {
    let p = params(5, 12, 80);
    let mut state = new_recorder();
    let (s, a) = step(RecordStage::Checking, RecordEvent::Begin, &p, &state);
    assert_eq!(s, RecordStage::LookingUp);
    assert!(matches!(a, RecordAction::LookUpFfmpeg));
    let (s, a) = step(s, RecordEvent::FfmpegLookedUp(Some("/usr/bin/ffmpeg".to_string())), &p, &state);
    assert_eq!(s, RecordStage::Starting);
    assert!(matches!(a, RecordAction::StartScreencast));
    let (s, a) = step(s, RecordEvent::ScreencastStarted, &p, &state);
    assert_eq!(s, RecordStage::Spawning);
    assert!(matches!(a, RecordAction::SpawnFfmpeg));
    let (s, a) = step(s, RecordEvent::FfmpegSpawned, &p, &state);
    assert_eq!(s, RecordStage::Opening);
    assert!(matches!(a, RecordAction::OpenStdin));
    let (s, a) = step(s, RecordEvent::StdinOpened(true), &p, &state);
    assert_eq!(s, RecordStage::Capturing);
    assert!(matches!(a, RecordAction::Capture));
    assert!(on_frame_written(&mut state, None));
    assert!(on_frame_written(&mut state, None));
    let (s, a) = step(s, RecordEvent::CaptureEnded, &p, &state);
    assert_eq!(s, RecordStage::Stopping);
    assert!(matches!(a, RecordAction::StopScreencastAndCloseInput));
    let (s, a) = step(s, RecordEvent::ScreencastStopped, &p, &state);
    assert_eq!(s, RecordStage::Waiting);
    assert!(matches!(a, RecordAction::WaitForFfmpeg));
    let exit = FfmpegExit::Exited {
        success: true,
        status: "exit status: 0".to_string(),
        stderr: String::new(),
    };
    let (s, a) = step(s, RecordEvent::FfmpegEnded(exit), &p, &state);
    assert_eq!(s, RecordStage::Sizing);
    assert!(matches!(a, RecordAction::ReadFileSize));
    let (s, a) = step(s, RecordEvent::FileSized(2048), &p, &state);
    assert_eq!(s, RecordStage::Done);
    match a {
        RecordAction::Succeed(m) => {
            assert_eq!(m, "Video saved to /tmp/test.mp4 (2 frames, 5s, 2048 bytes)")
        }
        other => panic!("unexpected {:?}", other),
    }
}

#[test]
fn recording_refuses_bad_parameters_and_a_missing_ffmpeg() {
    let state = new_recorder();
    match step(RecordStage::Checking, RecordEvent::Begin, &params(0, 12, 80), &state) {
        (RecordStage::Done, RecordAction::Fail(m)) => {
            assert_eq!(m, "duration must be greater than 0 seconds")
        }
        other => panic!("unexpected {:?}", other),
    }
    match step(RecordStage::Checking, RecordEvent::Begin, &params(5, 12, 0), &state) {
        (RecordStage::Done, RecordAction::Fail(m)) => {
            assert_eq!(m, "quality must be between 1 and 100")
        }
        other => panic!("unexpected {:?}", other),
    }
    match step(RecordStage::LookingUp, RecordEvent::FfmpegLookedUp(None), &params(5, 12, 80), &state) {
        (RecordStage::Done, RecordAction::Fail(m)) => assert!(m.starts_with("ffmpeg not found in PATH")),
        other => panic!("unexpected {:?}", other),
    }
    match step(
        RecordStage::Starting,
        RecordEvent::ScreencastFailed("no page".to_string()),
        &params(5, 12, 80),
        &state,
    ) {
        (RecordStage::Done, RecordAction::Fail(m)) => assert_eq!(m, "no page"),
        other => panic!("unexpected {:?}", other),
    }
}

#[test]
fn recording_stops_the_screencast_when_ffmpeg_cannot_start() {
    let state = new_recorder();
    let p = params(5, 12, 80);
    match step(RecordStage::Spawning, RecordEvent::SpawnFailed("No such file".to_string()), &p, &state) {
        (RecordStage::Done, RecordAction::StopScreencastAndFail(m)) => {
            assert_eq!(m, "Failed to start ffmpeg: No such file")
        }
        other => panic!("unexpected {:?}", other),
    }
    match step(RecordStage::Opening, RecordEvent::StdinOpened(false), &p, &state) {
        (RecordStage::Done, RecordAction::Fail(m)) => assert_eq!(m, "Failed to open ffmpeg stdin"),
        other => panic!("unexpected {:?}", other),
    }
}

#[test]
fn recording_without_frames_kills_ffmpeg() {
    let p = params(5, 12, 80);
    let state = new_recorder();
    match step(RecordStage::Stopping, RecordEvent::ScreencastStopped, &p, &state) {
        (RecordStage::Done, RecordAction::KillFfmpegAndFail(m)) => {
            assert!(m.starts_with("No frames captured during recording"))
        }
        other => panic!("unexpected {:?}", other),
    }
    let mut failed = new_recorder();
    on_read_error(&mut failed, "Connection closed");
    match step(RecordStage::Stopping, RecordEvent::ScreencastStopped, &p, &failed) {
        (RecordStage::Done, RecordAction::KillFfmpegAndFail(m)) => {
            assert!(m.contains("Connection closed"))
        }
        other => panic!("unexpected {:?}", other),
    }
}

#[test]
fn recording_reports_an_ffmpeg_failure() {
    let p = params(5, 12, 80);
    let mut state = new_recorder();
    assert!(on_frame_written(&mut state, None));
    let exit = FfmpegExit::Exited {
        success: false,
        status: "exit status: 1".to_string(),
        stderr: "first\nInvalid argument\n".to_string(),
    };
    match step(RecordStage::Waiting, RecordEvent::FfmpegEnded(exit), &p, &state) {
        (RecordStage::Done, RecordAction::Fail(m)) => {
            assert_eq!(m, "ffmpeg exited with status exit status: 1: Invalid argument")
        }
        other => panic!("unexpected {:?}", other),
    }
}
