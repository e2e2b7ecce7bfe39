use friconvert::session::{
    classify, default_output_path, ConvertError, EngineOutcome, Mode, TrimApp,
};

fn strings(v: &[&str]) -> Vec<String> {
    v.iter().map(|s| s.to_string()).collect()
}

fn session(input: &str, output: &str) -> TrimApp {
    let mut app = TrimApp::new();
    app.input_path = input.to_string();
    app.output_path = output.to_string();
    app
}

#[test]
fn default_output_goes_next_to_the_input() {
    assert_eq!(
        default_output_path("/home/user/videos/clip.mkv"),
        Some("/home/user/videos/trimmed_output.mp4".to_string())
    );
}

#[test]
fn default_output_ignores_the_input_name() {
    assert_eq!(
        default_output_path("/home/user/videos/other.avi"),
        default_output_path("/home/user/videos/clip.mkv")
    );
    assert_eq!(default_output_path("/data/a.png"), Some("/data/trimmed_output.mp4".to_string()));
}

#[test]
fn default_output_for_a_bare_file_name() {
    assert_eq!(default_output_path("clip.mkv"), Some("trimmed_output.mp4".to_string()));
}

#[test]
fn no_default_output_without_a_parent() {
    assert_eq!(default_output_path("/"), None);
    assert_eq!(default_output_path(""), None);
}

#[test]
fn set_default_output_fills_output_and_length() {
    let mut app = session("/media/in/movie.mov", "");
    app.set_default_output(Some("  Duration: 00:00:42.00, start: 0.0, bitrate: 1 kb/s\n"));
    assert_eq!(app.output_path, "/media/in/trimmed_output.mp4");
    assert_eq!(app.video_length, "00:00:42.00");
    assert_eq!(app.input_path, "/media/in/movie.mov");
}

#[test]
fn set_default_output_after_failed_probe() {
    let mut app = session("/media/in/movie.mov", "old.mp4");
    app.video_length = "99".to_string();
    app.set_default_output(None);
    assert_eq!(app.output_path, "/media/in/trimmed_output.mp4");
    assert_eq!(app.video_length, "0");
}

#[test]
fn set_default_output_keeps_output_without_parent() {
    let mut app = session("/", "kept.mp4");
    app.set_default_output(Some("Duration: 00:00:01.00,"));
    assert_eq!(app.output_path, "kept.mp4");
    assert_eq!(app.video_length, "00:00:01.00");
}

#[test]
fn empty_input_changes_nothing() {
    let mut app = session("", "out.mp4");
    app.video_length = "12".to_string();
    app.set_default_output(Some("Duration: 00:00:01.00,"));
    assert_eq!(app.output_path, "out.mp4");
    assert_eq!(app.video_length, "12");
}

#[test]
fn empty_input_has_zero_duration_and_no_probe() {
    let app = session("", "");
    assert_eq!(app.get_video_duration(Some("Duration: 00:00:01.00,")), "0");
    assert_eq!(app.probe_args(), None);
}

#[test]
fn probe_arguments() {
    let app = session("/v/a.mp4", "");
    assert_eq!(
        app.probe_args(),
        Some(strings(&["-i", "/v/a.mp4", "-hide_banner", "-f", "null", "-"]))
    );
}

#[test]
fn trim_uses_zero_start_and_given_end() {
    let mut app = session("in.mp4", "out.mp4");
    app.mode = Mode::TrimVideo;
    app.end_time = "10".to_string();
    app.video_length = "30".to_string();
    assert_eq!(
        app.convert_video(),
        strings(&["-i", "in.mp4", "-ss", "0", "-to", "10", "-c", "copy", "out.mp4"])
    );
}

#[test]
fn trim_defaults_end_to_video_length() {
    let mut app = session("in.mp4", "out.mp4");
    app.mode = Mode::TrimVideo;
    app.start_time = "5".to_string();
    app.video_length = "42".to_string();
    let args = app.convert_video();
    assert_eq!(args[3], "5");
    assert_eq!(args[5], "42");
}

#[test]
fn convert_builds_plain_conversion() {
    let app = session("a.png", "b.jpg");
    assert_eq!(app.convert_image(), strings(&["-i", "a.png", "b.jpg"]));
    assert_eq!(app.convert().unwrap(), strings(&["-i", "a.png", "b.jpg"]));
}

#[test]
fn convert_dispatches_on_mode() {
    let mut app = session("a.mp4", "b.mp4");
    app.mode = Mode::TrimVideo;
    app.start_time = "00:00:01".to_string();
    app.end_time = "00:00:02".to_string();
    assert_eq!(
        app.convert().unwrap(),
        strings(&["-i", "a.mp4", "-ss", "00:00:01", "-to", "00:00:02", "-c", "copy", "b.mp4"])
    );
}

#[test]
fn empty_paths_are_refused() {
    assert!(matches!(session("", "out.mp4").convert(), Err(ConvertError::EmptyPath)));
    assert!(matches!(session("in.mp4", "").convert(), Err(ConvertError::EmptyPath)));
    let mut app = session("", "");
    app.mode = Mode::TrimVideo;
    assert!(matches!(app.convert(), Err(ConvertError::EmptyPath)));
}

#[test]
fn exit_code_zero_is_success() {
    let out = EngineOutcome::Exited { code: Some(0), stderr: "Error: lots of noise".to_string() };
    assert!(classify(out).is_ok());
}

#[test]
fn other_exit_codes_carry_the_diagnostics() {
    let out = EngineOutcome::Exited { code: Some(1), stderr: "No such file".to_string() };
    match classify(out) {
        Err(ConvertError::EngineFailed(text)) => assert_eq!(text, "No such file"),
        other => panic!("unexpected {:?}", other),
    }
    let killed = EngineOutcome::Exited { code: None, stderr: String::new() };
    assert!(matches!(classify(killed), Err(ConvertError::EngineFailed(_))));
}

#[test]
fn launch_failure_carries_the_reason() {
    let out = EngineOutcome::NotLaunched { reason: "not found".to_string() };
    match classify(out) {
        Err(ConvertError::LaunchFailed(text)) => assert_eq!(text, "not found"),
        other => panic!("unexpected {:?}", other),
    }
}
