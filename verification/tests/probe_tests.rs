use clipstitch::probe::{audio_probe_missing, classify_audio_probe, classify_image_probe,
    image_probe_missing, parse_dims};
use clipstitch::text::{parse_duration_millis, parse_u32, trim_blanks};
use clipstitch::types::EngineOutcome;

fn exited(success: bool, stdout: &str, stderr: &str) -> EngineOutcome {
    EngineOutcome::Exited {
        success,
        stdout: String::from(stdout),
        stderr: String::from(stderr),
    }
}

#[test]
fn missing_audio_file_is_invalid_and_zeroed() {
    let info = audio_probe_missing();
    assert!(!info.valid);
    assert_eq!(info.duration_millis, 0);
    assert_eq!(info.size, 0);
    assert_eq!(info.error.as_deref(), Some("File does not exist"));
}

#[test]
fn missing_image_file_is_invalid_and_zeroed() {
    let info = image_probe_missing();
    assert!(!info.valid);
    assert_eq!(info.width, 0);
    assert_eq!(info.height, 0);
    assert_eq!(info.error.as_deref(), Some("File does not exist"));
}

#[test]
fn audio_probe_reads_duration() {
    let info = classify_audio_probe(2048, &exited(true, "123.456\n", ""));
    assert!(info.valid);
    assert_eq!(info.duration_millis, 123_456);
    assert_eq!(info.size, 2048);
    assert!(info.error.is_none());
}

#[test]
fn audio_probe_unreadable_duration_defaults_to_zero_but_stays_valid() {
    let info = classify_audio_probe(7, &exited(true, "N/A\n", ""));
    assert!(info.valid);
    assert_eq!(info.duration_millis, 0);
    assert_eq!(info.size, 7);
}

#[test]
fn audio_probe_engine_rejection_surfaces_stderr() {
    let info = classify_audio_probe(7, &exited(false, "", "codec not found"));
    assert!(!info.valid);
    assert_eq!(info.duration_millis, 0);
    let err = info.error.unwrap();
    assert!(err.contains("codec not found"));
    assert_eq!(err, "FFprobe error: codec not found");
}

#[test]
fn audio_probe_missing_engine_names_it() {
    let outcome = EngineOutcome::LaunchFailed { message: String::from("No such file or directory") };
    let info = classify_audio_probe(0, &outcome);
    assert!(!info.valid);
    assert_eq!(
        info.error.as_deref(),
        Some("Failed to run ffprobe: No such file or directory. Is FFmpeg installed?")
    );
}

#[test]
fn image_probe_reads_dimensions() {
    let info = classify_image_probe(&exited(true, "1920x1080\n", ""));
    assert!(info.valid);
    assert_eq!((info.width, info.height), (1920, 1080));
    assert!(info.error.is_none());
}

#[test]
fn image_probe_rejects_zero_dimension() {
    let info = classify_image_probe(&exited(true, "0x100\n", ""));
    assert!(!info.valid);
    assert_eq!((info.width, info.height), (0, 0));
    assert_eq!(info.error.as_deref(), Some("Could not parse image dimensions"));
}

#[test]
fn image_probe_rejects_malformed_answers() {
    for bad in ["axb", "1x2x3", "100", "x100", "100x", ""] {
        let info = classify_image_probe(&exited(true, bad, ""));
        assert!(!info.valid, "{bad} should not be valid");
        assert_eq!(info.error.as_deref(), Some("Could not parse image dimensions"));
    }
}

#[test]
fn image_probe_engine_rejection_surfaces_stderr() {
    let info = classify_image_probe(&exited(false, "", "codec not found"));
    assert!(!info.valid);
    assert!(info.error.unwrap().contains("codec not found"));
}

#[test]
fn image_probe_missing_engine_names_it() {
    let outcome = EngineOutcome::LaunchFailed { message: String::from("not found") };
    let info = classify_image_probe(&outcome);
    assert_eq!(
        info.error.as_deref(),
        Some("Failed to run ffprobe: not found. Is FFmpeg installed?")
    );
}

#[test]
fn parse_dims_accepts_exactly_two_positive_parts() {
    assert_eq!(parse_dims("640x480"), Some((640, 480)));
    assert_eq!(parse_dims("1x1"), Some((1, 1)));
    assert_eq!(parse_dims("640x0"), None);
    assert_eq!(parse_dims("640x480x3"), None);
    assert_eq!(parse_dims("640"), None);
}

#[test]
fn parse_u32_is_strict() {
    assert_eq!(parse_u32("42"), Some(42));
    assert_eq!(parse_u32("0"), Some(0));
    assert_eq!(parse_u32("4294967295"), Some(u32::MAX));
    assert_eq!(parse_u32("4294967296"), None);
    assert_eq!(parse_u32(""), None);
    assert_eq!(parse_u32("+1"), None);
    assert_eq!(parse_u32("1.0"), None);
}

#[test]
fn parse_duration_millis_reads_decimal_seconds() {
    assert_eq!(parse_duration_millis("1.5"), Some(1500));
    assert_eq!(parse_duration_millis("12"), Some(12_000));
    assert_eq!(parse_duration_millis("0.1234"), Some(123));
    assert_eq!(parse_duration_millis("2."), Some(2000));
    assert_eq!(parse_duration_millis("0.07"), Some(70));
    assert_eq!(parse_duration_millis(".5"), None);
    assert_eq!(parse_duration_millis("1e3"), None);
    assert_eq!(parse_duration_millis("-1"), None);
}

#[test]
fn trim_blanks_strips_both_ends() {
    assert_eq!(trim_blanks(" \t123.4\r\n"), "123.4");
    assert_eq!(trim_blanks("abc"), "abc");
    assert_eq!(trim_blanks(" \n "), "");
}
