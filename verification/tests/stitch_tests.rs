use clipstitch::stitch::{start_audio_stitch, start_video_stitch, StitchAction, StitchEvent};
use clipstitch::types::{AudioClip, EngineOutcome, ImageFitMode, StitchResult, VideoConfig};

fn clip(path: &str) -> AudioClip {
    AudioClip {
        id: String::from("id"),
        path: String::from(path),
        name: String::from("name"),
        duration_millis: 1000,
        size: 10,
    }
}

fn three_clips() -> Vec<AudioClip> {
    vec![clip("/a.mp3"), clip("/b.mp3"), clip("/c.mp3")]
}

fn exited(success: bool, stderr: &str) -> EngineOutcome {
    EngineOutcome::Exited {
        success,
        stdout: String::new(),
        stderr: String::from(stderr),
    }
}

fn assert_exclusive(r: &StitchResult) {
    if r.success {
        assert!(r.output_path.is_some() && r.error.is_none());
    } else {
        assert!(r.output_path.is_none() && r.error.is_some());
    }
}

#[test]
fn empty_audio_stitch_is_rejected_without_any_action() {
    let (_session, action) =
        start_audio_stitch(&vec![], String::from("/out.mp3"), String::from("192k"));
    match action {
        StitchAction::Finish { result } => {
            assert!(!result.success);
            assert_eq!(result.error.as_deref(), Some("No clips provided"));
            assert_exclusive(&result);
        }
        _ => panic!("an empty clip list must finish at once"),
    }
}

#[test]
fn empty_video_stitch_is_rejected_without_any_action() {
    let config = VideoConfig { image_path: None, fit_mode: ImageFitMode::Fit };
    let (_, action) = start_video_stitch(&vec![], String::from("/out.mp4"), String::from("192k"), config);
    match action {
        StitchAction::Finish { result } => {
            assert!(!result.success);
            assert_eq!(result.error.as_deref(), Some("No clips provided"));
        }
        _ => panic!("an empty clip list must finish at once"),
    }
}

#[test]
fn audio_stitch_happy_path_returns_the_output_path() {
    let (mut session, action) =
        start_audio_stitch(&three_clips(), String::from("/music/out.mp3"), String::from("192k"));
    let manifest_name = match action {
        StitchAction::WriteManifest { file_name, content } => {
            assert_eq!(file_name, "ffmpeg_concat_list.txt");
            assert_eq!(content, "file '/a.mp3'\nfile '/b.mp3'\nfile '/c.mp3'\n");
            file_name
        }
        _ => panic!("a non-empty stitch must write the manifest first"),
    };
    let action = session.step(StitchEvent::ManifestWritten {
        manifest_path: String::from("/tmp/ffmpeg_concat_list.txt"),
    });
    match action {
        StitchAction::RunEngine { args } => {
            assert_eq!(
                args,
                vec![
                    "-y", "-f", "concat", "-safe", "0", "-i", "/tmp/ffmpeg_concat_list.txt",
                    "-c:a", "libmp3lame", "-b:a", "192k", "/music/out.mp3",
                ]
            );
        }
        _ => panic!("the engine must run after the manifest is written"),
    }
    let action = session.step(StitchEvent::EngineFinished { outcome: exited(true, "") });
    match action {
        StitchAction::DeleteManifest { file_name } => assert_eq!(file_name, manifest_name),
        _ => panic!("the manifest must be deleted after the engine finishes"),
    }
    let action = session.step(StitchEvent::ManifestDeleted);
    match action {
        StitchAction::Finish { result } => {
            assert!(result.success);
            assert_eq!(result.output_path.as_deref(), Some("/music/out.mp3"));
            assert!(result.error.is_none());
            assert_exclusive(&result);
        }
        _ => panic!("the session must finish after cleanup"),
    }
}

#[test]
fn engine_rejection_surfaces_stderr_after_cleanup() {
    let (mut session, _) =
        start_audio_stitch(&three_clips(), String::from("/out.mp3"), String::from("128k"));
    session.step(StitchEvent::ManifestWritten { manifest_path: String::from("/tmp/m.txt") });
    let action = session.step(StitchEvent::EngineFinished { outcome: exited(false, "codec not found") });
    assert!(matches!(action, StitchAction::DeleteManifest { .. }));
    let action = session.step(StitchEvent::ManifestDeleted);
    match action {
        StitchAction::Finish { result } => {
            assert!(!result.success);
            let err = result.error.clone().unwrap();
            assert!(err.contains("codec not found"));
            assert_eq!(err, "FFmpeg error: codec not found");
            assert_exclusive(&result);
        }
        _ => panic!("the session must finish after cleanup"),
    }
}

#[test]
fn engine_launch_failure_names_the_engine() {
    let (mut session, _) =
        start_audio_stitch(&three_clips(), String::from("/out.mp3"), String::from("128k"));
    session.step(StitchEvent::ManifestWritten { manifest_path: String::from("/tmp/m.txt") });
    session.step(StitchEvent::EngineFinished {
        outcome: EngineOutcome::LaunchFailed { message: String::from("No such file") },
    });
    let action = session.step(StitchEvent::ManifestDeleted);
    match action {
        StitchAction::Finish { result } => {
            assert_eq!(
                result.error.as_deref(),
                Some("Failed to run FFmpeg: No such file. Is FFmpeg installed?")
            );
        }
        _ => panic!("the session must finish after cleanup"),
    }
}

#[test]
fn manifest_create_failure_finishes_without_cleanup() {
    let (mut session, _) =
        start_audio_stitch(&three_clips(), String::from("/out.mp3"), String::from("128k"));
    let action = session.step(StitchEvent::ManifestCreateFailed {
        message: String::from("permission denied"),
    });
    match action {
        StitchAction::Finish { result } => {
            assert!(!result.success);
            assert_eq!(result.error.as_deref(), Some("Failed to create temp file: permission denied"));
            assert_exclusive(&result);
        }
        _ => panic!("a create failure leaves nothing to clean up"),
    }
}

#[test]
fn manifest_write_failure_still_deletes_the_partial_file() {
    let (mut session, _) =
        start_audio_stitch(&three_clips(), String::from("/out.mp3"), String::from("128k"));
    let action = session.step(StitchEvent::ManifestWriteFailed);
    match action {
        StitchAction::DeleteManifest { file_name } => {
            assert_eq!(file_name, "ffmpeg_concat_list.txt");
        }
        _ => panic!("a partial manifest must be deleted"),
    }
    let action = session.step(StitchEvent::ManifestDeleted);
    match action {
        StitchAction::Finish { result } => {
            assert_eq!(result.error.as_deref(), Some("Failed to write concat list"));
        }
        _ => panic!("the session must finish after cleanup"),
    }
}

#[test]
fn video_stitch_with_image_builds_the_full_argument_vector() {
    let config = VideoConfig {
        image_path: Some(String::from("/art/cover.png")),
        fit_mode: ImageFitMode::Fit,
    };
    let (mut session, action) =
        start_video_stitch(&three_clips(), String::from("/out.mp4"), String::from("256k"), config);
    match action {
        StitchAction::WriteManifest { file_name, .. } => {
            assert_eq!(file_name, "ffmpeg_video_concat_list.txt");
        }
        _ => panic!("a non-empty stitch must write the manifest first"),
    }
    let action = session.step(StitchEvent::ManifestWritten {
        manifest_path: String::from("/tmp/ffmpeg_video_concat_list.txt"),
    });
    match action {
        StitchAction::RunEngine { args } => {
            assert_eq!(
                args,
                vec![
                    "-y", "-loop", "1", "-i", "/art/cover.png",
                    "-f", "concat", "-safe", "0", "-i", "/tmp/ffmpeg_video_concat_list.txt",
                    "-vf",
                    "scale=iw*min(1\\,min(1920/iw\\,1080/ih)):ih*min(1\\,min(1920/iw\\,1080/ih)),pad=1920:1080:(ow-iw)/2:(oh-ih)/2:black,format=yuv444p",
                    "-c:v", "libx264", "-crf", "12", "-preset", "slow", "-tune", "stillimage",
                    "-c:a", "aac", "-b:a", "256k", "-shortest", "-movflags", "+faststart",
                    "/out.mp4",
                ]
            );
        }
        _ => panic!("the engine must run after the manifest is written"),
    }
}

#[test]
fn video_stitch_without_image_generates_black_background() {
    let config = VideoConfig { image_path: None, fit_mode: ImageFitMode::Fill };
    let (mut session, _) =
        start_video_stitch(&three_clips(), String::from("/out.mp4"), String::from("192k"), config);
    let action = session.step(StitchEvent::ManifestWritten {
        manifest_path: String::from("/tmp/ffmpeg_video_concat_list.txt"),
    });
    match action {
        StitchAction::RunEngine { args } => {
            assert_eq!(
                args,
                vec![
                    "-y", "-f", "lavfi", "-i", "color=black:s=1920x1080:r=1",
                    "-f", "concat", "-safe", "0", "-i", "/tmp/ffmpeg_video_concat_list.txt",
                    "-vf", "format=yuv420p",
                    "-c:v", "libx264", "-crf", "12", "-preset", "slow", "-tune", "stillimage",
                    "-c:a", "aac", "-b:a", "192k", "-shortest", "-movflags", "+faststart",
                    "/out.mp4",
                ]
            );
        }
        _ => panic!("the engine must run after the manifest is written"),
    }
}

#[test]
fn video_stitch_happy_path_returns_the_output_path() {
    let config = VideoConfig { image_path: None, fit_mode: ImageFitMode::Fill };
    let (mut session, _) =
        start_video_stitch(&three_clips(), String::from("/v/out.mp4"), String::from("192k"), config);
    session.step(StitchEvent::ManifestWritten { manifest_path: String::from("/tmp/m.txt") });
    session.step(StitchEvent::EngineFinished { outcome: exited(true, "") });
    let action = session.step(StitchEvent::ManifestDeleted);
    match action {
        StitchAction::Finish { result } => {
            assert!(result.success);
            assert_eq!(result.output_path.as_deref(), Some("/v/out.mp4"));
            assert_exclusive(&result);
        }
        _ => panic!("the session must finish after cleanup"),
    }
}
