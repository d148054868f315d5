use clipstitch::engine::interpret_version_check;
use clipstitch::types::EngineOutcome;

fn exited(success: bool, stdout: &str) -> EngineOutcome {
    EngineOutcome::Exited {
        success,
        stdout: String::from(stdout),
        stderr: String::new(),
    }
}

#[test]
fn clean_exit_reports_the_first_banner_line_trimmed() {
    let r = interpret_version_check(&exited(true, "ffmpeg version 6.1.1 \nbuilt with gcc\n"));
    assert_eq!(r, Ok(String::from("ffmpeg version 6.1.1")));
}

#[test]
fn single_line_banner_without_newline_is_kept() {
    let r = interpret_version_check(&exited(true, "ffmpeg version 7.0"));
    assert_eq!(r, Ok(String::from("ffmpeg version 7.0")));
}

#[test]
fn empty_banner_falls_back_to_a_fixed_note() {
    let r = interpret_version_check(&exited(true, ""));
    assert_eq!(r, Ok(String::from("FFmpeg installed")));
}

#[test]
fn nonzero_exit_is_installed_but_erroring() {
    let r = interpret_version_check(&exited(false, ""));
    assert_eq!(r, Err(String::from("FFmpeg found but returned an error")));
}

#[test]
fn launch_failure_is_not_installed() {
    let outcome = EngineOutcome::LaunchFailed { message: String::from("No such file") };
    let r = interpret_version_check(&outcome);
    assert_eq!(r, Err(String::from("FFmpeg is not installed or not in PATH")));
}
