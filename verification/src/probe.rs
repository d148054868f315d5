//! Probe interpretation: turning what the external engine reported
//! about a file into a valid/invalid classification with metrics or a
//! descriptive error. The existence check and the engine invocation are
//! the caller's; every outcome is classified here.

use crate::text::{duration_millis_spec, find_char, find_char_spec, parse_duration_millis,
    parse_u32, parse_u32_spec, trim_blanks, trim_spec};
use crate::types::{AudioInfo, EngineOutcome, ImageInfo};
use vstd::prelude::*;
use vstd::string::{StrSliceExecFns, StringExecFns};

verus! {

/// The duration a successful audio probe reports: the printed seconds
/// value in whole milliseconds, or zero when the output is not a plain
/// decimal. The zero default deliberately keeps the probe valid, so an
/// answer the pipeline cannot read degrades gracefully instead of
/// blocking the caller; a zero duration therefore also means "output
/// not understood".
pub open spec fn duration_or_zero(s: Seq<char>) -> u64 {
    match duration_millis_spec(trim_spec(s)) {
        Some(d) => d,
        None => 0,
    }
}

/// The probe answer for a path that does not exist on disk; no engine
/// call is made for such a path.
pub fn audio_probe_missing() -> (r: AudioInfo)
    ensures
        r.wf(),
        !r.valid,
        r.duration_millis == 0,
        r.size == 0,
        r.error is Some && r.error->0@ == "File does not exist"@,
{
    proof {
        reveal_strlit("File does not exist");
    }
    AudioInfo {
        duration_millis: 0,
        size: 0,
        valid: false,
        error: Some(String::from_str("File does not exist")),
    }
}

/// Classifies an audio probe from the engine's outcome and the
/// best-effort file size read beforehand. A clean exit is valid and
/// carries the parsed duration; a non-zero exit surfaces the diagnostic
/// stream; a launch failure names the engine as missing.
pub fn classify_audio_probe(size: u64, outcome: &EngineOutcome) -> (r: AudioInfo)
    ensures
        r.wf(),
        r.size == size,
        outcome matches EngineOutcome::Exited { success: true, stdout, .. } ==> r.valid
            && r.duration_millis == duration_or_zero(stdout@) && r.error is None,
        outcome matches EngineOutcome::Exited { success: false, stderr, .. } ==> !r.valid
            && r.error is Some && r.error->0@ == "FFprobe error: "@ + stderr@,
        outcome matches EngineOutcome::LaunchFailed { message } ==> !r.valid && r.error is Some
            && r.error->0@ == "Failed to run ffprobe: "@ + message@ + ". Is FFmpeg installed?"@,
{
    match outcome {
        EngineOutcome::Exited { success, stdout, stderr } => {
            if *success {
                let trimmed = trim_blanks(stdout.as_str());
                let duration_millis: u64 = match parse_duration_millis(trimmed.as_str()) {
                    Some(d) => d,
                    None => 0,
                };
                AudioInfo { duration_millis, size, valid: true, error: None }
            } else {
                proof {
                    reveal_strlit("FFprobe error: ");
                }
                let mut msg = String::from_str("FFprobe error: ");
                msg.append(stderr.as_str());
                AudioInfo { duration_millis: 0, size, valid: false, error: Some(msg) }
            }
        },
        EngineOutcome::LaunchFailed { message } => {
            proof {
                reveal_strlit("Failed to run ffprobe: ");
            }
            let mut msg = String::from_str("Failed to run ffprobe: ");
            msg.append(message.as_str());
            msg.append(". Is FFmpeg installed?");
            AudioInfo { duration_millis: 0, size, valid: false, error: Some(msg) }
        },
    }
}

/// What a successful image probe must print for the probe to be valid:
/// width and height as two positive decimal numbers joined by a single
/// `x`.
pub open spec fn dims_spec(s: Seq<char>) -> Option<(u32, u32)> {
    let k = find_char_spec(s, 'x');
    if k < s.len() && find_char_spec(s.subrange(k + 1, s.len() as int), 'x') == s.len() - k - 1 {
        match (parse_u32_spec(s.take(k)), parse_u32_spec(s.subrange(k + 1, s.len() as int))) {
            (Some(w), Some(h)) => if w > 0 && h > 0 {
                Some((w, h))
            } else {
                None
            },
            _ => None,
        }
    } else {
        None
    }
}

/// Parses the engine's `WxH` dimension answer: exactly two parts split
/// on `x`, both positive numbers.
pub fn parse_dims(s: &str) -> (r: Option<(u32, u32)>)
    ensures
        r == dims_spec(s@),
{
    let n: usize = s.unicode_len();
    let k: usize = find_char(s, 'x');
    proof {
        crate::text::lemma_find_char_props(s@, 'x');
    }
    if k == n {
        return None;
    }
    let w_part = s.substring_char(0, k);
    let h_part = s.substring_char(k + 1, n);
    proof {
        assert(w_part@ =~= s@.take(k as int));
        assert(h_part@ =~= s@.subrange(k + 1, n as int));
    }
    if find_char(h_part, 'x') != n - k - 1 {
        return None;
    }
    let w = parse_u32(w_part);
    let h = parse_u32(h_part);
    match (w, h) {
        (Some(w), Some(h)) => {
            if w > 0 && h > 0 {
                Some((w, h))
            } else {
                None
            }
        },
        _ => None,
    }
}

/// The image-probe answer for a path that does not exist on disk; no
/// engine call is made for such a path.
pub fn image_probe_missing() -> (r: ImageInfo)
    ensures
        r.wf(),
        !r.valid,
        r.width == 0 && r.height == 0,
        r.error is Some && r.error->0@ == "File does not exist"@,
{
    proof {
        reveal_strlit("File does not exist");
    }
    ImageInfo { width: 0, height: 0, valid: false, error: Some(String::from_str("File does not exist")) }
}

/// Classifies an image probe from the engine's outcome. A clean exit
/// with a readable `WxH` answer of positive dimensions is valid; any
/// other outcome is invalid with a descriptive error.
pub fn classify_image_probe(outcome: &EngineOutcome) -> (r: ImageInfo)
    ensures
        r.wf(),
        outcome matches EngineOutcome::Exited { success: true, stdout, .. } ==> match dims_spec(
            trim_spec(stdout@),
        ) {
            Some(d) => r.valid && r.width == d.0 && r.height == d.1 && r.error is None,
            None => !r.valid && r.error is Some && r.error->0@
                == "Could not parse image dimensions"@,
        },
        outcome matches EngineOutcome::Exited { success: false, stderr, .. } ==> !r.valid
            && r.error is Some && r.error->0@ == "FFprobe error: "@ + stderr@,
        outcome matches EngineOutcome::LaunchFailed { message } ==> !r.valid && r.error is Some
            && r.error->0@ == "Failed to run ffprobe: "@ + message@ + ". Is FFmpeg installed?"@,
{
    match outcome {
        EngineOutcome::Exited { success, stdout, stderr } => {
            if *success {
                let trimmed = trim_blanks(stdout.as_str());
                match parse_dims(trimmed.as_str()) {
                    Some(d) => ImageInfo { width: d.0, height: d.1, valid: true, error: None },
                    None => {
                        proof {
                            reveal_strlit("Could not parse image dimensions");
                        }
                        ImageInfo {
                            width: 0,
                            height: 0,
                            valid: false,
                            error: Some(String::from_str("Could not parse image dimensions")),
                        }
                    },
                }
            } else {
                proof {
                    reveal_strlit("FFprobe error: ");
                }
                let mut msg = String::from_str("FFprobe error: ");
                msg.append(stderr.as_str());
                ImageInfo { width: 0, height: 0, valid: false, error: Some(msg) }
            }
        },
        EngineOutcome::LaunchFailed { message } => {
            proof {
                reveal_strlit("Failed to run ffprobe: ");
            }
            let mut msg = String::from_str("Failed to run ffprobe: ");
            msg.append(message.as_str());
            msg.append(". Is FFmpeg installed?");
            ImageInfo { width: 0, height: 0, valid: false, error: Some(msg) }
        },
    }
}

} // verus!
