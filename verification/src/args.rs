//! The argument assembler: the full ordered argument vector handed to
//! the external engine, for audio-only and for video stitching.

use crate::filter::{filter_chain, filter_chain_spec};
use crate::types::{ImageFitMode, VideoConfig};
use vstd::prelude::*;
use vstd::string::StringExecFns;

verus! {

/// The views of a vector of argument strings.
pub open spec fn strs_view(v: Seq<String>) -> Seq<Seq<char>> {
    v.map_values(|s: String| s@)
}

/// The argument vector for audio-only stitching: overwrite, the
/// concatenation demuxer reading the manifest with absolute paths
/// allowed, the MP3 codec, the caller's bitrate, the output path.
pub open spec fn audio_args_spec(
    manifest_path: Seq<char>,
    bitrate: Seq<char>,
    output_path: Seq<char>,
) -> Seq<Seq<char>> {
    seq![
        "-y"@,
        "-f"@,
        "concat"@,
        "-safe"@,
        "0"@,
        "-i"@,
        manifest_path,
        "-c:a"@,
        "libmp3lame"@,
        "-b:a"@,
        bitrate,
        output_path,
    ]
}

/// Builds the audio-only argument vector.
pub fn build_audio_args(manifest_path: &String, bitrate: &String, output_path: &String) -> (r: Vec<
    String,
>)
    ensures
        strs_view(r@) == audio_args_spec(manifest_path@, bitrate@, output_path@),
{
    let mut v: Vec<String> = Vec::new();
    v.push(String::from_str("-y"));
    v.push(String::from_str("-f"));
    v.push(String::from_str("concat"));
    v.push(String::from_str("-safe"));
    v.push(String::from_str("0"));
    v.push(String::from_str("-i"));
    v.push(manifest_path.clone());
    v.push(String::from_str("-c:a"));
    v.push(String::from_str("libmp3lame"));
    v.push(String::from_str("-b:a"));
    v.push(bitrate.clone());
    v.push(output_path.clone());
    proof {
        assert(strs_view(v@) =~= audio_args_spec(manifest_path@, bitrate@, output_path@));
    }
    v
}

/// The video input declaration: a looped still image when one is
/// configured, else a procedurally generated solid-black source at the
/// target resolution and a fixed one-frame-per-second rate.
pub open spec fn video_input_spec(image_path: Option<Seq<char>>) -> Seq<Seq<char>> {
    match image_path {
        Some(p) => seq!["-loop"@, "1"@, "-i"@, p],
        None => seq!["-f"@, "lavfi"@, "-i"@, "color=black:s=1920x1080:r=1"@],
    }
}

/// The filter declaration: the fit-mode chain when an image is
/// configured; the generated black background is already the canvas, so
/// it only gets pixel-format normalization.
pub open spec fn video_filter_spec(image_path: Option<Seq<char>>, mode: ImageFitMode) -> Seq<
    Seq<char>,
> {
    match image_path {
        Some(_) => seq!["-vf"@, filter_chain_spec(mode)],
        None => seq!["-vf"@, "format=yuv420p"@],
    }
}

/// The fixed encoding settings and the caller's audio bitrate: H.264 at
/// a high-fidelity constant quality, a slow preset, still-image tuning,
/// AAC audio, truncation to the shorter stream, and a
/// progressive-download-friendly layout.
pub open spec fn video_encoding_spec(bitrate: Seq<char>, output_path: Seq<char>) -> Seq<
    Seq<char>,
> {
    seq![
        "-c:v"@,
        "libx264"@,
        "-crf"@,
        "12"@,
        "-preset"@,
        "slow"@,
        "-tune"@,
        "stillimage"@,
        "-c:a"@,
        "aac"@,
        "-b:a"@,
        bitrate,
        "-shortest"@,
        "-movflags"@,
        "+faststart"@,
        output_path,
    ]
}

/// The full ordered argument vector for video stitching: the overwrite
/// flag first, exactly one video input, exactly one audio input (the
/// concatenation demuxer reading the manifest), the filter declaration,
/// then the encoding settings.
pub open spec fn video_args_spec(
    image_path: Option<Seq<char>>,
    mode: ImageFitMode,
    manifest_path: Seq<char>,
    bitrate: Seq<char>,
    output_path: Seq<char>,
) -> Seq<Seq<char>> {
    seq!["-y"@] + video_input_spec(image_path) + seq![
        "-f"@,
        "concat"@,
        "-safe"@,
        "0"@,
        "-i"@,
        manifest_path,
    ] + video_filter_spec(image_path, mode) + video_encoding_spec(bitrate, output_path)
}

/// The image path's view, when one is configured.
pub open spec fn image_path_view(config: VideoConfig) -> Option<Seq<char>> {
    match config.image_path {
        Some(p) => Some(p@),
        None => None,
    }
}

/// Builds the video argument vector for the given configuration.
pub fn build_video_args(
    config: &VideoConfig,
    manifest_path: &String,
    bitrate: &String,
    output_path: &String,
) -> (r: Vec<String>)
    ensures
        strs_view(r@) == video_args_spec(
            image_path_view(*config),
            config.fit_mode,
            manifest_path@,
            bitrate@,
            output_path@,
        ),
{
    let mut v: Vec<String> = Vec::new();
    v.push(String::from_str("-y"));
    match &config.image_path {
        Some(image_path) => {
            v.push(String::from_str("-loop"));
            v.push(String::from_str("1"));
            v.push(String::from_str("-i"));
            v.push(image_path.clone());
        },
        None => {
            v.push(String::from_str("-f"));
            v.push(String::from_str("lavfi"));
            v.push(String::from_str("-i"));
            v.push(String::from_str("color=black:s=1920x1080:r=1"));
        },
    }
    v.push(String::from_str("-f"));
    v.push(String::from_str("concat"));
    v.push(String::from_str("-safe"));
    v.push(String::from_str("0"));
    v.push(String::from_str("-i"));
    v.push(manifest_path.clone());
    v.push(String::from_str("-vf"));
    if config.image_path.is_some() {
        v.push(filter_chain(config.fit_mode));
    } else {
        v.push(String::from_str("format=yuv420p"));
    }
    v.push(String::from_str("-c:v"));
    v.push(String::from_str("libx264"));
    v.push(String::from_str("-crf"));
    v.push(String::from_str("12"));
    v.push(String::from_str("-preset"));
    v.push(String::from_str("slow"));
    v.push(String::from_str("-tune"));
    v.push(String::from_str("stillimage"));
    v.push(String::from_str("-c:a"));
    v.push(String::from_str("aac"));
    v.push(String::from_str("-b:a"));
    v.push(bitrate.clone());
    v.push(String::from_str("-shortest"));
    v.push(String::from_str("-movflags"));
    v.push(String::from_str("+faststart"));
    v.push(output_path.clone());
    proof {
        assert(strs_view(v@) =~= video_args_spec(
            image_path_view(*config),
            config.fit_mode,
            manifest_path@,
            bitrate@,
            output_path@,
        ));
    }
    v
}

} // verus!
