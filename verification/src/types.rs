//! The data the pipeline exchanges with its caller: clips, stitch and
//! probe results, video configuration, and the outcome of one run of the
//! external engine.

use vstd::prelude::*;

verus! {

/// One audio clip, supplied by the caller in presentation order. Only
/// `path` is read by the pipeline; the other fields are informational.
/// The duration is kept in whole milliseconds.
pub struct AudioClip {
    pub id: String,
    pub path: String,
    pub name: String,
    pub duration_millis: u64,
    pub size: u64,
}

/// Outcome of a stitch operation. Exactly one of `output_path` and
/// `error` is populated, matching `success`; see [`StitchResult::wf`].
pub struct StitchResult {
    pub success: bool,
    pub output_path: Option<String>,
    pub error: Option<String>,
}

impl StitchResult {
    /// Exactly one of `output_path`/`error` is set, matching `success`.
    pub open spec fn wf(self) -> bool {
        if self.success {
            self.output_path is Some && self.error is None
        } else {
            self.output_path is None && self.error is Some
        }
    }

    /// A successful result carrying the produced output path.
    pub fn ok(output_path: String) -> (r: StitchResult)
        ensures
            r.success,
            r.output_path == Some(output_path),
            r.error is None,
            r.wf(),
    {
        StitchResult { success: true, output_path: Some(output_path), error: None }
    }

    /// An exact copy: the session keeps one while the caller gets the
    /// other.
    pub fn duplicate(&self) -> (r: StitchResult)
        ensures
            r == *self,
    {
        StitchResult {
            success: self.success,
            output_path: match &self.output_path {
                Some(p) => Some(p.clone()),
                None => None,
            },
            error: match &self.error {
                Some(e) => Some(e.clone()),
                None => None,
            },
        }
    }

    /// A failed result carrying a human-readable message.
    pub fn err(message: String) -> (r: StitchResult)
        ensures
            !r.success,
            r.output_path is None,
            r.error == Some(message),
            r.wf(),
    {
        StitchResult { success: false, output_path: None, error: Some(message) }
    }
}

/// Result of probing an audio file. When `valid` is false the duration
/// is zeroed and a non-empty error message is attached; the size is
/// best-effort and kept even when the probe fails.
pub struct AudioInfo {
    pub duration_millis: u64,
    pub size: u64,
    pub valid: bool,
    pub error: Option<String>,
}

impl AudioInfo {
    /// Exactly one of valid metrics / error is populated; an invalid
    /// probe carries a zeroed duration and a non-empty message.
    pub open spec fn wf(self) -> bool {
        if self.valid {
            self.error is None
        } else {
            self.duration_millis == 0 && self.error is Some && self.error->0@.len() > 0
        }
    }
}

/// Result of probing an image file. Valid only when both dimensions are
/// positive; otherwise both are zeroed and a non-empty error is attached.
pub struct ImageInfo {
    pub width: u32,
    pub height: u32,
    pub valid: bool,
    pub error: Option<String>,
}

impl ImageInfo {
    /// Exactly one of valid metrics / error is populated; an invalid
    /// probe carries zeroed dimensions and a non-empty message.
    pub open spec fn wf(self) -> bool {
        if self.valid {
            self.width > 0 && self.height > 0 && self.error is None
        } else {
            self.width == 0 && self.height == 0 && self.error is Some && self.error->0@.len() > 0
        }
    }
}

/// How a background image is placed on the target canvas.
#[derive(Clone, Copy, PartialEq, Eq, Structural)]
pub enum ImageFitMode {
    /// Aspect-preserving scale that never upscales; the remaining canvas
    /// is letterboxed/pillarboxed with black.
    Fit,
    /// Aspect-preserving scale that covers the canvas; any overflow is
    /// cropped away.
    Fill,
}

/// Video output configuration. An absent `image_path` means a
/// procedurally generated solid-black background.
pub struct VideoConfig {
    pub image_path: Option<String>,
    pub fit_mode: ImageFitMode,
}

/// What one run of the external engine reported: either the process
/// could not be launched at all, or it exited and both streams were
/// captured.
pub enum EngineOutcome {
    LaunchFailed { message: String },
    Exited { success: bool, stdout: String, stderr: String },
}

} // verus!
