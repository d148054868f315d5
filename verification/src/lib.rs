//! Core of a media-stitching pipeline: it turns an ordered list of audio
//! clips into either a single MP3 file or an MP4 video pairing the
//! concatenated audio with a static background, by preparing every input
//! handed to an external transcoding engine and by interpreting every
//! outcome the engine reports.
//!
//! The library itself performs no I/O: it builds the concatenation
//! manifest, the filter graph and the full argument vector, classifies
//! probe output, and drives a stitch session as a state machine whose
//! actions (write a file, run the engine, delete a file) are carried out
//! by the surrounding application, which feeds the outcome of each action
//! back in as an event.

pub mod args;
pub mod engine;
pub mod filter;
pub mod manifest;
pub mod probe;
pub mod stitch;
pub mod text;
pub mod types;

use vstd::prelude::*;

verus! {

/// The target canvas width for video output.
pub const TARGET_WIDTH: u32 = 1920;

/// The target canvas height for video output.
pub const TARGET_HEIGHT: u32 = 1080;

} // verus!
