//! The stitch session: a state machine that makes every decision of a
//! stitch call, while the caller carries out its actions — write the
//! manifest to the temp directory, run the external engine, delete the
//! manifest — and feeds each outcome back in as an event. Within a
//! session everything is strictly sequential: the manifest is complete
//! before the engine starts, the engine's exit is awaited before the
//! delete action is issued, and the delete action is issued on every
//! path on which the manifest file was created, success or failure.

use crate::args::{audio_args_spec, build_audio_args, build_video_args, image_path_view, strs_view,
    video_args_spec};
use crate::manifest::{build_manifest_text, clip_paths, manifest_text_spec};
use crate::types::{AudioClip, EngineOutcome, StitchResult, VideoConfig};
use vstd::prelude::*;
use vstd::string::StringExecFns;

verus! {

/// Which artifact a session produces; video stitching carries its
/// background configuration.
pub enum StitchKind {
    Audio,
    Video { config: VideoConfig },
}

/// Where a session stands: which action has been issued and not yet
/// answered, or the final result.
pub enum StitchPhase {
    /// The manifest write was requested; its outcome is awaited.
    AwaitingManifest,
    /// The engine was started; its outcome is awaited.
    AwaitingEngine,
    /// The manifest delete was requested; the result is already fixed.
    AwaitingCleanup { pending: StitchResult },
    /// The session is over.
    Done { result: StitchResult },
}

/// What the caller must do next.
pub enum StitchAction {
    /// Create `file_name` in the temp directory and write `content` to it.
    WriteManifest { file_name: String, content: String },
    /// Run the external engine with these arguments and await its exit.
    RunEngine { args: Vec<String> },
    /// Best-effort delete of the manifest file; failure is ignored.
    DeleteManifest { file_name: String },
    /// Hand the result to the caller.
    Finish { result: StitchResult },
}

/// What the caller reports back after carrying out an action.
pub enum StitchEvent {
    /// The manifest file could not be created; nothing is on disk.
    ManifestCreateFailed { message: String },
    /// The file was created but a write failed; a partial file is on disk.
    ManifestWriteFailed,
    /// The manifest was fully written; `manifest_path` is its full path.
    ManifestWritten { manifest_path: String },
    /// The engine finished or could not be launched.
    EngineFinished { outcome: EngineOutcome },
    /// The delete was attempted (its own failure is ignored).
    ManifestDeleted,
}

/// The manifest file name for a session kind: distinct per kind, so an
/// audio and a video stitch running at the same time never collide.
pub open spec fn manifest_name_spec(kind: StitchKind) -> Seq<char> {
    match kind {
        StitchKind::Audio => "ffmpeg_concat_list.txt"@,
        StitchKind::Video { .. } => "ffmpeg_video_concat_list.txt"@,
    }
}

/// A result with this exact error message and nothing else set.
pub open spec fn is_err_with(r: StitchResult, msg: Seq<char>) -> bool {
    &&& !r.success
    &&& r.output_path is None
    &&& r.error is Some
    &&& r.error->0@ == msg
}

/// A successful result carrying this output path and nothing else.
pub open spec fn is_ok_with(r: StitchResult, path: Seq<char>) -> bool {
    &&& r.success
    &&& r.error is None
    &&& r.output_path is Some
    &&& r.output_path->0@ == path
}

/// The result a finished engine run pins down: success returns the
/// caller's output path; a non-zero exit embeds the diagnostic stream;
/// a launch failure names the engine as missing.
pub open spec fn outcome_result_spec(
    outcome: EngineOutcome,
    output_path: Seq<char>,
    r: StitchResult,
) -> bool {
    match outcome {
        EngineOutcome::Exited { success: true, .. } => is_ok_with(r, output_path),
        EngineOutcome::Exited { success: false, stderr, .. } => is_err_with(
            r,
            "FFmpeg error: "@ + stderr@,
        ),
        EngineOutcome::LaunchFailed { message } => is_err_with(
            r,
            "Failed to run FFmpeg: "@ + message@ + ". Is FFmpeg installed?"@,
        ),
    }
}

/// A stitch session. The kind, output path and bitrate are fixed at the
/// start; the phase advances with each event.
pub struct StitchSession {
    pub kind: StitchKind,
    pub output_path: String,
    pub bitrate: String,
    pub phase: StitchPhase,
}

impl StitchSession {
    /// Every result a session holds is well-formed.
    pub open spec fn inv(self) -> bool {
        match self.phase {
            StitchPhase::AwaitingCleanup { pending } => pending.wf(),
            StitchPhase::Done { result } => result.wf(),
            _ => true,
        }
    }

    /// The argument vector this session hands the engine once the
    /// manifest stands at `manifest_path`.
    pub open spec fn args_spec(self, manifest_path: Seq<char>) -> Seq<Seq<char>> {
        match self.kind {
            StitchKind::Audio => audio_args_spec(manifest_path, self.bitrate@, self.output_path@),
            StitchKind::Video { config } => video_args_spec(
                image_path_view(config),
                config.fit_mode,
                manifest_path,
                self.bitrate@,
                self.output_path@,
            ),
        }
    }

    /// Which events answer which phase: one outcome per issued action.
    pub open spec fn event_fits(self, event: StitchEvent) -> bool {
        match self.phase {
            StitchPhase::AwaitingManifest => event is ManifestCreateFailed
                || event is ManifestWriteFailed || event is ManifestWritten,
            StitchPhase::AwaitingEngine => event is EngineFinished,
            StitchPhase::AwaitingCleanup { .. } => event is ManifestDeleted,
            StitchPhase::Done { .. } => false,
        }
    }

    /// The whole transition relation of a session: for each phase and
    /// event, the exact next phase and the exact action issued.
    pub open spec fn step_spec(
        pre: StitchSession,
        event: StitchEvent,
        post: StitchSession,
        action: StitchAction,
    ) -> bool {
        &&& post.kind == pre.kind
        &&& post.output_path == pre.output_path
        &&& post.bitrate == pre.bitrate
        &&& match (pre.phase, event) {
            (StitchPhase::AwaitingManifest, StitchEvent::ManifestCreateFailed { message }) => {
                // Nothing reached the disk: the session ends at once.
                &&& post.phase matches StitchPhase::Done { result } && is_err_with(
                    result,
                    "Failed to create temp file: "@ + message@,
                ) && action == (StitchAction::Finish { result })
            },
            (StitchPhase::AwaitingManifest, StitchEvent::ManifestWriteFailed) => {
                // A partial file is on disk: it is deleted before the
                // session ends, and the engine is never started.
                &&& post.phase matches StitchPhase::AwaitingCleanup { pending } && is_err_with(
                    pending,
                    "Failed to write concat list"@,
                )
                &&& action matches StitchAction::DeleteManifest { file_name } && file_name@
                    == manifest_name_spec(pre.kind)
            },
            (StitchPhase::AwaitingManifest, StitchEvent::ManifestWritten { manifest_path }) => {
                &&& post.phase is AwaitingEngine
                &&& action matches StitchAction::RunEngine { args } && strs_view(args@)
                    == pre.args_spec(manifest_path@)
            },
            (StitchPhase::AwaitingEngine, StitchEvent::EngineFinished { outcome }) => {
                // Whatever the engine reported, the manifest is deleted
                // before the session ends.
                &&& post.phase matches StitchPhase::AwaitingCleanup { pending }
                    && outcome_result_spec(outcome, pre.output_path@, pending)
                &&& action matches StitchAction::DeleteManifest { file_name } && file_name@
                    == manifest_name_spec(pre.kind)
            },
            (StitchPhase::AwaitingCleanup { pending }, StitchEvent::ManifestDeleted) => {
                &&& post.phase == (StitchPhase::Done { result: pending })
                &&& action == (StitchAction::Finish { result: pending })
            },
            _ => false,
        }
    }

    fn manifest_name(&self) -> (r: String)
        ensures
            r@ == manifest_name_spec(self.kind),
    {
        match &self.kind {
            StitchKind::Audio => String::from_str("ffmpeg_concat_list.txt"),
            StitchKind::Video { .. } => String::from_str("ffmpeg_video_concat_list.txt"),
        }
    }

    /// Advances the session by one event, returning the next action for
    /// the caller to carry out.
    pub fn step(&mut self, event: StitchEvent) -> (action: StitchAction)
        requires
            old(self).inv(),
            old(self).event_fits(event),
        ensures
            final(self).inv(),
            Self::step_spec(*old(self), event, *final(self), action),
    {
        match event {
            StitchEvent::ManifestCreateFailed { message } => {
                proof {
                    reveal_strlit("Failed to create temp file: ");
                }
                let mut msg = String::from_str("Failed to create temp file: ");
                msg.append(message.as_str());
                let result = StitchResult::err(msg);
                let result2 = result.duplicate();
                self.phase = StitchPhase::Done { result };
                StitchAction::Finish { result: result2 }
            },
            StitchEvent::ManifestWriteFailed => {
                proof {
                    reveal_strlit("Failed to write concat list");
                }
                let pending = StitchResult::err(String::from_str("Failed to write concat list"));
                self.phase = StitchPhase::AwaitingCleanup { pending };
                StitchAction::DeleteManifest { file_name: self.manifest_name() }
            },
            StitchEvent::ManifestWritten { manifest_path } => {
                let args = match &self.kind {
                    StitchKind::Audio => build_audio_args(
                        &manifest_path,
                        &self.bitrate,
                        &self.output_path,
                    ),
                    StitchKind::Video { config } => build_video_args(
                        config,
                        &manifest_path,
                        &self.bitrate,
                        &self.output_path,
                    ),
                };
                self.phase = StitchPhase::AwaitingEngine;
                StitchAction::RunEngine { args }
            },
            StitchEvent::EngineFinished { outcome } => {
                let pending = match outcome {
                    EngineOutcome::Exited { success: true, .. } => StitchResult::ok(
                        self.output_path.clone(),
                    ),
                    EngineOutcome::Exited { success: false, stderr, .. } => {
                        proof {
                            reveal_strlit("FFmpeg error: ");
                        }
                        let mut msg = String::from_str("FFmpeg error: ");
                        msg.append(stderr.as_str());
                        StitchResult::err(msg)
                    },
                    EngineOutcome::LaunchFailed { message } => {
                        proof {
                            reveal_strlit("Failed to run FFmpeg: ");
                        }
                        let mut msg = String::from_str("Failed to run FFmpeg: ");
                        msg.append(message.as_str());
                        msg.append(". Is FFmpeg installed?");
                        StitchResult::err(msg)
                    },
                };
                self.phase = StitchPhase::AwaitingCleanup { pending };
                StitchAction::DeleteManifest { file_name: self.manifest_name() }
            },
            StitchEvent::ManifestDeleted => {
                match &self.phase {
                    StitchPhase::AwaitingCleanup { pending } => {
                        let result = pending.duplicate();
                        let result2 = result.duplicate();
                        self.phase = StitchPhase::Done { result };
                        StitchAction::Finish { result: result2 }
                    },
                    _ => {
                        // Ruled out by the protocol precondition.
                        proof {
                            assert(false);
                        }
                        StitchAction::Finish {
                            result: StitchResult::err(String::new()),
                        }
                    },
                }
            },
        }
    }
}

/// Opens an audio stitch session. An empty clip list is rejected at
/// once, before any filesystem or process action is requested;
/// otherwise the first action writes the manifest, one quote-escaped
/// line per clip in input order.
pub fn start_audio_stitch(clips: &Vec<AudioClip>, output_path: String, bitrate: String) -> (r: (
    StitchSession,
    StitchAction,
))
    ensures
        r.0.inv(),
        r.0.kind is Audio,
        r.0.output_path == output_path,
        r.0.bitrate == bitrate,
        start_spec(clips@, r.0, r.1),
{
    start_session(StitchKind::Audio, clips, output_path, bitrate)
}

/// Opens a video stitch session; as [`start_audio_stitch`], with the
/// video configuration fixed for the session.
pub fn start_video_stitch(
    clips: &Vec<AudioClip>,
    output_path: String,
    bitrate: String,
    config: VideoConfig,
) -> (r: (StitchSession, StitchAction))
    ensures
        r.0.inv(),
        r.0.kind == (StitchKind::Video { config }),
        r.0.output_path == output_path,
        r.0.bitrate == bitrate,
        start_spec(clips@, r.0, r.1),
{
    start_session(StitchKind::Video { config }, clips, output_path, bitrate)
}

/// How a session opens: an empty clip list ends it at once with the
/// "no clips" error and no other action; otherwise the manifest write
/// for exactly these clips is requested.
pub open spec fn start_spec(
    clips: Seq<AudioClip>,
    session: StitchSession,
    action: StitchAction,
) -> bool {
    if clips.len() == 0 {
        &&& session.phase matches StitchPhase::Done { result } && is_err_with(
            result,
            "No clips provided"@,
        ) && action == (StitchAction::Finish { result })
    } else {
        &&& session.phase is AwaitingManifest
        &&& action matches StitchAction::WriteManifest { file_name, content } && file_name@
            == manifest_name_spec(session.kind) && content@ == manifest_text_spec(clip_paths(clips))
    }
}

fn start_session(
    kind: StitchKind,
    clips: &Vec<AudioClip>,
    output_path: String,
    bitrate: String,
) -> (r: (StitchSession, StitchAction))
    ensures
        r.0.inv(),
        r.0.kind == kind,
        r.0.output_path == output_path,
        r.0.bitrate == bitrate,
        start_spec(clips@, r.0, r.1),
{
    if clips.len() == 0 {
        proof {
            reveal_strlit("No clips provided");
        }
        let result = StitchResult::err(String::from_str("No clips provided"));
        let result2 = result.duplicate();
        let session = StitchSession {
            kind,
            output_path,
            bitrate,
            phase: StitchPhase::Done { result },
        };
        (session, StitchAction::Finish { result: result2 })
    } else {
        let content = build_manifest_text(clips);
        let session = StitchSession {
            kind,
            output_path,
            bitrate,
            phase: StitchPhase::AwaitingManifest,
        };
        let file_name = session.manifest_name();
        (session, StitchAction::WriteManifest { file_name, content })
    }
}

/// Once the manifest file has been created on disk — the write step ran
/// to completion or failed partway, or the engine has already run — the
/// session never ends without first issuing the delete action: the only
/// transitions out of those states lead to the cleanup phase with a
/// `DeleteManifest` action, and only the cleanup phase reaches `Done`.
pub proof fn lemma_cleanup_always_requested(
    pre: StitchSession,
    event: StitchEvent,
    post: StitchSession,
    action: StitchAction,
)
    requires
        StitchSession::step_spec(pre, event, post, action),
        pre.phase is AwaitingEngine || (pre.phase is AwaitingManifest && (
        event is ManifestWriteFailed || event is ManifestWritten)),
    ensures
        !(post.phase is Done),
        pre.phase is AwaitingEngine || event is ManifestWriteFailed ==> (action matches
        StitchAction::DeleteManifest { file_name } && file_name@ == manifest_name_spec(pre.kind)),
{
}

/// A session that runs to completion — manifest written, engine
/// finished, cleanup done — always ends with the result its engine
/// outcome dictates: the caller's output path on a zero exit, the
/// diagnostic stream on a non-zero exit, the missing-engine message on
/// a launch failure; and the delete action always stands between the
/// engine's finish and the session's end.
pub proof fn lemma_completed_run_result(
    s0: StitchSession,
    manifest_path: String,
    outcome: EngineOutcome,
    s1: StitchSession,
    a1: StitchAction,
    s2: StitchSession,
    a2: StitchAction,
    s3: StitchSession,
    a3: StitchAction,
)
    requires
        s0.phase is AwaitingManifest,
        StitchSession::step_spec(s0, (StitchEvent::ManifestWritten { manifest_path }), s1, a1),
        StitchSession::step_spec(s1, (StitchEvent::EngineFinished { outcome }), s2, a2),
        StitchSession::step_spec(s2, StitchEvent::ManifestDeleted, s3, a3),
    ensures
        s3.phase matches StitchPhase::Done { result } && outcome_result_spec(
            outcome,
            s0.output_path@,
            result,
        ),
        a3 matches StitchAction::Finish { result } && outcome_result_spec(
            outcome,
            s0.output_path@,
            result,
        ),
        a2 matches StitchAction::DeleteManifest { file_name } && file_name@ == manifest_name_spec(
            s0.kind,
        ),
{
}

/// A session only finishes from the cleanup phase or by rejecting its
/// input before anything was done: every `Finish` action hands out the
/// result already fixed when cleanup was requested.
pub proof fn lemma_finish_only_after_cleanup(
    pre: StitchSession,
    event: StitchEvent,
    post: StitchSession,
    action: StitchAction,
)
    requires
        StitchSession::step_spec(pre, event, post, action),
        post.phase is Done,
    ensures
        (pre.phase matches StitchPhase::AwaitingCleanup { pending } && post.phase == (
        StitchPhase::Done { result: pending })) || (pre.phase is AwaitingManifest
            && event is ManifestCreateFailed),
{
}

} // verus!
