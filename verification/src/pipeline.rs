//! The run: what is decided before the two fetches start, and after both
//! have ended.

use vstd::prelude::*;
use crate::error::{MuxFailure, PipelineError, TrackKind};
use crate::model::{VimeoAudio, VimeoResponse, VimeoVideo};
use crate::naming::{chosen_name, mime_suffix_of, output_file_name, text_of, video_suffix};
use crate::resolve::{resolve, url_joined};
use crate::select::{best_of, select_tracks};

verus! {

/// Everything a run needs to know before the fetches start.
pub struct RunPlan<'a> {
    /// The absolute URL that both tracks resolve their base against.
    pub base_url: String,
    pub video: &'a VimeoVideo,
    pub audio: &'a VimeoAudio,
    /// The name of the output file.
    pub file_name: String,
}

/// What stands in the way of a run, if anything does: the first of an
/// unresolvable manifest base, a missing video rendition, a missing audio
/// rendition and an unreadable mime type of the selected video.
pub open spec fn run_obstacle(request_url: Seq<char>, manifest: VimeoResponse) -> Option<
    PipelineError,
> {
    if url_joined(request_url, manifest.base_url@) is None {
        Some(PipelineError::UrlResolution)
    } else if manifest.video@.len() == 0 {
        Some(PipelineError::NoRenditions { kind: TrackKind::Video })
    } else if manifest.audio@.len() == 0 {
        Some(PipelineError::NoRenditions { kind: TrackKind::Audio })
    } else if mime_suffix_of(best_of(manifest.video@).mime_type@) is None {
        Some(PipelineError::VideoMimeType)
    } else {
        None
    }
}

/// Plans a run from the manifest that `request_url` returned. Fails exactly
/// when something stands in the way, with that obstacle. Otherwise the plan
/// holds the resolved base, the best rendition of each kind and the output
/// name: the requested one, or the clip id with the extension that goes
/// with the selected video.
pub fn plan_run<'a>(
    request_url: &str,
    manifest: &'a VimeoResponse,
    requested_name: Option<String>,
) -> (r: Result<RunPlan<'a>, PipelineError>)
    ensures
        match r {
            Ok(plan) => {
                &&& run_obstacle(request_url@, *manifest) is None
                &&& url_joined(request_url@, manifest.base_url@) == Some(plan.base_url@)
                &&& *plan.video == best_of(manifest.video@)
                &&& *plan.audio == best_of(manifest.audio@)
                &&& plan.file_name@ == chosen_name(
                    text_of(requested_name),
                    manifest.clip_id@,
                    mime_suffix_of(plan.video.mime_type@)->0,
                )
            },
            Err(e) => run_obstacle(request_url@, *manifest) == Some(e),
        },
{
    let base_url = match resolve(request_url, manifest.base_url.as_str()) {
        Ok(joined) => joined,
        Err(e) => {
            return Err(e);
        },
    };
    let chosen = match select_tracks(manifest) {
        Ok(chosen) => chosen,
        Err(e) => {
            return Err(e);
        },
    };
    let suffix = match video_suffix(chosen.video.mime_type.as_str()) {
        Ok(suffix) => suffix,
        Err(e) => {
            return Err(e);
        },
    };
    let file_name = output_file_name(requested_name, manifest.clip_id.as_str(), &suffix);
    Ok(RunPlan { base_url, video: chosen.video, audio: chosen.audio, file_name })
}

/// The two finished tracks, ready for the multiplexer.
pub struct TrackPair<T> {
    pub audio: T,
    pub video: T,
}

/// Joins the outcomes of the two fetches, once both have ended. The pair is
/// handed on exactly when both succeeded; otherwise the run fails with the
/// error of the video fetch if that failed, else with that of the audio
/// fetch. The error is whatever the caller's fetches fail with.
pub fn join_tracks<T, E>(video: Result<T, E>, audio: Result<T, E>) -> (r: Result<TrackPair<T>, E>)
    ensures
        match (video, audio) {
            (Ok(v), Ok(a)) => r matches Ok(pair) && pair.video == v && pair.audio == a,
            (Err(e), _) => r matches Err(failed) && failed == e,
            (Ok(_), Err(e)) => r matches Err(failed) && failed == e,
        },
{
    match video {
        Ok(v) => match audio {
            Ok(a) => Ok(TrackPair { audio: a, video: v }),
            Err(e) => Err(e),
        },
        Err(e) => Err(e),
    }
}

/// How the multiplexer process ended.
#[derive(Debug, Clone, Copy, PartialEq, Eq, Structural)]
pub enum MuxExit {
    /// It could not be launched.
    NotSpawned,
    /// It ran and ended, with an exit code unless a signal ended it.
    Exited { code: Option<i32> },
}

/// Judges the multiplexer: exit code 0 is success, everything else is a
/// `Mux` error that tells a failed launch from an exit and keeps the code.
pub fn mux_verdict(exit: MuxExit) -> (r: Result<(), PipelineError>)
    ensures
        match exit {
            MuxExit::Exited { code: Some(0) } => r is Ok,
            MuxExit::Exited { code } => r == Err::<(), PipelineError>(
                PipelineError::Mux { failure: MuxFailure::Exit { code } },
            ),
            MuxExit::NotSpawned => r == Err::<(), PipelineError>(
                PipelineError::Mux { failure: MuxFailure::Spawn },
            ),
        },
{
    match exit {
        MuxExit::Exited { code: Some(0) } => Ok(()),
        MuxExit::Exited { code } => Err(PipelineError::Mux { failure: MuxFailure::Exit { code } }),
        MuxExit::NotSpawned => Err(PipelineError::Mux { failure: MuxFailure::Spawn }),
    }
}

} // verus!
