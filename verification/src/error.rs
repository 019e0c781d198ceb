//! The failures a run can end with.

use vstd::prelude::*;

verus! {

/// Which half of the output a rendition belongs to.
#[derive(Debug, Clone, Copy, PartialEq, Eq, Structural)]
pub enum TrackKind {
    Audio,
    Video,
}

/// Why one segment request did not yield a body.
#[derive(Debug, Clone, PartialEq, Eq)]
pub enum FetchFailure {
    /// The transport gave up before a response arrived.
    Transport { message: String },
    /// A response arrived, with a status outside the success range.
    Status { code: u16 },
}

/// How the multiplexer let the run down.
#[derive(Debug, Clone, Copy, PartialEq, Eq, Structural)]
pub enum MuxFailure {
    /// The process could not be launched.
    Spawn,
    /// The process ended with this exit code, or without one when a signal
    /// ended it. The code is never `Some(0)` in a value made by this library.
    Exit { code: Option<i32> },
}

/// Every failure is fatal to the run.
#[derive(Debug, Clone, PartialEq, Eq)]
pub enum PipelineError {
    /// The manifest lists no rendition of this kind.
    NoRenditions { kind: TrackKind },
    /// A base or a reference could not be resolved to an absolute URL.
    UrlResolution,
    /// The init segment is not valid base64.
    InitSegmentDecode,
    /// The mime type of the video rendition could not be read.
    VideoMimeType,
    /// A segment request failed; `url` is the absolute URL that was asked for.
    SegmentFetch { url: String, cause: FetchFailure },
    /// Both tracks were reassembled, and the multiplexer failed.
    Mux { failure: MuxFailure },
}

} // verus!
