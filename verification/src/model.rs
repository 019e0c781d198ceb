//! The manifest as it is handed in: renditions and their segment lists.

use vstd::prelude::*;
use crate::codec::{base64_decoded, decode};
use crate::error::PipelineError;

verus! {

/// One URL-addressable chunk of a track. Its place in the list is its place
/// in the reassembled stream.
#[derive(Debug, Clone)]
pub struct Segment {
    pub url: String,
}

/// One video rendition.
#[derive(Debug, Clone)]
pub struct VimeoVideo {
    pub base_url: String,
    pub bitrate: u64,
    pub width: u64,
    pub height: u64,
    pub mime_type: String,
    pub init_segment: String,
    pub segments: Vec<Segment>,
}

/// One audio rendition.
#[derive(Debug, Clone)]
pub struct VimeoAudio {
    pub base_url: String,
    pub bitrate: u32,
    pub mime_type: String,
    pub init_segment: String,
    pub segments: Vec<Segment>,
}

/// The manifest: every rendition on offer for one clip.
#[derive(Debug, Clone)]
pub struct VimeoResponse {
    pub clip_id: String,
    pub base_url: String,
    pub audio: Vec<VimeoAudio>,
    pub video: Vec<VimeoVideo>,
}

/// What a fetch reads of a rendition, as plain text.
pub struct TrackView {
    /// The base URL, relative to the manifest's.
    pub base_url: Seq<char>,
    pub mime_type: Seq<char>,
    /// The init segment, still base64.
    pub init_segment: Seq<char>,
    /// The segment references in stream order, relative to `base_url`.
    pub segments: Seq<Seq<char>>,
}

/// The references of a segment list, in list order.
pub open spec fn segment_refs(segments: Seq<Segment>) -> Seq<Seq<char>> {
    Seq::new(segments.len(), |i: int| segments[i].url@)
}

/// The capabilities a track fetch needs of a rendition, audio or video.
pub trait SegmentDownload {
    /// The rendition as the fetch sees it.
    spec fn track(&self) -> TrackView;

    fn base_url(&self) -> (r: &str)
        ensures
            r@ == self.track().base_url,
    ;

    /// The decoded init segment: the decoder's bytes for the manifest field,
    /// or `InitSegmentDecode` where the field is not valid base64.
    fn init_segment(&self) -> (r: Result<Vec<u8>, PipelineError>)
        ensures
            match r {
                Ok(bytes) => base64_decoded(self.track().init_segment) == Some(bytes@),
                Err(e) => base64_decoded(self.track().init_segment) is None
                    && e == PipelineError::InitSegmentDecode,
            },
    ;

    fn mime_type(&self) -> (r: &str)
        ensures
            r@ == self.track().mime_type,
    ;

    fn segments(&self) -> (r: &[Segment])
        ensures
            segment_refs(r@) == self.track().segments,
    ;
}

impl SegmentDownload for VimeoVideo {
    open spec fn track(&self) -> TrackView {
        TrackView {
            base_url: self.base_url@,
            mime_type: self.mime_type@,
            init_segment: self.init_segment@,
            segments: segment_refs(self.segments@),
        }
    }

    fn base_url(&self) -> (r: &str) {
        self.base_url.as_str()
    }

    fn init_segment(&self) -> (r: Result<Vec<u8>, PipelineError>) {
        decode(self.init_segment.as_str())
    }

    fn mime_type(&self) -> (r: &str) {
        self.mime_type.as_str()
    }

    fn segments(&self) -> (r: &[Segment]) {
        self.segments.as_slice()
    }
}

impl SegmentDownload for VimeoAudio {
    open spec fn track(&self) -> TrackView {
        TrackView {
            base_url: self.base_url@,
            mime_type: self.mime_type@,
            init_segment: self.init_segment@,
            segments: segment_refs(self.segments@),
        }
    }

    fn base_url(&self) -> (r: &str) {
        self.base_url.as_str()
    }

    fn mime_type(&self) -> (r: &str) {
        self.mime_type.as_str()
    }

    fn init_segment(&self) -> (r: Result<Vec<u8>, PipelineError>) {
        decode(self.init_segment.as_str())
    }

    fn segments(&self) -> (r: &[Segment]) {
        self.segments.as_slice()
    }
}

} // verus!
