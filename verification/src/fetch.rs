//! The track fetch: one rendition, reassembled in manifest order.
//!
//! The fetch is a machine. Each step hands out bytes to append to the
//! track's sink and says what to do next; the caller performs the request
//! and hands the answer back. One request is open at a time, so the bytes
//! of a segment are handed out before the next segment is asked for.

use vstd::prelude::*;
use vstd::seq_lib::lemma_flatten_concat;
use crate::codec::base64_decoded;
use crate::error::{FetchFailure, PipelineError};
use crate::model::{segment_refs, Segment, SegmentDownload, TrackView};
use crate::resolve::{resolve, url_joined};

verus! {

/// What a fetch works from, fixed when it starts.
pub struct TrackPlan {
    /// The track's absolute base URL.
    pub track_base: Seq<char>,
    /// The segment references, in stream order.
    pub segments: Seq<Seq<char>>,
    pub mime_type: Seq<char>,
    /// Whether a progress notice goes with each segment.
    pub verbose: bool,
    /// The decoded init segment.
    pub init: Seq<u8>,
}

/// The stream that the init segment and the given bodies make: the init
/// bytes first, then each body in list order, nothing between them.
pub open spec fn reassembled(init: Seq<u8>, bodies: Seq<Seq<u8>>) -> Seq<u8> {
    init + bodies.flatten()
}

/// Where the body of segment `i` begins in the stream: behind the init
/// segment and the bodies of the segments before it.
pub open spec fn segment_start(init: Seq<u8>, bodies: Seq<Seq<u8>>, i: int) -> int {
    reassembled(init, bodies.take(i)).len() as int
}

/// The init segment comes first: the stream begins with its bytes, and the
/// body of the first segment begins right behind them.
pub proof fn lemma_init_comes_first(init: Seq<u8>, bodies: Seq<Seq<u8>>)
    ensures
        init.len() <= reassembled(init, bodies).len(),
        reassembled(init, bodies).subrange(0, init.len() as int) == init,
        segment_start(init, bodies, 0) == init.len(),
{
    assert(reassembled(init, bodies).subrange(0, init.len() as int) =~= init);
    assert(bodies.take(0) =~= Seq::<Seq<u8>>::empty());
    assert(reassembled(init, Seq::<Seq<u8>>::empty()) =~= init);
}

/// One more body goes to the end of the stream and moves nothing that was
/// in it.
pub proof fn lemma_body_goes_last(init: Seq<u8>, bodies: Seq<Seq<u8>>, body: Seq<u8>)
    ensures
        reassembled(init, bodies.push(body)) == reassembled(init, bodies) + body,
{
    bodies.lemma_flatten_push(body);
    assert(reassembled(init, bodies.push(body)) =~= reassembled(init, bodies) + body);
}

/// The bodies lie in the stream in list order, each whole and right behind
/// the one before it: the body of segment `i` fills the stream from its
/// start to the start of segment `i + 1`, and the last one ends the stream.
pub proof fn lemma_segment_in_place(init: Seq<u8>, bodies: Seq<Seq<u8>>, i: int)
    requires
        0 <= i < bodies.len(),
    ensures
        segment_start(init, bodies, i + 1) == segment_start(init, bodies, i) + bodies[i].len(),
        segment_start(init, bodies, i + 1) <= reassembled(init, bodies).len(),
        segment_start(init, bodies, bodies.len() as int) == reassembled(init, bodies).len(),
        reassembled(init, bodies).subrange(
            segment_start(init, bodies, i),
            segment_start(init, bodies, i + 1),
        ) == bodies[i],
{
    let before = bodies.take(i);
    let upto = bodies.take(i + 1);
    let after = bodies.skip(i + 1);
    assert(upto =~= before.push(bodies[i]));
    before.lemma_flatten_push(bodies[i]);
    assert(bodies =~= upto + after);
    lemma_flatten_concat(upto, after);
    assert(bodies.take(bodies.len() as int) =~= bodies);
    assert(reassembled(init, bodies) =~= init + before.flatten() + bodies[i] + after.flatten());
    assert(reassembled(init, bodies).subrange(
        segment_start(init, bodies, i),
        segment_start(init, bodies, i + 1),
    ) =~= bodies[i]);
}

/// The status codes that count as success.
pub open spec fn is_success(status: u16) -> bool {
    200 <= status < 300
}

/// The answer to one segment request.
#[derive(Debug, Clone, PartialEq, Eq)]
pub enum Delivery {
    /// A response arrived, with this status and this body.
    Response { status: u16, body: Vec<u8> },
    /// No response arrived.
    Failure { message: String },
}

impl Delivery {
    /// Whether the delivery carries a body that goes into the stream.
    pub open spec fn accepted(self) -> bool {
        self matches Delivery::Response { status, .. } && is_success(status)
    }

    /// The body that the delivery carries, if it carries one.
    pub open spec fn payload(self) -> Seq<u8> {
        match self {
            Delivery::Response { body, .. } => body@,
            Delivery::Failure { .. } => Seq::empty(),
        }
    }

    /// The bytes that the delivery adds to the stream: its body if it is
    /// accepted, nothing if it is not.
    pub open spec fn payload_if_accepted(self) -> Seq<u8> {
        if self.accepted() {
            self.payload()
        } else {
            Seq::empty()
        }
    }

    /// Whether `cause` reports why this delivery was turned down.
    pub open spec fn turned_down_as(self, cause: FetchFailure) -> bool {
        match self {
            Delivery::Response { status, .. } => cause == (FetchFailure::Status { code: status }),
            Delivery::Failure { message } => cause == (FetchFailure::Transport { message }),
        }
    }
}

/// A progress notice: the segment that was just appended, by its manifest
/// reference, and the mime type of its track.
#[derive(Debug, Clone, Copy)]
pub struct Progress<'a> {
    pub segment_url: &'a str,
    pub mime_type: &'a str,
}

/// A finished track.
pub struct ReassembledTrack {
    bytes: u128,
    content: Ghost<Seq<u8>>,
}

impl ReassembledTrack {
    #[verifier::type_invariant]
    spec fn inv(self) -> bool {
        self.bytes == self.content@.len()
    }

    /// The stream: every byte that the steps of the fetch handed out, in the
    /// order they handed them out.
    pub closed spec fn content(&self) -> Seq<u8> {
        self.content@
    }

    /// How many bytes the stream holds.
    pub fn bytes(&self) -> (n: u128)
        ensures
            n == self.content().len(),
    {
        proof {
            use_type_invariant(self);
        }
        self.bytes
    }
}

/// A fetch with one request open.
pub struct TrackFetcher<'a> {
    track_base: String,
    segments: &'a [Segment],
    mime_type: &'a str,
    verbose: bool,
    /// The absolute URL of the open request.
    pending: String,
    /// How many segments were appended.
    done: usize,
    /// How many bytes were handed out.
    written: u128,
    init: Ghost<Seq<u8>>,
    bodies: Ghost<Seq<Seq<u8>>>,
}

/// What the caller does after appending a step's bytes.
pub enum Next<'a> {
    /// Request `url` and hand the answer to `fetcher`.
    Request { url: String, fetcher: TrackFetcher<'a> },
    /// Flush and close the sink: the track is complete.
    Finish { track: ReassembledTrack },
    /// Give the track up.
    Abort { error: PipelineError },
}

impl<'a> Next<'a> {
    /// What the sink holds once the step's bytes are appended, where the
    /// track goes on or is complete.
    pub open spec fn stream(self) -> Option<Seq<u8>> {
        match self {
            Next::Request { fetcher, .. } => Some(fetcher.sink()),
            Next::Finish { track } => Some(track.content()),
            Next::Abort { .. } => None,
        }
    }
}

/// One step of a fetch.
pub struct FetchStep<'a> {
    /// The bytes to append to the sink, before anything else is done.
    pub write: Vec<u8>,
    /// The notice to emit, if any. It changes nothing about what follows.
    pub notice: Option<Progress<'a>>,
    pub next: Next<'a>,
}

/// The bound on a sink filled from `parts` pieces, each of which fits in
/// memory.
spec fn sink_limit(parts: int) -> int {
    parts * 0x1_0000_0000_0000_0000
}

impl<'a> TrackFetcher<'a> {
    #[verifier::type_invariant]
    spec fn inv(self) -> bool {
        &&& self.done == self.bodies@.len()
        &&& self.done < self.segments@.len()
        &&& self.written == reassembled(self.init@, self.bodies@).len()
        &&& self.written <= sink_limit(self.done + 1)
        &&& url_joined(self.track_base@, self.segments@[self.done as int].url@) == Some(
            self.pending@,
        )
    }

    /// What the fetch works from.
    pub closed spec fn plan(self) -> TrackPlan {
        TrackPlan {
            track_base: self.track_base@,
            segments: segment_refs(self.segments@),
            mime_type: self.mime_type@,
            verbose: self.verbose,
            init: self.init@,
        }
    }

    /// The bodies appended so far, in the order they were delivered.
    pub closed spec fn bodies(self) -> Seq<Seq<u8>> {
        self.bodies@
    }

    /// The absolute URL of the open request.
    pub closed spec fn pending(self) -> Seq<char> {
        self.pending@
    }

    /// Every byte handed out so far: the stream up to the open request.
    pub open spec fn sink(self) -> Seq<u8> {
        reassembled(self.plan().init, self.bodies())
    }
}

/// Whether `next` is what a fetch of `plan` does once `bodies` are in the
/// sink: it finishes when every segment is in, with the whole stream; else
/// it turns to the segment after the last body, and asks for its URL or
/// gives up where that URL does not resolve.
pub open spec fn follows(next: Next, plan: TrackPlan, bodies: Seq<Seq<u8>>) -> bool {
    if bodies.len() >= plan.segments.len() {
        &&& next matches Next::Finish { track }
        &&& track.content() == reassembled(plan.init, bodies)
    } else {
        match url_joined(plan.track_base, plan.segments[bodies.len() as int]) {
            Some(target) => {
                &&& next matches Next::Request { url, fetcher }
                &&& url@ == target
                &&& fetcher.pending() == target
                &&& fetcher.plan() == plan
                &&& fetcher.bodies() == bodies
            },
            None => {
                &&& next matches Next::Abort { error }
                &&& error == PipelineError::UrlResolution
            },
        }
    }
}

/// Turns to the segment after the `done` that are in the sink.
fn advance<'a>(
    track_base: String,
    segments: &'a [Segment],
    mime_type: &'a str,
    verbose: bool,
    done: usize,
    written: u128,
    init: Ghost<Seq<u8>>,
    bodies: Ghost<Seq<Seq<u8>>>,
) -> (next: Next<'a>)
    requires
        done == bodies@.len(),
        done <= segments@.len(),
        written == reassembled(init@, bodies@).len(),
        written <= sink_limit(done + 1),
    ensures
        follows(
            next,
            TrackPlan {
                track_base: track_base@,
                segments: segment_refs(segments@),
                mime_type: mime_type@,
                verbose,
                init: init@,
            },
            bodies@,
        ),
{
    if done >= segments.len() {
        return Next::Finish {
            track: ReassembledTrack { bytes: written, content: Ghost(reassembled(init@, bodies@)) },
        };
    }
    match resolve(track_base.as_str(), segments[done].url.as_str()) {
        Ok(url) => {
            let pending = url.clone();
            Next::Request {
                url,
                fetcher: TrackFetcher {
                    track_base,
                    segments,
                    mime_type,
                    verbose,
                    pending,
                    done,
                    written,
                    init,
                    bodies,
                },
            }
        },
        Err(error) => Next::Abort { error },
    }
}

/// What a fetch of `track` against `manifest_base` works from, where the
/// track's base resolves and its init segment decodes.
pub open spec fn plan_of(manifest_base: Seq<char>, track: TrackView, verbose: bool) -> TrackPlan {
    TrackPlan {
        track_base: url_joined(manifest_base, track.base_url)->0,
        segments: track.segments,
        mime_type: track.mime_type,
        verbose,
        init: base64_decoded(track.init_segment)->0,
    }
}

impl<'a> TrackFetcher<'a> {
    /// Starts the fetch of one rendition. The track's base is resolved
    /// against the manifest's, then the init segment is decoded; the first
    /// of the two to fail is the error, and then no sink is to be opened.
    /// Otherwise the first step writes the decoded init segment, byte for
    /// byte, and turns to the first segment.
    pub fn start<D: SegmentDownload>(manifest_base: &str, rendition: &'a D, verbose: bool) -> (r:
        Result<FetchStep<'a>, PipelineError>)
        ensures
            match r {
                Ok(step) => {
                    &&& url_joined(manifest_base@, rendition.track().base_url) is Some
                    &&& base64_decoded(rendition.track().init_segment) == Some(step.write@)
                    &&& step.notice is None
                    &&& follows(
                        step.next,
                        plan_of(manifest_base@, rendition.track(), verbose),
                        Seq::empty(),
                    )
                    &&& step.next.stream() matches Some(stream) ==> stream == step.write@
                },
                Err(e) => if url_joined(manifest_base@, rendition.track().base_url) is None {
                    e == PipelineError::UrlResolution
                } else {
                    base64_decoded(rendition.track().init_segment) is None && e
                        == PipelineError::InitSegmentDecode
                },
            },
    {
        let track_base = match resolve(manifest_base, rendition.base_url()) {
            Ok(joined) => joined,
            Err(e) => {
                return Err(e);
            },
        };
        let init = match rendition.init_segment() {
            Ok(bytes) => bytes,
            Err(e) => {
                return Err(e);
            },
        };
        let written: u128 = init.len() as u128;
        let ghost bodies = Seq::<Seq<u8>>::empty();
        assert(reassembled(init@, bodies) =~= init@);
        let next = advance(
            track_base,
            rendition.segments(),
            rendition.mime_type(),
            verbose,
            0,
            written,
            Ghost(init@),
            Ghost(bodies),
        );
        Ok(FetchStep { write: init, notice: None, next })
    }

    /// Takes the answer to the open request. A response with a success
    /// status is accepted: its body is the step's write, verbatim, a notice
    /// goes with it if the fetch is verbose, and the fetch turns to the next
    /// segment. Anything else ends the track with `SegmentFetch`, naming the
    /// URL that was asked for and the cause, and writes nothing.
    pub fn deliver(self, delivery: Delivery) -> (step: FetchStep<'a>)
        ensures
            step.write@ == delivery.payload_if_accepted(),
            step.next.stream() matches Some(stream) ==> stream == self.sink() + step.write@,
            delivery.accepted() ==> {
                &&& follows(step.next, self.plan(), self.bodies().push(delivery.payload()))
                &&& if self.plan().verbose {
                    &&& step.notice matches Some(progress)
                    &&& progress.segment_url@ == self.plan().segments[self.bodies().len() as int]
                    &&& progress.mime_type@ == self.plan().mime_type
                } else {
                    step.notice is None
                }
            },
            !delivery.accepted() ==> {
                &&& step.notice is None
                &&& step.next matches Next::Abort { error }
                &&& error matches PipelineError::SegmentFetch { url, cause }
                &&& url@ == self.pending()
                &&& delivery.turned_down_as(cause)
            },
    {
        proof {
            use_type_invariant(&self);
        }
        let TrackFetcher {
            track_base,
            segments,
            mime_type,
            verbose,
            pending,
            done,
            written,
            init,
            bodies,
        } = self;
        match delivery {
            Delivery::Response { status, body } => {
                if 200 <= status && status < 300 {
                    let ghost grown = bodies@.push(body@);
                    let count: usize = segments.len();
                    proof {
                        assert(done < count);
                        lemma_body_goes_last(init@, bodies@, body@);
                    }
                    let notice = if verbose {
                        Some(Progress { segment_url: segments[done].url.as_str(), mime_type })
                    } else {
                        None
                    };
                    let next = advance(
                        track_base,
                        segments,
                        mime_type,
                        verbose,
                        done + 1,
                        written + body.len() as u128,
                        init,
                        Ghost(grown),
                    );
                    FetchStep { write: body, notice, next }
                } else {
                    FetchStep {
                        write: Vec::new(),
                        notice: None,
                        next: Next::Abort {
                            error: PipelineError::SegmentFetch {
                                url: pending,
                                cause: FetchFailure::Status { code: status },
                            },
                        },
                    }
                }
            },
            Delivery::Failure { message } => FetchStep {
                write: Vec::new(),
                notice: None,
                next: Next::Abort {
                    error: PipelineError::SegmentFetch {
                        url: pending,
                        cause: FetchFailure::Transport { message },
                    },
                },
            },
        }
    }
}

} // verus!
