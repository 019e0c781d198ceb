use vimeo_dl::error::{FetchFailure, PipelineError};
use vimeo_dl::fetch::{Delivery, Next, TrackFetcher};
use vimeo_dl::model::{Segment, SegmentDownload, VimeoAudio, VimeoVideo};
use vimeo_dl::pipeline::join_tracks;

const MANIFEST_BASE: &str = "https://example.net/v2/";

/// What a simulated run of one track saw and produced.
struct Run {
    stream: Vec<u8>,
    requested: Vec<String>,
    notices: Vec<(String, String)>,
    outcome: Result<u128, PipelineError>,
}

fn segments_named(names: &[&str]) -> Vec<Segment> {
    names.iter().map(|n| Segment { url: String::from(*n) }).collect()
}

fn video_track(init_segment: &str, names: &[&str]) -> VimeoVideo {
    VimeoVideo {
        base_url: String::from("video/7/"),
        bitrate: 500,
        width: 1920,
        height: 1080,
        mime_type: String::from("video/mp4"),
        init_segment: String::from(init_segment),
        segments: segments_named(names),
    }
}

fn audio_track(init_segment: &str, names: &[&str]) -> VimeoAudio {
    VimeoAudio {
        base_url: String::from("audio/9/"),
        bitrate: 256,
        mime_type: String::from("audio/mp4"),
        init_segment: String::from(init_segment),
        segments: segments_named(names),
    }
}

fn ok_body(bytes: &[u8]) -> Delivery {
    Delivery::Response { status: 200, body: bytes.to_vec() }
}

/// Drives a fetch with canned deliveries, appending every write to a buffer
/// that stands for the sink.
fn run_track<D: SegmentDownload>(rendition: &D, verbose: bool, deliveries: Vec<Delivery>) -> Run {
    let mut run = Run {
        stream: Vec::new(),
        requested: Vec::new(),
        notices: Vec::new(),
        outcome: Err(PipelineError::UrlResolution),
    };
    let mut step = match TrackFetcher::start(MANIFEST_BASE, rendition, verbose) {
        Ok(step) => step,
        Err(e) => {
            run.outcome = Err(e);
            return run;
        }
    };
    let mut answers = deliveries.into_iter();
    loop {
        run.stream.extend_from_slice(&step.write);
        if let Some(notice) = step.notice {
            run.notices
                .push((String::from(notice.segment_url), String::from(notice.mime_type)));
        }
        match step.next {
            Next::Request { url, fetcher } => {
                run.requested.push(url);
                let answer = answers.next().expect("a delivery for every request");
                step = fetcher.deliver(answer);
            }
            Next::Finish { track } => {
                run.outcome = Ok(track.bytes());
                return run;
            }
            Next::Abort { error } => {
                run.outcome = Err(error);
                return run;
            }
        }
    }
}

#[test]
fn stream_is_init_then_bodies_in_manifest_order() {
    let track = video_track("aW5pdA==", &["s1.m4s", "s2.m4s", "s3.m4s"]);
    let run = run_track(
        &track,
        false,
        vec![ok_body(b"first-"), ok_body(b"second-"), ok_body(b"third")],
    );
    assert_eq!(run.stream, b"initfirst-second-third".to_vec());
    assert_eq!(run.outcome, Ok(22));
    assert_eq!(
        run.requested,
        vec![
            "https://example.net/v2/video/7/s1.m4s",
            "https://example.net/v2/video/7/s2.m4s",
            "https://example.net/v2/video/7/s3.m4s",
        ]
    );
}

#[test]
fn bodies_of_uneven_size_keep_their_place() {
    let track = audio_track("AAEC", &["a", "b", "c", "d"]);
    let big: Vec<u8> = (0..5000).map(|i| (i % 251) as u8).collect();
    let run = run_track(
        &track,
        false,
        vec![ok_body(&big), ok_body(b""), ok_body(&[9]), ok_body(&[7, 7])],
    );
    let mut expected: Vec<u8> = vec![0, 1, 2];
    expected.extend_from_slice(&big);
    expected.extend_from_slice(&[9, 7, 7]);
    assert_eq!(run.stream, expected);
    assert_eq!(run.outcome, Ok(5006));
}

#[test]
fn init_segment_is_the_direct_decode() {
    let field = "AAAAIGZ0eXBpc281AAAAAQ==";
    let track = video_track(field, &["s1"]);
    let step = TrackFetcher::start(MANIFEST_BASE, &track, false).unwrap();
    assert_eq!(step.write, base64::decode(field).unwrap());
    assert_eq!(track.init_segment().unwrap(), base64::decode(field).unwrap());
    assert!(step.notice.is_none());
}

#[test]
fn track_without_segments_is_its_init_segment() {
    let track = audio_track("aGVsbG8gd29ybGQ=", &[]);
    let run = run_track(&track, true, Vec::new());
    assert_eq!(run.stream, b"hello world".to_vec());
    assert_eq!(run.outcome, Ok(11));
    assert!(run.requested.is_empty());
    assert!(run.notices.is_empty());
}

#[test]
fn every_success_status_is_accepted() {
    let track = audio_track("", &["a", "b"]);
    let run = run_track(
        &track,
        false,
        vec![
            Delivery::Response { status: 299, body: vec![1] },
            Delivery::Response { status: 206, body: vec![2] },
        ],
    );
    assert_eq!(run.stream, vec![1, 2]);
    assert_eq!(run.outcome, Ok(2));
}

#[test]
fn verbose_fetch_notes_each_segment() {
    let track = video_track("", &["s1.m4s", "s2.m4s"]);
    let run = run_track(&track, true, vec![ok_body(b"x"), ok_body(b"y")]);
    assert_eq!(
        run.notices,
        vec![
            (String::from("s1.m4s"), String::from("video/mp4")),
            (String::from("s2.m4s"), String::from("video/mp4")),
        ]
    );
    assert_eq!(run.stream, b"xy".to_vec());
}

#[test]
fn notices_change_nothing_else() {
    let track = video_track("aW5pdA==", &["s1.m4s", "s2.m4s"]);
    let quiet = run_track(&track, false, vec![ok_body(b"x"), ok_body(b"y")]);
    let loud = run_track(&track, true, vec![ok_body(b"x"), ok_body(b"y")]);
    assert!(quiet.notices.is_empty());
    assert_eq!(quiet.stream, loud.stream);
    assert_eq!(quiet.requested, loud.requested);
    assert_eq!(quiet.outcome, loud.outcome);
}

#[test]
fn third_of_five_segments_failing_ends_the_track() {
    let track = video_track("aW5pdA==", &["s1", "s2", "s3", "s4", "s5"]);
    let run = run_track(
        &track,
        true,
        vec![
            ok_body(b"one"),
            ok_body(b"two"),
            Delivery::Response { status: 503, body: b"unavailable".to_vec() },
            ok_body(b"four"),
            ok_body(b"five"),
        ],
    );
    assert_eq!(
        run.outcome,
        Err(PipelineError::SegmentFetch {
            url: String::from("https://example.net/v2/video/7/s3"),
            cause: FetchFailure::Status { code: 503 },
        })
    );
    assert_eq!(run.requested.len(), 3);
    assert_eq!(run.stream, b"initonetwo".to_vec());
    assert_eq!(run.notices.len(), 2);
}

#[test]
fn statuses_outside_the_success_range_are_refused() {
    for status in [100u16, 199, 300, 304, 404, 500] {
        let track = audio_track("", &["a"]);
        let run = run_track(&track, false, vec![Delivery::Response { status, body: vec![1] }]);
        assert_eq!(
            run.outcome,
            Err(PipelineError::SegmentFetch {
                url: String::from("https://example.net/v2/audio/9/a"),
                cause: FetchFailure::Status { code: status },
            })
        );
        assert!(run.stream.is_empty());
    }
}

#[test]
fn transport_failure_ends_the_track() {
    let track = audio_track("aW5pdA==", &["a", "b"]);
    let run = run_track(
        &track,
        false,
        vec![ok_body(b"a"), Delivery::Failure { message: String::from("connection reset") }],
    );
    assert_eq!(
        run.outcome,
        Err(PipelineError::SegmentFetch {
            url: String::from("https://example.net/v2/audio/9/b"),
            cause: FetchFailure::Transport { message: String::from("connection reset") },
        })
    );
    assert_eq!(run.stream, b"inita".to_vec());
}

#[test]
fn malformed_init_segment_is_fatal() {
    let track = video_track("not base64!", &["s1"]);
    let run = run_track(&track, false, vec![ok_body(b"x")]);
    assert_eq!(run.outcome, Err(PipelineError::InitSegmentDecode));
    assert!(run.stream.is_empty());
    assert!(run.requested.is_empty());
    assert_eq!(track.init_segment(), Err(PipelineError::InitSegmentDecode));
}

#[test]
fn unresolvable_base_is_reported_before_the_init_segment() {
    let track = audio_track("not base64!", &["a"]);
    let outcome = TrackFetcher::start("no scheme here", &track, false);
    assert!(matches!(outcome, Err(PipelineError::UrlResolution)));
}

#[test]
fn unresolvable_segment_ends_the_track() {
    let track = audio_track("aW5pdA==", &["a", "https://[broken", "c"]);
    let run = run_track(&track, false, vec![ok_body(b"a"), ok_body(b"b"), ok_body(b"c")]);
    assert_eq!(run.outcome, Err(PipelineError::UrlResolution));
    assert_eq!(run.requested, vec!["https://example.net/v2/audio/9/a"]);
    assert_eq!(run.stream, b"inita".to_vec());
}

#[test]
fn tracks_are_fetched_independently() {
    let video = video_track("dg==", &["s1", "s2", "s3", "s4", "s5"]);
    let audio = audio_track("YQ==", &["a1", "a2"]);
    let video_run = run_track(
        &video,
        false,
        vec![ok_body(b"1"), ok_body(b"2"), Delivery::Response { status: 404, body: Vec::new() }],
    );
    let audio_run = run_track(&audio, false, vec![ok_body(b"x"), ok_body(b"y")]);
    assert!(matches!(video_run.outcome, Err(PipelineError::SegmentFetch { .. })));
    assert_eq!(audio_run.outcome, Ok(3));
    assert_eq!(audio_run.stream, b"axy".to_vec());
}

#[test]
fn mid_track_failure_fails_the_run_before_the_multiplexer() {
    let video = video_track("dg==", &["s1", "s2", "s3", "s4", "s5"]);
    let audio = audio_track("YQ==", &["a1", "a2", "a3"]);
    let video_run = run_track(
        &video,
        false,
        vec![
            ok_body(b"1"),
            ok_body(b"2"),
            Delivery::Response { status: 500, body: b"oops".to_vec() },
            ok_body(b"4"),
            ok_body(b"5"),
        ],
    );
    let audio_run = run_track(&audio, false, vec![ok_body(b"x"), ok_body(b"y"), ok_body(b"z")]);
    // The audio fetch ran to its end although the video fetch had failed.
    assert_eq!(audio_run.outcome, Ok(4));
    assert_eq!(audio_run.requested.len(), 3);
    let mut multiplexer_runs = 0;
    let outcome = match join_tracks(video_run.outcome, audio_run.outcome) {
        Ok(_) => {
            multiplexer_runs += 1;
            Ok(())
        }
        Err(e) => Err(e),
    };
    assert_eq!(
        outcome,
        Err(PipelineError::SegmentFetch {
            url: String::from("https://example.net/v2/video/7/s3"),
            cause: FetchFailure::Status { code: 500 },
        })
    );
    assert_eq!(multiplexer_runs, 0);
}

#[test]
fn finished_tracks_reach_the_multiplexer_once() {
    let video = video_track("dg==", &["s1"]);
    let audio = audio_track("YQ==", &["a1"]);
    let video_run = run_track(&video, false, vec![ok_body(b"1")]);
    let audio_run = run_track(&audio, false, vec![ok_body(b"x")]);
    let pair = join_tracks(video_run.outcome, audio_run.outcome).unwrap();
    assert_eq!(pair.video, 2);
    assert_eq!(pair.audio, 2);
    assert_eq!(video_run.stream, b"v1".to_vec());
    assert_eq!(audio_run.stream, b"ax".to_vec());
}

#[test]
fn rendition_accessors_read_the_fields() {
    let track = video_track("aW5pdA==", &["s1", "s2"]);
    assert_eq!(track.base_url(), "video/7/");
    assert_eq!(track.mime_type(), "video/mp4");
    assert_eq!(track.segments().len(), 2);
    assert_eq!(track.segments()[1].url, "s2");
    assert_eq!(track.init_segment().unwrap(), b"init".to_vec());
    let sound = audio_track("aW5pdA==", &["a"]);
    assert_eq!(sound.base_url(), "audio/9/");
    assert_eq!(sound.mime_type(), "audio/mp4");
    assert_eq!(sound.segments()[0].url, "a");
    assert_eq!(sound.init_segment().unwrap(), b"init".to_vec());
}
