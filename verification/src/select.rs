//! Quality selection: the best rendition of each kind.

use vstd::prelude::*;
use crate::error::{PipelineError, TrackKind};
use crate::model::{VimeoAudio, VimeoResponse, VimeoVideo};

verus! {

/// A rendition that can be ranked against others of its kind.
pub trait Ranked {
    /// The number the kind is ranked by; more is better.
    spec fn metric_value(&self) -> int;

    fn metric(&self) -> (m: u128)
        ensures
            m == self.metric_value(),
    ;
}

/// Video is ranked by its picture area.
impl Ranked for VimeoVideo {
    open spec fn metric_value(&self) -> int {
        self.width * self.height
    }

    fn metric(&self) -> (m: u128) {
        let w: u128 = self.width as u128;
        let h: u128 = self.height as u128;
        assert(w * h <= 0xffff_ffff_ffff_ffff * 0xffff_ffff_ffff_ffff) by (nonlinear_arith)
            requires
                0 <= w <= 0xffff_ffff_ffff_ffff,
                0 <= h <= 0xffff_ffff_ffff_ffff,
        ;
        w * h
    }
}

/// Audio is ranked by its bitrate.
impl Ranked for VimeoAudio {
    open spec fn metric_value(&self) -> int {
        self.bitrate as int
    }

    fn metric(&self) -> (m: u128) {
        self.bitrate as u128
    }
}

/// The metric of each candidate, in list order.
pub open spec fn metrics<R: Ranked>(candidates: Seq<R>) -> Seq<int> {
    Seq::new(candidates.len(), |i: int| candidates[i].metric_value())
}

/// Position `i` holds the greatest metric, and no earlier position holds it too.
pub open spec fn is_best(metrics: Seq<int>, i: int) -> bool {
    &&& 0 <= i < metrics.len()
    &&& forall|j: int| 0 <= j < metrics.len() ==> metrics[j] <= metrics[i]
    &&& forall|j: int| 0 <= j < i ==> metrics[j] < metrics[i]
}

/// The position that selection settles on. It means something for a list
/// that is not empty, see `lemma_best_exists`.
pub open spec fn best_index(metrics: Seq<int>) -> int {
    choose|i: int| is_best(metrics, i)
}

/// The candidate that selection settles on, for a list that is not empty.
pub open spec fn best_of<R: Ranked>(candidates: Seq<R>) -> R {
    candidates[best_index(metrics(candidates))]
}

/// At most one position is the best: the same candidates always give the
/// same selection.
pub proof fn lemma_best_unique(metrics: Seq<int>, i: int, j: int)
    requires
        is_best(metrics, i),
        is_best(metrics, j),
    ensures
        i == j,
{
    if i < j {
        assert(metrics[i] < metrics[j]);
        assert(metrics[j] <= metrics[i]);
    } else if j < i {
        assert(metrics[j] < metrics[i]);
        assert(metrics[i] <= metrics[j]);
    }
}

/// Every list that is not empty has a best position, and `best_index` is it:
/// it holds the maximum, and is the first position to hold it.
pub proof fn lemma_best_exists(metrics: Seq<int>)
    requires
        metrics.len() > 0,
    ensures
        is_best(metrics, best_index(metrics)),
    decreases metrics.len(),
{
    if metrics.len() == 1 {
        assert(is_best(metrics, 0));
    } else {
        let front = metrics.drop_last();
        lemma_best_exists(front);
        let b = best_index(front);
        let last = metrics.len() - 1;
        if metrics[last] > front[b] {
            assert forall|j: int| 0 <= j < metrics.len() implies metrics[j] <= metrics[last] by {
                if j < last {
                    assert(front[j] <= front[b]);
                }
            }
            assert forall|j: int| 0 <= j < last implies metrics[j] < metrics[last] by {
                assert(front[j] <= front[b]);
            }
            assert(is_best(metrics, last));
        } else {
            assert forall|j: int| 0 <= j < metrics.len() implies metrics[j] <= metrics[b] by {
                if j < last {
                    assert(front[j] <= front[b]);
                }
            }
            assert forall|j: int| 0 <= j < b implies metrics[j] < metrics[b] by {
                assert(front[j] < front[b]);
            }
            assert(is_best(metrics, b));
        }
    }
}

/// For a list that is not empty, the selected candidate has the greatest
/// metric of the list, and every candidate listed before it has a smaller
/// one.
pub proof fn lemma_selected_is_first_maximum<R: Ranked>(candidates: Seq<R>)
    requires
        candidates.len() > 0,
    ensures
        0 <= best_index(metrics(candidates)) < candidates.len(),
        forall|j: int|
            0 <= j < candidates.len() ==> (#[trigger] candidates[j]).metric_value() <= best_of(
                candidates,
            ).metric_value(),
        forall|j: int|
            0 <= j < best_index(metrics(candidates)) ==> (#[trigger] candidates[j]).metric_value()
                < best_of(candidates).metric_value(),
{
    let m = metrics(candidates);
    lemma_best_exists(m);
    let b = best_index(m);
    assert forall|j: int| 0 <= j < candidates.len() implies (#[trigger] candidates[j]).metric_value()
        <= best_of(candidates).metric_value() by {
        assert(m[j] <= m[b]);
    }
    assert forall|j: int| 0 <= j < b implies (#[trigger] candidates[j]).metric_value() < best_of(
        candidates,
    ).metric_value() by {
        assert(m[j] < m[b]);
    }
}

/// Where the best candidate stands: the first position with the greatest
/// metric, or `None` for an empty list.
pub fn best_position<R: Ranked>(candidates: &[R]) -> (r: Option<usize>)
    ensures
        match r {
            Some(i) => is_best(metrics(candidates@), i as int)
                && i as int == best_index(metrics(candidates@)),
            None => candidates@.len() == 0,
        },
{
    if candidates.len() == 0 {
        return None;
    }
    let ghost m = metrics(candidates@);
    let mut best: usize = 0;
    let mut best_metric: u128 = candidates[0].metric();
    let mut i: usize = 1;
    while i < candidates.len()
        invariant
            1 <= i <= candidates@.len(),
            m == metrics(candidates@),
            0 <= best < i,
            best_metric == m[best as int],
            forall|j: int| 0 <= j < i ==> m[j] <= m[best as int],
            forall|j: int| 0 <= j < best ==> m[j] < m[best as int],
        decreases candidates@.len() - i,
    {
        let candidate: u128 = candidates[i].metric();
        if candidate > best_metric {
            best = i;
            best_metric = candidate;
        }
        i = i + 1;
    }
    proof {
        assert(is_best(m, best as int));
        lemma_best_exists(m);
        lemma_best_unique(m, best as int, best_index(m));
    }
    Some(best)
}

/// The best candidate: the one with the greatest metric, and among several
/// with that metric the one listed first. `None` for an empty list.
pub fn select_best<R: Ranked>(candidates: &[R]) -> (r: Option<&R>)
    ensures
        match r {
            Some(best) => is_best(metrics(candidates@), best_index(metrics(candidates@)))
                && *best == best_of(candidates@),
            None => candidates@.len() == 0,
        },
{
    match best_position(candidates) {
        Some(i) => Some(&candidates[i]),
        None => None,
    }
}

/// The best video rendition, by picture area; `NoRenditions` of kind video
/// exactly when none is listed.
pub fn select_best_video(candidates: &[VimeoVideo]) -> (r: Result<&VimeoVideo, PipelineError>)
    ensures
        match r {
            Ok(best) => is_best(metrics(candidates@), best_index(metrics(candidates@)))
                && *best == best_of(candidates@),
            Err(e) => candidates@.len() == 0
                && e == (PipelineError::NoRenditions { kind: TrackKind::Video }),
        },
{
    match select_best(candidates) {
        Some(best) => Ok(best),
        None => Err(PipelineError::NoRenditions { kind: TrackKind::Video }),
    }
}

/// The best audio rendition, by bitrate; `NoRenditions` of kind audio
/// exactly when none is listed.
pub fn select_best_audio(candidates: &[VimeoAudio]) -> (r: Result<&VimeoAudio, PipelineError>)
    ensures
        match r {
            Ok(best) => is_best(metrics(candidates@), best_index(metrics(candidates@)))
                && *best == best_of(candidates@),
            Err(e) => candidates@.len() == 0
                && e == (PipelineError::NoRenditions { kind: TrackKind::Audio }),
        },
{
    match select_best(candidates) {
        Some(best) => Ok(best),
        None => Err(PipelineError::NoRenditions { kind: TrackKind::Audio }),
    }
}

/// The one rendition of each kind that a run downloads.
pub struct Selection<'a> {
    pub video: &'a VimeoVideo,
    pub audio: &'a VimeoAudio,
}

/// Selects both tracks of a manifest, video first. Fails exactly when a kind
/// has no rendition, naming the kind; video is named where both are missing.
pub fn select_tracks(manifest: &VimeoResponse) -> (r: Result<Selection<'_>, PipelineError>)
    ensures
        match r {
            Ok(chosen) => {
                &&& manifest.video@.len() > 0
                &&& manifest.audio@.len() > 0
                &&& *chosen.video == best_of(manifest.video@)
                &&& *chosen.audio == best_of(manifest.audio@)
            },
            Err(e) => if manifest.video@.len() == 0 {
                e == (PipelineError::NoRenditions { kind: TrackKind::Video })
            } else {
                manifest.audio@.len() == 0
                    && e == (PipelineError::NoRenditions { kind: TrackKind::Audio })
            },
        },
{
    let video = match select_best_video(manifest.video.as_slice()) {
        Ok(best) => best,
        Err(e) => {
            return Err(e);
        },
    };
    match select_best_audio(manifest.audio.as_slice()) {
        Ok(audio) => Ok(Selection { video, audio }),
        Err(e) => Err(e),
    }
}

} // verus!
