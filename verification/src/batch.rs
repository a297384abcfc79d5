//! The channel orchestrator's bookkeeping: a completion counter and the
//! list of videos whose download failed.
//!
//! The orchestrator processes the channel's videos strictly in server
//! order; each per-video outcome is recorded here, and the final state
//! decides the process's exit status and the failure report.

use vstd::prelude::*;
use crate::model::{DownloadError, Video, VideoView, display_view};

verus! {

/// Mathematical view of a [`Batch`].
pub ghost struct BatchView {
    pub total: nat,
    pub completed: nat,
    pub failed: Seq<VideoView>,
}

/// One step of the bookkeeping: the completion counter advances, and
/// the video joins the failed list exactly when its download failed.
pub open spec fn batch_step(b: BatchView, v: VideoView, ok: bool) -> BatchView {
    BatchView {
        total: b.total,
        completed: (b.completed + 1) as nat,
        failed: if ok {
            b.failed
        } else {
            b.failed.push(v)
        },
    }
}

/// The state after recording each of `items` in order, starting from `b`.
pub open spec fn batch_fold(b: BatchView, items: Seq<(VideoView, bool)>) -> BatchView
    decreases items.len(),
{
    if items.len() == 0 {
        b
    } else {
        batch_step(batch_fold(b, items.drop_last()), items.last().0, items.last().1)
    }
}

/// The failing videos among `items`, in processing order.
pub open spec fn failures_of(items: Seq<(VideoView, bool)>) -> Seq<VideoView>
    decreases items.len(),
{
    if items.len() == 0 {
        Seq::empty()
    } else {
        failures_of(items.drop_last()) + (if items.last().1 {
            Seq::<VideoView>::empty()
        } else {
            seq![items.last().0]
        })
    }
}

/// Law: recording outcomes appends exactly the failing videos, in
/// processing order, to the failed list, and advances the completion
/// counter once per video.
pub proof fn lemma_batch_failures(b: BatchView, items: Seq<(VideoView, bool)>)
    ensures
        batch_fold(b, items).failed == b.failed + failures_of(items),
        batch_fold(b, items).completed == b.completed + items.len(),
        batch_fold(b, items).total == b.total,
    decreases items.len(),
{
    if items.len() == 0 {
        assert(b.failed + failures_of(items) =~= b.failed);
    } else {
        lemma_batch_failures(b, items.drop_last());
        let prev = batch_fold(b, items.drop_last());
        if items.last().1 {
            assert(b.failed + failures_of(items) =~= prev.failed);
        } else {
            assert(b.failed + failures_of(items) =~= prev.failed.push(items.last().0));
        }
    }
}

/// Law: no video fails exactly when every recorded outcome succeeded,
/// so a batch exits cleanly if and only if every download went through.
pub proof fn lemma_no_failures_iff_all_ok(items: Seq<(VideoView, bool)>)
    ensures
        failures_of(items).len() == 0 <==> (forall|i: int| 0 <= i < items.len() ==> items[i].1),
    decreases items.len(),
{
    if items.len() > 0 {
        lemma_no_failures_iff_all_ok(items.drop_last());
        let t = items.drop_last();
        assert(forall|i: int| 0 <= i < t.len() ==> t[i] == items[i]);
        if failures_of(items).len() == 0 {
            assert forall|i: int| 0 <= i < items.len() implies items[i].1 by {
                if i < items.len() - 1 {
                    assert(t[i].1);
                }
            }
        }
    }
}

/// Law: a batch whose outcomes all succeeded reports no failed videos.
pub proof fn lemma_all_ok_batch(b: BatchView, items: Seq<(VideoView, bool)>)
    requires
        forall|i: int| 0 <= i < items.len() ==> items[i].1,
    ensures
        batch_fold(b, items).failed == b.failed,
        batch_fold(b, items).completed == b.completed + items.len(),
{
    lemma_batch_failures(b, items);
    lemma_no_failures_iff_all_ok(items);
    assert(b.failed + failures_of(items) =~= b.failed);
}

/// The orchestrator's running state over one channel.
pub struct Batch {
    pub total: usize,
    pub completed: usize,
    pub failed: Vec<Video>,
}

impl View for Batch {
    type V = BatchView;

    open spec fn view(&self) -> BatchView {
        BatchView {
            total: self.total as nat,
            completed: self.completed as nat,
            failed: self.failed@.map_values(|v: Video| v@),
        }
    }
}

/// Starts the bookkeeping for a channel of `total` videos.
pub fn batch_new(total: usize) -> (b: Batch)
    ensures
        b@.total == total,
        b@.completed == 0,
        b@.failed == Seq::<VideoView>::empty(),
{
    let b = Batch { total, completed: 0, failed: Vec::new() };
    proof {
        assert(b@.failed =~= Seq::<VideoView>::empty());
    }
    b
}

/// Records one video's outcome: the counter advances, and the video is
/// kept for the failure report exactly when its download failed.
pub fn record_result(b: &mut Batch, video: Video, outcome: Result<(), DownloadError>)
    requires
        old(b)@.completed < old(b)@.total,
    ensures
        final(b)@ == batch_step(old(b)@, video@, outcome is Ok),
{
    let ghost prev = b@;
    let ok = match outcome {
        Ok(()) => true,
        Err(_) => false,
    };
    if !ok {
        b.failed.push(video);
    }
    b.completed = b.completed + 1;
    proof {
        if !ok {
            assert(b@.failed =~= prev.failed.push(video@));
        }
    }
}

/// The exit status the batch calls for: `0` when every video succeeded,
/// `1` when at least one failed.
pub fn exit_code(b: &Batch) -> (r: i32)
    ensures
        r == 0 <==> b@.failed.len() == 0,
        r == 0 || r == 1,
{
    if b.failed.len() == 0 {
        0
    } else {
        1
    }
}

/// The failure report: the display title of every failed video, in the
/// order they were processed.
pub fn failed_display_names(b: &Batch) -> (names: Vec<String>)
    ensures
        names@.len() == b@.failed.len(),
        forall|i: int| 0 <= i < names@.len() ==> names@[i]@ == display_view(b@.failed[i]),
{
    let mut names: Vec<String> = Vec::new();
    let n = b.failed.len();
    let mut k: usize = 0;
    while k < n
        invariant
            n == b.failed@.len(),
            k <= n,
            names@.len() == k,
            forall|i: int| 0 <= i < k ==> names@[i]@ == display_view(b@.failed[i]),
        decreases n - k,
    {
        let name = b.failed[k].display_title();
        names.push(name);
        k = k + 1;
    }
    names
}

} // verus!
