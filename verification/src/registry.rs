//! The pipeline registry: identity and lifecycle bookkeeping.
//!
//! A [`WebpAnimator`] owns the background executor, a pending queue of
//! videos whose sources are still loading, and the map from each handle's
//! identity to the receiving end of that video's frame channel. It exposes
//! registration (pending or immediate), promotion of resolved pending
//! entries, and the non-blocking per-tick poll for the next frame.
//!
//! The registry is generic over `S`, the host's reference to a
//! not-yet-loaded source: the core never looks inside an `S`, it only keeps
//! each one next to its identity until the host resolves it to the actual
//! bytes.

use vstd::pervasive::VecAdditionalExecFns;
use vstd::prelude::*;

use crate::channel::{default_runtime, frame_channel, spawn_decode_task, try_recv_frame, RecvPoll};
use crate::frame::{VideoFrame, WebpVideo};
use crate::pacing::{FrameTimer, RemoteControl};

verus! {

/// No identity occurs twice.
pub open spec fn distinct_ids(ids: Seq<u128>) -> bool {
    forall|i: int, j: int| 0 <= i < j < ids.len() ==> ids[i] != ids[j]
}

/// Taking the only occurrence of `id` out of a distinct sequence and putting
/// `id` back at the end keeps the sequence distinct and leaves the same set
/// of identities in it.
proof fn lemma_remove_then_push(ids: Seq<u128>, i: int, id: u128)
    requires
        distinct_ids(ids),
        0 <= i < ids.len(),
        ids[i] == id,
    ensures
        distinct_ids(ids.remove(i).push(id)),
        forall|x: u128| ids.remove(i).push(id).contains(x) == ids.contains(x),
{
    let s1 = ids.remove(i);
    let s2 = s1.push(id);
    ids.remove_ensures(i);
    assert forall|a: int, b: int| 0 <= a < b < s2.len() implies s2[a] != s2[b] by {
        if b == s2.len() - 1 {
            if a < i {
                assert(s2[a] == ids[a]);
            } else {
                assert(s2[a] == ids[a + 1]);
            }
        } else {
            if a < i {
                assert(s2[a] == ids[a]);
            } else {
                assert(s2[a] == ids[a + 1]);
            }
            if b < i {
                assert(s2[b] == ids[b]);
            } else {
                assert(s2[b] == ids[b + 1]);
            }
        }
    }
    assert forall|x: u128| s2.contains(x) == ids.contains(x) by {
        if x == id {
            assert(s2[s2.len() - 1] == id);
            assert(s2.contains(id));
            assert(ids.contains(id));
        } else {
            if s2.contains(x) {
                let k = choose|k: int| 0 <= k < s2.len() && s2[k] == x;
                if k < i {
                    assert(ids[k] == x);
                } else {
                    assert(ids[k + 1] == x);
                }
                assert(ids.contains(x));
            }
            if ids.contains(x) {
                let k = choose|k: int| 0 <= k < ids.len() && ids[k] == x;
                if k < i {
                    assert(s2[k] == x);
                } else {
                    assert(s2[k - 1] == x);
                }
                assert(s2.contains(x));
            }
        }
    }
}

/// How many frames a decode task may run ahead of its consumer when the
/// registry is built with [`Default`].
pub const DEFAULT_PREPARED_FRAMES_COUNT: usize = 16;

/// What one non-blocking poll for a video's next frame yields.
pub enum FramePoll {
    /// The identity is unknown to the registry: the handle is still pending,
    /// or was never registered here.
    NotRegistered,
    /// The next frame, in strict cyclic container order.
    Ready(VideoFrame),
    /// Nothing new this tick; the decode task is alive but behind. Not an
    /// error.
    Empty,
    /// The decode task is gone, permanently: decoding failed or yielded no
    /// frame. No frame will ever come for this identity again.
    Closed,
}

/// The pending entries that stay after one promotion pass over `pending`
/// with the per-entry resolutions `resolved`: exactly those whose source did
/// not resolve, in their original relative order.
pub open spec fn retained<S>(pending: Seq<(u128, S)>, resolved: Seq<Option<WebpVideo>>) -> Seq<
    (u128, S),
>
    recommends
        pending.len() == resolved.len(),
    decreases pending.len(),
{
    if pending.len() == 0 {
        Seq::empty()
    } else {
        let init = retained(pending.drop_last(), resolved.drop_last());
        if resolved.last() is None {
            init.push(pending.last())
        } else {
            init
        }
    }
}

/// Whether one promotion pass over `pending` with resolutions `resolved`
/// promotes some entry whose identity is `x`.
pub open spec fn promoted<S>(
    pending: Seq<(u128, S)>,
    resolved: Seq<Option<WebpVideo>>,
    x: u128,
) -> bool {
    exists|i: int|
        0 <= i < pending.len() && i < resolved.len() && (#[trigger] resolved[i]) is Some && (
        #[trigger] pending[i]).0 == x
}

/// Extending a promotion pass by one entry keeps the retained prefix and
/// appends the entry exactly when its source did not resolve.
proof fn lemma_retained_step<S>(pending: Seq<(u128, S)>, resolved: Seq<Option<WebpVideo>>, k: int)
    requires
        0 <= k < pending.len(),
        pending.len() == resolved.len(),
    ensures
        retained(pending.take(k + 1), resolved.take(k + 1)) == if resolved[k] is None {
            retained(pending.take(k), resolved.take(k)).push(pending[k])
        } else {
            retained(pending.take(k), resolved.take(k))
        },
{
    assert(pending.take(k + 1).drop_last() =~= pending.take(k));
    assert(resolved.take(k + 1).drop_last() =~= resolved.take(k));
    assert(pending.take(k + 1).last() == pending[k]);
    assert(resolved.take(k + 1).last() == resolved[k]);
}

/// Extending a promotion pass by one entry promotes exactly the identities
/// promoted before, plus the new entry's identity when its source resolved.
proof fn lemma_promoted_step<S>(
    pending: Seq<(u128, S)>,
    resolved: Seq<Option<WebpVideo>>,
    k: int,
    x: u128,
)
    requires
        0 <= k < pending.len(),
        pending.len() == resolved.len(),
    ensures
        promoted(pending.take(k + 1), resolved.take(k + 1), x) <==> (promoted(
            pending.take(k),
            resolved.take(k),
            x,
        ) || (resolved[k] is Some && pending[k].0 == x)),
{
    if promoted(pending.take(k + 1), resolved.take(k + 1), x) {
        let i = choose|i: int|
            0 <= i < pending.take(k + 1).len() && i < resolved.take(k + 1).len() && (
            #[trigger] resolved.take(k + 1)[i]) is Some && (#[trigger] pending.take(k + 1)[i]).0
                == x;
        if i < k {
            assert(promoted(pending.take(k), resolved.take(k), x));
        }
    }
    if promoted(pending.take(k), resolved.take(k), x) {
        let i = choose|i: int|
            0 <= i < pending.take(k).len() && i < resolved.take(k).len() && (
            #[trigger] resolved.take(k)[i]) is Some && (#[trigger] pending.take(k)[i]).0 == x;
        assert(resolved.take(k + 1)[i] is Some && pending.take(k + 1)[i].0 == x);
    }
    if resolved[k] is Some && pending[k].0 == x {
        assert(resolved.take(k + 1)[k] is Some && pending.take(k + 1)[k].0 == x);
    }
}

/// The pipeline registry. See the module documentation.
pub struct WebpAnimator<S> {
    /// Bounds how many frames each decode task may buffer ahead of its
    /// consumer: the single knob trading memory for decode-to-consumption
    /// slack. Must be at least 1 for registrations to be accepted.
    pub prepared_frames_count: usize,
    /// The receiving end of each spawned video's channel, keyed by the
    /// identity of the handle it was registered under.
    receivers: Vec<(u128, tokio::sync::mpsc::Receiver<VideoFrame>)>,
    /// The owned background executor all decode tasks run on.
    runtime: tokio::runtime::Runtime,
    /// Videos whose sources are not resolved yet, in registration order.
    videos_to_queue: Vec<(u128, S)>,
}

impl<S> WebpAnimator<S> {
    /// The per-video frame buffer bound, for contracts.
    pub closed spec fn spec_prepared_frames_count(self) -> usize {
        self.prepared_frames_count
    }

    /// The identities that currently own a channel, in insertion order.
    pub closed spec fn receiver_ids(self) -> Seq<u128> {
        self.receivers@.map_values(|r: (u128, tokio::sync::mpsc::Receiver<VideoFrame>)| r.0)
    }

    /// Whether `id` currently owns a channel.
    pub open spec fn has_receiver(self, id: u128) -> bool {
        self.receiver_ids().contains(id)
    }

    /// The pending registrations, in registration order.
    pub closed spec fn pending(self) -> Seq<(u128, S)> {
        self.videos_to_queue@
    }

    /// The registry's internal invariant: at most one channel per identity.
    pub closed spec fn wf(self) -> bool {
        distinct_ids(self.receiver_ids())
    }

    /// A fresh registry with its own background executor and the given
    /// per-video frame buffer bound.
    pub fn new(prepared_frames_count: usize) -> (animator: Self)
        ensures
            animator.wf(),
            animator.spec_prepared_frames_count() == prepared_frames_count,
            animator.receiver_ids().len() == 0,
            animator.pending().len() == 0,
    {
        WebpAnimator {
            prepared_frames_count,
            receivers: Vec::new(),
            runtime: default_runtime(),
            videos_to_queue: Vec::new(),
        }
    }

    /// A fresh registry over an executor the host supplies, for embedding
    /// into a larger concurrent application.
    pub fn new_with_runtime(prepared_frames_count: usize, runtime: tokio::runtime::Runtime) -> (animator: Self)
        ensures
            animator.wf(),
            animator.spec_prepared_frames_count() == prepared_frames_count,
            animator.receiver_ids().len() == 0,
            animator.pending().len() == 0,
    {
        WebpAnimator {
            prepared_frames_count,
            receivers: Vec::new(),
            runtime,
            videos_to_queue: Vec::new(),
        }
    }

    /// Register a video whose source is still loading: the entry joins the
    /// pending queue and the handle is returned at once. No channel exists
    /// yet, so polls with the handle return
    /// [`FramePoll::NotRegistered`] until a later
    /// [`promote_ready_pending`](Self::promote_ready_pending) resolves it.
    pub fn add_and_wait_for_asset_load(&mut self, video: S, fps: u32) -> (rc: RemoteControl)
        requires
            old(self).wf(),
            fps >= 1,
        ensures
            final(self).wf(),
            final(self).pending() == old(self).pending().push((rc.id, video)),
            final(self).receiver_ids() == old(self).receiver_ids(),
            final(self).spec_prepared_frames_count() == old(self).spec_prepared_frames_count(),
            rc.fps_tracker.wf(),
            rc.fps_tracker.interval_micros == FrameTimer::interval_of_fps(fps),
            rc.fps_tracker.elapsed_micros == 0,
    {
        let rc = RemoteControl::new(fps);
        self.videos_to_queue.push((rc.id, video));
        proof {
            assert(self.receivers == old(self).receivers);
            assert(self.receiver_ids() == old(self).receiver_ids());
        }
        rc
    }

    /// The pending registrations, for the host to resolve: each entry is the
    /// handle identity and the host's source reference, in registration
    /// order.
    pub fn pending_sources(&self) -> (pending: &Vec<(u128, S)>)
        ensures
            pending@ == self.pending(),
    {
        &self.videos_to_queue
    }

    /// Where `id`'s channel sits in the receiver list, if anywhere.
    fn find_receiver_index(&self, id: u128) -> (r: Option<usize>)
        ensures
            match r {
                Some(i) => i < self.receiver_ids().len() && self.receiver_ids()[i as int] == id,
                None => !self.has_receiver(id),
            },
    {
        let mut i: usize = 0;
        while i < self.receivers.len()
            invariant
                i <= self.receivers.len(),
                forall|k: int| 0 <= k < i ==> self.receiver_ids()[k] != id,
            decreases self.receivers.len() - i,
        {
            if self.receivers[i].0 == id {
                proof {
                    assert(self.receiver_ids()[i as int] == self.receivers@[i as int].0);
                }
                return Some(i);
            }
            proof {
                assert(self.receiver_ids()[i as int] == self.receivers@[i as int].0);
            }
            i = i + 1;
        }
        None
    }

    /// Record `receiver` as `id`'s channel. A stale channel under the same
    /// identity is replaced, so the at-most-one-channel-per-identity
    /// invariant holds.
    fn insert_receiver(&mut self, id: u128, receiver: tokio::sync::mpsc::Receiver<VideoFrame>)
        requires
            old(self).wf(),
        ensures
            final(self).wf(),
            final(self).has_receiver(id),
            forall|x: u128| x != id ==> final(self).has_receiver(x) == old(self).has_receiver(x),
            final(self).pending() == old(self).pending(),
            final(self).spec_prepared_frames_count() == old(self).spec_prepared_frames_count(),
    {
        let ghost ids0 = self.receiver_ids();
        match self.find_receiver_index(id) {
            Some(i) => {
                self.receivers.set(i, (id, receiver));
                proof {
                    assert forall|k: int| 0 <= k < self.receiver_ids().len() implies
                        self.receiver_ids()[k] == ids0[k] by {
                        assert(self.receiver_ids()[k] == self.receivers@[k].0);
                        assert(ids0[k] == old(self).receivers@[k].0);
                    }
                    assert(self.receiver_ids() =~= ids0);
                }
            },
            None => {
                self.receivers.push((id, receiver));
                proof {
                    assert forall|k: int| 0 <= k < self.receiver_ids().len() implies
                        self.receiver_ids()[k] == ids0.push(id)[k] by {
                        assert(self.receiver_ids()[k] == self.receivers@[k].0);
                        if k < ids0.len() {
                            assert(ids0[k] == old(self).receivers@[k].0);
                        }
                    }
                    assert(self.receiver_ids() =~= ids0.push(id));
                    assert(self.receiver_ids().contains(id)) by {
                        assert(self.receiver_ids()[ids0.len() as int] == id);
                    }
                    assert forall|x: u128| x != id implies self.receiver_ids().contains(x)
                        == ids0.contains(x) by {
                        if self.receiver_ids().contains(x) {
                            let k = choose|k: int|
                                0 <= k < self.receiver_ids().len() && self.receiver_ids()[k] == x;
                            assert(ids0[k] == x);
                        }
                        if ids0.contains(x) {
                            let k = choose|k: int| 0 <= k < ids0.len() && ids0[k] == x;
                            assert(self.receiver_ids()[k] == x);
                        }
                    }
                }
            },
        }
    }

    /// Create `id`'s bounded channel, record its receiving end, and start
    /// the decode task for `video` on the background executor.
    fn start_video(&mut self, id: u128, video: WebpVideo)
        requires
            old(self).wf(),
            old(self).spec_prepared_frames_count() >= 1,
        ensures
            final(self).wf(),
            final(self).has_receiver(id),
            forall|x: u128| x != id ==> final(self).has_receiver(x) == old(self).has_receiver(x),
            final(self).pending() == old(self).pending(),
            final(self).spec_prepared_frames_count() == old(self).spec_prepared_frames_count(),
    {
        let (sender, receiver) = frame_channel(self.prepared_frames_count);
        self.insert_receiver(id, receiver);
        spawn_decode_task(&self.runtime, video, sender);
    }

    /// Register a video whose bytes are already available: the decode task
    /// starts at once and the handle is returned. The handle's identity owns
    /// a channel from here on, so polls never answer
    /// [`FramePoll::NotRegistered`] for it.
    pub fn add_already_loaded(&mut self, video: WebpVideo, fps: u32) -> (rc: RemoteControl)
        requires
            old(self).wf(),
            old(self).spec_prepared_frames_count() >= 1,
            fps >= 1,
        ensures
            final(self).wf(),
            final(self).has_receiver(rc.id),
            forall|x: u128| x != rc.id ==> final(self).has_receiver(x) == old(self).has_receiver(x),
            final(self).pending() == old(self).pending(),
            final(self).spec_prepared_frames_count() == old(self).spec_prepared_frames_count(),
            rc.fps_tracker.wf(),
            rc.fps_tracker.interval_micros == FrameTimer::interval_of_fps(fps),
            rc.fps_tracker.elapsed_micros == 0,
    {
        let rc = RemoteControl::new(fps);
        self.start_video(rc.id, video);
        rc
    }

    /// One promotion pass over the pending queue.
    ///
    /// The host resolves each pending entry in order — `resolved[i]` answers
    /// for `pending()[i]` — and every entry whose source is now available
    /// leaves the queue, gets its channel and its decode task exactly as in
    /// [`add_already_loaded`](Self::add_already_loaded). Entries not yet
    /// resolved stay, keeping their relative order. Call this repeatedly,
    /// once per host tick, until the queue drains.
    pub fn promote_ready_pending(&mut self, resolved: Vec<Option<WebpVideo>>)
        requires
            old(self).wf(),
            old(self).spec_prepared_frames_count() >= 1,
            resolved@.len() == old(self).pending().len(),
        ensures
            final(self).wf(),
            final(self).pending() == retained(old(self).pending(), resolved@),
            forall|x: u128|
                promoted(old(self).pending(), resolved@, x) ==> final(self).has_receiver(x),
            forall|x: u128|
                !promoted(old(self).pending(), resolved@, x) ==> final(self).has_receiver(x)
                    == old(self).has_receiver(x),
            final(self).spec_prepared_frames_count() == old(self).spec_prepared_frames_count(),
    {
        let ghost pending0 = old(self).pending();
        let ghost resolved0 = resolved@;
        let mut queue: Vec<(u128, S)> = Vec::new();
        core::mem::swap(&mut queue, &mut self.videos_to_queue);
        let mut resolved = resolved;
        let mut k: usize = 0;
        proof {
            assert(queue.len() == queue@.len());
            assert(pending0.len() <= usize::MAX);
            assert(pending0.take(0) =~= Seq::<(u128, S)>::empty());
            assert(resolved0.take(0) =~= Seq::<Option<WebpVideo>>::empty());
            assert(self.videos_to_queue@ =~= retained(pending0.take(0), resolved0.take(0)));
        }
        while queue.len() > 0
            invariant
                k <= pending0.len(),
                pending0.len() <= usize::MAX,
                pending0.len() == resolved0.len(),
                queue@ == pending0.skip(k as int),
                resolved@ == resolved0.skip(k as int),
                self.wf(),
                self.spec_prepared_frames_count() == old(self).spec_prepared_frames_count(),
                self.spec_prepared_frames_count() >= 1,
                self.videos_to_queue@ == retained(pending0.take(k as int), resolved0.take(k as int)),
                forall|x: u128|
                    promoted(pending0.take(k as int), resolved0.take(k as int), x)
                        ==> self.has_receiver(x),
                forall|x: u128|
                    !promoted(pending0.take(k as int), resolved0.take(k as int), x)
                        ==> self.has_receiver(x) == old(self).has_receiver(x),
            decreases queue.len(),
        {
            let ghost queue_at_entry = queue@;
            let ghost self_at_entry = *self;
            let entry = queue.remove(0);
            let resolution = resolved.remove(0);
            proof {
                assert(entry == pending0[k as int]);
                assert(resolution == resolved0[k as int]);
                assert(queue@ =~= pending0.skip(k as int + 1));
                assert(resolved@ =~= resolved0.skip(k as int + 1));
                lemma_retained_step(pending0, resolved0, k as int);
            }
            match resolution {
                Some(video) => {
                    self.start_video(entry.0, video);
                },
                None => {
                    self.videos_to_queue.push(entry);
                    proof {
                        assert(self.receivers == self_at_entry.receivers);
                        assert(self.receiver_ids() == self_at_entry.receiver_ids());
                    }
                },
            }
            proof {
                assert forall|x: u128|
                    promoted(pending0.take(k as int + 1), resolved0.take(k as int + 1), x) implies
                    self.has_receiver(x) by {
                    lemma_promoted_step(pending0, resolved0, k as int, x);
                    if promoted(pending0.take(k as int), resolved0.take(k as int), x) {
                        assert(self_at_entry.has_receiver(x));
                    } else {
                        assert(resolved0[k as int] is Some);
                        assert(pending0[k as int].0 == x);
                        assert(x == entry.0);
                    }
                }
                assert forall|x: u128|
                    !promoted(pending0.take(k as int + 1), resolved0.take(k as int + 1), x) implies
                    self.has_receiver(x) == old(self).has_receiver(x) by {
                    lemma_promoted_step(pending0, resolved0, k as int, x);
                    assert(!promoted(pending0.take(k as int), resolved0.take(k as int), x));
                    assert(self_at_entry.has_receiver(x) == old(self).has_receiver(x));
                    assert(x != entry.0 || resolution is None);
                }
            }
            k = k + 1;
        }
        proof {
            assert(k == pending0.len());
            assert(pending0.take(k as int) =~= pending0);
            assert(resolved0.take(k as int) =~= resolved0);
        }
    }

    /// One non-blocking poll for the next frame of `remote_control`'s video.
    ///
    /// Law: the answer is [`FramePoll::NotRegistered`] exactly when the
    /// handle's identity owns no channel here — the handle is still pending
    /// or unknown — and in that case it is never a frame and never `Closed`.
    /// Otherwise the matching channel is read without blocking and the
    /// answer is the frame, `Empty`, or `Closed`. The registry's bookkeeping
    /// is unchanged either way.
    pub fn try_next_frame_for(&mut self, remote_control: &RemoteControl) -> (r: FramePoll)
        requires
            old(self).wf(),
        ensures
            final(self).wf(),
            r is NotRegistered <==> !old(self).has_receiver(remote_control.id),
            forall|x: u128| final(self).has_receiver(x) == old(self).has_receiver(x),
            final(self).pending() == old(self).pending(),
            final(self).spec_prepared_frames_count() == old(self).spec_prepared_frames_count(),
    {
        let ghost ids0 = self.receiver_ids();
        match self.find_receiver_index(remote_control.id) {
            None => FramePoll::NotRegistered,
            Some(i) => {
                let mut entry = self.receivers.remove(i);
                let poll = try_recv_frame(&mut entry.1);
                self.receivers.push(entry);
                proof {
                    old(self).receivers@.remove_ensures(i as int);
                    ids0.remove_ensures(i as int);
                    assert forall|k: int| 0 <= k < self.receiver_ids().len() implies
                        self.receiver_ids()[k] == ids0.remove(i as int).push(
                            remote_control.id,
                        )[k] by {
                        assert(self.receiver_ids()[k] == self.receivers@[k].0);
                        if k < self.receiver_ids().len() - 1 {
                            if k < i {
                                assert(self.receivers@[k] == old(self).receivers@[k]);
                                assert(ids0[k] == old(self).receivers@[k].0);
                            } else {
                                assert(self.receivers@[k] == old(self).receivers@[k + 1]);
                                assert(ids0[k + 1] == old(self).receivers@[k + 1].0);
                            }
                        } else {
                            assert(ids0[i as int] == old(self).receivers@[i as int].0);
                        }
                    }
                    assert(self.receiver_ids() =~= ids0.remove(i as int).push(remote_control.id));
                    lemma_remove_then_push(ids0, i as int, remote_control.id);
                }
                match poll {
                    RecvPoll::Frame(frame) => FramePoll::Ready(frame),
                    RecvPoll::Empty => FramePoll::Empty,
                    RecvPoll::Closed => FramePoll::Closed,
                }
            },
        }
    }
}

impl<S> Default for WebpAnimator<S> {
    /// A fresh registry with the default frame buffer bound.
    fn default() -> (animator: Self)
        ensures
            animator.wf(),
            animator.spec_prepared_frames_count() == DEFAULT_PREPARED_FRAMES_COUNT,
            animator.receiver_ids().len() == 0,
            animator.pending().len() == 0,
    {
        Self::new(DEFAULT_PREPARED_FRAMES_COUNT)
    }
}

} // verus!
