//! The decode-once, replay-forever frame list.
//!
//! A [`FramePlayer`] holds the fully decoded, ordered, non-empty frame list
//! of one video and hands the frames out cyclically: the whole animation in
//! container order, then again from the first frame, forever. Decoding
//! happens exactly once, when the player is built; replay never decodes.

use vstd::arithmetic::div_mod::{
    lemma_fundamental_div_mod, lemma_mod_add_multiples_vanish, lemma_mod_multiples_vanish,
    lemma_small_mod,
};
use vstd::prelude::*;

use crate::frame::{decode_webp, webp_decoding, FrameModel, VideoFrame, WebpVideo};

verus! {

/// The frame that a cyclic replay of `frames` emits in position `k` of the
/// infinite output sequence: container order, restarting from the first
/// frame after the last.
pub open spec fn emitted_frame(frames: Seq<FrameModel>, k: nat) -> FrameModel
    recommends
        frames.len() > 0,
{
    frames[(k % frames.len()) as int]
}

/// Law: the emitted sequence is periodic with period `frames.len()`, and its
/// first period is exactly the decoded frame list, in order.
pub proof fn lemma_replay_periodic(frames: Seq<FrameModel>, k: nat)
    requires
        frames.len() > 0,
    ensures
        emitted_frame(frames, (k + frames.len()) as nat) == emitted_frame(frames, k),
        k < frames.len() ==> emitted_frame(frames, k) == frames[k as int],
{
    let n = frames.len() as int;
    lemma_mod_add_multiples_vanish(k as int, n);
    if k < frames.len() {
        lemma_small_mod(k, frames.len());
    }
}

/// After `p` whole values a remainder steps by one, wrapping at the divisor.
proof fn lemma_mod_step(p: nat, n: nat, r: nat)
    requires
        n > 0,
        r == p % n,
    ensures
        (p + 1) % n == if r + 1 == n {
            0int
        } else {
            r as int + 1
        },
{
    let q = p as int / n as int;
    lemma_fundamental_div_mod(p as int, n as int);
    if r + 1 == n {
        assert(p as int + 1 == n as int * (q + 1)) by (nonlinear_arith)
            requires
                p as int == n as int * q + r as int,
                r as int + 1 == n as int,
        ;
        lemma_mod_multiples_vanish(q + 1, 0, n as int);
        lemma_small_mod(0, n);
    } else {
        lemma_mod_multiples_vanish(q, r as int + 1, n as int);
        lemma_small_mod((r + 1) as nat, n);
    }
}

/// One video's decoded frames, replayed cyclically.
pub struct FramePlayer {
    /// The decoded animation, in container order. Never empty.
    frames: Vec<VideoFrame>,
    /// Index of the next frame to emit.
    next: usize,
    /// How many frames were emitted so far, over all cycles.
    played: Ghost<nat>,
}

impl FramePlayer {
    /// The decoded frame list this player replays.
    pub closed spec fn model(self) -> Seq<FrameModel> {
        self.frames@.map_values(|f: VideoFrame| f@)
    }

    /// How many frames this player has emitted so far.
    pub closed spec fn played_count(self) -> nat {
        self.played@
    }

    /// The player's internal invariant.
    pub closed spec fn wf(self) -> bool {
        &&& self.frames.len() > 0
        &&& self.next < self.frames.len()
        &&& self.next as nat == self.played@ % self.frames@.len()
    }

    /// A player over a non-empty decoded frame list, positioned at the start.
    pub fn new(frames: Vec<VideoFrame>) -> (p: FramePlayer)
        requires
            frames@.len() > 0,
        ensures
            p.wf(),
            p.model() == frames@.map_values(|f: VideoFrame| f@),
            p.played_count() == 0,
    {
        proof {
            lemma_small_mod(0, frames@.len());
        }
        FramePlayer { frames, next: 0, played: Ghost(0nat) }
    }

    /// Decode a video into a player: the container is decoded exactly once,
    /// entirely, and only a non-empty frame list makes a player. Returns
    /// `None` when the codec rejects the bytes or yields no frame.
    pub fn from_video(video: &WebpVideo) -> (r: Option<FramePlayer>)
        ensures
            match r {
                Some(p) => {
                    &&& p.wf()
                    &&& webp_decoding(video.bytes@) is Some
                    &&& p.model() == webp_decoding(video.bytes@).unwrap()
                    &&& p.model().len() > 0
                    &&& p.played_count() == 0
                    &&& forall|i: int|
                        0 <= i < p.model().len() ==> (#[trigger] p.model()[i]).wf()
                },
                None => webp_decoding(video.bytes@) is None || webp_decoding(
                    video.bytes@,
                ).unwrap().len() == 0,
            },
    {
        match decode_webp(&video.bytes) {
            Some(frames) => if frames.len() > 0 {
                Some(FramePlayer::new(frames))
            } else {
                None
            },
            None => None,
        }
    }

    /// Emit the next frame of the cyclic replay and advance.
    ///
    /// The frame emitted is position `played_count()` of the infinite
    /// sequence [`emitted_frame`]; together with [`lemma_replay_periodic`]
    /// this pins the whole delivery order: the decoded frames in container
    /// order, repeated with period `model().len()`, forever.
    pub fn next_frame(&mut self) -> (f: VideoFrame)
        requires
            old(self).wf(),
        ensures
            final(self).wf(),
            final(self).model() == old(self).model(),
            final(self).played_count() == old(self).played_count() + 1,
            f@ == emitted_frame(old(self).model(), old(self).played_count()),
    {
        let f = self.frames[self.next].duplicate();
        proof {
            assert(self.model()[self.next as int] == self.frames@[self.next as int]@);
            lemma_mod_step(self.played@, self.frames@.len(), self.next as nat);
        }
        if self.next + 1 == self.frames.len() {
            self.next = 0;
        } else {
            self.next = self.next + 1;
        }
        self.played = Ghost(self.played@ + 1);
        f
    }
}

} // verus!
