//! The bounded frame handoff and the background decode task.
//!
//! Frames travel from a decode task to its consumer over a bounded
//! single-producer/single-consumer channel: the task awaits capacity when the
//! consumer is behind (backpressure), the consumer polls without ever
//! blocking. Channel, executor and task spawning come from an outside
//! runtime and are reached only through the trusted items here; the
//! decisions inside the spawned task — decode once, all or nothing, then
//! replay cyclically until the receiver is gone — are the verified
//! [`FramePlayer`].

use vstd::prelude::*;

use crate::frame::{VideoFrame, WebpVideo};
use crate::player::FramePlayer;

verus! {

#[verifier::external_type_specification]
#[verifier::external_body]
#[verifier::reject_recursive_types(T)]
/// The sending half of the outside bounded channel, opaque to the proofs.
pub struct ExSender<T>(tokio::sync::mpsc::Sender<T>);

#[verifier::external_type_specification]
#[verifier::external_body]
#[verifier::reject_recursive_types(T)]
/// The receiving half of the outside bounded channel, opaque to the proofs.
pub struct ExReceiver<T>(tokio::sync::mpsc::Receiver<T>);

#[verifier::external_type_specification]
#[verifier::external_body]
/// The outside multi-task executor, opaque to the proofs.
pub struct ExRuntime(tokio::runtime::Runtime);

/// Outcome of one non-blocking read of a frame channel.
pub enum RecvPoll {
    /// A buffered frame was taken.
    Frame(VideoFrame),
    /// Nothing is buffered right now; the producer is still alive.
    Empty,
    /// The producer is gone and the buffer is drained: no frame will ever
    /// come again.
    Closed,
}

/// Relies on `tokio::sync::mpsc::channel`: a bounded first-in-first-out
/// channel that buffers at most `capacity` undelivered values; its `send`
/// suspends while the buffer is full. The call panics on capacity zero,
/// which the precondition rules out.
#[verifier::external_body]
pub(crate) fn frame_channel(capacity: usize) -> (tokio::sync::mpsc::Sender<VideoFrame>, tokio::sync::mpsc::Receiver<VideoFrame>)
    requires
        capacity >= 1,
{
    tokio::sync::mpsc::channel(capacity)
}

/// Relies on `tokio::sync::mpsc::Receiver::try_recv`: never blocks, and
/// returns a buffered value, or `Empty` while none is buffered and the
/// sender still lives, or `Disconnected` once the sender is gone and the
/// buffer is drained. Which of the three comes back depends on the
/// concurrent producer, so nothing more is promised.
#[verifier::external_body]
pub(crate) fn try_recv_frame(receiver: &mut tokio::sync::mpsc::Receiver<VideoFrame>) -> RecvPoll {
    match receiver.try_recv() {
        Ok(frame) => RecvPoll::Frame(frame),
        Err(tokio::sync::mpsc::error::TryRecvError::Empty) => RecvPoll::Empty,
        Err(tokio::sync::mpsc::error::TryRecvError::Disconnected) => RecvPoll::Closed,
    }
}

/// Relies on `tokio::runtime::Builder`: a fresh multi-thread executor with
/// one dedicated worker. Construction is assumed to succeed; it fails only
/// when the operating system refuses a thread.
#[verifier::external_body]
pub(crate) fn default_runtime() -> tokio::runtime::Runtime {
    tokio::runtime::Builder::new_multi_thread().worker_threads(1).build().unwrap()
}

/// Relies on `tokio::runtime::Runtime::spawn_blocking` and on
/// `tokio::sync::mpsc::Sender::blocking_send`: the spawned task runs in the
/// background and never blocks the caller. The task's decisions are the
/// verified [`FramePlayer`]: it decodes the video exactly once, sends no
/// frame at all when decoding fails or yields no frame (dropping the sender,
/// so every later poll sees `Closed`), and otherwise sends
/// `emitted_frame(model, 0)`, `emitted_frame(model, 1)`, ... in order,
/// waiting for capacity when the channel is full, until the send reports the
/// receiver dropped, whereupon it stops within that one send attempt.
#[verifier::external_body]
pub(crate) fn spawn_decode_task(
    runtime: &tokio::runtime::Runtime,
    video: WebpVideo,
    sender: tokio::sync::mpsc::Sender<VideoFrame>,
) {
    runtime.spawn_blocking(
        move ||
            {
                let mut player = match FramePlayer::from_video(&video) {
                    Some(player) => player,
                    None => { return ; },
                };
                loop {
                    if sender.blocking_send(player.next_frame()).is_err() {
                        return ;
                    }
                }
            },
    );
}

} // verus!
