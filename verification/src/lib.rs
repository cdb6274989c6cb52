//! Verified core of an animated-image playback pipeline.
//!
//! A *frame source* (undecoded container bytes plus a label) is decoded once,
//! in the background, into an ordered list of raster frames; that list is then
//! replayed cyclically, forever, over a bounded channel. Consumers poll their
//! video's channel through a registry, non-blockingly, paced by a per-handle
//! timer. The decoding codec, the channel, the task executor and the
//! identity generator come from outside crates and are reached only through
//! the trusted items in [`channel`], [`frame`] and [`pacing`]; everything
//! else is verified.

use vstd::prelude::*;

pub mod channel;
pub mod frame;
pub mod pacing;
pub mod player;
pub mod registry;

verus! {

/// Marker for wiring this pipeline into a host application.
///
/// The host-side adapter implements its own plugin/registration machinery
/// around this crate; the core itself registers nothing.
pub struct Plugin;

} // verus!
