//! The relay behind a lock, shared by reference between the capture callback
//! and the render loop.
//!
//! Every method takes the lock, makes one call on the [`FrameRelay`] inside
//! and gives the lock back, so the critical section is one swap or one handle
//! copy, and calls from different threads take effect one after another.
//! What one call leaves behind is stated exactly on [`FrameRelay`]; what every
//! order of calls leaves behind, in [`crate::trace`].
//!
//! Between two calls of one thread another thread may have called, so a
//! contract here states what holds whatever the other threads did. That is
//! the relay's rule: a predicate on frames, chosen when the relay is made,
//! that every published frame must meet and every frame read therefore
//! meets. A frame is moved in and out whole, under the lock, so a rule that
//! ties a frame's texture to its identifier holds of what is read: a read
//! never pairs the texture of one frame with the identifier of another.

use crate::capture::Delivery;
use crate::capture::StreamNotice;
use crate::frame::CapturedFrame;
use crate::relay::FrameRelay;
use crate::relay::RelayState;
use crate::render::select_source;
use crate::render::DrawSource;
use vstd::prelude::*;
use vstd::rwlock::RwLock;
use vstd::rwlock::RwLockPredicate;

verus! {

/// The lock's invariant: the frame held, if one is held, meets the rule.
#[verifier::reject_recursive_types(H)]
pub struct FrameRule<H> {
    pub allows: spec_fn(CapturedFrame<H>) -> bool,
}

impl<H> RwLockPredicate<FrameRelay<H>> for FrameRule<H> {
    open spec fn inv(self, relay: FrameRelay<H>) -> bool {
        relay@ matches RelayState::Holding(frame) ==> (self.allows)(frame)
    }
}

/// A [`FrameRelay`] that any number of threads may publish to and read from
/// through a shared reference.
#[verifier::reject_recursive_types(H)]
pub struct SharedRelay<H> {
    lock: RwLock<FrameRelay<H>, FrameRule<H>>,
}

impl<H> SharedRelay<H> {
    /// Whether `frame` meets this relay's rule.
    pub closed spec fn allows(&self, frame: CapturedFrame<H>) -> bool {
        (self.lock.pred().allows)(frame)
    }

    /// An open, empty relay that takes every frame.
    pub fn new() -> (relay: Self)
        ensures
            forall|frame: CapturedFrame<H>| relay.allows(frame),
    {
        Self::with_rule(Ghost(|frame: CapturedFrame<H>| true))
    }

    /// An open, empty relay that takes the frames that meet `rule`.
    pub fn with_rule(Ghost(rule): Ghost<spec_fn(CapturedFrame<H>) -> bool>) -> (relay: Self)
        ensures
            forall|frame: CapturedFrame<H>| relay.allows(frame) == rule(frame),
    {
        let inner = FrameRelay::<H>::new();
        SharedRelay { lock: RwLock::new(inner, Ghost(FrameRule { allows: rule })) }
    }

    /// Makes `frame` the latest frame, unless the relay has been shut down.
    /// Returns whether the frame was taken. Of two publishes that race, the
    /// one that takes the lock last wins.
    pub fn publish(&self, frame: CapturedFrame<H>) -> (accepted: bool)
        requires
            self.allows(frame),
    {
        let (mut relay, handle) = self.lock.acquire_write();
        let accepted = relay.publish(frame);
        handle.release_write(relay);
        accepted
    }

    /// A copy of the frame that is the latest at the moment of the call, if
    /// there is one. It is a frame that was published, whole.
    pub fn try_read(&self) -> (latest: Option<CapturedFrame<H>>)
        ensures
            latest matches Some(frame) ==> self.allows(frame),
    {
        let handle = self.lock.acquire_read();
        let latest = handle.borrow().try_read();
        handle.release_read();
        latest
    }

    /// Handles one notice from the capture stream. The lock is taken only
    /// for a frame that came with its texture; a frame without one is
    /// skipped, and any other notice ignored, whatever state the relay is in.
    pub fn deliver(&self, notice: StreamNotice<H>) -> (outcome: Delivery)
        requires
            notice.frame() matches Some(frame) ==> self.allows(frame),
        ensures
            match notice {
                StreamNotice::Video { texture: Ok(_), .. } => outcome == Delivery::Published
                    || outcome == Delivery::Refused,
                StreamNotice::Video { texture: Err(error), .. } => outcome == Delivery::Skipped(
                    error,
                ),
                StreamNotice::Other => outcome == Delivery::Ignored,
            },
    {
        match notice {
            StreamNotice::Video { frame_id, texture } => match texture {
                Ok(texture) => {
                    if self.publish(CapturedFrame::new(texture, frame_id)) {
                        Delivery::Published
                    } else {
                        Delivery::Refused
                    }
                },
                Err(error) => Delivery::Skipped(error),
            },
            StreamNotice::Other => Delivery::Ignored,
        }
    }

    /// Reads the relay and picks what to draw: the latest frame, or the
    /// placeholder while there is none.
    pub fn draw_source(&self) -> (source: DrawSource<H>)
        ensures
            source matches DrawSource::Captured(frame) ==> self.allows(frame),
    {
        select_source(self.try_read())
    }

    /// Closes the relay for good and releases the frame it holds.
    pub fn shutdown(&self) {
        let (mut relay, handle) = self.lock.acquire_write();
        relay.shutdown();
        handle.release_write(relay);
    }

    /// Whether the relay was shut down at the moment of the call.
    pub fn is_closed(&self) -> bool {
        let handle = self.lock.acquire_read();
        let closed = handle.borrow().is_closed();
        handle.release_read();
        closed
    }
}

} // verus!
