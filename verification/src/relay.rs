//! The relay proper: one slot, last write wins.
//!
//! [`RelayState`] is the mathematical state, [`FrameRelay`] the executable
//! object whose methods are specified over it. A relay starts empty, holds
//! from the first publish on exactly the frame published last, and ends
//! closed. Reading never changes it.

use crate::frame::CapturedFrame;
use vstd::prelude::*;

verus! {

/// What a relay is at one instant.
pub enum RelayState<H> {
    /// Open, and nothing was published yet.
    Empty,
    /// Open, and this is the frame published last.
    Holding(CapturedFrame<H>),
    /// Shut down. A closed relay holds nothing and takes nothing.
    Closed,
}

impl<H> RelayState<H> {
    /// Whether a publish takes effect in this state.
    pub open spec fn accepts(self) -> bool {
        !(self is Closed)
    }

    /// The state after `frame` is published: an open relay holds `frame`,
    /// whatever it held before; a closed one stays closed.
    pub open spec fn publish(self, frame: CapturedFrame<H>) -> Self {
        if self is Closed {
            RelayState::Closed
        } else {
            RelayState::Holding(frame)
        }
    }

    /// What a read observes: the frame held, if one is held.
    pub open spec fn read(self) -> Option<CapturedFrame<H>> {
        match self {
            RelayState::Holding(frame) => Some(frame),
            _ => None,
        }
    }

    /// The state after shutdown, whatever the state before.
    pub open spec fn shutdown(self) -> Self {
        RelayState::Closed
    }
}

/// A single-slot mailbox for the most recent captured frame.
///
/// The producer overwrites, the consumer reads a cheap copy; frames published
/// between two reads are dropped on purpose. Replacing a frame, or shutting
/// the relay down, drops the relay's handle to the old frame's texture.
pub struct FrameRelay<H> {
    state: RelayState<H>,
}

impl<H> View for FrameRelay<H> {
    type V = RelayState<H>;

    closed spec fn view(&self) -> RelayState<H> {
        self.state
    }
}

impl<H> FrameRelay<H> {
    /// A relay that is open and has seen no frame yet.
    pub fn new() -> (relay: Self)
        ensures
            relay@ == RelayState::<H>::Empty,
    {
        FrameRelay { state: RelayState::Empty }
    }

    /// Stores `frame` as the latest frame, replacing and releasing the one
    /// stored before. Returns whether the frame was taken: a relay that has
    /// been shut down takes none and stays as it is.
    pub fn publish(&mut self, frame: CapturedFrame<H>) -> (accepted: bool)
        ensures
            accepted == old(self)@.accepts(),
            final(self)@ == old(self)@.publish(frame),
    {
        match self.state {
            RelayState::Closed => false,
            _ => {
                self.state = RelayState::Holding(frame);
                true
            },
        }
    }

    /// A copy of the latest frame, or `None` if nothing was published yet or
    /// the relay was shut down. The relay is not changed.
    pub fn try_read(&self) -> (latest: Option<CapturedFrame<H>>)
        ensures
            latest == self@.read(),
    {
        match &self.state {
            RelayState::Holding(frame) => Some(frame.clone()),
            _ => None,
        }
    }

    /// The identifier of the latest frame, without touching its texture.
    pub fn latest_id(&self) -> (id: Option<u64>)
        ensures
            id == match self@.read() {
                Some(frame) => Some(frame.frame_id),
                None => None,
            },
    {
        match &self.state {
            RelayState::Holding(frame) => Some(frame.frame_id),
            _ => None,
        }
    }

    /// Whether the relay has been shut down.
    pub fn is_closed(&self) -> (closed: bool)
        ensures
            closed == !self@.accepts(),
    {
        match &self.state {
            RelayState::Closed => true,
            _ => false,
        }
    }

    /// Closes the relay for good and releases the frame it holds. Later
    /// publishes are refused and later reads find it empty.
    pub fn shutdown(&mut self)
        ensures
            final(self)@ == old(self)@.shutdown(),
    {
        self.state = RelayState::Closed;
    }
}

} // verus!
