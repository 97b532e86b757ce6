//! The producer side: what the capture callback does with each notice from
//! the capture stream.
//!
//! A video frame whose texture could be extracted is published. A frame whose
//! texture could not be extracted is skipped: the relay keeps what it had, the
//! failure goes back to the caller to be logged, and the stream goes on.
//! Every other notice is ignored.

use crate::frame::CapturedFrame;
use crate::relay::FrameRelay;
use crate::relay::RelayState;
use std::sync::Arc;
use vstd::prelude::*;

verus! {

/// Why a delivered frame gave no texture.
#[derive(Debug, PartialEq, Eq)]
pub enum TextureError {
    /// The frame has no surface behind it.
    NoSurface,
    /// The frame has no image buffer.
    NoImageBuffer,
    /// The frame's pixel format has no such texture plane.
    InvalidPlane,
    /// Any other failure, with the capture service's message.
    Other(String),
}

/// A notice from the capture stream, reduced to what the relay acts on.
pub enum StreamNotice<H> {
    /// A video frame arrived. `texture` is the outcome of asking the frame
    /// for its texture.
    Video { frame_id: u64, texture: Result<Arc<H>, TextureError> },
    /// Anything else: audio, an idle stream, the end of the stream, a stream
    /// error.
    Other,
}

/// What became of a notice.
#[derive(Debug, PartialEq, Eq)]
pub enum Delivery {
    /// The frame is now the relay's latest frame.
    Published,
    /// The frame was whole, but the relay has been shut down.
    Refused,
    /// The frame gave no texture and was dropped; the relay is untouched.
    Skipped(TextureError),
    /// The notice carried no video frame.
    Ignored,
}

impl<H> StreamNotice<H> {
    /// The frame that this notice delivers, if it delivers one: the texture
    /// and the identifier of the same video frame.
    pub open spec fn frame(self) -> Option<CapturedFrame<H>> {
        match self {
            StreamNotice::Video { frame_id, texture: Ok(texture) } => Some(
                CapturedFrame { texture, frame_id },
            ),
            _ => None,
        }
    }
}

impl<H> RelayState<H> {
    /// The state after `notice` is handled: a delivered frame is published,
    /// anything else leaves the relay as it is.
    pub open spec fn deliver(self, notice: StreamNotice<H>) -> Self {
        match notice.frame() {
            Some(frame) => self.publish(frame),
            None => self,
        }
    }

    /// What is reported back for `notice` in this state.
    pub open spec fn delivery(self, notice: StreamNotice<H>) -> Delivery {
        match notice {
            StreamNotice::Video { texture: Ok(_), .. } => if self.accepts() {
                Delivery::Published
            } else {
                Delivery::Refused
            },
            StreamNotice::Video { texture: Err(error), .. } => Delivery::Skipped(error),
            StreamNotice::Other => Delivery::Ignored,
        }
    }

    /// The state after the notices `notices` are handled in order.
    pub open spec fn deliver_all(self, notices: Seq<StreamNotice<H>>) -> Self
        decreases notices.len(),
    {
        if notices.len() == 0 {
            self
        } else {
            self.deliver_all(notices.drop_last()).deliver(notices.last())
        }
    }
}

/// The frames that `notices` deliver, in order.
pub open spec fn delivered_frames<H>(notices: Seq<StreamNotice<H>>) -> Seq<CapturedFrame<H>>
    decreases notices.len(),
{
    if notices.len() == 0 {
        Seq::empty()
    } else {
        match notices.last().frame() {
            Some(frame) => delivered_frames(notices.drop_last()).push(frame),
            None => delivered_frames(notices.drop_last()),
        }
    }
}

impl<H> FrameRelay<H> {
    /// Handles one notice from the capture stream and says what became of
    /// it. Only a video frame with a texture changes the relay.
    pub fn deliver(&mut self, notice: StreamNotice<H>) -> (outcome: Delivery)
        ensures
            final(self)@ == old(self)@.deliver(notice),
            outcome == old(self)@.delivery(notice),
    {
        match notice {
            StreamNotice::Video { frame_id, texture } => match texture {
                Ok(texture) => {
                    if self.publish(CapturedFrame::new(texture, frame_id)) {
                        Delivery::Published
                    } else {
                        Delivery::Refused
                    }
                },
                Err(error) => Delivery::Skipped(error),
            },
            StreamNotice::Other => Delivery::Ignored,
        }
    }
}

/// A bad frame touches nothing: a frame whose texture could not be extracted
/// leaves the relay exactly as it was, and the next good frame is handled as
/// if the failure had never happened.
pub proof fn failed_extraction_is_isolated<H>(
    state: RelayState<H>,
    frame_id: u64,
    error: TextureError,
    next: CapturedFrame<H>,
)
    ensures
        ({
            let failed = StreamNotice::<H>::Video { frame_id, texture: Err(error) };
            let good = StreamNotice::Video { frame_id: next.frame_id, texture: Ok(next.texture) };
            &&& state.deliver(failed) == state
            &&& state.delivery(failed) == Delivery::Skipped(error)
            &&& state.deliver(failed).deliver(good) == state.publish(next)
            &&& state.deliver(failed).delivery(good) == state.delivery(good)
            &&& state.accepts() ==> state.deliver(failed).deliver(good).read() == Some(next)
        }),
{
}

/// Over any history of notices, only the delivered frames count: the relay
/// ends as if those frames had been published and nothing else had arrived.
pub proof fn only_delivered_frames_count<H>(state: RelayState<H>, notices: Seq<StreamNotice<H>>)
    ensures
        state.deliver_all(notices) == state.publish_all(delivered_frames(notices)),
    decreases notices.len(),
{
    if notices.len() > 0 {
        only_delivered_frames_count(state, notices.drop_last());
        match notices.last().frame() {
            Some(frame) => {
                let frames = delivered_frames(notices.drop_last()).push(frame);
                assert(frames.drop_last() == delivered_frames(notices.drop_last()));
                assert(frames.last() == frame);
            },
            None => {},
        }
    }
}

} // verus!
