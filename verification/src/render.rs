//! The consumer side: what the render loop draws.

use crate::frame::CapturedFrame;
use crate::relay::FrameRelay;
use crate::relay::RelayState;
use vstd::prelude::*;

verus! {

/// The texture that a rendered frame shows.
pub enum DrawSource<H> {
    /// The latest captured frame.
    Captured(CapturedFrame<H>),
    /// The bundled placeholder image, drawn while no frame has arrived.
    Placeholder,
}

/// The source to draw, given what a read of the relay returned: the frame if
/// there is one, the placeholder if there is none.
pub open spec fn source_for<H>(latest: Option<CapturedFrame<H>>) -> DrawSource<H> {
    match latest {
        Some(frame) => DrawSource::Captured(frame),
        None => DrawSource::Placeholder,
    }
}

/// Picks what to draw from the result of a read. An empty relay is no error:
/// the render loop draws the placeholder and goes on.
pub fn select_source<H>(latest: Option<CapturedFrame<H>>) -> (source: DrawSource<H>)
    ensures
        source == source_for(latest),
{
    match latest {
        Some(frame) => DrawSource::Captured(frame),
        None => DrawSource::Placeholder,
    }
}

impl<H> FrameRelay<H> {
    /// Reads the relay and picks what to draw. The relay is not changed.
    pub fn draw_source(&self) -> (source: DrawSource<H>)
        ensures
            source == source_for(self@.read()),
    {
        select_source(self.try_read())
    }
}

/// Before the first publish a relay reads as empty, and the renderer draws
/// the placeholder.
pub proof fn fresh_relay_draws_placeholder<H>()
    ensures
        RelayState::<H>::Empty.read() is None,
        source_for(RelayState::<H>::Empty.read()) == DrawSource::<H>::Placeholder,
{
}

} // verus!
