//! The captured frame: what the producer publishes and the consumer draws.

use std::sync::Arc;
use vstd::prelude::*;

verus! {

/// One video frame delivered by the capture stream.
///
/// The texture is held through an `Arc`, so handing a frame to the renderer
/// bumps a reference count and never copies pixels. The GPU resource lives as
/// long as any handle to it does: the relay releases its handle when the
/// frame is replaced or the relay is shut down.
#[derive(Debug, PartialEq, Eq)]
pub struct CapturedFrame<H> {
    /// Shared handle to the GPU texture that holds the frame's pixels.
    pub texture: Arc<H>,
    /// Identifier assigned by the capture stream. It grows from frame to
    /// frame, possibly with gaps.
    pub frame_id: u64,
}

/// `Arc::clone` of std, which vstd leaves without a contract.
///
/// Trusted: the new `Arc` points to the same allocation as `handle`, so the
/// value behind it is the value behind `handle`.
#[verifier::external_body]
fn share_handle<H>(handle: &Arc<H>) -> (copy: Arc<H>)
    ensures
        copy == *handle,
{
    Arc::clone(handle)
}

impl<H> CapturedFrame<H> {
    /// Pairs a texture handle with the identifier of the frame it shows.
    pub fn new(texture: Arc<H>, frame_id: u64) -> (frame: Self)
        ensures
            frame.texture == texture,
            frame.frame_id == frame_id,
    {
        CapturedFrame { texture, frame_id }
    }

    /// The identifier the capture stream gave this frame.
    pub fn frame_id(&self) -> (id: u64)
        ensures
            id == self.frame_id,
    {
        self.frame_id
    }

    /// The shared handle to the frame's texture.
    pub fn texture(&self) -> (handle: &Arc<H>)
        ensures
            *handle == self.texture,
    {
        &self.texture
    }
}

impl<H> Clone for CapturedFrame<H> {
    /// A second handle to the same frame: same texture, same identifier.
    fn clone(&self) -> (copy: Self)
        ensures
            copy == *self,
    {
        CapturedFrame { texture: share_handle(&self.texture), frame_id: self.frame_id }
    }
}

} // verus!
