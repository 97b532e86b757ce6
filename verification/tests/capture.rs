use frame_relay::capture::{Delivery, StreamNotice, TextureError};
use frame_relay::frame::CapturedFrame;
use frame_relay::relay::FrameRelay;
use std::sync::Arc;

fn video(id: u64) -> StreamNotice<u64> {
    StreamNotice::Video { frame_id: id, texture: Ok(Arc::new(id * 10)) }
}

fn broken(id: u64, error: TextureError) -> StreamNotice<u64> {
    StreamNotice::Video { frame_id: id, texture: Err(error) }
}

#[test]
fn video_frame_with_texture_is_published() {
    let mut relay = FrameRelay::new();
    assert_eq!(relay.deliver(video(3)), Delivery::Published);
    assert_eq!(relay.try_read(), Some(CapturedFrame::new(Arc::new(30), 3)));
}

#[test]
fn delivered_frame_keeps_texture_and_identifier_together() {
    let mut relay = FrameRelay::new();
    for id in [5u64, 6, 7] {
        relay.deliver(video(id));
        let got = relay.try_read().unwrap();
        assert_eq!(got.frame_id(), id);
        assert_eq!(**got.texture(), id * 10);
    }
}

#[test]
fn failed_extraction_leaves_the_previous_frame() {
    let mut relay = FrameRelay::new();
    assert_eq!(relay.deliver(video(1)), Delivery::Published);
    assert_eq!(
        relay.deliver(broken(2, TextureError::InvalidPlane)),
        Delivery::Skipped(TextureError::InvalidPlane)
    );
    assert_eq!(relay.latest_id(), Some(1));
    assert_eq!(relay.deliver(video(3)), Delivery::Published);
    assert_eq!(relay.latest_id(), Some(3));
}

#[test]
fn failed_extraction_on_an_empty_relay_leaves_it_empty() {
    let mut relay: FrameRelay<u64> = FrameRelay::new();
    assert_eq!(
        relay.deliver(broken(1, TextureError::NoSurface)),
        Delivery::Skipped(TextureError::NoSurface)
    );
    assert_eq!(relay.try_read(), None);
    assert!(!relay.is_closed());
}

#[test]
fn every_texture_error_is_reported_back() {
    let mut relay: FrameRelay<u64> = FrameRelay::new();
    assert_eq!(
        relay.deliver(broken(1, TextureError::NoImageBuffer)),
        Delivery::Skipped(TextureError::NoImageBuffer)
    );
    let message = String::from("plane is not backed by a surface");
    assert_eq!(
        relay.deliver(broken(2, TextureError::Other(message.clone()))),
        Delivery::Skipped(TextureError::Other(message))
    );
}

#[test]
fn other_notices_are_ignored() {
    let mut relay = FrameRelay::new();
    assert_eq!(relay.deliver(StreamNotice::Other), Delivery::Ignored);
    assert_eq!(relay.try_read(), None);
    relay.deliver(video(4));
    assert_eq!(relay.deliver(StreamNotice::Other), Delivery::Ignored);
    assert_eq!(relay.latest_id(), Some(4));
}

#[test]
fn closed_relay_refuses_delivered_frames() {
    let mut relay = FrameRelay::new();
    relay.deliver(video(1));
    relay.shutdown();
    assert_eq!(relay.deliver(video(2)), Delivery::Refused);
    assert_eq!(
        relay.deliver(broken(3, TextureError::InvalidPlane)),
        Delivery::Skipped(TextureError::InvalidPlane)
    );
    assert_eq!(relay.deliver(StreamNotice::Other), Delivery::Ignored);
    assert_eq!(relay.try_read(), None);
}
