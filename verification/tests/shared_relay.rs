use frame_relay::capture::{Delivery, StreamNotice, TextureError};
use frame_relay::frame::CapturedFrame;
use frame_relay::render::DrawSource;
use frame_relay::shared::SharedRelay;
use std::sync::Arc;

fn runtime() -> tokio::runtime::Runtime {
    tokio::runtime::Builder::new_multi_thread()
        .worker_threads(2)
        .max_blocking_threads(16)
        .build()
        .unwrap()
}

/// The texture that belongs to the frame with this identifier.
fn texture_of(id: u64) -> [u64; 4] {
    [id, id.wrapping_mul(31), !id, id ^ 0x5555]
}

#[test]
fn shared_relay_starts_empty() {
    let relay: SharedRelay<u64> = SharedRelay::new();
    assert_eq!(relay.try_read(), None);
    assert!(!relay.is_closed());
    assert!(matches!(relay.draw_source(), DrawSource::Placeholder));
}

#[test]
fn shared_relay_keeps_the_last_publish() {
    let relay = SharedRelay::new();
    assert!(relay.publish(CapturedFrame::new(Arc::new(1u64), 1)));
    assert!(relay.publish(CapturedFrame::new(Arc::new(2u64), 2)));
    assert_eq!(relay.try_read(), Some(CapturedFrame::new(Arc::new(2u64), 2)));
    assert_eq!(relay.try_read(), Some(CapturedFrame::new(Arc::new(2u64), 2)));
    match relay.draw_source() {
        DrawSource::Captured(frame) => assert_eq!(frame.frame_id(), 2),
        DrawSource::Placeholder => panic!("a frame was published"),
    }
}

#[test]
fn concurrent_publishes_leave_one_whole_frame() {
    let runtime = runtime();
    let relay: Arc<SharedRelay<[u64; 4]>> = Arc::new(SharedRelay::new());
    let mut workers = Vec::new();
    for worker in 0..8u64 {
        let relay = Arc::clone(&relay);
        workers.push(runtime.spawn_blocking(move || {
            for round in 0..500u64 {
                let id = worker * 1000 + round;
                assert!(relay.publish(CapturedFrame::new(Arc::new(texture_of(id)), id)));
            }
        }));
    }
    for worker in workers {
        runtime.block_on(worker).unwrap();
    }
    let frame = relay.try_read().unwrap();
    assert_eq!(**frame.texture(), texture_of(frame.frame_id()));
    assert!(frame.frame_id() / 1000 < 8);
    assert_eq!(frame.frame_id() % 1000, 499);
}

#[test]
fn reads_during_publishes_see_whole_frames() {
    let runtime = runtime();
    let relay: Arc<SharedRelay<[u64; 4]>> = Arc::new(SharedRelay::new());
    let mut workers = Vec::new();
    for worker in 0..4u64 {
        let relay = Arc::clone(&relay);
        workers.push(runtime.spawn_blocking(move || {
            for round in 0..500u64 {
                let id = worker * 1000 + round;
                relay.publish(CapturedFrame::new(Arc::new(texture_of(id)), id));
            }
        }));
    }
    let reader = {
        let relay = Arc::clone(&relay);
        runtime.spawn_blocking(move || {
            let mut seen = 0u32;
            for _ in 0..2000 {
                if let Some(frame) = relay.try_read() {
                    assert_eq!(**frame.texture(), texture_of(frame.frame_id()));
                    seen += 1;
                }
            }
            seen
        })
    };
    for worker in workers {
        runtime.block_on(worker).unwrap();
    }
    runtime.block_on(reader).unwrap();
    let last = relay.try_read().unwrap();
    assert_eq!(**last.texture(), texture_of(last.frame_id()));
}

#[test]
fn shared_relay_releases_frames() {
    let first = Arc::new(1u64);
    let second = Arc::new(2u64);
    let relay = SharedRelay::new();
    relay.publish(CapturedFrame::new(Arc::clone(&first), 1));
    relay.publish(CapturedFrame::new(Arc::clone(&second), 2));
    assert_eq!(Arc::strong_count(&first), 1);
    assert_eq!(Arc::strong_count(&second), 2);
    relay.shutdown();
    assert_eq!(Arc::strong_count(&second), 1);
}

#[test]
fn shared_relay_refuses_after_shutdown() {
    let relay = SharedRelay::new();
    relay.publish(CapturedFrame::new(Arc::new(1u64), 1));
    relay.shutdown();
    assert!(relay.is_closed());
    assert!(!relay.publish(CapturedFrame::new(Arc::new(2u64), 2)));
    assert_eq!(relay.try_read(), None);
    assert!(matches!(relay.draw_source(), DrawSource::Placeholder));
}

#[test]
fn shutdown_during_publishes_ends_empty() {
    let runtime = runtime();
    let relay: Arc<SharedRelay<u64>> = Arc::new(SharedRelay::new());
    let mut workers = Vec::new();
    for worker in 0..4u64 {
        let relay = Arc::clone(&relay);
        workers.push(runtime.spawn_blocking(move || {
            let mut refused_from = None;
            for round in 0..500u64 {
                let taken = relay.publish(CapturedFrame::new(Arc::new(round), worker));
                if !taken && refused_from.is_none() {
                    refused_from = Some(round);
                }
                assert!(refused_from.is_none() || !taken);
            }
        }));
    }
    relay.shutdown();
    for worker in workers {
        runtime.block_on(worker).unwrap();
    }
    assert!(relay.is_closed());
    assert_eq!(relay.try_read(), None);
}

#[test]
fn shared_relay_delivers_notices() {
    let relay: SharedRelay<u64> = SharedRelay::new();
    assert_eq!(
        relay.deliver(StreamNotice::Video { frame_id: 1, texture: Ok(Arc::new(10)) }),
        Delivery::Published
    );
    assert_eq!(
        relay.deliver(StreamNotice::Video {
            frame_id: 2,
            texture: Err(TextureError::InvalidPlane)
        }),
        Delivery::Skipped(TextureError::InvalidPlane)
    );
    assert_eq!(relay.try_read(), Some(CapturedFrame::new(Arc::new(10), 1)));
    assert_eq!(relay.deliver(StreamNotice::Other), Delivery::Ignored);
    assert_eq!(
        relay.deliver(StreamNotice::Video { frame_id: 3, texture: Ok(Arc::new(30)) }),
        Delivery::Published
    );
    assert_eq!(relay.try_read(), Some(CapturedFrame::new(Arc::new(30), 3)));
    relay.shutdown();
    assert_eq!(
        relay.deliver(StreamNotice::Video { frame_id: 4, texture: Ok(Arc::new(40)) }),
        Delivery::Refused
    );
}
