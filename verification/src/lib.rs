//! A single-slot relay that hands the most recent captured video frame from a
//! capture callback, running on whatever thread the capture service picks, to
//! a render loop that draws "the latest frame available".
//!
//! * [`frame`] is the value that travels: a shared texture handle and the
//!   identifier the capture stream gave the frame.
//! * [`relay`] is the slot itself, with exact contracts over its state.
//! * [`trace`] holds the laws of every history of publishes, reads and
//!   shutdowns: last write wins, reads change nothing, shutdown is final.
//! * [`shared`] puts the relay behind a lock for use across threads.
//! * [`capture`] is the producer side: which notices of the capture stream
//!   reach the relay, and what a frame without a texture does to it (nothing).
//! * [`render`] is the consumer side: the latest frame, or the placeholder.
//! * [`placeholder`] decodes and checks the placeholder image.
//! * [`setup`] is the state machine that sequences the one-time setup of the
//!   capture session and its shutdown.
//! * [`overlap`] computes the depth offsets of the demo scene's pile of lines.

pub mod capture;
pub mod frame;
pub mod overlap;
pub mod placeholder;
pub mod relay;
pub mod render;
pub mod setup;
pub mod shared;
pub mod trace;
