//! Client-side core for a bidirectional, message-framed live streaming
//! session fed by a continuously produced stream of captured frames.
//!
//! The crate holds the pure logic of such a client: the wire-level JSON
//! codec, the typed client and server message families, the classifier
//! that maps a decoded wire message to exactly one server event, the
//! session state machine (handshake gate, pending-event queue, orderly
//! shutdown), and the single-slot "latest frame wins" cache that decouples
//! a fast capture producer from a slower consumer.

pub mod bridge;
pub mod capture;
pub mod events;
pub mod jpeg;
pub mod json;
pub mod permissions;
pub mod protocol;
pub mod response;
pub mod session;
pub mod text;

pub use capture::{CaptureError, FrameCache, FrameData};
