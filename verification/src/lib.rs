//! Render-relay orchestration for a video bridge.
//!
//! A session borrows a decode-engine handle, drives its render callback into
//! an offscreen GPU surface, negotiates the stream's real resolution,
//! republishes every frame through an OS texture-sharing service, emits a
//! rate-limited preview for a UI layer, and tears the native resources down
//! in a strict order.  This crate holds the decision logic of that worker —
//! the lifecycle state machine, the negotiation and failure accounting, the
//! preview throttle and encoding, and the teardown plan — verified; the
//! thin shell that owns the actual GPU context, engine and threads performs
//! the actions these functions decide on.

pub mod audio;
pub mod engine;
pub mod preview;
pub mod pump;
pub mod session;
pub mod shutdown;
pub mod sink;
pub mod surface;
