//! Verified core of a shared whiteboard: the viewport transform, the
//! per-client gesture state machine that turns pointer input into drawing
//! events, and the decisions of the relay's per-connection forwarding paths.
//!
//! All geometry is fixed point: screen positions are whole pixels, while pan
//! offsets and canvas coordinates are thousandths of a unit, and the zoom
//! factor is in thousandths (1000 is 1.0).
pub mod connection;
pub mod event;
pub mod geometry;
pub mod session;
pub mod transform;
