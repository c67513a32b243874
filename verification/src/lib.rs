//! A verified model of a window/GPU render-loop lifecycle.
//!
//! The crate captures the decision logic of an event-driven rendering
//! framework: a lifecycle driver that defers construction of the render
//! surface owner until a window exists (buffering at most one pending
//! resize in the meantime), and the owner's own size state, which
//! coalesces resize events behind a dirty flag and applies at most one
//! surface reconfiguration per frame.  The platform work itself (window
//! creation, GPU negotiation, drawing, presentation) is performed by the
//! caller, which executes the actions these functions return.

pub mod control;
pub mod driver;
pub mod size;
pub mod surface;
