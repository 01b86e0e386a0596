//! Navigation engine of a radial ("pie") selection menu.
//!
//! A ring of action bubbles is laid around the anchor of a pointer gesture.
//! Moving the pointer far enough away from the anchor points at one of the
//! ring's segments; hovering a segment that holds a nested menu drills into
//! it, and releasing over a segment that holds a command commits it.
//!
//! Geometry is left to the host: it reports the pointer relative to the
//! anchor as a distance and a fraction of a revolution (see [`Polar`]), and
//! hands over the positions of the ring's bubbles, so that points stay
//! opaque to this crate.

pub mod action;
pub mod segment;
pub mod wheel;

pub use action::{is_well_formed, ActionBubble};
pub use segment::{segment_number, TURN};
pub use wheel::{Polar, Wheel, ACTION_RADIUS, ACTIVE_RADIUS, BUBBLE_DISTANCE, GESTURE_THRESHOLD};

