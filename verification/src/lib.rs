//! Verified core of a small road-scene demo: an orbit camera driven by
//! pointer and wheel input, plus the fixed road-segment data the demo shows.
//!
//! All state and arithmetic live in fixed-point micro-units (one world-space
//! unit is `SCALE` micro-units; angles are in micro-radians), so every
//! operation is exact and its behaviour is stated and proved here. The host
//! rendering engine converts to its own floating-point vectors at the edge.

pub mod camera;
pub mod fixed;
pub mod road;
pub mod trig;
