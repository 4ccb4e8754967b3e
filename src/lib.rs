//! Frame lifecycle and presentation-resource logic of a real-time renderer.
//!
//! The library decides; the embedding program performs. Geometry is validated
//! here before it is uploaded, the scene registry is a name-keyed map, and the
//! per-frame sequence of device work (recreate, acquire, record, submit,
//! present) is a state machine whose every transition is specified.

pub mod camera;
pub mod frame;
pub mod geometry;
pub mod present;
pub mod scene;
