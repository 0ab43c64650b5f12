//! Core of a screen-translation overlay: a time-gated capture scheduler, the
//! state of a lazily-initialized detection-backend session, and an integer
//! bounding-box text-fitting renderer. Screen capture, the detection backend
//! and window painting are external collaborators; this crate holds and
//! verifies the decisions and the geometry between them.

pub mod capture;
pub mod config;
pub mod detection;
pub mod overlay;
pub mod geometry;
pub mod render;
pub mod scheduler;
