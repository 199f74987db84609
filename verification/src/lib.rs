//! A verified core for a bottom-docked desktop status bar: monitor-aware bar
//! placement, time-decayed click-marker overlay state, the per-frame event and
//! render step, and the decorative easing animator. The windowing protocol and
//! the 2D drawing backend are outside collaborators; this crate computes, in
//! plain integer values, everything they are told to do.

pub mod animator;
pub mod bar;
pub mod clock;
pub mod events;
pub mod frame;
pub mod overlay;
pub mod render;
pub mod window;
