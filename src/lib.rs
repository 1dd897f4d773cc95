//! Timeline and scrubbing engine of a browser video player: pointer geometry,
//! seeking, a zoom window over the timeline, cursor dragging, the auto-hiding
//! control bar and the clip catalog, as pure state transitions.
//!
//! Positions along a timeline are fixed-point fractions: `FRACTION_SCALE`
//! stands for the whole duration. Times are whole milliseconds.

pub mod geometry;
pub mod scrub;
pub mod zoom;
pub mod controls;
pub mod catalog;
pub mod player;
