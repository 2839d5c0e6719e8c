//! Core logic of a desktop video trimmer: a timeline range-selector widget
//! that converts between pixel space and normalized time, the controller that
//! reduces the widget's intent events into playback/edit state, and the
//! export policy that turns a selected range into encoder parameters.
//!
//! Positions along the timeline are normalized fractions of the total
//! duration, held as fixed-point integers in units of [`frac::FRAC_UNIT`].
//! Durations and absolute times are held in milliseconds.

pub mod color;
pub mod config;
pub mod controller;
pub mod export;
pub mod frac;
pub mod paths;
pub mod timefmt;
pub mod timeline;
