//! Core of a panel applet that polls a weather station and shows the wind.
//!
//! The library holds the observation record, the text shown for it, and the
//! state machine that turns user and timer events into state changes and
//! outbound work (fetches, settings writes, popup requests).

pub mod applet;
pub mod observation;
