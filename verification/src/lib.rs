//! Control core of a GPS track downloader: the ordered action queue that
//! carries events into the control loop, the registry of supported devices,
//! and the state machine that decides what each action does.

use vstd::prelude::*;

pub mod actionqueue;
pub mod devices;
pub mod drivers;
pub mod mgapplication;
pub mod settings;
pub mod text;

verus! {

/// Track file format a driver is asked to produce.
#[derive(Copy, Clone, Debug, PartialEq, Eq, Structural)]
pub enum Format {
    /// No format was chosen.
    Unset,
    Gpx,
    Kml,
}

} // verus!
