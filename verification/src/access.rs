//! Access-mode bit masks and speed-source bit masks.
//!
//! A directed edge stores a 12-bit access mask per direction and a node
//! stores a 16-bit access mask; one bit per travel mode. Speed sources are a
//! 4-bit mask naming which inputs the speed resolver may draw on.
use vstd::prelude::*;

verus! {

/// Passenger car access bit.
pub const AUTO: u16 = 1;

/// Pedestrian access bit.
pub const PEDESTRIAN: u16 = 2;

/// Bicycle access bit.
pub const BICYCLE: u16 = 4;

/// Truck access bit.
pub const TRUCK: u16 = 8;

/// Emergency vehicle access bit.
pub const EMERGENCY: u16 = 16;

/// Taxi access bit.
pub const TAXI: u16 = 32;

/// Bus access bit.
pub const BUS: u16 = 64;

/// High-occupancy vehicle access bit.
pub const HOV: u16 = 128;

/// Wheelchair access bit.
pub const WHEELCHAIR: u16 = 256;

/// Moped access bit.
pub const MOPED: u16 = 512;

/// Motorcycle access bit.
pub const MOTORCYCLE: u16 = 1024;

/// All access bits a directed edge can carry.
pub const ALL_ACCESS: u16 = 4095;

/// The motorized modes.
pub const VEHICULAR: u16 = 1 | 8 | 512 | 1024 | 32 | 64 | 128;

/// Access modes as a bit mask over the constants of this module.
#[derive(Clone, Copy, PartialEq, Eq, Structural, Debug)]
pub struct Access(pub u16);

impl Access {
    /// Whether every bit of `mask` is present.
    pub fn contains(&self, mask: u16) -> (r: bool)
        ensures
            r == (self.0 & mask == mask),
    {
        self.0 & mask == mask
    }
}

/// Use only the default edge speed.
pub const NO_FLOW: u8 = 0;

/// Typical speed during the night, from 7pm to 7am.
pub const FREE_FLOW: u8 = 1;

/// Typical speed during the day, from 7am to 7pm.
pub const CONSTRAINED_FLOW: u8 = 2;

/// Historical traffic speed, stored in five-minute buckets over the week.
pub const PREDICTED_FLOW: u8 = 4;

/// Live traffic speed.
pub const CURRENT_FLOW: u8 = 8;

/// Every speed source.
pub const ALL_FLOWS: u8 = 1 | 2 | 4 | 8;

/// A set of speed sources as a bit mask over the flow constants of this
/// module.
#[derive(Clone, Copy, PartialEq, Eq, Structural, Debug)]
pub struct SpeedSources(pub u8);

impl SpeedSources {
    /// Whether every bit of `mask` is present.
    pub fn contains(&self, mask: u8) -> (r: bool)
        ensures
            r == (self.0 & mask == mask),
    {
        self.0 & mask == mask
    }
}

} // verus!
