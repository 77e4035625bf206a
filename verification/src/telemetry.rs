//! One aircraft's instantaneous state, as one message reports it.
//!
//! Every field may be absent: an instrument that does not report is `None`,
//! never zero. A reading is kept as the bit pattern of the IEEE 754 double
//! that the message carried; the library stores and hands on readings and
//! never computes with them. The pattern `0` is the reading `+0.0`.

use vstd::prelude::*;

verus! {

/// The reading that stands in for an absent one: the bits of `+0.0`.
pub const ZERO_READING: u64 = 0;

/// Attitude angles in radians.
#[derive(Debug, Clone, Copy, PartialEq, Eq, Structural)]
pub struct Att {
    pub pitch: Option<u64>,
    pub bank: Option<u64>,
    pub yaw: Option<u64>,
}

/// Linear acceleration along the three body axes.
#[derive(Debug, Clone, Copy, PartialEq, Eq, Structural)]
pub struct Accel {
    pub x: Option<u64>,
    pub y: Option<u64>,
    pub z: Option<u64>,
}

/// One engine reading for each side.
#[derive(Debug, Clone, Copy, PartialEq, Eq, Structural)]
pub struct Pair {
    pub left: Option<u64>,
    pub right: Option<u64>,
}

/// Engine readings, with the flags that say which of them the airframe has
/// and which are estimated.
#[derive(Debug, Clone, Copy, PartialEq, Eq, Structural)]
pub struct Engine {
    pub rpm: Option<Pair>,
    pub thrtl: Option<Pair>,
    pub thrtl_est: Option<bool>,
    pub noz: Option<Pair>,
    pub noz_present: Option<bool>,
    pub temp: Option<Pair>,
    pub fuelf: Option<Pair>,
    pub map: Option<Pair>,
    pub map_present: Option<bool>,
}

/// Positions of the mechanical systems.
#[derive(Debug, Clone, Copy, PartialEq, Eq, Structural)]
pub struct Mech {
    pub gear: Option<u64>,
    pub flaps: Option<u64>,
    pub airbrake: Option<u64>,
    pub hook: Option<u64>,
    pub wing: Option<u64>,
    pub wow: Option<u64>,
    pub wow_guess: Option<bool>,
}

/// What one telemetry message says.
#[derive(Debug, Clone)]
pub struct TelemetryRecord {
    pub name: Option<String>,
    pub lat: Option<u64>,
    pub lon: Option<u64>,
    pub alt_msl: Option<u64>,
    pub alt_agl: Option<u64>,
    pub ias_ms: Option<u64>,
    pub tas_ms: Option<u64>,
    pub mach: Option<u64>,
    pub aoa_rad: Option<u64>,
    pub vv_ms: Option<u64>,
    pub att: Option<Att>,
    pub accel: Option<Accel>,
    pub engine: Option<Engine>,
    pub mech: Option<Mech>,
}

/// A reading, or the zero reading where it is absent.
pub open spec fn reading_or_zero(r: Option<u64>) -> u64 {
    match r {
        Some(bits) => bits,
        None => ZERO_READING,
    }
}

impl TelemetryRecord {
    /// Nothing reports.
    pub open spec fn is_empty(&self) -> bool {
        &&& self.name is None
        &&& self.lat is None
        &&& self.lon is None
        &&& self.alt_msl is None
        &&& self.alt_agl is None
        &&& self.ias_ms is None
        &&& self.tas_ms is None
        &&& self.mach is None
        &&& self.aoa_rad is None
        &&& self.vv_ms is None
        &&& self.att is None
        &&& self.accel is None
        &&& self.engine is None
        &&& self.mech is None
    }

    /// The record before any message has come: every field absent.
    pub fn empty() -> (record: TelemetryRecord)
        ensures
            record.is_empty(),
    {
        TelemetryRecord {
            name: None,
            lat: None,
            lon: None,
            alt_msl: None,
            alt_agl: None,
            ias_ms: None,
            tas_ms: None,
            mach: None,
            aoa_rad: None,
            vv_ms: None,
            att: None,
            accel: None,
            engine: None,
            mech: None,
        }
    }

    /// The sample that this record adds to the airspeed history: its
    /// indicated airspeed in metres per second, zero where absent.
    pub fn airspeed_sample(&self) -> (bits: u64)
        ensures
            bits == reading_or_zero(self.ias_ms),
    {
        match self.ias_ms {
            Some(bits) => bits,
            None => ZERO_READING,
        }
    }

    /// The sample that this record adds to the altitude history: its
    /// altitude above mean sea level in metres, zero where absent.
    pub fn altitude_sample(&self) -> (bits: u64)
        ensures
            bits == reading_or_zero(self.alt_msl),
    {
        match self.alt_msl {
            Some(bits) => bits,
            None => ZERO_READING,
        }
    }
}

} // verus!
