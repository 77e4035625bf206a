//! What the text panes show of a telemetry record.
//!
//! The display never fails on a record with absent fields. Where a pane
//! shows a number for a reading in any case, an absent reading shows as
//! zero; where a pane marks absent readings, the reading stays optional.
//! Turning readings into text, with units and decimals, is left to the
//! consumer.

use vstd::prelude::*;
use vstd::string::*;
use crate::telemetry::{reading_or_zero, Engine, Mech, Pair, TelemetryRecord, ZERO_READING};

verus! {

/// The status line: the airframe's name and its position.
#[derive(Debug, Clone)]
pub struct HeaderReadout {
    /// The name, `?` where the record has none.
    pub name: String,
    pub lat: Option<u64>,
    pub lon: Option<u64>,
}

/// The flight pane: speeds and altitudes, zero where absent.
#[derive(Debug, Clone, Copy, PartialEq, Eq, Structural)]
pub struct FlightReadout {
    pub ias_ms: u64,
    pub tas_ms: u64,
    pub alt_msl: u64,
    pub alt_agl: u64,
    pub mach: u64,
    pub vv_ms: u64,
}

/// The attitude pane: angles in radians and accelerations, zero where
/// absent.
#[derive(Debug, Clone, Copy, PartialEq, Eq, Structural)]
pub struct AttitudeReadout {
    pub aoa_rad: u64,
    pub pitch: u64,
    pub bank: u64,
    pub yaw: u64,
    pub accel_x: u64,
    pub accel_y: u64,
    pub accel_z: u64,
}

fn or_zero(r: Option<u64>) -> (bits: u64)
    ensures
        bits == reading_or_zero(r),
{
    match r {
        Some(bits) => bits,
        None => ZERO_READING,
    }
}

fn flag(f: Option<bool>) -> (set: bool)
    ensures
        set == (f == Some(true)),
{
    match f {
        Some(b) => b,
        None => false,
    }
}

/// The name on the status line.
pub open spec fn spec_header_name(record: TelemetryRecord) -> Seq<char> {
    match record.name {
        Some(name) => name@,
        None => "?"@,
    }
}

pub fn header(record: &TelemetryRecord) -> (readout: HeaderReadout)
    ensures
        readout.name@ == spec_header_name(*record),
        readout.lat == record.lat,
        readout.lon == record.lon,
{
    let name = match &record.name {
        Some(name) => name.clone(),
        None => "?".to_owned(),
    };
    HeaderReadout { name, lat: record.lat, lon: record.lon }
}

pub open spec fn spec_flight_readout(record: TelemetryRecord) -> FlightReadout {
    FlightReadout {
        ias_ms: reading_or_zero(record.ias_ms),
        tas_ms: reading_or_zero(record.tas_ms),
        alt_msl: reading_or_zero(record.alt_msl),
        alt_agl: reading_or_zero(record.alt_agl),
        mach: reading_or_zero(record.mach),
        vv_ms: reading_or_zero(record.vv_ms),
    }
}

pub fn flight_readout(record: &TelemetryRecord) -> (readout: FlightReadout)
    ensures
        readout == spec_flight_readout(*record),
{
    FlightReadout {
        ias_ms: or_zero(record.ias_ms),
        tas_ms: or_zero(record.tas_ms),
        alt_msl: or_zero(record.alt_msl),
        alt_agl: or_zero(record.alt_agl),
        mach: or_zero(record.mach),
        vv_ms: or_zero(record.vv_ms),
    }
}

pub open spec fn spec_attitude_readout(record: TelemetryRecord) -> AttitudeReadout {
    AttitudeReadout {
        aoa_rad: reading_or_zero(record.aoa_rad),
        pitch: match record.att {
            Some(att) => reading_or_zero(att.pitch),
            None => ZERO_READING,
        },
        bank: match record.att {
            Some(att) => reading_or_zero(att.bank),
            None => ZERO_READING,
        },
        yaw: match record.att {
            Some(att) => reading_or_zero(att.yaw),
            None => ZERO_READING,
        },
        accel_x: match record.accel {
            Some(accel) => reading_or_zero(accel.x),
            None => ZERO_READING,
        },
        accel_y: match record.accel {
            Some(accel) => reading_or_zero(accel.y),
            None => ZERO_READING,
        },
        accel_z: match record.accel {
            Some(accel) => reading_or_zero(accel.z),
            None => ZERO_READING,
        },
    }
}

pub fn attitude_readout(record: &TelemetryRecord) -> (readout: AttitudeReadout)
    ensures
        readout == spec_attitude_readout(*record),
{
    let (pitch, bank, yaw) = match record.att {
        Some(att) => (or_zero(att.pitch), or_zero(att.bank), or_zero(att.yaw)),
        None => (ZERO_READING, ZERO_READING, ZERO_READING),
    };
    let (accel_x, accel_y, accel_z) = match record.accel {
        Some(accel) => (or_zero(accel.x), or_zero(accel.y), or_zero(accel.z)),
        None => (ZERO_READING, ZERO_READING, ZERO_READING),
    };
    AttitudeReadout {
        aoa_rad: or_zero(record.aoa_rad),
        pitch,
        bank,
        yaw,
        accel_x,
        accel_y,
        accel_z,
    }
}

/// What a row with a reading for each engine is about.
#[derive(Debug, Clone, Copy, PartialEq, Eq, Structural)]
pub enum PairLabel {
    Rpm,
    Throttle,
    /// Throttle, estimated.
    ThrottleEst,
    Nozzle,
    Temp,
    FuelFlow,
    ManifoldPressure,
}

/// What a row of the mechanical systems is about.
#[derive(Debug, Clone, Copy, PartialEq, Eq, Structural)]
pub enum MechLabel {
    Gear,
    Flaps,
    Airbrake,
    Hook,
    Wing,
    WeightOnWheels,
}

/// One row of the systems pane.
#[derive(Debug, Clone, Copy, PartialEq, Eq, Structural)]
pub enum SystemsRow {
    /// A reading for each side; `percent` says that the readings are
    /// fractions to show as percentages.
    Engine { label: PairLabel, left: Option<u64>, right: Option<u64>, percent: bool },
    /// An empty row.
    Blank,
    /// One reading; `guessed` marks it as inferred.
    Mech { label: MechLabel, guessed: bool, value: Option<u64> },
    /// A mechanical system of a record that has no mechanical block at
    /// all; the marks of these six rows line up in one column.
    NoMech { label: MechLabel },
}

/// The label of an engine row.
pub open spec fn spec_pair_label_text(label: PairLabel) -> Seq<char> {
    match label {
        PairLabel::Rpm => "RPM %"@,
        PairLabel::Throttle => "THR %"@,
        PairLabel::ThrottleEst => "THR % (est)"@,
        PairLabel::Nozzle => "NOZ %"@,
        PairLabel::Temp => "TEMP"@,
        PairLabel::FuelFlow => "FF"@,
        PairLabel::ManifoldPressure => "MAP"@,
    }
}

pub fn pair_label_text(label: PairLabel) -> (text: &'static str)
    ensures
        text@ == spec_pair_label_text(label),
{
    match label {
        PairLabel::Rpm => "RPM %",
        PairLabel::Throttle => "THR %",
        PairLabel::ThrottleEst => "THR % (est)",
        PairLabel::Nozzle => "NOZ %",
        PairLabel::Temp => "TEMP",
        PairLabel::FuelFlow => "FF",
        PairLabel::ManifoldPressure => "MAP",
    }
}

/// The label of a row of the mechanical systems.
pub open spec fn spec_mech_label_text(label: MechLabel) -> Seq<char> {
    match label {
        MechLabel::Gear => "Gear"@,
        MechLabel::Flaps => "Flaps"@,
        MechLabel::Airbrake => "Airbrk"@,
        MechLabel::Hook => "Hook"@,
        MechLabel::Wing => "Wing"@,
        MechLabel::WeightOnWheels => "WoW"@,
    }
}

pub fn mech_label_text(label: MechLabel) -> (text: &'static str)
    ensures
        text@ == spec_mech_label_text(label),
{
    match label {
        MechLabel::Gear => "Gear",
        MechLabel::Flaps => "Flaps",
        MechLabel::Airbrake => "Airbrk",
        MechLabel::Hook => "Hook",
        MechLabel::Wing => "Wing",
        MechLabel::WeightOnWheels => "WoW",
    }
}

/// An engine row for `pair`, as long as at least one side reports.
pub open spec fn spec_pair_row(label: PairLabel, pair: Option<Pair>, percent: bool) -> Option<
    SystemsRow,
> {
    match pair {
        Some(p) => if p.left is None && p.right is None {
            None
        } else {
            Some(SystemsRow::Engine { label, left: p.left, right: p.right, percent })
        },
        None => None,
    }
}

/// The engine row with no side reporting.
pub open spec fn silent_row(label: PairLabel, percent: bool) -> SystemsRow {
    SystemsRow::Engine { label, left: None, right: None, percent }
}

/// A row that is shown only where a side reports.
pub open spec fn optional_row(label: PairLabel, pair: Option<Pair>, percent: bool) -> Seq<
    SystemsRow,
> {
    match spec_pair_row(label, pair, percent) {
        Some(row) => seq![row],
        None => Seq::empty(),
    }
}

/// A row that is shown where `shown` holds, with or without readings.
pub open spec fn flagged_row(shown: bool, label: PairLabel, pair: Option<Pair>, percent: bool)
    -> Seq<SystemsRow> {
    if shown {
        match spec_pair_row(label, pair, percent) {
            Some(row) => seq![row],
            None => seq![silent_row(label, percent)],
        }
    } else {
        Seq::empty()
    }
}

/// The rows of the engine block: RPM where it reports; throttle always,
/// marked as estimated where the flag says so; nozzle and manifold pressure
/// where the airframe has them; temperature and fuel flow where they
/// report. Throttle and nozzle are fractions.
pub open spec fn engine_rows(e: Engine) -> Seq<SystemsRow> {
    optional_row(PairLabel::Rpm, e.rpm, false) + flagged_row(
        true,
        if e.thrtl_est == Some(true) {
            PairLabel::ThrottleEst
        } else {
            PairLabel::Throttle
        },
        e.thrtl,
        true,
    ) + flagged_row(e.noz_present == Some(true), PairLabel::Nozzle, e.noz, true) + optional_row(
        PairLabel::Temp,
        e.temp,
        false,
    ) + optional_row(PairLabel::FuelFlow, e.fuelf, false) + flagged_row(
        e.map_present == Some(true),
        PairLabel::ManifoldPressure,
        e.map,
        false,
    )
}

/// The six rows of the mechanical systems; only weight on wheels can be
/// marked as guessed. Without a block, the six rows that say so.
pub open spec fn mech_rows(mech: Option<Mech>) -> Seq<SystemsRow> {
    match mech {
        Some(m) => seq![
            SystemsRow::Mech { label: MechLabel::Gear, guessed: false, value: m.gear },
            SystemsRow::Mech { label: MechLabel::Flaps, guessed: false, value: m.flaps },
            SystemsRow::Mech { label: MechLabel::Airbrake, guessed: false, value: m.airbrake },
            SystemsRow::Mech { label: MechLabel::Hook, guessed: false, value: m.hook },
            SystemsRow::Mech { label: MechLabel::Wing, guessed: false, value: m.wing },
            SystemsRow::Mech {
                label: MechLabel::WeightOnWheels,
                guessed: m.wow_guess == Some(true),
                value: m.wow,
            },
        ],
        None => seq![
            SystemsRow::NoMech { label: MechLabel::Gear },
            SystemsRow::NoMech { label: MechLabel::Flaps },
            SystemsRow::NoMech { label: MechLabel::Airbrake },
            SystemsRow::NoMech { label: MechLabel::Hook },
            SystemsRow::NoMech { label: MechLabel::Wing },
            SystemsRow::NoMech { label: MechLabel::WeightOnWheels },
        ],
    }
}

/// The rows of the systems pane: the engine block where the record has
/// one, a blank row, the mechanical systems.
pub open spec fn spec_systems_rows(record: TelemetryRecord) -> Seq<SystemsRow> {
    (match record.engine {
        Some(e) => engine_rows(e),
        None => Seq::empty(),
    }) + seq![SystemsRow::Blank] + mech_rows(record.mech)
}

/// An engine row for `pair`, as long as at least one side reports.
pub fn pair_row(label: PairLabel, pair: &Option<Pair>, percent: bool) -> (row: Option<SystemsRow>)
    ensures
        row == spec_pair_row(label, *pair, percent),
{
    match pair {
        Some(p) => {
            if p.left.is_none() && p.right.is_none() {
                None
            } else {
                Some(SystemsRow::Engine { label, left: p.left, right: p.right, percent })
            }
        },
        None => None,
    }
}

fn push_optional(rows: &mut Vec<SystemsRow>, label: PairLabel, pair: &Option<Pair>, percent: bool)
    ensures
        final(rows)@ == old(rows)@ + optional_row(label, *pair, percent),
{
    if let Some(row) = pair_row(label, pair, percent) {
        rows.push(row);
    }
    assert(rows@ =~= old(rows)@ + optional_row(label, *pair, percent));
}

fn push_flagged(
    rows: &mut Vec<SystemsRow>,
    shown: bool,
    label: PairLabel,
    pair: &Option<Pair>,
    percent: bool,
)
    ensures
        final(rows)@ == old(rows)@ + flagged_row(shown, label, *pair, percent),
{
    if shown {
        match pair_row(label, pair, percent) {
            Some(row) => rows.push(row),
            None => rows.push(SystemsRow::Engine { label, left: None, right: None, percent }),
        }
    }
    assert(rows@ =~= old(rows)@ + flagged_row(shown, label, *pair, percent));
}

fn push_engine_rows(rows: &mut Vec<SystemsRow>, e: &Engine)
    ensures
        final(rows)@ == old(rows)@ + engine_rows(*e),
{
    push_optional(rows, PairLabel::Rpm, &e.rpm, false);
    let throttle = if flag(e.thrtl_est) {
        PairLabel::ThrottleEst
    } else {
        PairLabel::Throttle
    };
    push_flagged(rows, true, throttle, &e.thrtl, true);
    push_flagged(rows, flag(e.noz_present), PairLabel::Nozzle, &e.noz, true);
    push_optional(rows, PairLabel::Temp, &e.temp, false);
    push_optional(rows, PairLabel::FuelFlow, &e.fuelf, false);
    push_flagged(rows, flag(e.map_present), PairLabel::ManifoldPressure, &e.map, false);
    assert(rows@ =~= old(rows)@ + engine_rows(*e));
}

fn push_mech_rows(rows: &mut Vec<SystemsRow>, mech: &Option<Mech>)
    ensures
        final(rows)@ == old(rows)@ + mech_rows(*mech),
{
    match mech {
        Some(m) => {
            rows.push(SystemsRow::Mech { label: MechLabel::Gear, guessed: false, value: m.gear });
            rows.push(SystemsRow::Mech { label: MechLabel::Flaps, guessed: false, value: m.flaps });
            rows.push(
                SystemsRow::Mech { label: MechLabel::Airbrake, guessed: false, value: m.airbrake },
            );
            rows.push(SystemsRow::Mech { label: MechLabel::Hook, guessed: false, value: m.hook });
            rows.push(SystemsRow::Mech { label: MechLabel::Wing, guessed: false, value: m.wing });
            rows.push(
                SystemsRow::Mech {
                    label: MechLabel::WeightOnWheels,
                    guessed: flag(m.wow_guess),
                    value: m.wow,
                },
            );
        },
        None => {
            rows.push(SystemsRow::NoMech { label: MechLabel::Gear });
            rows.push(SystemsRow::NoMech { label: MechLabel::Flaps });
            rows.push(SystemsRow::NoMech { label: MechLabel::Airbrake });
            rows.push(SystemsRow::NoMech { label: MechLabel::Hook });
            rows.push(SystemsRow::NoMech { label: MechLabel::Wing });
            rows.push(SystemsRow::NoMech { label: MechLabel::WeightOnWheels });
        },
    }
    assert(rows@ =~= old(rows)@ + mech_rows(*mech));
}

pub fn systems_rows(record: &TelemetryRecord) -> (rows: Vec<SystemsRow>)
    ensures
        rows@ == spec_systems_rows(*record),
{
    let mut rows: Vec<SystemsRow> = Vec::new();
    if let Some(e) = &record.engine {
        push_engine_rows(&mut rows, e);
    }
    let ghost engine_part = rows@;
    rows.push(SystemsRow::Blank);
    push_mech_rows(&mut rows, &record.mech);
    assert(rows@ =~= spec_systems_rows(*record));
    rows
}

/// A record in which nothing reports still fills every pane: zeros in the
/// flight and attitude panes, `?` for the name, and in the systems pane a
/// blank row and the six rows of a record without mechanical block.
pub proof fn lemma_empty_record_has_defaults(record: TelemetryRecord)
    requires
        record.is_empty(),
    ensures
        spec_flight_readout(record) == (FlightReadout {
            ias_ms: 0,
            tas_ms: 0,
            alt_msl: 0,
            alt_agl: 0,
            mach: 0,
            vv_ms: 0,
        }),
        spec_attitude_readout(record) == (AttitudeReadout {
            aoa_rad: 0,
            pitch: 0,
            bank: 0,
            yaw: 0,
            accel_x: 0,
            accel_y: 0,
            accel_z: 0,
        }),
        spec_header_name(record) == "?"@,
        spec_systems_rows(record) == seq![SystemsRow::Blank] + mech_rows(None),
        spec_systems_rows(record).len() == 7,
{
    assert(spec_systems_rows(record) =~= seq![SystemsRow::Blank] + mech_rows(None));
}

} // verus!
