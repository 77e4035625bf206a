use dcs_dash::discovery::{contains, contains_lowered, is_event_node, is_pad_link, is_pad_name, starts_with};
use dcs_dash::history::HistoryBuffer;
use dcs_dash::navigation::NavigationState;
use dcs_dash::pane::Pane;
use dcs_dash::readout::{
    attitude_readout, flight_readout, header, mech_label_text, pair_label_text, pair_row,
    systems_rows, MechLabel, PairLabel, SystemsRow,
};
use dcs_dash::render::{
    chart_samples, is_quit_key, layout, pane_title, recent_inputs, redraw_due, Modifiers, Slot,
    TermKey,
};
use dcs_dash::telemetry::{Accel, Att, Engine, Mech, Pair, TelemetryRecord};

fn bits(x: f64) -> Option<u64> {
    Some(x.to_bits())
}

fn engine() -> Engine {
    Engine {
        rpm: None,
        thrtl: None,
        thrtl_est: None,
        noz: None,
        noz_present: None,
        temp: None,
        fuelf: None,
        map: None,
        map_present: None,
    }
}

#[test]
fn quit_keys() {
    assert!(is_quit_key(TermKey::Char('c'), Modifiers::Control));
    assert!(is_quit_key(TermKey::Char('q'), Modifiers::Plain));
    assert!(is_quit_key(TermKey::Esc, Modifiers::Plain));
    assert!(is_quit_key(TermKey::Esc, Modifiers::Other));
    assert!(!is_quit_key(TermKey::Char('c'), Modifiers::Plain));
    assert!(!is_quit_key(TermKey::Char('c'), Modifiers::Other));
    assert!(!is_quit_key(TermKey::Char('q'), Modifiers::Control));
    assert!(!is_quit_key(TermKey::Char('x'), Modifiers::Plain));
    assert!(!is_quit_key(TermKey::Other, Modifiers::Control));
}

#[test]
fn redraw_every_hundred_milliseconds() {
    assert!(!redraw_due(0));
    assert!(!redraw_due(99));
    assert!(redraw_due(100));
    assert!(redraw_due(5000));
}

#[test]
fn normal_layout_shows_five_panes() {
    let nav = NavigationState { focused: Pane::Att, fullscreen: None };
    let views = layout(&nav);
    let panes: Vec<Pane> = views.iter().map(|v| v.pane).collect();
    assert_eq!(panes, vec![Pane::Flight, Pane::Att, Pane::Systems, Pane::IasChart, Pane::AltChart]);
    let slots: Vec<Slot> = views.iter().map(|v| v.slot).collect();
    assert_eq!(
        slots,
        vec![Slot::TopLeft, Slot::TopMiddle, Slot::TopRight, Slot::UpperChart, Slot::LowerChart]
    );
    let lit: Vec<bool> = views.iter().map(|v| v.highlighted).collect();
    assert_eq!(lit, vec![false, true, false, false, false]);
}

#[test]
fn fullscreen_layout_shows_one_pane() {
    let nav = NavigationState { focused: Pane::Att, fullscreen: Some(Pane::IasChart) };
    let views = layout(&nav);
    assert_eq!(views.len(), 1);
    assert_eq!(views[0].pane, Pane::IasChart);
    assert_eq!(views[0].slot, Slot::Full);
    assert!(!views[0].highlighted);
    let own = NavigationState { focused: Pane::Att, fullscreen: Some(Pane::Att) };
    assert!(!layout(&own)[0].highlighted);
}

#[test]
fn pane_titles() {
    assert_eq!(pane_title(Pane::Flight), "Flight");
    assert_eq!(pane_title(Pane::Att), "Att/Accel");
    assert_eq!(pane_title(Pane::Systems), "Systems");
    assert_eq!(pane_title(Pane::Inputs), "Inputs");
    assert_eq!(pane_title(Pane::IasChart), "IAS (kt)");
    assert_eq!(pane_title(Pane::AltChart), "Altitude MSL (m)");
}

#[test]
fn chart_shows_one_sample_for_each_inner_column() {
    let mut hist: HistoryBuffer<u64> = HistoryBuffer::new(300);
    for i in 0..10u64 {
        hist.push(i);
    }
    assert_eq!(chart_samples(&hist, 6), vec![6, 7, 8, 9]);
    assert_eq!(chart_samples(&hist, 40), (0..10).collect::<Vec<u64>>());
    assert_eq!(chart_samples(&hist, 2), Vec::<u64>::new());
    assert_eq!(chart_samples(&hist, 0), Vec::<u64>::new());
    assert_eq!(chart_samples(&hist, 3), vec![9]);
}

#[test]
fn inputs_pane_shows_the_newest_sixteen_lines() {
    let mut log: HistoryBuffer<String> = HistoryBuffer::new(200);
    assert_eq!(recent_inputs(&log), "");
    log.push("a".to_string());
    assert_eq!(recent_inputs(&log), "a");
    log.push("b".to_string());
    assert_eq!(recent_inputs(&log), "a\nb");
    for i in 0..20 {
        log.push(format!("{}", i));
    }
    let expected: Vec<String> = (4..20).map(|i| format!("{}", i)).collect();
    assert_eq!(recent_inputs(&log), expected.join("\n"));
}

#[test]
fn empty_record_shows_defaults() {
    let record = TelemetryRecord::empty();
    let h = header(&record);
    assert_eq!(h.name, "?");
    assert_eq!(h.lat, None);
    assert_eq!(h.lon, None);
    let f = flight_readout(&record);
    assert_eq!((f.ias_ms, f.tas_ms, f.alt_msl, f.alt_agl, f.mach, f.vv_ms), (0, 0, 0, 0, 0, 0));
    assert_eq!(f64::from_bits(f.ias_ms), 0.0);
    let a = attitude_readout(&record);
    assert_eq!((a.aoa_rad, a.pitch, a.bank, a.yaw), (0, 0, 0, 0));
    assert_eq!((a.accel_x, a.accel_y, a.accel_z), (0, 0, 0));
    let rows = systems_rows(&record);
    assert_eq!(rows.len(), 7);
    assert_eq!(rows[0], SystemsRow::Blank);
    assert_eq!(rows[1], SystemsRow::NoMech { label: MechLabel::Gear });
    assert_eq!(rows[6], SystemsRow::NoMech { label: MechLabel::WeightOnWheels });
}

#[test]
fn readouts_carry_the_readings() {
    let mut record = TelemetryRecord::empty();
    record.name = Some("A-10C".to_string());
    record.lat = bits(41.5);
    record.ias_ms = bits(100.0);
    record.vv_ms = bits(-2.5);
    record.aoa_rad = bits(0.1);
    record.att = Some(Att { pitch: bits(0.2), bank: None, yaw: bits(3.0) });
    record.accel = Some(Accel { x: None, y: bits(1.0), z: None });
    let h = header(&record);
    assert_eq!(h.name, "A-10C");
    assert_eq!(h.lat, bits(41.5));
    let f = flight_readout(&record);
    assert_eq!(f64::from_bits(f.ias_ms), 100.0);
    assert_eq!(f64::from_bits(f.vv_ms), -2.5);
    assert_eq!(f.tas_ms, 0);
    let a = attitude_readout(&record);
    assert_eq!(f64::from_bits(a.aoa_rad), 0.1);
    assert_eq!(f64::from_bits(a.pitch), 0.2);
    assert_eq!(a.bank, 0);
    assert_eq!(f64::from_bits(a.yaw), 3.0);
    assert_eq!(a.accel_x, 0);
    assert_eq!(f64::from_bits(a.accel_y), 1.0);
}

#[test]
fn engine_rows_follow_the_flags() {
    let mut record = TelemetryRecord::empty();
    record.engine = Some(engine());
    let rows = systems_rows(&record);
    assert_eq!(rows.len(), 8);
    assert_eq!(
        rows[0],
        SystemsRow::Engine { label: PairLabel::Throttle, left: None, right: None, percent: true }
    );
    assert_eq!(rows[1], SystemsRow::Blank);

    let mut e = engine();
    e.rpm = Some(Pair { left: bits(90.0), right: None });
    e.thrtl = Some(Pair { left: bits(0.5), right: bits(0.6) });
    e.thrtl_est = Some(true);
    e.noz = Some(Pair { left: None, right: None });
    e.noz_present = Some(true);
    e.temp = Some(Pair { left: None, right: None });
    e.fuelf = Some(Pair { left: None, right: bits(1.0) });
    e.map = Some(Pair { left: bits(30.0), right: bits(31.0) });
    e.map_present = Some(false);
    record.engine = Some(e);
    record.mech = Some(Mech {
        gear: bits(1.0),
        flaps: None,
        airbrake: None,
        hook: None,
        wing: None,
        wow: bits(1.0),
        wow_guess: Some(true),
    });
    let rows = systems_rows(&record);
    assert_eq!(
        rows,
        vec![
            SystemsRow::Engine { label: PairLabel::Rpm, left: bits(90.0), right: None, percent: false },
            SystemsRow::Engine {
                label: PairLabel::ThrottleEst,
                left: bits(0.5),
                right: bits(0.6),
                percent: true
            },
            SystemsRow::Engine { label: PairLabel::Nozzle, left: None, right: None, percent: true },
            SystemsRow::Engine { label: PairLabel::FuelFlow, left: None, right: bits(1.0), percent: false },
            SystemsRow::Blank,
            SystemsRow::Mech { label: MechLabel::Gear, guessed: false, value: bits(1.0) },
            SystemsRow::Mech { label: MechLabel::Flaps, guessed: false, value: None },
            SystemsRow::Mech { label: MechLabel::Airbrake, guessed: false, value: None },
            SystemsRow::Mech { label: MechLabel::Hook, guessed: false, value: None },
            SystemsRow::Mech { label: MechLabel::Wing, guessed: false, value: None },
            SystemsRow::Mech { label: MechLabel::WeightOnWheels, guessed: true, value: bits(1.0) },
        ]
    );
}

#[test]
fn pair_row_needs_one_side_to_report() {
    assert_eq!(pair_row(PairLabel::Temp, &None, false), None);
    assert_eq!(pair_row(PairLabel::Temp, &Some(Pair { left: None, right: None }), false), None);
    assert_eq!(
        pair_row(PairLabel::Temp, &Some(Pair { left: None, right: bits(2.0) }), false),
        Some(SystemsRow::Engine { label: PairLabel::Temp, left: None, right: bits(2.0), percent: false })
    );
}

#[test]
fn row_labels() {
    assert_eq!(pair_label_text(PairLabel::Rpm), "RPM %");
    assert_eq!(pair_label_text(PairLabel::Throttle), "THR %");
    assert_eq!(pair_label_text(PairLabel::ThrottleEst), "THR % (est)");
    assert_eq!(pair_label_text(PairLabel::Nozzle), "NOZ %");
    assert_eq!(pair_label_text(PairLabel::Temp), "TEMP");
    assert_eq!(pair_label_text(PairLabel::FuelFlow), "FF");
    assert_eq!(pair_label_text(PairLabel::ManifoldPressure), "MAP");
    assert_eq!(mech_label_text(MechLabel::Gear), "Gear");
    assert_eq!(mech_label_text(MechLabel::Flaps), "Flaps");
    assert_eq!(mech_label_text(MechLabel::Airbrake), "Airbrk");
    assert_eq!(mech_label_text(MechLabel::Hook), "Hook");
    assert_eq!(mech_label_text(MechLabel::Wing), "Wing");
    assert_eq!(mech_label_text(MechLabel::WeightOnWheels), "WoW");
}

#[test]
fn pad_names_are_recognised() {
    assert!(is_pad_link("usb-Wacom_Co._Ltd._Intuos_Pro_M-event-PAD"));
    assert!(is_pad_link("usb-Wacom_Intuos-pad-event-if00"));
    assert!(!is_pad_link("usb-Wacom_Co._Ltd._Intuos_Pro_M-event-mouse"));
    assert!(!is_pad_link("usb-wacom-event-pad"));
    assert!(!is_pad_link("usb-Wacom-pad"));
    assert!(is_event_node("event0"));
    assert!(is_event_node("event"));
    assert!(!is_event_node("mouse0"));
    assert!(!is_event_node("even"));
    assert!(!is_event_node("xevent1"));
    assert!(is_pad_name("Wacom Intuos Pro M Pad"));
    assert!(!is_pad_name("Wacom Intuos Pro M Pen"));
    assert!(!is_pad_name("Wacom Intuos pad"));
    assert!(!is_pad_name(""));
}

#[test]
fn substring_search_agrees_with_std() {
    let hays = ["", "a", "pad", "xPaDy", "papad", "Wacom", "WacoWacom", "event7", "éventé"];
    let needles = ["", "a", "pad", "Wacom", "event", "é"];
    for hay in hays {
        for needle in needles {
            assert_eq!(contains(hay.as_bytes(), needle.as_bytes()), hay.contains(needle));
            assert_eq!(
                contains_lowered(hay.as_bytes(), needle.as_bytes()),
                hay.to_ascii_lowercase().contains(needle)
            );
            assert_eq!(starts_with(hay.as_bytes(), needle.as_bytes()), hay.starts_with(needle));
        }
    }
}
