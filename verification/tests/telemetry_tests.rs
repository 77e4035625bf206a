use dcs_dash::frame::{is_whitespace, split_records, text_records, trimmed};
use dcs_dash::hub::StateHub;
use dcs_dash::ingest::{ingest_decoded, ingest_record};
use dcs_dash::navigation::PadAction;
use dcs_dash::pane::Pane;
use dcs_dash::snapshot::Snapshot;
use dcs_dash::telemetry::TelemetryRecord;
use dcs_dash::update::Update;

/// An absent or null field is no reading; a number is one; anything else
/// spoils the line.
fn reading(value: &serde_json::Value, key: &str) -> Result<Option<u64>, ()> {
    match value.get(key) {
        None => Ok(None),
        Some(v) if v.is_null() => Ok(None),
        Some(v) => match v.as_f64() {
            Some(x) => Ok(Some(x.to_bits())),
            None => Err(()),
        },
    }
}

fn text(value: &serde_json::Value, key: &str) -> Result<Option<String>, ()> {
    match value.get(key) {
        None => Ok(None),
        Some(v) if v.is_null() => Ok(None),
        Some(v) => match v.as_str() {
            Some(s) => Ok(Some(s.to_string())),
            None => Err(()),
        },
    }
}

fn decode_value(value: &serde_json::Value) -> Result<TelemetryRecord, ()> {
    if !value.is_object() {
        return Err(());
    }
    for block in ["att", "accel", "engine", "mech"] {
        if let Some(v) = value.get(block) {
            if !v.is_null() {
                return Err(());
            }
        }
    }
    let mut record = TelemetryRecord::empty();
    record.name = text(value, "name")?;
    record.lat = reading(value, "lat")?;
    record.lon = reading(value, "lon")?;
    record.alt_msl = reading(value, "alt_msl")?;
    record.alt_agl = reading(value, "alt_agl")?;
    record.ias_ms = reading(value, "ias_ms")?;
    record.tas_ms = reading(value, "tas_ms")?;
    record.mach = reading(value, "mach")?;
    record.aoa_rad = reading(value, "aoa_rad")?;
    record.vv_ms = reading(value, "vv_ms")?;
    Ok(record)
}

/// Decodes a line that holds only top-level readings and a name; every
/// other line counts as not decoded.
fn decode(line: &str) -> Option<TelemetryRecord> {
    let value: serde_json::Value = serde_json::from_str(line).ok()?;
    decode_value(&value).ok()
}

fn samples(hub: &StateHub) -> (Vec<f64>, Vec<f64>) {
    let snapshot = hub.current();
    let ias = snapshot.ias_hist.last_n(300).into_iter().map(|b| f64::from_bits(*b)).collect();
    let alt = snapshot.alt_hist.last_n(300).into_iter().map(|b| f64::from_bits(*b)).collect();
    (ias, alt)
}

#[test]
fn decoded_line_adds_one_raw_sample() {
    let lines = split_records(b"{\"ias_ms\": 100.0, \"alt_msl\": 2000.0}");
    assert_eq!(lines.len(), 1);
    let record = decode(&lines[0]).unwrap();
    assert_eq!(record.ias_ms, Some(100.0f64.to_bits()));
    assert_eq!(record.alt_msl, Some(2000.0f64.to_bits()));
    assert!(record.name.is_none());
    assert!(record.lat.is_none() && record.lon.is_none() && record.alt_agl.is_none());
    assert!(record.tas_ms.is_none() && record.mach.is_none() && record.aoa_rad.is_none());
    assert!(record.vv_ms.is_none() && record.att.is_none() && record.accel.is_none());
    assert!(record.engine.is_none() && record.mech.is_none());

    let mut hub = StateHub::new();
    assert!(ingest_record(&mut hub, Some(record)));
    let (ias, alt) = samples(&hub);
    assert_eq!(ias, vec![100.0]);
    assert_eq!(alt, vec![2000.0]);
    let shown = ias[0] * 1.943_844;
    assert!((shown - 194.3844).abs() < 1e-9);
    assert_eq!(hub.current().last.ias_ms, Some(100.0f64.to_bits()));
}

#[test]
fn empty_and_malformed_lines_add_no_samples() {
    let datagram =
        b"{\"ias_ms\": 10.0}\n\n{not a record\n   \n{\"ias_ms\": 20.0, \"alt_msl\": 5.0}\n";
    let lines = split_records(datagram);
    assert_eq!(lines.len(), 3);
    let outcomes: Vec<Option<TelemetryRecord>> = lines.iter().map(|l| decode(l)).collect();
    assert!(outcomes[0].is_some());
    assert!(outcomes[1].is_none());
    assert!(outcomes[2].is_some());
    let mut hub = StateHub::new();
    let published = ingest_decoded(&mut hub, outcomes);
    assert_eq!(published, 2);
    assert_eq!(hub.version(), 2);
    let (ias, alt) = samples(&hub);
    assert_eq!(ias, vec![10.0, 20.0]);
    assert_eq!(alt, vec![0.0, 5.0]);
    assert_eq!(hub.current().last.ias_ms, Some(20.0f64.to_bits()));
}

#[test]
fn line_with_a_field_of_the_wrong_type_is_dropped() {
    let datagram = b"{\"ias_ms\": \"fast\"}\n{\"ias_ms\": null, \"alt_msl\": 7.0}\n[1, 2]\n";
    let lines = split_records(datagram);
    assert_eq!(lines.len(), 3);
    let outcomes: Vec<Option<TelemetryRecord>> = lines.iter().map(|l| decode(l)).collect();
    assert!(outcomes[0].is_none());
    assert!(outcomes[1].is_some());
    assert!(outcomes[2].is_none());
    let mut hub = StateHub::new();
    assert_eq!(ingest_decoded(&mut hub, outcomes), 1);
    let (ias, alt) = samples(&hub);
    assert_eq!(ias, vec![0.0]);
    assert_eq!(alt, vec![7.0]);
}

#[test]
fn absent_readings_are_stored_as_zero() {
    let mut hub = StateHub::new();
    ingest_record(&mut hub, Some(TelemetryRecord::empty()));
    let (ias, alt) = samples(&hub);
    assert_eq!(ias, vec![0.0]);
    assert_eq!(alt, vec![0.0]);
    assert!(hub.current().last.ias_ms.is_none());
}

#[test]
fn dropped_line_leaves_the_hub_alone() {
    let mut hub = StateHub::new();
    assert!(!ingest_record(&mut hub, None));
    assert_eq!(hub.version(), 0);
    assert_eq!(hub.current().ias_hist.len(), 0);
    assert_eq!(ingest_decoded(&mut hub, vec![None, None]), 0);
    assert_eq!(hub.version(), 0);
}

#[test]
fn record_replaces_the_previous_one_whole() {
    let mut hub = StateHub::new();
    let mut first = TelemetryRecord::empty();
    first.name = Some("F-16".to_string());
    first.mach = Some(0.8f64.to_bits());
    ingest_record(&mut hub, Some(first));
    let mut second = TelemetryRecord::empty();
    second.ias_ms = Some(1.0f64.to_bits());
    ingest_record(&mut hub, Some(second));
    assert!(hub.current().last.name.is_none());
    assert!(hub.current().last.mach.is_none());
    assert_eq!(hub.current().last.ias_ms, Some(1.0f64.to_bits()));
}

#[test]
fn histories_keep_three_hundred_samples() {
    let mut hub = StateHub::new();
    let outcomes: Vec<Option<TelemetryRecord>> = (0..310)
        .map(|i| {
            let mut r = TelemetryRecord::empty();
            r.ias_ms = Some((i as f64).to_bits());
            Some(r)
        })
        .collect();
    assert_eq!(ingest_decoded(&mut hub, outcomes), 310);
    let (ias, alt) = samples(&hub);
    assert_eq!(ias.len(), 300);
    assert_eq!(alt.len(), 300);
    assert_eq!(ias[0], 10.0);
    assert_eq!(ias[299], 309.0);
}

#[test]
fn interleaved_producers_lose_no_update() {
    let mut hub = StateHub::new();
    let mut expected_ias = Vec::new();
    for round in 0..50u32 {
        let mut r = TelemetryRecord::empty();
        r.ias_ms = Some((round as f64).to_bits());
        expected_ias.push(round as f64);
        hub.publish_telemetry(r);
        hub.publish_input(PadAction::Right, format!("press {}", round));
        if round % 7 == 0 {
            hub.publish_input(PadAction::Select, format!("select {}", round));
        }
    }
    let (ias, _) = samples(&hub);
    assert_eq!(ias, expected_ias);
    assert_eq!(hub.current().last.ias_ms, Some(49.0f64.to_bits()));
    assert_eq!(hub.current().input_log.len(), 58);
    assert_eq!(hub.current().input_log.latest().unwrap(), "select 49");
    assert_eq!(hub.current().nav.focused, Pane::Systems);
    assert_eq!(hub.version(), 108);
}

#[test]
fn producers_commute() {
    let mut record = TelemetryRecord::empty();
    record.alt_msl = Some(12.5f64.to_bits());
    let a = Snapshot::new()
        .apply(Update::Telemetry(record.clone()))
        .apply(Update::Input(PadAction::Down, "x".to_string()));
    let b = Snapshot::new()
        .apply(Update::Input(PadAction::Down, "x".to_string()))
        .apply(Update::Telemetry(record));
    assert_eq!(a.nav, b.nav);
    assert_eq!(a.nav.focused, Pane::IasChart);
    assert_eq!(a.last.alt_msl, b.last.alt_msl);
    assert_eq!(a.alt_hist.latest(), b.alt_hist.latest());
    assert_eq!(a.alt_hist.latest(), Some(&12.5f64.to_bits()));
    assert_eq!(a.input_log.latest(), b.input_log.latest());
}

#[test]
fn publish_applies_the_update_to_the_current_snapshot() {
    let mut hub = StateHub::new();
    hub.publish(|mut s: Snapshot| {
        s.nav = s.nav.apply(PadAction::Down);
        s
    });
    hub.publish(|mut s: Snapshot| {
        s.nav = s.nav.apply(PadAction::Down);
        s
    });
    assert_eq!(hub.current().nav.focused, Pane::AltChart);
    assert_eq!(hub.version(), 2);
}

#[test]
fn startup_snapshot_is_empty() {
    let hub = StateHub::new();
    let s = hub.current();
    assert!(s.last.name.is_none() && s.last.ias_ms.is_none() && s.last.engine.is_none());
    assert_eq!(s.ias_hist.len(), 0);
    assert_eq!(s.ias_hist.capacity(), 300);
    assert_eq!(s.alt_hist.capacity(), 300);
    assert_eq!(s.input_log.capacity(), 200);
    assert_eq!(s.nav.focused, Pane::Flight);
    assert_eq!(s.nav.fullscreen, None);
}

#[test]
fn invalid_utf8_is_an_empty_message() {
    assert!(split_records(&[b'{', 0xff, b'}']).is_empty());
    assert!(split_records(&[0xc3]).is_empty());
    assert!(split_records(b"").is_empty());
    assert_eq!(split_records("{\"name\": \"\u{e9}\"}".as_bytes()), vec!["{\"name\": \"\u{e9}\"}"]);
}

#[test]
fn lines_are_trimmed_and_empty_ones_dropped() {
    assert_eq!(text_records("a\nb"), vec!["a", "b"]);
    assert_eq!(text_records("  a \r\n\n\t\n b c \n"), vec!["a", "b c"]);
    assert_eq!(text_records("\n\n\n"), Vec::<String>::new());
    assert_eq!(text_records("\u{a0}x\u{2003}y\u{3000}\u{85}"), vec!["x\u{2003}y"]);
    assert_eq!(text_records("one"), vec!["one"]);
}

#[test]
fn framing_agrees_with_std_split_and_trim() {
    let texts = ["", " ", "a", "a\n", "\na", " a \n b ", "\u{1680}q\u{2028}\nz\u{feff}", "x\u{b}\n\u{c}y"];
    for text in texts {
        let expected: Vec<String> = text
            .split('\n')
            .map(|l| l.trim())
            .filter(|l| !l.is_empty())
            .map(|l| l.to_string())
            .collect();
        assert_eq!(text_records(text), expected);
    }
}

#[test]
fn whitespace_agrees_with_std() {
    for u in 0u32..0x3100 {
        if let Some(c) = char::from_u32(u) {
            assert_eq!(is_whitespace(c), c.is_whitespace());
        }
    }
    assert_eq!(trimmed(&" \t ab c \n".chars().collect()), "ab c");
    assert_eq!(trimmed(&"   ".chars().collect()), "");
}
