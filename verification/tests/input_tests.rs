use dcs_dash::hub::StateHub;
use dcs_dash::input::{
    fmt_ts, format_log_line, pause_after, DeviceEvent, EventKind, InputIngestor, ReadOutcome,
    Timestamp,
};
use dcs_dash::input_map::Side;
use dcs_dash::navigation::PadAction;
use dcs_dash::pane::Pane;
use dcs_dash::text::{decimal_len, push_decimal, push_padded_decimal, push_signed_decimal};

fn key_down(code: u16, secs: u64, micros: u32) -> DeviceEvent {
    DeviceEvent { kind: EventKind::Key, code, value: 1, timestamp: Some(Timestamp { secs, micros }) }
}

fn axis(code: u16, value: i32) -> DeviceEvent {
    DeviceEvent { kind: EventKind::Absolute, code, value, timestamp: None }
}

#[test]
fn decimal_text_matches_std_formatting() {
    for n in [0u64, 7, 10, 99, 100, 12345, 1_000_000, u64::MAX] {
        let mut s = String::new();
        push_decimal(&mut s, n);
        assert_eq!(s, format!("{}", n));
        assert_eq!(decimal_len(n), s.len());
    }
    for i in [0i64, -1, 5, -40, i32::MIN as i64, i32::MAX as i64, i64::MIN, i64::MAX] {
        let mut s = String::from("x");
        push_signed_decimal(&mut s, i);
        assert_eq!(s, format!("x{}", i));
    }
}

#[test]
fn padded_decimal_matches_std_formatting() {
    for n in [0u64, 5, 42, 999, 1000, 123456, 1234567] {
        let mut s = String::new();
        push_padded_decimal(&mut s, n, 3, ' ');
        assert_eq!(s, format!("{:>3}", n));
        let mut z = String::new();
        push_padded_decimal(&mut z, n, 6, '0');
        assert_eq!(z, format!("{:06}", n));
    }
}

#[test]
fn timestamp_shows_seconds_modulo_thousand() {
    assert_eq!(fmt_ts(Some(Timestamp { secs: 1_700_000_567, micros: 42 })), (567, 42));
    assert_eq!(fmt_ts(Some(Timestamp { secs: 999, micros: 999_999 })), (999, 999_999));
    assert_eq!(fmt_ts(Some(Timestamp { secs: 1000, micros: 0 })), (0, 0));
    assert_eq!(fmt_ts(None), (0, 0));
    let late = fmt_ts(Some(Timestamp { secs: 5, micros: 999_999 }));
    assert!(late.1 < 1_000_000);
    let line = format_log_line(late, "BTN_0", 256, 0, PadAction::Left, Side::Left);
    assert!(line.starts_with("[  5.999999] "));
}

#[test]
fn log_line_has_the_documented_shape() {
    let line = format_log_line((7, 42), "BTN_2", 258, -3, PadAction::Select, Side::Left);
    assert_eq!(line, "[  7.000042] BTN_2 (code=258, ABS_MISC=-3) -> Select (Left side)");
    let line = format_log_line((567, 123456), "KEY_A", 30, 0, PadAction::Unknown, Side::Right);
    assert_eq!(line, "[567.123456] KEY_A (code=30, ABS_MISC=0) -> Unknown (Right side)");
}

#[test]
fn key_down_gives_a_press_with_the_key_name() {
    let mut ingestor = InputIngestor::new();
    let press = ingestor.on_event(&key_down(258, 1_700_000_012, 5), 0).unwrap();
    assert_eq!(press.action, PadAction::Select);
    assert_eq!(press.line, "[ 12.000005] BTN_2 (code=258, ABS_MISC=0) -> Select (Left side)");
    let press = ingestor.on_event(&key_down(265, 3, 0), 0).unwrap();
    assert_eq!(press.action, PadAction::Up);
    assert_eq!(press.line, "[  3.000000] BTN_9 (code=265, ABS_MISC=0) -> Up (Right side)");
}

#[test]
fn key_name_comes_from_the_key_table() {
    let mut ingestor = InputIngestor::new();
    let press = ingestor.on_event(&key_down(30, 0, 0), 0).unwrap();
    assert_eq!(press.action, PadAction::Unknown);
    assert_eq!(press.line, "[  0.000000] KEY_A (code=30, ABS_MISC=0) -> Unknown (Left side)");
    let expected = format!("{:?}", evdev::KeyCode::new(256));
    let press = ingestor.on_event(&key_down(256, 0, 0), 0).unwrap();
    assert!(press.line.contains(&expected));
    assert_eq!(expected, "BTN_0");
}

#[test]
fn key_up_and_other_events_are_ignored() {
    let mut ingestor = InputIngestor::new();
    let before = ingestor;
    let up = DeviceEvent { kind: EventKind::Key, code: 258, value: 0, timestamp: None };
    assert!(ingestor.on_event(&up, 5).is_none());
    let repeat = DeviceEvent { kind: EventKind::Key, code: 258, value: 2, timestamp: None };
    assert!(ingestor.on_event(&repeat, 5).is_none());
    let other = DeviceEvent { kind: EventKind::Other, code: 258, value: 1, timestamp: None };
    assert!(ingestor.on_event(&other, 5).is_none());
    assert_eq!(ingestor, before);
}

#[test]
fn axis_reading_updates_only_the_hint() {
    let mut ingestor = InputIngestor::new();
    assert_eq!(ingestor.last_side_hint, Side::Left);
    assert_eq!(ingestor.fresh_hint(0), None);
    assert!(ingestor.on_event(&axis(40, 15), 1000).is_none());
    assert_eq!(ingestor.last_side_hint, Side::Right);
    assert_eq!(ingestor.last_abs_misc, 15);
    assert_eq!(ingestor.last_abs_at, Some(1000));
    assert_eq!(ingestor.fresh_hint(1250), Some(Side::Right));
    assert_eq!(ingestor.fresh_hint(1251), None);
    assert!(ingestor.on_event(&axis(0, 99), 2000).is_none());
    assert_eq!(ingestor.last_abs_misc, 15);
    assert_eq!(ingestor.last_abs_at, Some(1000));
    assert!(ingestor.on_event(&axis(40, 0), 3000).is_none());
    assert_eq!(ingestor.last_side_hint, Side::Left);
    assert_eq!(ingestor.last_abs_misc, 0);
}

#[test]
fn hint_names_the_side_only_where_the_code_names_none() {
    let mut ingestor = InputIngestor::new();
    ingestor.on_event(&axis(40, 7), 100);
    assert_eq!(ingestor.side_for_log(258, 100), Side::Left);
    assert_eq!(ingestor.side_for_log(262, 100), Side::Right);
    assert_eq!(ingestor.side_for_log(262, 100_000), Side::Right);
    assert_eq!(ingestor.side_for_log(30, 100), Side::Right);
    let press = ingestor.on_event(&key_down(30, 1, 2), 200).unwrap();
    assert_eq!(press.action, PadAction::Unknown);
    assert_eq!(press.line, "[  1.000002] KEY_A (code=30, ABS_MISC=7) -> Unknown (Right side)");
}

#[test]
fn expired_hint_is_ignored() {
    let mut ingestor = InputIngestor::new();
    assert_eq!(ingestor.side_for_log(300, 0), Side::Left);
    ingestor.on_event(&axis(40, 7), 1000);
    assert_eq!(ingestor.side_for_log(300, 1000), Side::Right);
    assert_eq!(ingestor.side_for_log(300, 1250), Side::Right);
    assert_eq!(ingestor.side_for_log(300, 1251), Side::Left);
    assert_eq!(ingestor.side_for_log(300, 100_000), Side::Left);
    assert_eq!(ingestor.last_side_hint, Side::Right);
    let press = ingestor.on_event(&key_down(30, 1, 2), 100_000).unwrap();
    assert_eq!(press.line, "[  1.000002] KEY_A (code=30, ABS_MISC=7) -> Unknown (Left side)");
    assert_eq!(ingestor.last_side_hint, Side::Right);
    ingestor.on_event(&axis(40, 9), 200_000);
    let press = ingestor.on_event(&key_down(30, 1, 3), 200_100).unwrap();
    assert_eq!(press.line, "[  1.000003] KEY_A (code=30, ABS_MISC=9) -> Unknown (Right side)");
}

#[test]
fn producers_with_different_expired_hints_log_the_same_side() {
    let mut a = InputIngestor::new();
    let mut b = InputIngestor::new();
    a.on_event(&axis(40, 5), 0);
    b.on_event(&axis(40, 0), 0);
    assert_ne!(a.last_side_hint, b.last_side_hint);
    for code in [0u16, 30, 255, 256, 262, 265, 266, 300] {
        assert_eq!(a.side_for_log(code, 251), b.side_for_log(code, 251));
        let x = a.on_event(&key_down(code, 4, 5), 10_000).unwrap();
        let y = b.on_event(&key_down(code, 4, 5), 10_000).unwrap();
        assert_eq!(x.line.ends_with("(Left side)"), y.line.ends_with("(Left side)"));
    }
    let mut hub_a = StateHub::new();
    let mut hub_b = StateHub::new();
    a.handle(&mut hub_a, &key_down(300, 1, 1), 50_000);
    b.handle(&mut hub_b, &key_down(300, 1, 1), 50_000);
    let line_a = hub_a.current().input_log.latest().unwrap();
    let line_b = hub_b.current().input_log.latest().unwrap();
    assert!(line_a.ends_with("(Left side)"));
    assert!(line_b.ends_with("(Left side)"));
}

#[test]
fn clock_that_ran_backwards_keeps_the_hint_recent() {
    let mut ingestor = InputIngestor::new();
    ingestor.on_event(&axis(40, 7), 5000);
    assert_eq!(ingestor.fresh_hint(10), Some(Side::Right));
    assert_eq!(ingestor.side_for_log(300, 10), Side::Right);
}

#[test]
fn hint_never_changes_the_action() {
    for code in 250u16..270 {
        let mut left = InputIngestor::new();
        let mut right = InputIngestor::new();
        right.on_event(&axis(40, 9), 10);
        let a = left.on_event(&key_down(code, 0, 0), 20).unwrap();
        let b = right.on_event(&key_down(code, 0, 0), 20).unwrap();
        assert_eq!(a.action, b.action);
    }
}

#[test]
fn handle_publishes_one_update_for_each_press() {
    let mut hub = StateHub::new();
    let mut ingestor = InputIngestor::new();
    assert!(!ingestor.handle(&mut hub, &axis(40, 3), 0));
    assert_eq!(hub.version(), 0);
    assert!(ingestor.handle(&mut hub, &key_down(257, 2, 3), 1));
    assert_eq!(hub.version(), 1);
    assert_eq!(hub.current().nav.focused, Pane::Att);
    assert_eq!(hub.current().input_log.len(), 1);
    assert_eq!(
        hub.current().input_log.latest().unwrap(),
        "[  2.000003] BTN_1 (code=257, ABS_MISC=3) -> Right (Left side)"
    );
    assert!(ingestor.handle(&mut hub, &key_down(262, 2, 4), 2));
    assert_eq!(hub.current().nav.fullscreen, Some(Pane::Att));
    assert_eq!(hub.current().input_log.len(), 2);
    assert!(ingestor.handle(&mut hub, &key_down(999, 2, 5), 3));
    assert_eq!(hub.version(), 3);
    assert_eq!(hub.current().nav.focused, Pane::Att);
    assert_eq!(hub.current().nav.fullscreen, Some(Pane::Att));
    assert_eq!(hub.current().input_log.len(), 3);
}

#[test]
fn input_log_keeps_two_hundred_lines() {
    let mut hub = StateHub::new();
    let mut ingestor = InputIngestor::new();
    for i in 0..230u32 {
        ingestor.handle(&mut hub, &key_down(257, 0, i), 0);
    }
    assert_eq!(hub.current().input_log.len(), 200);
    assert!(hub.current().input_log.get(0).unwrap().starts_with("[  0.000030]"));
}

#[test]
fn pauses_follow_the_outcome_of_a_read() {
    assert_eq!(pause_after(ReadOutcome::Events), 0);
    assert_eq!(pause_after(ReadOutcome::Idle), 10);
    assert_eq!(pause_after(ReadOutcome::Failed), 300);
}
