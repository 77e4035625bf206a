//! The input producer: from raw pad events to navigation steps and log
//! lines.
//!
//! Only a key going down acts. An auxiliary-axis reading only updates the
//! hint that names a side in the log where the button code names none. The
//! hint counts for `SIDE_TIMEOUT_MS` after its reading and is ignored from
//! then on, and it never takes part in choosing the action.

use vstd::prelude::*;
use vstd::string::*;
use crate::hub::StateHub;
use crate::input_map::{
    map_btn_code, side_from_abs, side_from_code, spec_map_btn_code, spec_side_from_abs,
    spec_side_from_code, Side,
};
use crate::navigation::PadAction;
use crate::text::{decimal, pad_left, push_decimal, push_padded_decimal, push_signed_decimal,
    signed_decimal};

verus! {

/// How long an auxiliary-axis reading counts as recent, in milliseconds.
pub const SIDE_TIMEOUT_MS: u64 = 250;

/// The value that a key event carries when the key goes down.
pub const KEY_DOWN: i32 = 1;

/// How long to wait before the next read when a read brought no event, in
/// milliseconds.
pub const IDLE_PAUSE_MS: u64 = 10;

/// How long to wait before the next read when a read failed, in
/// milliseconds.
pub const READ_ERROR_PAUSE_MS: u64 = 300;

/// How a read of the device ended.
#[derive(Debug, Clone, Copy, PartialEq, Eq, Structural)]
pub enum ReadOutcome {
    /// It brought at least one event.
    Events,
    /// It brought none.
    Idle,
    /// It failed.
    Failed,
}

/// The pause before the next read: none after events, a short one after an
/// idle read, a longer one after a failure. A failure never ends the
/// reading.
pub open spec fn spec_pause_after(outcome: ReadOutcome) -> u64 {
    match outcome {
        ReadOutcome::Events => 0,
        ReadOutcome::Idle => IDLE_PAUSE_MS,
        ReadOutcome::Failed => READ_ERROR_PAUSE_MS,
    }
}

pub fn pause_after(outcome: ReadOutcome) -> (ms: u64)
    ensures
        ms == spec_pause_after(outcome),
{
    match outcome {
        ReadOutcome::Events => 0,
        ReadOutcome::Idle => IDLE_PAUSE_MS,
        ReadOutcome::Failed => READ_ERROR_PAUSE_MS,
    }
}

/// The category of a raw event.
#[derive(Debug, Clone, Copy, PartialEq, Eq, Structural)]
pub enum EventKind {
    Key,
    Absolute,
    Other,
}

/// Wall-clock time since the Unix epoch: whole seconds and the
/// microseconds of the second that has begun.
#[derive(Debug, Clone, Copy, PartialEq, Eq, Structural)]
pub struct Timestamp {
    pub secs: u64,
    pub micros: u32,
}

impl Timestamp {
    /// The microseconds stay below one second.
    pub open spec fn wf(&self) -> bool {
        self.micros < 1_000_000
    }
}

/// A timestamp of an event is well formed where there is one.
pub open spec fn stamp_wf(ts: Option<Timestamp>) -> bool {
    match ts {
        Some(t) => t.wf(),
        None => true,
    }
}

/// The side that a log line names where neither the code nor a recent
/// reading names one.
pub const DEFAULT_SIDE: Side = Side::Left;

/// One raw event of the pad.
#[derive(Debug, Clone, Copy, PartialEq, Eq, Structural)]
pub struct DeviceEvent {
    pub kind: EventKind,
    pub code: u16,
    pub value: i32,
    /// When the kernel saw the event; `None` for a time before the epoch.
    pub timestamp: Option<Timestamp>,
}

/// What a key going down leads to: the action and the line for the log.
#[derive(Debug, Clone)]
pub struct Press {
    pub action: PadAction,
    pub line: String,
}

/// The name under which evdev prints the key with code `code`.
pub uninterp spec fn key_code_name(code: u16) -> Seq<char>;

/// The `Debug` text of `evdev::KeyCode::new(code)`: the name of the first
/// constant of `KeyCode` with that code, or a text that holds the number
/// where there is none. It depends on `code` alone.
#[verifier::external_body]
fn key_name(code: u16) -> (name: String)
    ensures
        name@ == key_code_name(code),
{
    format!("{:?}", evdev::KeyCode::new(code))
}

/// The two numbers that a log line shows of a timestamp: the seconds modulo
/// 1000 and the microseconds; both zero for a time before the epoch.
pub open spec fn spec_fmt_ts(ts: Option<Timestamp>) -> (u64, u32) {
    match ts {
        Some(t) => ((t.secs % 1000) as u64, t.micros),
        None => (0u64, 0u32),
    }
}

pub fn fmt_ts(ts: Option<Timestamp>) -> (shown: (u64, u32))
    ensures
        shown == spec_fmt_ts(ts),
        shown.0 < 1000,
        stamp_wf(ts) ==> shown.1 < 1_000_000,
{
    match ts {
        Some(t) => (t.secs % 1000, t.micros),
        None => (0, 0),
    }
}

/// The word for an action in a log line.
pub open spec fn action_name(action: PadAction) -> Seq<char> {
    match action {
        PadAction::Up => "Up"@,
        PadAction::Down => "Down"@,
        PadAction::Left => "Left"@,
        PadAction::Right => "Right"@,
        PadAction::Select => "Select"@,
        PadAction::Unknown => "Unknown"@,
    }
}

/// The word for a side in a log line.
pub open spec fn side_name(side: Side) -> Seq<char> {
    match side {
        Side::Left => "Left"@,
        Side::Right => "Right"@,
    }
}

/// The log line of one press:
/// `[sss.uuuuuu] NAME (code=C, ABS_MISC=M) -> Action (Side side)`, with the
/// seconds filled up with spaces to three characters and the microseconds
/// with zeros to six.
pub open spec fn spec_log_line(
    shown: (u64, u32),
    key_name: Seq<char>,
    code: u16,
    abs_misc: i32,
    action: PadAction,
    side: Side,
) -> Seq<char> {
    seq!['['] + pad_left(decimal(shown.0 as nat), 3, ' ') + seq!['.'] + pad_left(
        decimal(shown.1 as nat),
        6,
        '0',
    ) + "] "@ + key_name + " (code="@ + decimal(code as nat) + ", ABS_MISC="@ + signed_decimal(
        abs_misc as int,
    ) + ") -> "@ + action_name(action) + " ("@ + side_name(side) + " side)"@
}

fn action_label(action: PadAction) -> (label: &'static str)
    ensures
        label@ == action_name(action),
{
    match action {
        PadAction::Up => "Up",
        PadAction::Down => "Down",
        PadAction::Left => "Left",
        PadAction::Right => "Right",
        PadAction::Select => "Select",
        PadAction::Unknown => "Unknown",
    }
}

fn side_label(side: Side) -> (label: &'static str)
    ensures
        label@ == side_name(side),
{
    match side {
        Side::Left => "Left",
        Side::Right => "Right",
    }
}

/// Writes the log line of one press.
pub fn format_log_line(
    shown: (u64, u32),
    key_name: &str,
    code: u16,
    abs_misc: i32,
    action: PadAction,
    side: Side,
) -> (line: String)
    ensures
        line@ == spec_log_line(shown, key_name@, code, abs_misc, action, side),
{
    let mut line = String::new();
    line.push('[');
    push_padded_decimal(&mut line, shown.0, 3, ' ');
    line.push('.');
    push_padded_decimal(&mut line, shown.1 as u64, 6, '0');
    line.append("] ");
    line.append(key_name);
    line.append(" (code=");
    push_decimal(&mut line, code as u64);
    line.append(", ABS_MISC=");
    push_signed_decimal(&mut line, abs_misc as i64);
    line.append(") -> ");
    line.append(action_label(action));
    line.append(" (");
    line.append(side_label(side));
    line.append(" side)");
    assert(line@ =~= spec_log_line(shown, key_name@, code, abs_misc, action, side));
    line
}

/// What the input producer remembers between events.
#[derive(Debug, Clone, Copy, PartialEq, Eq, Structural)]
pub struct InputIngestor {
    /// The side that the last reading of the `ABS_MISC` axis pointed to.
    pub last_side_hint: Side,
    /// The last value of the `ABS_MISC` axis.
    pub last_abs_misc: i32,
    /// When the hint was last renewed, on the caller's millisecond clock;
    /// `None` before the first reading.
    pub last_abs_at: Option<u64>,
}

impl InputIngestor {
    /// The hint, as long as its reading is no older than `SIDE_TIMEOUT_MS`.
    /// A clock that ran backwards counts as no time passed.
    pub open spec fn spec_fresh_hint(&self, now_ms: u64) -> Option<Side> {
        match self.last_abs_at {
            Some(at) => if now_ms <= at || now_ms - at <= SIDE_TIMEOUT_MS {
                Some(self.last_side_hint)
            } else {
                None
            },
            None => None,
        }
    }

    /// The side that a log line written at `now_ms` names for `code`: the
    /// side of the button where the code has one; else the hint, as long
    /// as it is recent; else `DEFAULT_SIDE`. An expired hint has no say.
    pub open spec fn spec_side_for_log(&self, code: u16, now_ms: u64) -> Side {
        match spec_side_from_code(code) {
            Some(side) => side,
            None => match self.spec_fresh_hint(now_ms) {
                Some(side) => side,
                None => DEFAULT_SIDE,
            },
        }
    }

    /// The memory after an auxiliary-axis event: a reading of `ABS_MISC`
    /// renews the hint and its time and is kept; any other axis changes
    /// nothing.
    pub open spec fn after_axis(self, code: u16, value: i32, now_ms: u64) -> InputIngestor {
        match spec_side_from_abs(code, value) {
            Some(side) => InputIngestor {
                last_side_hint: side,
                last_abs_misc: value,
                last_abs_at: Some(now_ms),
            },
            None => self,
        }
    }

    /// An event that acts: a key going down.
    pub open spec fn is_press(ev: DeviceEvent) -> bool {
        ev.kind is Key && ev.value == KEY_DOWN
    }

    /// The memory after `ev`.
    pub open spec fn after_event(self, ev: DeviceEvent, now_ms: u64) -> InputIngestor {
        if ev.kind is Absolute {
            self.after_axis(ev.code, ev.value, now_ms)
        } else {
            self
        }
    }

    /// The log line for the press `ev` taken at `now_ms`, given the name of
    /// its key.
    pub open spec fn press_line(&self, ev: DeviceEvent, key_name: Seq<char>, now_ms: u64) -> Seq<
        char,
    > {
        spec_log_line(
            spec_fmt_ts(ev.timestamp),
            key_name,
            ev.code,
            self.last_abs_misc,
            spec_map_btn_code(ev.code),
            self.spec_side_for_log(ev.code, now_ms),
        )
    }

    /// No reading yet: the hint is Left and counts as expired.
    pub fn new() -> (ingestor: InputIngestor)
        ensures
            ingestor.last_side_hint == Side::Left,
            ingestor.last_abs_misc == 0,
            ingestor.last_abs_at is None,
    {
        InputIngestor { last_side_hint: Side::Left, last_abs_misc: 0, last_abs_at: None }
    }

    pub fn fresh_hint(&self, now_ms: u64) -> (hint: Option<Side>)
        ensures
            hint == self.spec_fresh_hint(now_ms),
    {
        match self.last_abs_at {
            Some(at) => if now_ms <= at || now_ms - at <= SIDE_TIMEOUT_MS {
                Some(self.last_side_hint)
            } else {
                None
            },
            None => None,
        }
    }

    /// The side to name in a log line written at `now_ms` for `code`.
    pub fn side_for_log(&self, code: u16, now_ms: u64) -> (side: Side)
        ensures
            side == self.spec_side_for_log(code, now_ms),
    {
        match side_from_code(code) {
            Some(side) => side,
            None => match self.fresh_hint(now_ms) {
                Some(side) => side,
                None => DEFAULT_SIDE,
            },
        }
    }

    /// Takes note of an auxiliary-axis event.
    pub fn observe_axis(&mut self, code: u16, value: i32, now_ms: u64)
        ensures
            *final(self) == old(self).after_axis(code, value, now_ms),
    {
        if let Some(side) = side_from_abs(code, value) {
            self.last_side_hint = side;
            self.last_abs_at = Some(now_ms);
        }
        if code == crate::input_map::ABS_MISC {
            self.last_abs_misc = value;
        }
    }

    /// The press that `ev` makes, given the name of its key: its action and
    /// its log line.
    pub fn press(&self, ev: &DeviceEvent, key_name: &str, now_ms: u64) -> (press: Press)
        ensures
            press.action == spec_map_btn_code(ev.code),
            press.line@ == self.press_line(*ev, key_name@, now_ms),
    {
        let action = map_btn_code(ev.code);
        let side = self.side_for_log(ev.code, now_ms);
        let line = format_log_line(
            fmt_ts(ev.timestamp),
            key_name,
            ev.code,
            self.last_abs_misc,
            action,
            side,
        );
        Press { action, line }
    }

    /// Takes one raw event at the time `now_ms`. A key going down gives a
    /// press; an auxiliary-axis event updates the hint and gives nothing;
    /// every other event is ignored.
    pub fn on_event(&mut self, ev: &DeviceEvent, now_ms: u64) -> (press: Option<Press>)
        ensures
            *final(self) == old(self).after_event(*ev, now_ms),
            press is Some <==> Self::is_press(*ev),
            press matches Some(p) ==> {
                &&& p.action == spec_map_btn_code(ev.code)
                &&& p.line@ == old(self).press_line(*ev, key_code_name(ev.code), now_ms)
            },
    {
        match ev.kind {
            EventKind::Absolute => {
                self.observe_axis(ev.code, ev.value, now_ms);
                None
            },
            EventKind::Key => {
                if ev.value == KEY_DOWN {
                    let name = key_name(ev.code);
                    Some(self.press(ev, name.as_str(), now_ms))
                } else {
                    None
                }
            },
            EventKind::Other => None,
        }
    }

    /// Takes one raw event and, where it is a press, publishes its
    /// navigation step and its log line as one update. Returns whether it
    /// published.
    pub fn handle(&mut self, hub: &mut StateHub, ev: &DeviceEvent, now_ms: u64) -> (published: bool)
        ensures
            *final(self) == old(self).after_event(*ev, now_ms),
            published == Self::is_press(*ev),
            !published ==> *final(hub) == *old(hub),
            published ==> {
                &&& exists|line: String|
                    {
                        &&& line@ == old(self).press_line(
                            *ev,
                            key_code_name(ev.code),
                            now_ms,
                        )
                        &&& old(hub).spec_current().input_applied(
                            spec_map_btn_code(ev.code),
                            line,
                            &final(hub).spec_current(),
                        )
                    }
                &&& final(hub).spec_version() == StateHub::next_version(old(hub).spec_version())
            },
            old(hub).spec_current().wf() ==> final(hub).spec_current().wf(),
    {
        match self.on_event(ev, now_ms) {
            Some(press) => {
                let ghost line = press.line;
                hub.publish_input(press.action, press.line);
                assert(old(hub).spec_current().input_applied(
                    spec_map_btn_code(ev.code),
                    line,
                    &hub.spec_current(),
                ));
                true
            },
            None => false,
        }
    }
}

/// An expired hint is ignored: two ingestors whose hints are both expired
/// at `now_ms`, or were never set, name the same side for every code,
/// whatever their last readings were.
pub proof fn lemma_expired_hint_is_ignored(
    a: InputIngestor,
    b: InputIngestor,
    code: u16,
    now_ms: u64,
)
    requires
        a.spec_fresh_hint(now_ms) is None,
        b.spec_fresh_hint(now_ms) is None,
    ensures
        a.spec_side_for_log(code, now_ms) == b.spec_side_for_log(code, now_ms),
        spec_side_from_code(code) is None ==> a.spec_side_for_log(code, now_ms) == DEFAULT_SIDE,
{
}

/// A recent hint names the side where the code names none, and the code
/// names it wherever it can, whatever the hint.
pub proof fn lemma_side_label(ingestor: InputIngestor, code: u16, now_ms: u64)
    ensures
        spec_side_from_code(code) matches Some(side) ==> ingestor.spec_side_for_log(code, now_ms)
            == side,
        spec_side_from_code(code) is None && ingestor.spec_fresh_hint(now_ms) is Some
            ==> ingestor.spec_side_for_log(code, now_ms) == ingestor.last_side_hint,
{
}

/// The stamp of a log line has a fixed width: three characters of seconds
/// and, for a well-formed timestamp, six of microseconds.
pub proof fn lemma_stamp_is_fixed_width(ts: Option<Timestamp>)
    requires
        stamp_wf(ts),
    ensures
        pad_left(decimal(spec_fmt_ts(ts).0 as nat), 3, ' ').len() == 3,
        pad_left(decimal(spec_fmt_ts(ts).1 as nat), 6, '0').len() == 6,
{
    reveal_with_fuel(crate::text::pow10, 7);
    crate::text::lemma_decimal_len(spec_fmt_ts(ts).0 as nat, 3);
    crate::text::lemma_decimal_len(spec_fmt_ts(ts).1 as nat, 6);
}

/// An event whose code no button sends changes nothing of the navigation
/// state, whatever the state and whatever the hint.
pub proof fn lemma_unmapped_press_changes_nothing(
    nav: crate::navigation::NavigationState,
    code: u16,
)
    requires
        !crate::input_map::is_button_code(code),
    ensures
        spec_map_btn_code(code) is Unknown,
        nav.spec_apply(spec_map_btn_code(code)) == nav,
{
}

} // verus!
