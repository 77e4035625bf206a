//! Core of a live flight-telemetry dashboard.
//!
//! Two producers feed one snapshot: the telemetry producer, which takes
//! records that came over the network, and the input producer, which takes
//! the events of a button pad. A consumer draws the snapshot at a fixed
//! pace. This library holds what they decide and compute; sockets, the
//! device, the terminal and the text form of numbers are the caller's.
//!
//! - `history`: bounded first-in, first-out buffers.
//! - `pane`, `navigation`: the panes and the focus and fullscreen machine.
//! - `input_map`: raw button codes to actions and sides.
//! - `telemetry`, `snapshot`, `update`, `hub`: the record, the snapshot,
//!   the two kinds of update and the store that applies them one at a time.
//! - `frame`, `ingest`: from a datagram to its lines, and from decoded
//!   lines to published updates.
//! - `input`, `text`: from raw events to navigation steps and log lines.
//! - `render`, `readout`: what the consumer shows and where.
//! - `discovery`: telling the pad from other devices by name.

pub mod discovery;
pub mod frame;
pub mod history;
pub mod hub;
pub mod ingest;
pub mod input;
pub mod input_map;
pub mod navigation;
pub mod pane;
pub mod readout;
pub mod render;
pub mod snapshot;
pub mod telemetry;
pub mod text;
pub mod update;
