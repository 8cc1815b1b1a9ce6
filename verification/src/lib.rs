//! Bridge between wireless-sensor readings, delivered as syslog lines that
//! carry a JSON payload, and a round-robin time-series store.
//!
//! The crate holds the decisions: how a line is framed, which readings are
//! kept, how a sensor's label and store path are derived, which commands
//! the time-series tool is run with, and when graphs are due.  Receiving
//! datagrams, decoding JSON numbers and running the tool are left to the
//! caller, which hands their results in as plain values.

pub mod frame;
pub mod json;
pub mod rrdtool;
pub mod runs;
pub mod sample;
pub mod schedule;
pub mod server;
pub mod text;
