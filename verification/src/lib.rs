//! Capture-side network traffic analysis: decoding raw Ethernet/IP
//! frames into flow-tagged records, folding the records into a shared
//! per-connection statistics table, rendering that table as a periodic
//! report, and the pause/resume/terminate protocol that steers the
//! long-lived workers doing all of it.
//!
//! The capture source, the worker threads and the report file itself
//! live outside this crate; everything here is logic with verified
//! contracts, plus a narrow trusted boundary around the standard
//! channel primitives and the calendar rendering of capture times.

pub mod aggregator;
pub mod channel;
pub mod control;
pub mod decode;
pub mod handle;
pub mod parsed_packet;
pub mod report_entry;
pub mod report_writer;
pub mod table;
pub mod text;
pub mod timefmt;
pub mod worker;
