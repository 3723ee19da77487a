//! Verified core of a bulk SMTP submission engine.
//!
//! The library holds the engine's logic: configuration interpretation,
//! statistics accounting, address anonymisation, message assembly, and the
//! decision machines that drive SMTP batches, sessions and rounds. All I/O
//! (sockets, filesystem, clocks) is performed by the surrounding application,
//! which feeds events into the machines defined here.

pub mod anonymizer;
pub mod attachment;
pub mod config;
pub mod driver;
pub mod language;
pub mod mailer;
pub mod message;
pub mod numparse;
pub mod recipients;
pub mod schedule;
pub mod session;
pub mod stats;
pub mod strutil;
pub mod translate;
