//! The test harness: what its scenarios do, and what they make of what they see.
//!
//! Running processes, sockets and requests are left to whoever drives a scenario; the rules by
//! which a scenario is planned and judged are here.

pub mod answers;
pub mod commands;
pub mod crypto;
pub mod egress;
pub mod faults;
pub mod graph;
pub mod judge;
pub mod logs;
pub mod measure;
pub mod mixed;
pub mod outcomes;
pub mod policy;
pub mod ports;
pub mod probe;
pub mod proc;
pub mod ramp;
pub mod recovery;
pub mod reports;
pub mod results;
pub mod scenario;
pub mod setup;
pub mod sink;
pub mod status;
pub mod suite;
pub mod sweep;
pub mod uploads;
pub mod urls;
pub mod verdicts;
pub mod waits;
