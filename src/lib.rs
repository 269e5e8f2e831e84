//! A daemon library that watches a video channel and starts one recorder per live broadcast.
//!
//! The library holds the decisions: which requests a tick issues, what the
//! responses say about live status, whether a recorder already runs, and when
//! to launch one. The program around it performs the requests, scans the
//! process table, spawns the recorder and drives the schedule.

pub mod detect;
pub mod inspect;
pub mod model;
pub mod supervise;
pub mod tick;
pub mod urls;
