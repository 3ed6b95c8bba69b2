//! A verified core for a speed-test metrics exporter.
//!
//! The library parses the one-line CSV output of an external measurement
//! program into a structured record, decides how HTTP requests are routed,
//! and keeps three labeled gauge families up to date from successful
//! measurements.  All I/O (spawning the program, serving HTTP) lives outside
//! the library; callers hand in captured bytes and request data as plain
//! values.

pub mod bbk;
pub mod gauges;
pub mod service;
pub mod text;
