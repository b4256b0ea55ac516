//! Driver logic for DHT-family (DHT11 / DHT21 / DHT22) one-wire
//! temperature and humidity sensors.
//!
//! The sensor speaks a bit-banged protocol over a single GPIO line: a start
//! pulse, a response handshake, then 40 data bits encoded in pulse widths.
//! This crate captures the pulses as relative cycle counts, decodes them into
//! a 5-byte payload, validates the checksum, and applies a short-lived cache
//! and a retry-with-backoff policy around the physical transaction.
//! Readings are exposed in exact fixed-point units (tenths of a degree or of
//! a percent), together with a NOAA heat-index computation.

mod clock;
pub mod dht;
pub mod gpio;
pub mod heat;
