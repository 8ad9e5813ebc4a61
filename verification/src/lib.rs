//! Sweeping a radio band for signals: the rules of the sweep, without the
//! radio.
//!
//! A driver owns the receiver and the clock. It asks a sweep what is due,
//! does it, and reports back; the sweep decides. `analyzer` turns raw samples
//! into power estimates and a verdict, `band` walks the frequencies,
//! `capture` steps through one capture window, `instant` and `scheduled` are
//! the two kinds of sweep, `aggregator` collects what they detect, and
//! `text` writes numbers and capture windows the way the result document
//! wants them.

pub mod aggregator;
pub mod analyzer;
pub mod band;
pub mod capture;
pub mod config;
pub mod error;
pub mod instant;
pub mod scheduled;
pub mod text;
