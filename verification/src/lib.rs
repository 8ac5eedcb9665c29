//! Battery capacity monitoring: classification of capacity readings into
//! severity bands, per-device bookkeeping of which handlers have run, and the
//! decisions of the polling daemon.

pub mod band;
pub mod battery;
pub mod config;
pub mod daemon;
pub mod decimal;
pub mod tracker;
