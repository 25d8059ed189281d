//! Consensus rules.

pub mod params;
