//! Simulator of the limited 5★ character banner of Wuthering Waves.
//!
//! - [`gacha`]: probability model, pity state machine and coral payouts.
//! - [`rng`]: reproducible random source.
//! - [`stats`]: aggregated statistics of a run.
//! - [`theory`]: reference values and the state indexing of the exact expectation table.
//! - [`layout`]: display-width aware text layout and numerals.
//! - [`report`]: the text of the report.

pub mod gacha;
pub mod layout;
pub mod report;
pub mod rng;
pub mod stats;
pub mod theory;
