//! Weight stability and event classification for load-cell scales.
//!
//! Readings are integers in thousandths of a weight unit. A [`filter::StabilityFilter`]
//! keeps the last readings of one scale and decides whether they have settled, the
//! [`classifier`] turns successive settled values into served and refilled events, a
//! [`scale::Scale`] supervises one channel through faults and restarts, and a
//! [`monitor::Monitor`] assembles the events of a whole fleet tick by tick.
pub mod device;
pub mod error;
pub mod clock;
pub mod filter;
pub mod data;
pub mod classifier;
pub mod scale;
pub mod monitor;
