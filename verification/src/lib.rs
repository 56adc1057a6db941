//! Typed, time-ordered skill-progression data for a player, with the state
//! machine that loads it and the series, bounds and labels a chart needs.

pub mod account;
pub mod app;
pub mod dataset;
pub mod error;
pub mod input;
pub mod labels;
pub mod selection;
pub mod series;
pub mod skills;
pub mod timestamp;
