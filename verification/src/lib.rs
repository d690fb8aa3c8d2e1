//! Line-oriented analysis of `ping` output and the bookkeeping of a
//! multi-target probe run.

pub mod classify;
pub mod config;
pub mod decimal;
pub mod orchestrator;
pub mod pattern;
pub mod progress;
pub mod report;
pub mod runner;
