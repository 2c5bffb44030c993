//! Core of a fullscreen alarm-clock application: configuration validation,
//! minute-boundary alarm scheduling, and the playback lifecycle policy.
//!
//! The surrounding program (window layout, audio output, file watching) feeds
//! this library plain values and acts on its decisions; everything that
//! decides when an alarm fires or stops lives here, with contracts.

pub mod config;
pub mod display;
pub mod scheduler;
pub mod weekday;
