//! Decision logic of a synthetic processor loader.
//!
//! `config` validates the run's parameters, `duty_cycle` decides what one
//! load worker does next, and `coordinator` decides how a run starts its
//! workers, waits, and tears them down. The threads, channels and clocks
//! that carry these decisions out live in the program around the library.
pub mod config;
pub mod coordinator;
pub mod duty_cycle;
