//! Control logic of a humidity-regulating mister: mode and status state
//! machine, auto-schedule stepper, sensor acquisition policy, configuration
//! store and the layout of its persisted record.

pub mod api;
pub mod chip_control;
pub mod config;
pub mod controls;
pub mod display;
pub mod error;
pub mod event;
pub mod led;
pub mod mister;
pub mod mode;
pub mod schedule;
pub mod sensor;
pub mod storage;
pub mod store;
pub mod time;
