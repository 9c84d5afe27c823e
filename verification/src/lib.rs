//! Verified core of a small compile farm: a distributor hands build tasks to
//! registered workers, tracks each task's lifecycle, and keeps a register of
//! which workers are alive and ready for work.

pub mod model;
pub mod service;
pub mod stress_test;
