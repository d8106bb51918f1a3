//! Driver logic for a VEML7700 ambient-light sensor and the control loop of
//! the clock built around it.
//!
//! Everything here is free of I/O: the functions turn typed settings into the
//! bytes that go on the bus, turn the bytes that come back into readings, and
//! decide what the surrounding program does next. The program performs the
//! transactions and hands the outcomes back.

pub mod instruction;
pub mod configuration;
pub mod luminosite;
pub mod capteur;
pub mod reglage;
pub mod orchestration;
