//! Counting sensitive tabular records per category, and releasing the counts
//! with calibrated noise.

pub mod aggregator;
pub mod calibration;
pub mod csv_reader;
pub mod dataset;
pub mod decimal;
pub mod error;
pub mod noise;
pub mod noiser;
pub mod state;
pub mod tabular;
