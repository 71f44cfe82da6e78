//! Monte Carlo simulation of a single-product inventory with bounded storage.
//!
//! Quantities are whole units of product and money is counted in minor
//! currency units (hundredths), so that every step of the simulation is exact
//! integer arithmetic. Means are kept as exact fractions.
pub mod params;
pub mod engine;
pub mod summary;
pub mod laws;

